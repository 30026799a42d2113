//! The operations of the resource and the data they exchange with concourse.
pub mod concourse_check;
pub mod concourse_in;
pub mod concourse_out;
pub mod error;
pub mod interface;
pub mod multipart;
pub mod rcheck;
pub mod rin;
pub mod rout;
