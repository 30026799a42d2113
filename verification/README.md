# copr_resource

A concourse resource that pushes source RPMs to copr, with its logic
verified by Verus.

- `src/` is the verified library: which operation the program was started
  as (`dispatch`), the parameters and data of `check`, `in` and `out`
  (`ops`), the staged decisions of `out` (parameter defaults, picking the
  srpm, the size limit, the multipart framing of the upload, the answer of
  copr and the version), the multipart format (`ops::multipart`), and the
  calls into `regex` (`pattern`) and `rust-crypto` (`digest`).
- `app/` is the program around it: reading stdin and the command line,
  JSON, walking directories, reading files and sending the upload with
  hyper.
- `tests/` runs the library on concrete values.
