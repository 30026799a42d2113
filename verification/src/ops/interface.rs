//! The data that concourse hands to the resource and gets back from it.
use vstd::prelude::*;
use vstd::std_specs::cmp::PartialEqSpec;

verus! {

/// The `source` section of the resource configuration: how to reach copr.
#[derive(Debug, Clone, PartialEq, Eq)]
pub struct ResourceSource {
    pub login: String,
    pub token: String,
    pub url: String,
}

/// The `params` section of a `put` step. Absent optional fields take the
/// values of [`ResourceParams::default`].
#[derive(Debug, Clone, PartialEq, Eq)]
pub struct ResourceParams {
    pub rpmbuild_dir: String,
    pub project_id: Option<u32>,
    pub regex: Option<String>,
    pub chroots: Option<Vec<String>>,
    pub enable_net: Option<bool>,
    pub max_n_bytes: Option<u64>,
}

/// The chroot that is built for when none is given.
pub open spec fn default_chroot() -> Seq<char> {
    "fedora-25-x86_64"@
}

/// The regex that picks the srpm when none is given.
pub open spec fn default_regex() -> Seq<char> {
    ".*\\.src\\.rpm"@
}

/// The largest srpm, in bytes, that is pushed when no limit is given.
pub open spec fn default_max_n_bytes() -> u64 {
    1_000_000_000
}

/// Whether a list of chroots is the default one: `fedora-25-x86_64` alone.
pub open spec fn is_default_chroots(v: Seq<String>) -> bool {
    v.len() == 1 && v[0]@ == default_chroot()
}

/// The regex that picks the srpm when none is given.
pub fn default_regex_str() -> (s: &'static str)
    ensures
        s@ == default_regex(),
{
    ".*\\.src\\.rpm"
}

/// The chroots that are built for when none are given.
pub fn default_chroots() -> (v: Vec<String>)
    ensures
        is_default_chroots(v@),
{
    let mut v: Vec<String> = Vec::new();
    v.push("fedora-25-x86_64".to_owned());
    v
}

impl Default for ResourceParams {
    /// The parameters of a `put` step that gives none: the current directory,
    /// no project, the srpm regex `.*\.src\.rpm`, the chroot
    /// `fedora-25-x86_64`, no network and at most 1000000000 bytes.
    fn default() -> (r: Self)
        ensures
            r.rpmbuild_dir@ == "."@,
            r.project_id is None,
            r.regex matches Some(re) && re@ == default_regex(),
            r.chroots matches Some(c) && is_default_chroots(c@),
            r.enable_net == Some(false),
            r.max_n_bytes == Some(default_max_n_bytes()),
    {
        ResourceParams {
            rpmbuild_dir: ".".to_owned(),
            project_id: None,
            regex: Some(default_regex_str().to_owned()),
            chroots: Some(default_chroots()),
            enable_net: Some(false),
            max_n_bytes: Some(1_000_000_000),
        }
    }
}

/// A version of the resource: the digest of the pushed srpm.
#[derive(Debug, Clone, Copy)]
pub struct ResourceVersion {
    pub digest: [u8; 32],
}

impl PartialEq for ResourceVersion {
    /// Two versions are equal when their digests are.
    fn eq(&self, other: &Self) -> (r: bool) {
        let mut i: usize = 0;
        while i < 32
            invariant
                i <= 32,
                forall|j: int| 0 <= j < i ==> self.digest@[j] == other.digest@[j],
            decreases 32 - i,
        {
            if self.digest[i] != other.digest[i] {
                return false;
            }
            i = i + 1;
        }
        assert(self.digest@ =~= other.digest@);
        true
    }

    fn ne(&self, other: &Self) -> (r: bool) {
        !self.eq(other)
    }
}

impl vstd::std_specs::cmp::PartialEqSpecImpl for ResourceVersion {
    open spec fn obeys_eq_spec() -> bool {
        true
    }

    open spec fn eq_spec(&self, other: &ResourceVersion) -> bool {
        self.digest@ == other.digest@
    }
}

/// Equality of versions is an equivalence: every version equals itself,
/// equality goes both ways, and it carries over from one version to the next.
pub proof fn version_eq_is_equivalence(a: ResourceVersion, b: ResourceVersion, c: ResourceVersion)
    ensures
        a.eq_spec(&a),
        a.eq_spec(&b) == b.eq_spec(&a),
        a.eq_spec(&b) && b.eq_spec(&c) ==> a.eq_spec(&c),
{
}

/// Two versions are equal exactly when they are the same value.
pub proof fn version_eq_is_identity(a: ResourceVersion, b: ResourceVersion)
    ensures
        a.eq_spec(&b) <==> a == b,
{
    if a.digest@ == b.digest@ {
        assert(a.digest == b.digest);
    }
}

/// The upper-case hexadecimal digit of a number below sixteen.
pub open spec fn hex_char(n: int) -> char {
    if n == 0 {
        '0'
    } else if n == 1 {
        '1'
    } else if n == 2 {
        '2'
    } else if n == 3 {
        '3'
    } else if n == 4 {
        '4'
    } else if n == 5 {
        '5'
    } else if n == 6 {
        '6'
    } else if n == 7 {
        '7'
    } else if n == 8 {
        '8'
    } else if n == 9 {
        '9'
    } else if n == 10 {
        'A'
    } else if n == 11 {
        'B'
    } else if n == 12 {
        'C'
    } else if n == 13 {
        'D'
    } else if n == 14 {
        'E'
    } else {
        'F'
    }
}

/// A byte in upper-case hexadecimal without leading zeros, as `{:X}` writes
/// it: one digit below sixteen, two digits otherwise.
pub open spec fn byte_hex(b: u8) -> Seq<char> {
    if b < 16 {
        seq![hex_char(b as int)]
    } else {
        seq![hex_char(b as int / 16), hex_char(b as int % 16)]
    }
}

/// The bytes of a digest written one after another by [`byte_hex`].
pub open spec fn digest_hex(d: Seq<u8>) -> Seq<char>
    decreases d.len(),
{
    if d.len() == 0 {
        Seq::empty()
    } else {
        digest_hex(d.drop_last()) + byte_hex(d.last())
    }
}

/// The upper-case hexadecimal digit of a number below sixteen.
fn hex_digit(n: u8) -> (s: &'static str)
    requires
        n < 16,
    ensures
        s@ == seq![hex_char(n as int)],
{
    match n {
        0 => { proof { reveal_strlit("0"); } "0" },
        1 => { proof { reveal_strlit("1"); } "1" },
        2 => { proof { reveal_strlit("2"); } "2" },
        3 => { proof { reveal_strlit("3"); } "3" },
        4 => { proof { reveal_strlit("4"); } "4" },
        5 => { proof { reveal_strlit("5"); } "5" },
        6 => { proof { reveal_strlit("6"); } "6" },
        7 => { proof { reveal_strlit("7"); } "7" },
        8 => { proof { reveal_strlit("8"); } "8" },
        9 => { proof { reveal_strlit("9"); } "9" },
        10 => { proof { reveal_strlit("A"); } "A" },
        11 => { proof { reveal_strlit("B"); } "B" },
        12 => { proof { reveal_strlit("C"); } "C" },
        13 => { proof { reveal_strlit("D"); } "D" },
        14 => { proof { reveal_strlit("E"); } "E" },
        _ => { proof { reveal_strlit("F"); } "F" },
    }
}

impl ResourceVersion {
    /// The digest in upper-case hexadecimal, each byte without leading zeros.
    pub fn to_hex_string(&self) -> (s: String)
        ensures
            s@ == digest_hex(self.digest@),
    {
        let mut s = String::new();
        let mut i: usize = 0;
        while i < 32
            invariant
                i <= 32,
                s@ == digest_hex(self.digest@.subrange(0, i as int)),
            decreases 32 - i,
        {
            let b = self.digest[i];
            let ghost before = self.digest@.subrange(0, i as int);
            assert(self.digest@.subrange(0, i + 1).drop_last() =~= before);
            if b < 16 {
                s.append(hex_digit(b));
            } else {
                s.append(hex_digit(b / 16));
                s.append(hex_digit(b % 16));
            }
            i = i + 1;
        }
        assert(self.digest@.subrange(0, 32) =~= self.digest@);
        s
    }
}

} // verus!
