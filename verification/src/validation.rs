use vstd::prelude::*;
use vstd::string::StrSliceExecFns;

verus! {

/// `p` occurs in `s` at some position.
pub open spec fn contains_seq(s: Seq<char>, p: Seq<char>) -> bool {
    exists|i: int| 0 <= i <= s.len() - p.len()
        && (#[trigger] s.subrange(i, i + p.len() as int)) == p
}

/// `s` starts with `p`.
pub open spec fn starts_with(s: Seq<char>, p: Seq<char>) -> bool {
    p.len() <= s.len() && s.subrange(0, p.len() as int) == p
}

/// Whether `p` stands in `s` at position `at`.
fn matches_at(s: &str, p: &str, at: usize, slen: usize, plen: usize) -> (r: bool)
    requires
        slen == s@.len(),
        plen == p@.len(),
        at + plen <= slen,
    ensures
        r == (s@.subrange(at as int, at as int + plen as int) == p@),
{
    let mut k: usize = 0;
    while k < plen
        invariant
            slen == s@.len(),
            plen == p@.len(),
            at + plen <= slen,
            k <= plen,
            forall|l: int| 0 <= l < k ==> s@[at + l] == p@[l],
        decreases plen - k,
    {
        if s.get_char(at + k) != p.get_char(k) {
            proof {
                assert(s@.subrange(at as int, at as int + plen as int)[k as int]
                    == s@[at + k]);
            }
            return false;
        }
        k = k + 1;
    }
    proof {
        assert(s@.subrange(at as int, at as int + plen as int) =~= p@);
    }
    true
}

/// Whether `p` occurs anywhere in `s`.
fn str_contains(s: &str, p: &str) -> (r: bool)
    ensures
        r == contains_seq(s@, p@),
{
    let slen = s.unicode_len();
    let plen = p.unicode_len();
    if plen > slen {
        return false;
    }
    if plen == 0 {
        proof {
            assert(s@.subrange(0, 0 + p@.len() as int) =~= p@);
            assert(contains_seq(s@, p@));
        }
        return true;
    }
    let last = slen - plen;
    let mut i: usize = 0;
    while i <= last
        invariant
            slen == s@.len(),
            plen == p@.len(),
            1 <= plen <= slen,
            last == slen - plen,
            i <= last + 1,
            forall|l: int| 0 <= l < i
                ==> (#[trigger] s@.subrange(l, l + plen as int)) != p@,
        decreases last + 1 - i,
    {
        if matches_at(s, p, i, slen, plen) {
            proof {
                assert(s@.subrange(i as int, i as int + p@.len() as int) == p@);
                assert(contains_seq(s@, p@));
            }
            return true;
        }
        i = i + 1;
    }
    false
}

/// Whether `s` starts with `p`.
fn str_starts_with(s: &str, p: &str) -> (r: bool)
    ensures
        r == starts_with(s@, p@),
{
    let slen = s.unicode_len();
    let plen = p.unicode_len();
    if plen > slen {
        return false;
    }
    matches_at(s, p, 0, slen, plen)
}

/// Syntactic screens applied to caller-supplied inputs before they are
/// handed to anything that acts on them.
pub struct InputValidator;

impl InputValidator {
    /// A path passes when it neither climbs upward nor is absolute, or
    /// is explicitly anchored to the current directory.
    pub fn validate_file_path(path: &str) -> (r: bool)
        ensures
            r == ((!contains_seq(path@, ".."@) && !starts_with(path@, "/"@))
                || starts_with(path@, "./"@)),
    {
        let no_climb = !str_contains(path, "..");
        let absolute = str_starts_with(path, "/");
        let anchored = str_starts_with(path, "./");
        no_climb && !absolute || anchored
    }

    /// A command passes when it carries no chaining or piping marks.
    pub fn validate_command(cmd: &str) -> (r: bool)
        ensures
            r == (!contains_seq(cmd@, "&&"@) && !contains_seq(cmd@, ";"@)
                && !contains_seq(cmd@, "|"@)),
    {
        !str_contains(cmd, "&&") && !str_contains(cmd, ";") && !str_contains(cmd, "|")
    }

    /// A URL passes when it names one of the two web schemes.
    pub fn validate_url(url: &str) -> (r: bool)
        ensures
            r == (starts_with(url@, "http://"@) || starts_with(url@, "https://"@)),
    {
        str_starts_with(url, "http://") || str_starts_with(url, "https://")
    }
}

} // verus!
