//! The autostart entry: a single registry value, named for the application,
//! holding the quoted absolute path of the executable. The registry itself is
//! the caller's; this module builds the value that registration writes and
//! decides, from a value read back, whether the application is registered.
//!
//! The check is substring containment, not equality: a value with extra
//! quoting or trailing arguments still matches, and a stale entry pointing at
//! a different install path reads as not registered.

use vstd::prelude::*;

verus! {

/// `needle` occurs in `hay` starting at position `i`.
pub open spec fn spec_contains_at(hay: Seq<char>, needle: Seq<char>, i: int) -> bool {
    0 <= i && i + needle.len() <= hay.len() && hay.subrange(i, i + needle.len() as int) == needle
}

/// `needle` occurs somewhere in `hay`; an empty needle occurs everywhere.
pub open spec fn spec_contains(hay: Seq<char>, needle: Seq<char>) -> bool {
    exists|i: int| spec_contains_at(hay, needle, i)
}

/// Whether `needle` occurs in `hay` starting at `i`; `h` and `n` are the
/// already-counted character lengths.
fn match_at(hay: &str, needle: &str, i: usize, h: usize, n: usize) -> (r: bool)
    requires
        h == hay@.len(),
        n == needle@.len(),
        i + n <= h,
    ensures
        r == spec_contains_at(hay@, needle@, i as int),
{
    let mut j: usize = 0;
    while j < n
        invariant
            h == hay@.len(),
            n == needle@.len(),
            i + n <= h,
            j <= n,
            forall|l: int| 0 <= l < j ==> hay@[i + l] == needle@[l],
        decreases n - j,
    {
        let hc = hay.get_char(i + j);
        let nc = needle.get_char(j);
        if hc != nc {
            proof {
                assert(hay@.subrange(i as int, i as int + n as int)[j as int] == hay@[i + j]);
            }
            return false;
        }
        j += 1;
    }
    proof {
        assert(hay@.subrange(i as int, i as int + n as int) =~= needle@);
    }
    true
}

/// Whether `needle` occurs anywhere in `hay`, exactly as `spec_contains`
/// states it.
pub fn str_contains(hay: &str, needle: &str) -> (r: bool)
    ensures
        r == spec_contains(hay@, needle@),
{
    let h = hay.unicode_len();
    let n = needle.unicode_len();
    if n > h {
        proof {
            assert forall|k: int| !spec_contains_at(hay@, needle@, k) by {}
        }
        return false;
    }
    let bound = h - n;
    let mut i: usize = 0;
    loop
        invariant
            h == hay@.len(),
            n == needle@.len(),
            n <= h,
            bound == h - n,
            i <= bound,
            forall|k: int| 0 <= k < i ==> !spec_contains_at(hay@, needle@, k),
        decreases bound - i,
    {
        if match_at(hay, needle, i, h, n) {
            return true;
        }
        if i == bound {
            proof {
                assert forall|k: int| !spec_contains_at(hay@, needle@, k) by {
                    if 0 <= k < i {
                    }
                }
            }
            return false;
        }
        i += 1;
    }
}

/// The registry value registration writes for an executable path: the path
/// in double quotes.
pub fn startup_registry_value(exe_path: &str) -> (r: String)
    ensures
        r@ == "\""@ + exe_path@ + "\""@,
{
    let mut s = "\"".to_owned();
    s.append(exe_path);
    s.append("\"");
    s
}

/// The registration check, decided from what the registry read returned:
/// with the value absent it reports false; with a value present it reports
/// whether the value contains the current executable path.
pub fn check_startup(registry_value: Option<&String>, current_path: &str) -> (r: bool)
    ensures
        r == match registry_value {
            Some(v) => spec_contains(v@, current_path@),
            None => false,
        },
{
    match registry_value {
        Some(v) => str_contains(v.as_str(), current_path),
        None => false,
    }
}

/// Anything wrapped around a text still contains it.
pub proof fn lemma_value_contains(prefix: Seq<char>, path: Seq<char>, suffix: Seq<char>)
    ensures
        spec_contains(prefix + path + suffix, path),
{
    let hay = prefix + path + suffix;
    assert(hay.subrange(prefix.len() as int, prefix.len() as int + path.len() as int) =~= path);
    assert(spec_contains_at(hay, path, prefix.len() as int));
}

/// Law: the registry value written for an executable path always reads back
/// as registered for that same path — quoting does not defeat the check.
pub proof fn lemma_startup_roundtrip(path: Seq<char>)
    ensures
        spec_contains("\""@ + path + "\""@, path),
{
    lemma_value_contains("\""@, path, "\""@);
}

} // verus!
