//! Command-line flag values of the form `--name=value`.

use vstd::prelude::*;
use vstd::string::StrSliceExecFns;
use vstd::string::StringExecFns;

verus! {

/// A command-line flag with a short and a long spelling, each ending in `=`
/// when the flag carries a value.
pub struct Flag<'a> {
    pub short: &'a str,
    pub long: &'a str,
}

/// `prefix` is an initial segment of `s`.
pub open spec fn is_prefix_of(prefix: Seq<char>, s: Seq<char>) -> bool {
    prefix.len() <= s.len() && s.subrange(0, prefix.len() as int) == prefix
}

/// Whether `s` begins with the characters of `prefix`.
pub fn str_starts_with(s: &str, prefix: &str) -> (r: bool)
    ensures
        r == is_prefix_of(prefix@, s@),
{
    let n = prefix.unicode_len();
    let m = s.unicode_len();
    if n > m {
        return false;
    }
    let mut i: usize = 0;
    while i < n
        invariant
            0 <= i <= n,
            n == prefix@.len(),
            n <= m == s@.len(),
            forall|j: int| 0 <= j < i ==> s@[j] == prefix@[j],
        decreases n - i,
    {
        if s.get_char(i) != prefix.get_char(i) {
            assert(!is_prefix_of(prefix@, s@)) by {
                assert(s@.subrange(0, n as int)[i as int] != prefix@[i as int]);
            }
            return false;
        }
        i += 1;
    }
    assert(s@.subrange(0, n as int) =~= prefix@);
    true
}

/// Extracts the value out of an argument that assigns one through `flag`,
/// trying the short spelling first: `-r=abc` and `--remote-name=abc` both
/// carry the value `abc`.
pub fn extract_value_from_flag(arg: &str, flag: &Flag) -> (r: Option<String>)
    ensures
        is_prefix_of(flag.short@, arg@) ==> (r matches Some(v)
            && v@ == arg@.subrange(flag.short@.len() as int, arg@.len() as int)),
        !is_prefix_of(flag.short@, arg@) && is_prefix_of(flag.long@, arg@) ==> (r matches Some(v)
            && v@ == arg@.subrange(flag.long@.len() as int, arg@.len() as int)),
        !is_prefix_of(flag.short@, arg@) && !is_prefix_of(flag.long@, arg@) ==> r is None,
{
    if str_starts_with(arg, flag.short) {
        let n = flag.short.unicode_len();
        let suffix = arg.substring_char(n, arg.unicode_len());
        Some(String::from_str(suffix))
    } else if str_starts_with(arg, flag.long) {
        let n = flag.long.unicode_len();
        let suffix = arg.substring_char(n, arg.unicode_len());
        Some(String::from_str(suffix))
    } else {
        None
    }
}

/// The argument spells the flag: exactly, or as an assignment through a
/// spelling that ends in `=`.
pub open spec fn matches_flag(arg: Seq<char>, flag: Flag) -> bool {
    is_prefix_of(flag.short@, arg) || is_prefix_of(flag.long@, arg)
}

/// Whether the argument spells one of the given flags.  An argument in flag
/// position that spells none of them is invalid and rejected by the caller.
pub fn is_valid_flag<'a>(arg: &str, flags: &Vec<Flag<'a>>) -> (r: bool)
    ensures
        r == exists|i: int| 0 <= i < flags@.len() && matches_flag(arg@, flags@[i]),
{
    let n = flags.len();
    let mut i: usize = 0;
    while i < n
        invariant
            0 <= i <= n,
            n == flags@.len(),
            forall|j: int| 0 <= j < i ==> !matches_flag(arg@, flags@[j]),
        decreases n - i,
    {
        if str_starts_with(arg, flags[i].short) || str_starts_with(arg, flags[i].long) {
            proof {
                assert(matches_flag(arg@, flags@[i as int]));
            }
            return true;
        }
        i += 1;
    }
    false
}

} // verus!
