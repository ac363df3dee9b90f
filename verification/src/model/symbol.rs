//! Names of profiles and native tools.
use vstd::prelude::*;

use crate::text::{alnum, is_alnum, owned, same};

verus! {

/// A character allowed in a name: ASCII letters and digits, `.`, `_`, `-`.
pub open spec fn name_char(c: char) -> bool {
    alnum(c) || c == '.' || c == '_' || c == '-'
}

/// `.` and `..` are reserved.
pub open spec fn reserved(s: Seq<char>) -> bool {
    s == "."@ || s == ".."@
}

/// A valid name: not reserved and made of name characters only.
pub open spec fn valid_name(s: Seq<char>) -> bool {
    !reserved(s) && forall|i: int| 0 <= i < s.len() ==> name_char(s[i])
}

/// Checks a profile or tool name.
pub fn valid(name: &str) -> (r: Result<(), String>)
    ensures
        r is Ok <==> valid_name(name@),
        r matches Err(e) ==> e@ == if reserved(name@) {
            "reserved name"@
        } else {
            "expected only ASCII letters, numbers, '.', '_', and '-'"@
        },
{
    if same(name, ".") || same(name, "..") {
        return Err(owned("reserved name"));
    }
    let n = name.unicode_len();
    let mut i: usize = 0;
    while i < n
        invariant
            n == name@.len(),
            i <= n,
            !reserved(name@),
            forall|k: int| 0 <= k < i ==> name_char(name@[k]),
        decreases n - i,
    {
        let c = name.get_char(i);
        if !(is_alnum(c) || c == '.' || c == '_' || c == '-') {
            return Err(owned("expected only ASCII letters, numbers, '.', '_', and '-'"));
        }
        i += 1;
    }
    Ok(())
}

} // verus!
