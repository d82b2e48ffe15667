use vstd::prelude::*;
use vstd::string::StringExecFns;

use crate::hex::hex_of;
use crate::hex::to_hex;

verus! {

/// One standard-output line for a successfully hashed input: the lowercase
/// hexadecimal digest, two spaces, then the input's designator.
pub fn success_line(digest: &[u8], designator: &str) -> (s: String)
    ensures
        s@ == hex_of(digest@) + "  "@ + designator@,
{
    let mut s = to_hex(digest);
    s.append("  ");
    s.append(designator);
    s
}

/// One standard-error line for a failed input: the program name, the input's
/// designator and the failure message, colon-separated.
pub fn error_line(designator: &str, message: &str) -> (s: String)
    ensures
        s@ == "b2sum: "@ + designator@ + ": "@ + message@,
{
    let mut s = String::from_str("b2sum: ");
    s.append(designator);
    s.append(": ");
    s.append(message);
    s
}

/// Fold the per-input outcomes: true exactly when at least one input failed.
/// Each entry records whether that input hashed successfully.
pub fn any_input_failed(successes: &Vec<bool>) -> (r: bool)
    ensures
        r == exists|i: int| 0 <= i < successes@.len() && !successes@[i],
{
    let mut i: usize = 0;
    while i < successes.len()
        invariant
            i <= successes.len(),
            forall|j: int| 0 <= j < i ==> successes@[j],
        decreases successes.len() - i,
    {
        if !successes[i] {
            return true;
        }
        i = i + 1;
    }
    false
}

/// The process exit status: nonzero exactly when the length option was
/// invalid or at least one input failed.
pub fn exit_status(length_valid: bool, any_failed: bool) -> (r: u8)
    ensures
        r == 1u8 <==> (!length_valid || any_failed),
        r == 0u8 <==> (length_valid && !any_failed),
{
    if !length_valid || any_failed {
        1
    } else {
        0
    }
}

} // verus!
