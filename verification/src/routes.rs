//! Pure helpers for the network boundary: request data, form-action
//! mapping, and error-message rendering. The HTTP layer itself lives
//! outside the library and owns the response format.

use vstd::prelude::*;

use crate::lock::{InstructionSource, LockInstruction};

verus! {

/// A door-control request as received from the form: a passcode for the
/// external auth collaborator, and the requested action.
pub struct LockRequest {
    pub passcode: String,
    pub action: String,
}

/// Character-for-character string equality.
pub fn str_eq(a: &str, b: &str) -> (r: bool)
    ensures
        r == (a@ == b@),
{
    let a_len = a.unicode_len();
    let b_len = b.unicode_len();
    if a_len != b_len {
        return false;
    }
    let mut i: usize = 0;
    while i < a_len
        invariant
            a_len == a@.len(),
            b_len == b@.len(),
            a_len == b_len,
            i <= a_len,
            forall|j: int| 0 <= j < i ==> a@[j] == b@[j],
        decreases a_len - i,
    {
        if a.get_char(i) != b.get_char(i) {
            return false;
        }
        i = i + 1;
    }
    proof {
        assert(a@ =~= b@);
    }
    true
}

/// Wraps an error message for display.
pub fn format_err_message(message: &str) -> (r: String)
    ensures
        r@ == "<p style='color: red;'>"@ + message@ + "</p>"@,
{
    let mut s = String::from_str("<p style='color: red;'>");
    s.append(message);
    s.append("</p>");
    s
}

/// Maps a validated form action to the instruction submitted on the
/// network caller's behalf; any other action is refused.
pub fn instruction_for_action(action: &str) -> (r: Option<LockInstruction>)
    ensures
        action@ == "lock"@ ==> r == Some(LockInstruction::EnsureLocked(InstructionSource::Api)),
        action@ == "unlock"@ ==> r == Some(
            LockInstruction::EnsureUnlocked(InstructionSource::Api),
        ),
        action@ != "lock"@ && action@ != "unlock"@ ==> r is None,
{
    proof {
        reveal_strlit("lock");
        reveal_strlit("unlock");
        assert("lock"@.len() == 4);
        assert("unlock"@.len() == 6);
    }
    if str_eq(action, "lock") {
        Some(LockInstruction::EnsureLocked(InstructionSource::Api))
    } else if str_eq(action, "unlock") {
        Some(LockInstruction::EnsureUnlocked(InstructionSource::Api))
    } else {
        None
    }
}

} // verus!
