//! The user's consent to deleting an item that is not completed.

use vstd::prelude::*;
use crate::text::{same_text, to_upper_case, trim, trimmed, upper_case};

verus! {

/// What is known of the user's consent when an item is to be deleted.
#[derive(Debug, Clone, Copy, PartialEq, Eq, Structural)]
pub enum Confirmation {
    /// Nobody was asked.
    Absent,
    /// The user was asked and did not agree.
    Declined,
    /// The user was asked and agreed.
    Granted,
}

/// Whether a trimmed, upper-case answer says yes: it is `Y` or `YES`.
pub open spec fn is_yes(normalized: Seq<char>) -> bool {
    normalized == seq!['Y'] || normalized == seq!['Y', 'E', 'S']
}

/// The consent that an answer, as it was typed, gives: the answer without
/// the white space around it, in upper case, says yes or it does not.
pub open spec fn confirmation_spec(answer: Seq<char>) -> Confirmation {
    if is_yes(upper_case(trimmed(answer))) {
        Confirmation::Granted
    } else {
        Confirmation::Declined
    }
}

/// Whether a trimmed, upper-case answer says yes.
pub fn answer_is_yes(normalized: &str) -> (yes: bool)
    ensures
        yes == is_yes(normalized@),
{
    proof {
        reveal_strlit("Y");
        reveal_strlit("YES");
    }
    assert("Y"@ =~= seq!['Y']);
    assert("YES"@ =~= seq!['Y', 'E', 'S']);
    same_text(normalized, "Y") || same_text(normalized, "YES")
}

/// Reads the user's answer to the question whether an item that is not
/// completed may be deleted. White space around the answer and its case do
/// not count; anything but yes is a no.
pub fn read_confirmation(answer: &str) -> (confirmation: Confirmation)
    ensures
        confirmation == confirmation_spec(answer@),
{
    let normalized = to_upper_case(trim(answer));
    if answer_is_yes(normalized.as_str()) {
        Confirmation::Granted
    } else {
        Confirmation::Declined
    }
}

} // verus!
