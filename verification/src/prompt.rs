//! The question to the operator, and what counts as an answer.

use crate::text::{str_equal, trim, trimmed};
use vstd::prelude::*;
use vstd::string::*;

verus! {

/// The question put to the operator when there is no configuration file.
pub const PROMPT: &'static str = "Would you like to create eloquentlog.toml? [Yes/No] ";

/// Whether `token` says yes.
pub open spec fn is_yes(token: Seq<char>) -> bool {
    token == "y"@ || token == "Y"@ || token == "yes"@ || token == "Yes"@
}

/// Whether `token` says no.
pub open spec fn is_no(token: Seq<char>) -> bool {
    token == "n"@ || token == "N"@ || token == "no"@ || token == "No"@
}

/// What `token` answers to a yes/no question, if it is understood.
pub open spec fn answer_of(token: Seq<char>) -> Option<bool> {
    if is_no(token) {
        Some(false)
    } else if is_yes(token) {
        Some(true)
    } else {
        None
    }
}

/// What the operator is told when `answer` was not understood.
pub open spec fn rejection_text(answer: Seq<char>) -> Seq<char> {
    "Sorry, response '"@ + answer + "' not understood."@
}

/// What `token` answers to a yes/no question: `y`, `Y`, `yes` and `Yes` say yes,
/// `n`, `N`, `no` and `No` say no, and nothing else is understood.
pub fn classify_answer(token: &str) -> (answer: Option<bool>)
    ensures
        answer == answer_of(token@),
{
    let no = str_equal(token, "n") || str_equal(token, "N") || str_equal(token, "no")
        || str_equal(token, "No");
    let yes = str_equal(token, "y") || str_equal(token, "Y") || str_equal(token, "yes")
        || str_equal(token, "Yes");
    if no {
        Some(false)
    } else if yes {
        Some(true)
    } else {
        None
    }
}

/// What a line typed by the operator answers, the white space around it set
/// aside.
pub fn read_answer(line: &str) -> (answer: Option<bool>)
    ensures
        answer == answer_of(trimmed(line@)),
{
    classify_answer(trim(line))
}

/// What the operator is told when `answer` was not understood.
pub fn rejection_notice(answer: &str) -> (notice: String)
    ensures
        notice@ == rejection_text(answer@),
{
    String::from_str("Sorry, response '").concat(answer).concat("' not understood.")
}

} // verus!
