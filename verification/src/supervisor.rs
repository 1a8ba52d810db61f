//! How the outcome of a background service action is turned back into
//! actions: success returns to the list, cancellation is not an error, and
//! failures surface in the error modal, annotated with a hint when they
//! look like a permission problem. Either way a refresh is requested.

use vstd::prelude::*;
use vstd::string::StringExecFns;
use crate::action::Action;
use crate::home::Mode;
use crate::strings::is_substring;
use crate::strings::str_contains;

verus! {

/// The permission-hint annotation: failures mentioning an access denial
/// get told about running elevated.
pub open spec fn annotated_error(e: Seq<char>) -> Seq<char> {
    if is_substring(e, "AccessDenied"@) {
        e + "\n\nTry running this tool with sudo."@
    } else {
        e
    }
}

/// Append the permission hint to errors that look like an access denial.
pub fn annotate_access_denied(e: String) -> (r: String)
    ensures
        r@ == annotated_error(e@),
{
    if str_contains(e.as_str(), "AccessDenied") {
        let mut r = e;
        r.append("\n\nTry running this tool with sudo.");
        r
    } else {
        e
    }
}

/// The actions a finished (or abandoned) service action feeds back into
/// the queue: the mode change or error first, then the refresh request.
/// A cancelled operation's failure is discarded, never surfaced.
pub fn task_outcome_actions(cancelled: bool, result: Result<(), String>) -> (r: Vec<Action>)
    ensures
        cancelled ==> r@ =~= seq![Action::RefreshServices],
        !cancelled ==> match result {
            Ok(_) => r@ =~= seq![
                Action::EnterMode(Mode::ServiceList),
                Action::RefreshServices,
            ],
            Err(e) => {
                &&& r@.len() == 2
                &&& r@[0] matches Action::EnterError { err } && err@ == annotated_error(e@)
                &&& r@[1] == Action::RefreshServices
            },
        },
{
    let mut r: Vec<Action> = Vec::new();
    if cancelled {
        r.push(Action::RefreshServices);
        return r;
    }
    match result {
        Ok(_) => {
            r.push(Action::EnterMode(Mode::ServiceList));
            r.push(Action::RefreshServices);
        },
        Err(e) => {
            let err = annotate_access_denied(e);
            r.push(Action::EnterError { err });
            r.push(Action::RefreshServices);
        },
    }
    r
}

/// The action a finished clipboard copy feeds back: return to the list on
/// success, surface the failure otherwise.
pub fn copy_result_action(result: Result<(), String>) -> (r: Action)
    ensures
        match result {
            Ok(_) => r == Action::EnterMode(Mode::ServiceList),
            Err(e) => r matches Action::EnterError { err } && err@ == "Error copying to clipboard: "@
                + e@,
        },
{
    match result {
        Ok(_) => Action::EnterMode(Mode::ServiceList),
        Err(e) => {
            let mut err = String::from_str("Error copying to clipboard: ");
            err.append(e.as_str());
            Action::EnterError { err }
        },
    }
}

} // verus!
