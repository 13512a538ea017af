//! The states that the runtime reports for the PLC.
use vstd::prelude::*;
use vstd::std_specs::convert::FromSpecImpl;

use crate::text::text_eq;

verus! {

/// A state the runtime can report; `Unexpected` keeps any other report as it came.
#[derive(Debug, Clone, PartialEq, Eq)]
pub enum PlcState {
    Empty,
    Init,
    Running,
    Stopped,
    Error,
    Unexpected(String),
}

/// The state a report names: the five names the runtime uses map to their
/// states, any other text is kept in `Unexpected`.
pub open spec fn state_of_report(s: String) -> PlcState {
    if s@ == "EMPTY"@ {
        PlcState::Empty
    } else if s@ == "INIT"@ {
        PlcState::Init
    } else if s@ == "RUNNING"@ {
        PlcState::Running
    } else if s@ == "STOPPED"@ {
        PlcState::Stopped
    } else if s@ == "ERROR"@ {
        PlcState::Error
    } else {
        PlcState::Unexpected(s)
    }
}

/// The report text that stands for a state.
pub open spec fn report_of_state(st: PlcState) -> Seq<char> {
    match st {
        PlcState::Empty => "EMPTY"@,
        PlcState::Init => "INIT"@,
        PlcState::Running => "RUNNING"@,
        PlcState::Stopped => "STOPPED"@,
        PlcState::Error => "ERROR"@,
        PlcState::Unexpected(s) => s@,
    }
}

impl From<String> for PlcState {
    fn from(s: String) -> (st: PlcState) {
        if text_eq(s.as_str(), "EMPTY") {
            PlcState::Empty
        } else if text_eq(s.as_str(), "INIT") {
            PlcState::Init
        } else if text_eq(s.as_str(), "RUNNING") {
            PlcState::Running
        } else if text_eq(s.as_str(), "STOPPED") {
            PlcState::Stopped
        } else if text_eq(s.as_str(), "ERROR") {
            PlcState::Error
        } else {
            PlcState::Unexpected(s)
        }
    }
}

impl FromSpecImpl<String> for PlcState {
    open spec fn obeys_from_spec() -> bool {
        true
    }

    open spec fn from_spec(v: String) -> PlcState {
        state_of_report(v)
    }
}

/// Reading a report loses nothing: the state read from any text gives that
/// text back.
pub proof fn lemma_report_round_trip(s: String)
    ensures
        report_of_state(state_of_report(s)) == s@,
{
}

/// Distinct reports are read as distinct states.
pub proof fn lemma_reports_distinguished(a: String, b: String)
    requires
        a@ != b@,
    ensures
        state_of_report(a) != state_of_report(b),
{
    lemma_report_round_trip(a);
    lemma_report_round_trip(b);
}

/// The five names the runtime uses are read as their states, and any other
/// text, of any length, is kept whole as an unexpected state.
pub proof fn lemma_report_names(s: String)
    ensures
        s@ == "EMPTY"@ ==> state_of_report(s) == PlcState::Empty,
        s@ == "INIT"@ ==> state_of_report(s) == PlcState::Init,
        s@ == "RUNNING"@ ==> state_of_report(s) == PlcState::Running,
        s@ == "STOPPED"@ ==> state_of_report(s) == PlcState::Stopped,
        s@ == "ERROR"@ ==> state_of_report(s) == PlcState::Error,
        (s@ != "EMPTY"@ && s@ != "INIT"@ && s@ != "RUNNING"@ && s@ != "STOPPED"@ && s@
            != "ERROR"@) ==> state_of_report(s) == PlcState::Unexpected(s),
{
    reveal_strlit("EMPTY");
    reveal_strlit("INIT");
    reveal_strlit("RUNNING");
    reveal_strlit("STOPPED");
    reveal_strlit("ERROR");
    assert("EMPTY"@.len() == 5 && "INIT"@.len() == 4 && "RUNNING"@.len() == 7);
    assert("STOPPED"@.len() == 7 && "ERROR"@.len() == 5);
    assert("EMPTY"@[1] != "ERROR"@[1]);
    assert("RUNNING"@[0] != "STOPPED"@[0]);
}

} // verus!
