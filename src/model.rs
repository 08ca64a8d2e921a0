use vstd::prelude::*;

use crate::markup::{chars_of, same_chars};

verus! {

/// The worker's attendance state, as the portal's dashboard shows it.
#[derive(Debug, Clone, Copy, PartialEq, Eq, Structural)]
pub enum Status {
    ClockedOn,
    ClockedOff,
    OnBreak,
}

/// One of the portal's four controls, submitted as a server callback.
#[derive(Debug, Clone, Copy, PartialEq, Eq, Structural)]
pub enum Action {
    ClockOn,
    ClockOff,
    BreakOn,
    BreakOff,
}

/// Every way a run can fail; each one ends the run.
#[derive(Debug, PartialEq, Eq)]
pub enum PortalError {
    /// The session token in the cookie header was shorter than required.
    BadHeaderLen(String),
    /// The cookie response had no session header.
    NoHeader,
    /// The login response looked like the failure page.
    LoginFailure,
    /// The server's response shows another action than the one submitted;
    /// carries the response's length in bytes.
    ActionFailure(usize),
    /// The intent argument was missing or not understood.
    NoOperator,
    /// No control can carry out the intent from the current state.
    NoActionToTake,
    /// The dashboard markup has none of the known shapes.
    BadStatus,
    /// The action response names neither known caption.
    ResponseUnParsable,
}

/// The wire code of each action: the identifier of its control on the portal.
pub open spec fn wire_code_spec(a: Action) -> Seq<char> {
    match a {
        Action::ClockOn => "CLKONBTN"@,
        Action::ClockOff => "CLKOFFBTN"@,
        Action::BreakOn => "BRKSTABTN"@,
        Action::BreakOff => "BRKENDBTN"@,
    }
}

/// The action whose wire code is `code`, if any.
pub open spec fn action_of_code(code: Seq<char>) -> Option<Action> {
    if code == "CLKONBTN"@ {
        Some(Action::ClockOn)
    } else if code == "CLKOFFBTN"@ {
        Some(Action::ClockOff)
    } else if code == "BRKSTABTN"@ {
        Some(Action::BreakOn)
    } else if code == "BRKENDBTN"@ {
        Some(Action::BreakOff)
    } else {
        None
    }
}

/// The transition table: which control carries out an intent from a state.
/// `want_active` asks to clock on or to end a break; its negation asks to
/// clock off or to start a break.
pub open spec fn plan_spec(status: Status, want_active: bool) -> Option<Action> {
    match status {
        Status::ClockedOn => if want_active {
            Some(Action::BreakOn)
        } else {
            Some(Action::ClockOff)
        },
        Status::ClockedOff => if want_active {
            Some(Action::ClockOn)
        } else {
            None
        },
        Status::OnBreak => if want_active {
            None
        } else {
            Some(Action::BreakOff)
        },
    }
}

pub open spec fn label_spec(s: Status) -> Seq<char> {
    match s {
        Status::ClockedOn => "Clocked On"@,
        Status::ClockedOff => "Clocked Off"@,
        Status::OnBreak => "Clocked On (On Break)"@,
    }
}

impl Status {
    /// Picks the one control that carries out the intent, or fails with
    /// `NoActionToTake` where no control can.
    pub fn to_action(&self, turn_on: bool) -> (r: Result<Action, PortalError>)
        ensures
            r == (match plan_spec(*self, turn_on) {
                Some(a) => Ok(a),
                None => Err(PortalError::NoActionToTake),
            }),
    {
        match self {
            Status::ClockedOn => {
                if turn_on {
                    Ok(Action::BreakOn)
                } else {
                    Ok(Action::ClockOff)
                }
            },
            Status::ClockedOff => {
                if turn_on {
                    Ok(Action::ClockOn)
                } else {
                    Err(PortalError::NoActionToTake)
                }
            },
            Status::OnBreak => {
                if turn_on {
                    Err(PortalError::NoActionToTake)
                } else {
                    Ok(Action::BreakOff)
                }
            },
        }
    }

    /// A human-readable name of the state.
    pub fn label(&self) -> (r: &'static str)
        ensures
            r@ == label_spec(*self),
    {
        match self {
            Status::ClockedOn => "Clocked On",
            Status::ClockedOff => "Clocked Off",
            Status::OnBreak => "Clocked On (On Break)",
        }
    }
}

impl Action {
    /// The identifier of the action's control, as the portal expects it in
    /// a callback.
    pub fn wire_code(&self) -> (r: &'static str)
        ensures
            r@ == wire_code_spec(*self),
    {
        match self {
            Action::ClockOn => "CLKONBTN",
            Action::ClockOff => "CLKOFFBTN",
            Action::BreakOn => "BRKSTABTN",
            Action::BreakOff => "BRKENDBTN",
        }
    }

    /// The action whose control has the identifier `code`, if any.
    pub fn from_wire_code(code: &str) -> (r: Option<Action>)
        ensures
            r == action_of_code(code@),
    {
        let given = chars_of(code);
        if same_chars(&given, &chars_of("CLKONBTN")) {
            Some(Action::ClockOn)
        } else if same_chars(&given, &chars_of("CLKOFFBTN")) {
            Some(Action::ClockOff)
        } else if same_chars(&given, &chars_of("BRKSTABTN")) {
            Some(Action::BreakOn)
        } else if same_chars(&given, &chars_of("BRKENDBTN")) {
            Some(Action::BreakOff)
        } else {
            None
        }
    }
}

} // verus!
