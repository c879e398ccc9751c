//! The closed set of logical gamepad actions a physical key can be mapped to,
//! and the parser for their textual names as they appear in a profile file.

use vstd::prelude::*;

verus! {

/// A logical gamepad input: the digital buttons, the trigger buttons in their
/// digital-press reading, the four D-pad directions, and the eight stick
/// direction tokens.
#[derive(Debug, Clone, Copy, PartialEq, Eq, Structural)]
pub enum XboxButton {
    A,
    B,
    X,
    Y,
    LB,
    RB,
    LT,
    RT,
    LS,
    RS,
    Start,
    Select,
    DPadUp,
    DPadDown,
    DPadLeft,
    DPadRight,
    LSUp,
    LSDown,
    LSLeft,
    LSRight,
    RSUp,
    RSDown,
    RSLeft,
    RSRight,
}

/// The profile-file name of each action, as parsed by [`XboxButton::from_name`]:
/// the variant name written in upper case, which for the four D-pad tokens is
/// also their documented alias form.
pub open spec fn action_of(s: Seq<char>) -> Option<XboxButton> {
    if s == "A"@ {
        Some(XboxButton::A)
    } else if s == "B"@ {
        Some(XboxButton::B)
    } else if s == "X"@ {
        Some(XboxButton::X)
    } else if s == "Y"@ {
        Some(XboxButton::Y)
    } else if s == "LB"@ {
        Some(XboxButton::LB)
    } else if s == "RB"@ {
        Some(XboxButton::RB)
    } else if s == "LT"@ {
        Some(XboxButton::LT)
    } else if s == "RT"@ {
        Some(XboxButton::RT)
    } else if s == "LS"@ {
        Some(XboxButton::LS)
    } else if s == "RS"@ {
        Some(XboxButton::RS)
    } else if s == "START"@ {
        Some(XboxButton::Start)
    } else if s == "SELECT"@ {
        Some(XboxButton::Select)
    } else if s == "DPADUP"@ {
        Some(XboxButton::DPadUp)
    } else if s == "DPADDOWN"@ {
        Some(XboxButton::DPadDown)
    } else if s == "DPADLEFT"@ {
        Some(XboxButton::DPadLeft)
    } else if s == "DPADRIGHT"@ {
        Some(XboxButton::DPadRight)
    } else if s == "LSUP"@ {
        Some(XboxButton::LSUp)
    } else if s == "LSDOWN"@ {
        Some(XboxButton::LSDown)
    } else if s == "LSLEFT"@ {
        Some(XboxButton::LSLeft)
    } else if s == "LSRIGHT"@ {
        Some(XboxButton::LSRight)
    } else if s == "RSUP"@ {
        Some(XboxButton::RSUp)
    } else if s == "RSDOWN"@ {
        Some(XboxButton::RSDown)
    } else if s == "RSLEFT"@ {
        Some(XboxButton::RSLeft)
    } else if s == "RSRIGHT"@ {
        Some(XboxButton::RSRight)
    } else {
        None
    }
}

impl XboxButton {
    /// Parses the profile-file name of an action; any string outside the
    /// fixed vocabulary is rejected.
    pub fn from_name(name: &str) -> (r: Option<XboxButton>)
        ensures
            r == action_of(name@),
    {
        if str_eq(name, "A") {
            Some(XboxButton::A)
        } else if str_eq(name, "B") {
            Some(XboxButton::B)
        } else if str_eq(name, "X") {
            Some(XboxButton::X)
        } else if str_eq(name, "Y") {
            Some(XboxButton::Y)
        } else if str_eq(name, "LB") {
            Some(XboxButton::LB)
        } else if str_eq(name, "RB") {
            Some(XboxButton::RB)
        } else if str_eq(name, "LT") {
            Some(XboxButton::LT)
        } else if str_eq(name, "RT") {
            Some(XboxButton::RT)
        } else if str_eq(name, "LS") {
            Some(XboxButton::LS)
        } else if str_eq(name, "RS") {
            Some(XboxButton::RS)
        } else if str_eq(name, "START") {
            Some(XboxButton::Start)
        } else if str_eq(name, "SELECT") {
            Some(XboxButton::Select)
        } else if str_eq(name, "DPADUP") {
            Some(XboxButton::DPadUp)
        } else if str_eq(name, "DPADDOWN") {
            Some(XboxButton::DPadDown)
        } else if str_eq(name, "DPADLEFT") {
            Some(XboxButton::DPadLeft)
        } else if str_eq(name, "DPADRIGHT") {
            Some(XboxButton::DPadRight)
        } else if str_eq(name, "LSUP") {
            Some(XboxButton::LSUp)
        } else if str_eq(name, "LSDOWN") {
            Some(XboxButton::LSDown)
        } else if str_eq(name, "LSLEFT") {
            Some(XboxButton::LSLeft)
        } else if str_eq(name, "LSRIGHT") {
            Some(XboxButton::LSRight)
        } else if str_eq(name, "RSUP") {
            Some(XboxButton::RSUp)
        } else if str_eq(name, "RSDOWN") {
            Some(XboxButton::RSDown)
        } else if str_eq(name, "RSLEFT") {
            Some(XboxButton::RSLeft)
        } else if str_eq(name, "RSRIGHT") {
            Some(XboxButton::RSRight)
        } else {
            None
        }
    }
}

/// Character-by-character string equality, proved against the string views.
pub fn str_eq(a: &str, b: &str) -> (r: bool)
    ensures
        r == (a@ == b@),
{
    let la = a.unicode_len();
    let lb = b.unicode_len();
    if la != lb {
        return false;
    }
    let mut i: usize = 0;
    while i < la
        invariant
            la == a@.len(),
            la == b@.len(),
            i <= la,
            forall|j: int| 0 <= j < i ==> a@[j] == b@[j],
        decreases la - i,
    {
        if a.get_char(i) != b.get_char(i) {
            return false;
        }
        i = i + 1;
    }
    proof {
        assert(a@ =~= b@);
    }
    true
}

} // verus!
