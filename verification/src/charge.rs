//! The charge state of a battery, its stored name, and the tracking of
//! state changes between two readings.

use vstd::prelude::*;

use crate::text::same_text;

verus! {

/// The charge state a battery reports.
#[derive(Clone, Copy, Debug, PartialEq, Eq, Structural)]
pub enum ChargeState {
    Unknown,
    Charging,
    Discharging,
    Empty,
    Full,
    /// A state the battery driver reports but does not name.
    Nonexhaustive,
}

impl ChargeState {
    /// The name under which the state is written.
    pub open spec fn label_text(self) -> Seq<char> {
        match self {
            ChargeState::Unknown => "Unknown"@,
            ChargeState::Charging => "Charging"@,
            ChargeState::Discharging => "Discharging"@,
            ChargeState::Empty => "Empty"@,
            ChargeState::Full => "Full"@,
            ChargeState::Nonexhaustive => "Nonexhaustive"@,
        }
    }

    /// The name under which the state is written.
    pub fn label(&self) -> (s: &'static str)
        ensures
            s@ == self.label_text(),
    {
        match self {
            ChargeState::Unknown => "Unknown",
            ChargeState::Charging => "Charging",
            ChargeState::Discharging => "Discharging",
            ChargeState::Empty => "Empty",
            ChargeState::Full => "Full",
            ChargeState::Nonexhaustive => "Nonexhaustive",
        }
    }

    /// The state a written name stands for: the five named states are read
    /// back; any other text, "Nonexhaustive" among them, is an unknown variant.
    pub fn from_label(text: &str) -> (r: Option<ChargeState>)
        ensures
            r == parse_charge_label(text@),
    {
        if same_text(text, "Unknown") {
            Some(ChargeState::Unknown)
        } else if same_text(text, "Charging") {
            Some(ChargeState::Charging)
        } else if same_text(text, "Discharging") {
            Some(ChargeState::Discharging)
        } else if same_text(text, "Empty") {
            Some(ChargeState::Empty)
        } else if same_text(text, "Full") {
            Some(ChargeState::Full)
        } else {
            None
        }
    }

    /// Whether this is the unknown state.
    pub fn is_unknown(&self) -> (r: bool)
        ensures
            r == (*self == ChargeState::Unknown),
    {
        match self {
            ChargeState::Unknown => true,
            _ => false,
        }
    }
}

/// The state that a written name is read back as.
pub open spec fn parse_charge_label(text: Seq<char>) -> Option<ChargeState> {
    if text == "Unknown"@ {
        Some(ChargeState::Unknown)
    } else if text == "Charging"@ {
        Some(ChargeState::Charging)
    } else if text == "Discharging"@ {
        Some(ChargeState::Discharging)
    } else if text == "Empty"@ {
        Some(ChargeState::Empty)
    } else if text == "Full"@ {
        Some(ChargeState::Full)
    } else {
        None
    }
}

/// Reading back the name of a named state gives the state again.
pub proof fn lemma_label_round_trip(s: ChargeState)
    requires
        s != ChargeState::Nonexhaustive,
    ensures
        parse_charge_label(s.label_text()) == Some(s),
{
    reveal_strlit("Unknown");
    reveal_strlit("Charging");
    reveal_strlit("Discharging");
    reveal_strlit("Empty");
    reveal_strlit("Full");
    assert("Unknown"@.len() == 7);
    assert("Charging"@.len() == 8);
    assert("Discharging"@.len() == 11);
    assert("Empty"@.len() == 5);
    assert("Full"@.len() == 4);
}

/// A name that is read back as a state is that state's name, and no name is
/// read back as the unnamed driver state.
pub proof fn lemma_parsed_label_is_name(text: Seq<char>)
    ensures
        parse_charge_label(text) matches Some(s) ==> s.label_text() == text && s
            != ChargeState::Nonexhaustive,
{
}

/// A reading reports a change of state when the previous reading exists, was
/// not unknown, and differs from the present one.
pub open spec fn is_state_change(prev: Option<ChargeState>, current: ChargeState) -> bool {
    match prev {
        Some(p) => p != current && p != ChargeState::Unknown,
        None => false,
    }
}

/// The sign that a battery reading gives its energy rate: a charging battery
/// takes energy in, a discharging one gives it out, and any other reports none.
#[derive(Clone, Copy, Debug, PartialEq, Eq, Structural)]
pub enum RateDirection {
    Positive,
    Negative,
    Zero,
}

/// The sign of the energy rate of a battery in the given state.
pub fn energy_rate_direction(state: ChargeState) -> (d: RateDirection)
    ensures
        d == (match state {
            ChargeState::Charging => RateDirection::Positive,
            ChargeState::Discharging => RateDirection::Negative,
            _ => RateDirection::Zero,
        }),
{
    match state {
        ChargeState::Charging => RateDirection::Positive,
        ChargeState::Discharging => RateDirection::Negative,
        _ => RateDirection::Zero,
    }
}

/// The state of the previous battery reading.
#[derive(Debug)]
pub struct StateTracker {
    pub prev: Option<ChargeState>,
}

impl StateTracker {
    /// A tracker that has seen no reading yet.
    pub fn new() -> (t: StateTracker)
        ensures
            t.prev is None,
    {
        StateTracker { prev: None }
    }

    /// Takes a new reading: says whether it changes the state, and remembers it.
    pub fn observe(&mut self, current: ChargeState) -> (changed: bool)
        ensures
            changed == is_state_change(old(self).prev, current),
            changed == (old(self).prev is Some && old(self).prev->0 != current && old(self).prev->0
                != ChargeState::Unknown),
            final(self).prev == Some(current),
    {
        let changed = match self.prev {
            Some(p) => p != current && !p.is_unknown(),
            None => false,
        };
        self.prev = Some(current);
        changed
    }
}

/// Two readings of the same state in a row report no change, whatever came
/// before them.
pub proof fn lemma_repeated_reading_is_quiet(s: ChargeState)
    ensures
        !is_state_change(Some(s), s),
{
}

/// A reading after a known one reports a change exactly when its state
/// differs from the one before, whatever the two states are.
pub proof fn lemma_change_exactly_on_differing_known_state(prev: ChargeState, current: ChargeState)
    ensures
        is_state_change(Some(prev), current) <==> (prev != current && prev != ChargeState::Unknown),
        prev != ChargeState::Unknown ==> (is_state_change(Some(prev), current) <==> prev != current),
{
}

/// A change is never reported for the first reading, nor for one that follows
/// an unknown reading.
pub proof fn lemma_no_change_from_unknown(current: ChargeState)
    ensures
        !is_state_change(None, current),
        !is_state_change(Some(ChargeState::Unknown), current),
{
}

} // verus!
