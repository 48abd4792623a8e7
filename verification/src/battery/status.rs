//! Charge states, and the rule that combines the states of several cells.

use crate::text::{eq_ignore_ascii_case, same_ignoring_case};
use vstd::prelude::*;
use vstd::string::*;

verus! {

/// What a cell, or a whole fleet of cells, is doing.
#[derive(Debug, Clone, Copy, PartialEq, Eq, Structural)]
pub enum ChargeStatus {
    Charging,
    Discharging,
    Full,
    Unknown,
}

impl Default for ChargeStatus {
    fn default() -> (status: Self)
        ensures
            status == ChargeStatus::Unknown,
    {
        ChargeStatus::Unknown
    }
}

/// The state that a status text names. The case of letters does not matter;
/// a text that names no state, or no text at all, is `Unknown`.
pub open spec fn status_of(text: Option<Seq<char>>) -> ChargeStatus {
    match text {
        Some(t) => {
            if same_ignoring_case(t, "charging"@) {
                ChargeStatus::Charging
            } else if same_ignoring_case(t, "discharging"@) {
                ChargeStatus::Discharging
            } else if same_ignoring_case(t, "full"@) {
                ChargeStatus::Full
            } else {
                ChargeStatus::Unknown
            }
        },
        None => ChargeStatus::Unknown,
    }
}

impl ChargeStatus {
    /// The state's name in small letters.
    pub open spec fn name(self) -> Seq<char> {
        match self {
            ChargeStatus::Charging => "charging"@,
            ChargeStatus::Discharging => "discharging"@,
            ChargeStatus::Full => "full"@,
            ChargeStatus::Unknown => "unknown"@,
        }
    }

    /// The three letters that the status bar shows for the state.
    pub open spec fn label(self) -> Seq<char> {
        match self {
            ChargeStatus::Charging => "CHR"@,
            ChargeStatus::Discharging => "DIS"@,
            ChargeStatus::Full => "FUL"@,
            ChargeStatus::Unknown => "UKN"@,
        }
    }

    /// Reads a state from a status text.
    pub fn from_text(text: &str) -> (status: ChargeStatus)
        ensures
            status == status_of(Some(text@)),
    {
        if eq_ignore_ascii_case(text, "charging") {
            ChargeStatus::Charging
        } else if eq_ignore_ascii_case(text, "discharging") {
            ChargeStatus::Discharging
        } else if eq_ignore_ascii_case(text, "full") {
            ChargeStatus::Full
        } else {
            ChargeStatus::Unknown
        }
    }

    /// The state's name in small letters.
    pub fn to_string(&self) -> (text: String)
        ensures
            text@ == self.name(),
    {
        match self {
            ChargeStatus::Charging => String::from_str("charging"),
            ChargeStatus::Discharging => String::from_str("discharging"),
            ChargeStatus::Full => String::from_str("full"),
            ChargeStatus::Unknown => String::from_str("unknown"),
        }
    }

    /// The three letters that the status bar shows for the state.
    pub fn short_label(&self) -> (text: &'static str)
        ensures
            text@ == self.label(),
    {
        match self {
            ChargeStatus::Charging => "CHR",
            ChargeStatus::Discharging => "DIS",
            ChargeStatus::Full => "FUL",
            ChargeStatus::Unknown => "UKN",
        }
    }
}

/// The state of a fleet in which exactly the states `seen` occur: all full is
/// full; charging, alone or beside full cells, is charging; all discharging
/// is discharging; every other mix is unknown.
pub open spec fn resolve_statuses(seen: Set<ChargeStatus>) -> ChargeStatus {
    if seen == set![ChargeStatus::Full] {
        ChargeStatus::Full
    } else if seen == set![ChargeStatus::Charging] || seen == set![
        ChargeStatus::Charging,
        ChargeStatus::Full,
    ] {
        ChargeStatus::Charging
    } else if seen == set![ChargeStatus::Discharging] {
        ChargeStatus::Discharging
    } else {
        ChargeStatus::Unknown
    }
}

/// The same rule, told by which states occur: an unknown cell, or a
/// discharging cell beside one that charges or is full, makes the fleet
/// unknown; otherwise it discharges, charges or is full, in this order of
/// precedence; and no cell at all is unknown.
pub open spec fn resolve_flags(charging: bool, discharging: bool, full: bool, unknown: bool) -> ChargeStatus {
    if unknown || (discharging && (charging || full)) {
        ChargeStatus::Unknown
    } else if discharging {
        ChargeStatus::Discharging
    } else if charging {
        ChargeStatus::Charging
    } else if full {
        ChargeStatus::Full
    } else {
        ChargeStatus::Unknown
    }
}

/// The state of a fleet depends only on which of the four states occur in it.
pub proof fn lemma_resolve_by_membership(seen: Set<ChargeStatus>)
    ensures
        resolve_statuses(seen) == resolve_flags(
            seen.contains(ChargeStatus::Charging),
            seen.contains(ChargeStatus::Discharging),
            seen.contains(ChargeStatus::Full),
            seen.contains(ChargeStatus::Unknown),
        ),
{
    let charging = seen.contains(ChargeStatus::Charging);
    let discharging = seen.contains(ChargeStatus::Discharging);
    let full = seen.contains(ChargeStatus::Full);
    let unknown = seen.contains(ChargeStatus::Unknown);
    let only_full = set![ChargeStatus::Full];
    let only_charging = set![ChargeStatus::Charging];
    let charging_and_full = set![ChargeStatus::Charging, ChargeStatus::Full];
    let only_discharging = set![ChargeStatus::Discharging];
    assert(only_full.contains(ChargeStatus::Full) && !only_full.contains(ChargeStatus::Charging)
        && !only_full.contains(ChargeStatus::Discharging) && !only_full.contains(
        ChargeStatus::Unknown,
    ));
    assert(only_charging.contains(ChargeStatus::Charging) && !only_charging.contains(
        ChargeStatus::Full,
    ) && !only_charging.contains(ChargeStatus::Discharging) && !only_charging.contains(
        ChargeStatus::Unknown,
    ));
    assert(charging_and_full.contains(ChargeStatus::Charging) && charging_and_full.contains(
        ChargeStatus::Full,
    ) && !charging_and_full.contains(ChargeStatus::Discharging) && !charging_and_full.contains(
        ChargeStatus::Unknown,
    ));
    assert(only_discharging.contains(ChargeStatus::Discharging) && !only_discharging.contains(
        ChargeStatus::Charging,
    ) && !only_discharging.contains(ChargeStatus::Full) && !only_discharging.contains(
        ChargeStatus::Unknown,
    ));
    if !unknown && !discharging && !charging && full {
        assert(seen =~= only_full);
    }
    if !unknown && !discharging && charging && !full {
        assert(seen =~= only_charging);
    }
    if !unknown && !discharging && charging && full {
        assert(seen =~= charging_and_full);
    }
    if !unknown && discharging && !charging && !full {
        assert(seen =~= only_discharging);
    }
}

/// The number that stands for a set of states: one for charging, two for
/// discharging, four for full and eight for unknown, added up.
pub open spec fn mask_bits(seen: Set<ChargeStatus>) -> nat {
    (if seen.contains(ChargeStatus::Charging) {
        1nat
    } else {
        0nat
    }) + (if seen.contains(ChargeStatus::Discharging) {
        2nat
    } else {
        0nat
    }) + (if seen.contains(ChargeStatus::Full) {
        4nat
    } else {
        0nat
    }) + (if seen.contains(ChargeStatus::Unknown) {
        8nat
    } else {
        0nat
    })
}

/// The set of distinct states met so far, one flag for each state.
#[derive(Debug, Clone, Copy)]
pub struct StatusMask {
    charging: bool,
    discharging: bool,
    full: bool,
    unknown: bool,
}

impl View for StatusMask {
    type V = Set<ChargeStatus>;

    closed spec fn view(&self) -> Set<ChargeStatus> {
        Set::new(|s: ChargeStatus| self.holds(s))
    }
}

impl StatusMask {
    /// Tells whether the flag of `status` is set.
    pub closed spec fn holds(self, status: ChargeStatus) -> bool {
        match status {
            ChargeStatus::Charging => self.charging,
            ChargeStatus::Discharging => self.discharging,
            ChargeStatus::Full => self.full,
            ChargeStatus::Unknown => self.unknown,
        }
    }

    /// A mask with no state in it.
    pub fn new() -> (mask: StatusMask)
        ensures
            mask@ == Set::<ChargeStatus>::empty(),
    {
        let mask = StatusMask { charging: false, discharging: false, full: false, unknown: false };
        assert(mask@ =~= Set::<ChargeStatus>::empty());
        mask
    }

    /// Adds a state to the mask.
    pub fn insert(&mut self, status: ChargeStatus)
        ensures
            final(self)@ == old(self)@.insert(status),
    {
        match status {
            ChargeStatus::Charging => {
                self.charging = true;
            },
            ChargeStatus::Discharging => {
                self.discharging = true;
            },
            ChargeStatus::Full => {
                self.full = true;
            },
            ChargeStatus::Unknown => {
                self.unknown = true;
            },
        }
        assert(self@ =~= old(self)@.insert(status));
    }

    /// Tells whether a state is in the mask.
    pub fn contains(&self, status: ChargeStatus) -> (found: bool)
        ensures
            found == self@.contains(status),
    {
        match status {
            ChargeStatus::Charging => self.charging,
            ChargeStatus::Discharging => self.discharging,
            ChargeStatus::Full => self.full,
            ChargeStatus::Unknown => self.unknown,
        }
    }

    /// The mask as a number of four bits.
    pub fn bits(&self) -> (bits: u8)
        ensures
            bits == mask_bits(self@),
    {
        let mut bits: u8 = 0;
        if self.charging {
            bits = bits + 1;
        }
        if self.discharging {
            bits = bits + 2;
        }
        if self.full {
            bits = bits + 4;
        }
        if self.unknown {
            bits = bits + 8;
        }
        bits
    }

    /// The state of the fleet whose cells are in the states of the mask.
    pub fn resolve(&self) -> (status: ChargeStatus)
        ensures
            status == resolve_statuses(self@),
    {
        proof {
            lemma_resolve_by_membership(self@);
        }
        if self.unknown || (self.discharging && (self.charging || self.full)) {
            ChargeStatus::Unknown
        } else if self.discharging {
            ChargeStatus::Discharging
        } else if self.charging {
            ChargeStatus::Charging
        } else if self.full {
            ChargeStatus::Full
        } else {
            ChargeStatus::Unknown
        }
    }
}

} // verus!
