//! One battery cell: what its attribute files say, and the validated cell
//! that is made of it.

use crate::battery::status::{status_of, ChargeStatus};
use crate::text::{parse_decimal, parse_u64, str_eq, trim, trimmed};
use vstd::prelude::*;
use vstd::string::*;

verus! {

/// What was read of one cell: charges in mAh, the current in mA, and the
/// status text as the device wrote it. A value that could not be read is
/// absent.
pub struct RawCellReading {
    pub charge_full: Option<u64>,
    pub charge_full_design: Option<u64>,
    pub charge_now: Option<u64>,
    pub current_now: Option<u64>,
    pub status: Option<String>,
}

/// A reading as a mathematical value.
pub struct RawCellReadingView {
    pub charge_full: Option<u64>,
    pub charge_full_design: Option<u64>,
    pub charge_now: Option<u64>,
    pub current_now: Option<u64>,
    pub status: Option<Seq<char>>,
}

impl View for RawCellReading {
    type V = RawCellReadingView;

    open spec fn view(&self) -> RawCellReadingView {
        RawCellReadingView {
            charge_full: self.charge_full,
            charge_full_design: self.charge_full_design,
            charge_now: self.charge_now,
            current_now: self.current_now,
            status: match self.status {
                Some(s) => Some(s@),
                None => None,
            },
        }
    }
}

/// The milli-units that a file of micro-units holds: its number, read
/// without the white space around it, divided by 1000 and rounded down.
pub open spec fn milli_units(contents: Option<Seq<char>>) -> Option<u64> {
    match contents {
        Some(c) => match parse_decimal(trimmed(c)) {
            Some(micro) => Some(micro / 1000),
            None => None,
        },
        None => None,
    }
}

/// The text that a file holds, without the white space around it.
pub open spec fn trimmed_text(contents: Option<Seq<char>>) -> Option<Seq<char>> {
    match contents {
        Some(c) => Some(trimmed(c)),
        None => None,
    }
}

impl RawCellReadingView {
    /// The reading with nothing in it.
    pub open spec fn empty() -> RawCellReadingView {
        RawCellReadingView {
            charge_full: None,
            charge_full_design: None,
            charge_now: None,
            current_now: None,
            status: None,
        }
    }

    /// The reading after the attribute file `attribute` was seen with
    /// `contents`, or with none where it could not be read. A file of
    /// another name changes nothing.
    pub open spec fn recorded(
        self,
        attribute: Seq<char>,
        contents: Option<Seq<char>>,
    ) -> RawCellReadingView {
        if attribute == "charge_full"@ {
            RawCellReadingView { charge_full: milli_units(contents), ..self }
        } else if attribute == "charge_full_design"@ {
            RawCellReadingView { charge_full_design: milli_units(contents), ..self }
        } else if attribute == "charge_now"@ {
            RawCellReadingView { charge_now: milli_units(contents), ..self }
        } else if attribute == "current_now"@ {
            RawCellReadingView { current_now: milli_units(contents), ..self }
        } else if attribute == "status"@ {
            RawCellReadingView { status: trimmed_text(contents), ..self }
        } else {
            self
        }
    }
}

/// Tells whether a cell's directory is read for a file of this name.
pub open spec fn is_attribute(name: Seq<char>) -> bool {
    name == "charge_full"@ || name == "charge_full_design"@ || name == "charge_now"@ || name
        == "current_now"@ || name == "status"@
}

/// The view of a file's contents, where there are any.
pub open spec fn contents_view(contents: Option<&str>) -> Option<Seq<char>> {
    match contents {
        Some(c) => Some(c@),
        None => None,
    }
}

/// Reads a file of micro-units as milli-units.
pub fn read_milli_units(contents: Option<&str>) -> (value: Option<u64>)
    ensures
        value == milli_units(contents_view(contents)),
{
    match contents {
        Some(c) => match parse_u64(trim(c)) {
            Some(micro) => Some(micro / 1000),
            None => None,
        },
        None => None,
    }
}

/// Reads a file of text.
pub fn read_text(contents: Option<&str>) -> (value: Option<String>)
    ensures
        match value {
            Some(t) => trimmed_text(contents_view(contents)) == Some(t@),
            None => trimmed_text(contents_view(contents)) is None,
        },
{
    match contents {
        Some(c) => Some(String::from_str(trim(c))),
        None => None,
    }
}

impl RawCellReading {
    /// A reading with nothing in it.
    pub fn new() -> (reading: RawCellReading)
        ensures
            reading@ == RawCellReadingView::empty(),
    {
        RawCellReading {
            charge_full: None,
            charge_full_design: None,
            charge_now: None,
            current_now: None,
            status: None,
        }
    }

    /// Tells whether a cell's directory is read for a file of this name:
    /// every other file leaves a reading as it is.
    pub fn reads(attribute: &str) -> (wanted: bool)
        ensures
            wanted == is_attribute(attribute@),
            !wanted ==> forall|reading: RawCellReadingView, contents: Option<Seq<char>>|
                #[trigger] reading.recorded(attribute@, contents) == reading,
    {
        str_eq(attribute, "charge_full") || str_eq(attribute, "charge_full_design") || str_eq(
            attribute,
            "charge_now",
        ) || str_eq(attribute, "current_now") || str_eq(attribute, "status")
    }

    /// Tells whether the present charge was read above the full charge, so
    /// that validation will cut it down.
    pub fn overcharged(&self) -> (over: bool)
        ensures
            over == (self.charge_now is Some && self.charge_full is Some && self.charge_now->0
                > self.charge_full->0),
    {
        match (self.charge_now, self.charge_full) {
            (Some(now), Some(full)) => now > full,
            _ => false,
        }
    }

    /// Takes in one attribute file of the cell's directory: its name and its
    /// contents, or none where the file could not be read.
    pub fn record(&mut self, attribute: &str, contents: Option<&str>)
        ensures
            final(self)@ == old(self)@.recorded(attribute@, contents_view(contents)),
    {
        if str_eq(attribute, "charge_full") {
            self.charge_full = read_milli_units(contents);
        } else if str_eq(attribute, "charge_full_design") {
            self.charge_full_design = read_milli_units(contents);
        } else if str_eq(attribute, "charge_now") {
            self.charge_now = read_milli_units(contents);
        } else if str_eq(attribute, "current_now") {
            self.current_now = read_milli_units(contents);
        } else if str_eq(attribute, "status") {
            self.status = read_text(contents);
        }
    }
}

/// The seconds that a current of `rate` mA takes to move `charge` mAh,
/// rounded down. Without a current there is no estimate, and the answer is
/// zero; an answer beyond the largest `u64` is that largest number.
pub open spec fn seconds_to_move(charge: nat, rate: nat) -> u64 {
    if rate == 0 {
        0
    } else if 3600 * charge / rate > u64::MAX {
        u64::MAX
    } else {
        (3600 * charge / rate) as u64
    }
}

/// Computes `seconds_to_move`.
pub fn seconds(charge: u64, rate: u64) -> (time: u64)
    ensures
        time == seconds_to_move(charge as nat, rate as nat),
{
    if rate == 0 {
        return 0;
    }
    let wide: u128 = 3600u128 * (charge as u128) / (rate as u128);
    if wide > u64::MAX as u128 {
        u64::MAX
    } else {
        wide as u64
    }
}

/// A validated cell as a mathematical value.
pub struct BatteryView {
    pub name: Seq<char>,
    pub capacity_design: u64,
    pub capacity_full: u64,
    pub capacity_now: u64,
    pub charge_status: ChargeStatus,
    pub present_rate: u64,
    pub time_remaining: u64,
}

/// The cell that a reading makes, or nothing where one of the four numbers
/// is absent.
///
/// A charging cell needs the time to fill what is missing to the full
/// charge, a discharging cell the time to drain the present charge; a full
/// cell and one in an unknown state need none. A present charge above the
/// full charge is then cut down to the full charge.
pub open spec fn validated(name: Seq<char>, reading: RawCellReadingView) -> Option<BatteryView> {
    if reading.charge_full is Some && reading.charge_full_design is Some && reading.charge_now is Some
        && reading.current_now is Some {
        let full = reading.charge_full->0;
        let now = reading.charge_now->0;
        let rate = reading.current_now->0;
        let status = status_of(reading.status);
        Some(
            BatteryView {
                name,
                capacity_design: reading.charge_full_design->0,
                capacity_full: full,
                capacity_now: if now > full {
                    full
                } else {
                    now
                },
                charge_status: status,
                present_rate: rate,
                time_remaining: match status {
                    ChargeStatus::Charging => seconds_to_move(
                        if now > full {
                            0nat
                        } else {
                            (full - now) as nat
                        },
                        rate as nat,
                    ),
                    ChargeStatus::Discharging => seconds_to_move(now as nat, rate as nat),
                    _ => 0,
                },
            },
        )
    } else {
        None
    }
}

/// No validated cell holds more charge than its full charge.
pub proof fn lemma_validated_within_full(name: Seq<char>, reading: RawCellReadingView)
    ensures
        validated(name, reading) matches Some(cell) ==> cell.capacity_now <= cell.capacity_full,
{
}

/// What a cell looks like does not depend on the order in which two
/// different attribute files of its directory were read.
pub proof fn lemma_record_order(
    reading: RawCellReadingView,
    first: Seq<char>,
    first_contents: Option<Seq<char>>,
    second: Seq<char>,
    second_contents: Option<Seq<char>>,
)
    requires
        first != second,
    ensures
        reading.recorded(first, first_contents).recorded(second, second_contents)
            == reading.recorded(second, second_contents).recorded(first, first_contents),
{
}

/// One validated battery cell. Its present charge never exceeds its full
/// charge.
pub struct Battery {
    name: String,
    capacity_design: u64,
    capacity_full: u64,
    capacity_now: u64,
    charge_status: ChargeStatus,
    present_rate: u64,
    time_remaining: u64,
}

impl View for Battery {
    type V = BatteryView;

    closed spec fn view(&self) -> BatteryView {
        BatteryView {
            name: self.name@,
            capacity_design: self.capacity_design,
            capacity_full: self.capacity_full,
            capacity_now: self.capacity_now,
            charge_status: self.charge_status,
            present_rate: self.present_rate,
            time_remaining: self.time_remaining,
        }
    }
}

impl Battery {
    #[verifier::type_invariant]
    spec fn within_full(self) -> bool {
        self.capacity_now <= self.capacity_full
    }

    /// Validates the reading of the cell called `name`. The cell is refused
    /// where the full charge, the design charge, the present charge or the
    /// current is absent.
    pub fn new(name: &str, reading: &RawCellReading) -> (battery: Option<Battery>)
        ensures
            match battery {
                Some(b) => validated(name@, reading@) == Some(b@),
                None => validated(name@, reading@) is None,
            },
            battery matches Some(b) ==> b@.capacity_now <= b@.capacity_full,
    {
        let full: u64 = match reading.charge_full {
            Some(v) => v,
            None => {
                return None;
            },
        };
        let design: u64 = match reading.charge_full_design {
            Some(v) => v,
            None => {
                return None;
            },
        };
        let now: u64 = match reading.charge_now {
            Some(v) => v,
            None => {
                return None;
            },
        };
        let rate: u64 = match reading.current_now {
            Some(v) => v,
            None => {
                return None;
            },
        };
        let status = match &reading.status {
            Some(text) => ChargeStatus::from_text(text.as_str()),
            None => ChargeStatus::Unknown,
        };
        let time: u64 = match status {
            ChargeStatus::Charging => seconds(
                if now > full {
                    0
                } else {
                    full - now
                },
                rate,
            ),
            ChargeStatus::Discharging => seconds(now, rate),
            _ => 0,
        };
        Some(
            Battery {
                name: String::from_str(name),
                capacity_design: design,
                capacity_full: full,
                capacity_now: if now > full {
                    full
                } else {
                    now
                },
                charge_status: status,
                present_rate: rate,
                time_remaining: time,
            },
        )
    }

    /// The cell's name.
    pub fn name(&self) -> (name: &str)
        ensures
            name@ == self@.name,
    {
        self.name.as_str()
    }

    /// The charge that the cell was built to hold, in mAh.
    pub fn capacity_design(&self) -> (capacity: u64)
        ensures
            capacity == self@.capacity_design,
    {
        self.capacity_design
    }

    /// The charge that the cell holds when full, in mAh.
    pub fn capacity_full(&self) -> (capacity: u64)
        ensures
            capacity == self@.capacity_full,
    {
        self.capacity_full
    }

    /// The charge that the cell holds now, in mAh.
    pub fn capacity_now(&self) -> (capacity: u64)
        ensures
            capacity == self@.capacity_now,
            capacity <= self@.capacity_full,
    {
        proof {
            use_type_invariant(self);
        }
        self.capacity_now
    }

    /// What the cell is doing.
    pub fn charge_status(&self) -> (status: ChargeStatus)
        ensures
            status == self@.charge_status,
    {
        self.charge_status
    }

    /// The current that flows, in mA.
    pub fn present_rate(&self) -> (rate: u64)
        ensures
            rate == self@.present_rate,
    {
        self.present_rate
    }

    /// The seconds until the cell is full or empty.
    pub fn time_remaining(&self) -> (time: u64)
        ensures
            time == self@.time_remaining,
    {
        self.time_remaining
    }
}

} // verus!
