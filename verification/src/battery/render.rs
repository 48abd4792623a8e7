//! The fleet as the status bar shows it: long text, short text and colour.

use crate::battery::fleet::{Batteries, BatteriesView};
use crate::battery::percent::{percent_at_least, percent_rounded, Percent};
use crate::battery::status::ChargeStatus;
use crate::block::I3Block;
use crate::text::{decimal, decimal_padded, push_decimal, push_decimal_padded};
use vstd::prelude::*;
use vstd::string::*;

verus! {

/// The colour of a discharging fleet whose charge is `part` of `whole`: one
/// step for every ten percent, from green at ninety and above down to red
/// below ten.
pub open spec fn discharge_color(part: nat, whole: nat) -> Seq<char> {
    if percent_at_least(part, whole, 90) {
        "#00FF00"@
    } else if percent_at_least(part, whole, 80) {
        "#37FF00"@
    } else if percent_at_least(part, whole, 70) {
        "#75FF00"@
    } else if percent_at_least(part, whole, 60) {
        "#AAFF00"@
    } else if percent_at_least(part, whole, 50) {
        "#E1FF00"@
    } else if percent_at_least(part, whole, 40) {
        "#FFE100"@
    } else if percent_at_least(part, whole, 30) {
        "#FFAA00"@
    } else if percent_at_least(part, whole, 20) {
        "#FF7300"@
    } else if percent_at_least(part, whole, 10) {
        "#FF3700"@
    } else {
        "#FF000"@
    }
}

/// The colour of a fleet: green while it charges, by its charge while it
/// discharges, white otherwise.
pub open spec fn color_of(fleet: BatteriesView) -> Seq<char> {
    match fleet.charge_status {
        ChargeStatus::Charging => "#00FF00"@,
        ChargeStatus::Discharging => discharge_color(fleet.capacity_now, fleet.capacity_full),
        _ => "#FFFFFF"@,
    }
}

/// Seconds as hours, minutes and seconds: the hours as they are, minutes and
/// seconds with two digits.
pub open spec fn clock(time: nat) -> Seq<char> {
    decimal(time / 3600) + ":"@ + decimal_padded((time % 3600) / 60) + ":"@ + decimal_padded(
        time % 60,
    )
}

/// What follows the texts of a fleet that charges or discharges: a blank and
/// the time remaining. Other fleets show no time.
pub open spec fn time_suffix(fleet: BatteriesView) -> Seq<char> {
    match fleet.charge_status {
        ChargeStatus::Charging | ChargeStatus::Discharging => " "@ + clock(
            fleet.time_remaining as nat,
        ),
        _ => Seq::empty(),
    }
}

/// The battery level of a fleet in rounded percent, in digits.
pub open spec fn charge_digits(fleet: BatteriesView) -> Seq<char> {
    decimal(percent_rounded(fleet.capacity_now, fleet.capacity_full))
}

/// The full charge of a fleet in rounded percent of its design charge, in
/// digits.
pub open spec fn capacity_digits(fleet: BatteriesView) -> Seq<char> {
    decimal(percent_rounded(fleet.capacity_full, fleet.capacity_design))
}

/// The long text of a fleet.
pub open spec fn full_text(fleet: BatteriesView) -> Seq<char> {
    "BAT "@ + charge_digits(fleet) + "% ("@ + capacity_digits(fleet) + "%) "@
        + fleet.charge_status.label() + time_suffix(fleet)
}

/// The short text of a fleet.
pub open spec fn short_text(fleet: BatteriesView) -> Seq<char> {
    "BAT "@ + charge_digits(fleet) + "%"@ + time_suffix(fleet)
}

/// The three lines of a fleet's block.
pub open spec fn block_text(fleet: BatteriesView) -> Seq<char> {
    full_text(fleet) + "\n"@ + short_text(fleet) + "\n"@ + color_of(fleet)
}

/// Picks the colour of a discharging fleet.
pub fn discharge_color_text(charge: &Percent) -> (color: &'static str)
    ensures
        color@ == discharge_color(charge.part as nat, charge.whole as nat),
{
    if charge.at_least(90) {
        "#00FF00"
    } else if charge.at_least(80) {
        "#37FF00"
    } else if charge.at_least(70) {
        "#75FF00"
    } else if charge.at_least(60) {
        "#AAFF00"
    } else if charge.at_least(50) {
        "#E1FF00"
    } else if charge.at_least(40) {
        "#FFE100"
    } else if charge.at_least(30) {
        "#FFAA00"
    } else if charge.at_least(20) {
        "#FF7300"
    } else if charge.at_least(10) {
        "#FF3700"
    } else {
        "#FF000"
    }
}

/// Appends seconds as hours, minutes and seconds.
pub fn push_clock(out: &mut String, time: u64)
    ensures
        final(out)@ == old(out)@ + clock(time as nat),
{
    let hours: u64 = time / 3600;
    let minutes: u64 = (time % 3600) / 60;
    let seconds: u64 = time % 60;
    push_decimal(out, hours as u128);
    out.append(":");
    push_decimal_padded(out, minutes as u128);
    out.append(":");
    push_decimal_padded(out, seconds as u128);
    assert(out@ =~= old(out)@ + clock(time as nat));
}

impl Batteries {
    /// The colour in which the fleet is shown.
    pub fn color(&self) -> (color: &'static str)
        ensures
            color@ == color_of(self@),
    {
        match self.charge_status() {
            ChargeStatus::Charging => "#00FF00",
            ChargeStatus::Discharging => discharge_color_text(&self.charge_percent()),
            _ => "#FFFFFF",
        }
    }

    /// Appends the time remaining, where the fleet shows one.
    fn push_time_suffix(&self, out: &mut String)
        ensures
            final(out)@ == old(out)@ + time_suffix(self@),
    {
        match self.charge_status() {
            ChargeStatus::Charging | ChargeStatus::Discharging => {
                out.append(" ");
                push_clock(out, self.time_remaining());
                assert(out@ =~= old(out)@ + time_suffix(self@));
            },
            _ => {
                assert(out@ =~= old(out)@ + time_suffix(self@));
            },
        }
    }
}

impl I3Block for Batteries {
    /// The long text, the short text and the colour, one to a line.
    fn format_i3(&self) -> (text: String)
        ensures
            text@ == block_text(self@),
    {
        let charge = self.charge_percent().rounded_text();
        let capacity = self.capacity_percent().rounded_text();
        let mut text = String::from_str("BAT ");
        text.append(charge.as_str());
        text.append("% (");
        text.append(capacity.as_str());
        text.append("%) ");
        text.append(self.charge_status().short_label());
        self.push_time_suffix(&mut text);
        assert(text@ =~= full_text(self@));
        text.append("\n");
        text.append("BAT ");
        text.append(charge.as_str());
        text.append("%");
        self.push_time_suffix(&mut text);
        assert(text@ =~= full_text(self@) + "\n"@ + short_text(self@));
        text.append("\n");
        text.append(self.color());
        assert(text@ =~= block_text(self@));
        text
    }
}

} // verus!
