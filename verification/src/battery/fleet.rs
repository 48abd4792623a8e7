//! The fleet: all cells of the machine, combined into one logical battery.

use crate::battery::cell::{validated, Battery, BatteryView, RawCellReading};
use crate::battery::percent::Percent;
use crate::battery::status::{resolve_statuses, ChargeStatus, StatusMask};
use crate::text::starts_with;
use vstd::prelude::*;
use vstd::string::*;

verus! {

/// The sums of what the cells of a fleet hold.
pub struct Totals {
    pub design: nat,
    pub full: nat,
    pub now: nat,
    pub time: nat,
}

/// Adds up, cell by cell, the design charge, the full charge, the present
/// charge and the time remaining.
pub open spec fn totals(cells: Seq<BatteryView>) -> Totals
    decreases cells.len(),
{
    if cells.len() == 0 {
        Totals { design: 0, full: 0, now: 0, time: 0 }
    } else {
        let rest = totals(cells.drop_last());
        let cell = cells.last();
        Totals {
            design: rest.design + cell.capacity_design as nat,
            full: rest.full + cell.capacity_full as nat,
            now: rest.now + cell.capacity_now as nat,
            time: rest.time + cell.time_remaining as nat,
        }
    }
}

/// The distinct states in which the cells are, however many share one.
pub open spec fn statuses_seen(cells: Seq<BatteryView>) -> Set<ChargeStatus> {
    Set::new(
        |status: ChargeStatus|
            exists|i: int| 0 <= i < cells.len() && (#[trigger] cells[i]).charge_status == status,
    )
}

/// The state of the fleet that the cells form.
pub open spec fn fleet_status(cells: Seq<BatteryView>) -> ChargeStatus {
    resolve_statuses(statuses_seen(cells))
}

/// A fleet as a mathematical value.
pub struct BatteriesView {
    pub cells: Seq<BatteryView>,
    pub capacity_design: nat,
    pub capacity_full: nat,
    pub capacity_now: nat,
    pub charge_status: ChargeStatus,
    pub time_remaining: u64,
}

/// The fleet that the cells form: plain sums of the three charges, the state
/// that their states resolve to, and, while the fleet charges or discharges,
/// the sum of the times remaining (at most the largest `u64`); otherwise
/// no time.
pub open spec fn combined(cells: Seq<BatteryView>) -> BatteriesView {
    let sums = totals(cells);
    let status = fleet_status(cells);
    BatteriesView {
        cells,
        capacity_design: sums.design,
        capacity_full: sums.full,
        capacity_now: sums.now,
        charge_status: status,
        time_remaining: if status == ChargeStatus::Charging || status == ChargeStatus::Discharging {
            if sums.time > u64::MAX {
                u64::MAX
            } else {
                sums.time as u64
            }
        } else {
            0
        },
    }
}

/// The cells of a vector as mathematical values.
pub open spec fn views(cells: Seq<Battery>) -> Seq<BatteryView> {
    cells.map_values(|cell: Battery| cell@)
}

/// What the block shows when no fleet can be had.
pub open spec fn error_text() -> Seq<char> {
    "BAT Error!\nBAT Error!\n#FF0000"@
}

/// One more cell adds its state to the states seen.
pub proof fn lemma_statuses_push(cells: Seq<BatteryView>, cell: BatteryView)
    ensures
        statuses_seen(cells.push(cell)) == statuses_seen(cells).insert(cell.charge_status),
{
    let more = cells.push(cell);
    let left = statuses_seen(more);
    let right = statuses_seen(cells).insert(cell.charge_status);
    assert forall|status: ChargeStatus| left.contains(status) == right.contains(status) by {
        if left.contains(status) {
            let i = choose|i: int| 0 <= i < more.len() && (#[trigger] more[i]).charge_status == status;
            if i < cells.len() {
                assert(cells[i].charge_status == status);
            }
        }
        if right.contains(status) {
            if status == cell.charge_status {
                assert(more[cells.len() as int].charge_status == status);
            } else {
                let i = choose|i: int|
                    0 <= i < cells.len() && (#[trigger] cells[i]).charge_status == status;
                assert(more[i].charge_status == status);
            }
        }
    }
    assert(left =~= right);
}

/// The state of a fleet does not depend on the order of its cells.
pub proof fn lemma_status_order_independent(first: Seq<BatteryView>, second: Seq<BatteryView>)
    requires
        first.to_multiset() == second.to_multiset(),
    ensures
        fleet_status(first) == fleet_status(second),
{
    first.to_multiset_ensures();
    second.to_multiset_ensures();
    let left = statuses_seen(first);
    let right = statuses_seen(second);
    assert forall|status: ChargeStatus| left.contains(status) == right.contains(status) by {
        if left.contains(status) {
            let i = choose|i: int| 0 <= i < first.len() && (#[trigger] first[i]).charge_status == status;
            assert(first.contains(first[i]));
            assert(second.to_multiset().count(first[i]) > 0);
            assert(second.contains(first[i]));
            let j = choose|j: int| 0 <= j < second.len() && second[j] == first[i];
            assert(second[j].charge_status == status);
        }
        if right.contains(status) {
            let i = choose|i: int|
                0 <= i < second.len() && (#[trigger] second[i]).charge_status == status;
            assert(second.contains(second[i]));
            assert(first.to_multiset().count(second[i]) > 0);
            assert(first.contains(second[i]));
            let j = choose|j: int| 0 <= j < first.len() && first[j] == second[i];
            assert(first[j].charge_status == status);
        }
    }
    assert(left =~= right);
}

/// The sums of a fleet with one cell taken out, and that cell, make the sums
/// of the fleet.
pub proof fn lemma_totals_remove(cells: Seq<BatteryView>, i: int)
    requires
        0 <= i < cells.len(),
    ensures
        totals(cells).design == totals(cells.remove(i)).design + cells[i].capacity_design,
        totals(cells).full == totals(cells.remove(i)).full + cells[i].capacity_full,
        totals(cells).now == totals(cells.remove(i)).now + cells[i].capacity_now,
        totals(cells).time == totals(cells.remove(i)).time + cells[i].time_remaining,
    decreases cells.len(),
{
    if i == cells.len() - 1 {
        assert(cells.remove(i) =~= cells.drop_last());
    } else {
        let shorter = cells.drop_last();
        lemma_totals_remove(shorter, i);
        assert(cells.remove(i).drop_last() =~= shorter.remove(i));
        assert(cells.remove(i).last() == cells.last());
    }
}

/// The sums of a fleet do not depend on the order of its cells.
pub proof fn lemma_totals_order_independent(first: Seq<BatteryView>, second: Seq<BatteryView>)
    requires
        first.to_multiset() == second.to_multiset(),
    ensures
        totals(first) == totals(second),
    decreases first.len(),
{
    first.to_multiset_ensures();
    second.to_multiset_ensures();
    if first.len() == 0 {
        assert(second.len() == 0);
    } else {
        let cell = first.last();
        assert(first.contains(cell));
        assert(second.to_multiset().count(cell) > 0);
        assert(second.contains(cell));
        let j = choose|j: int| 0 <= j < second.len() && second[j] == cell;
        assert(first.remove(first.len() - 1) =~= first.drop_last());
        assert(first.drop_last().to_multiset() =~= second.remove(j).to_multiset());
        lemma_totals_order_independent(first.drop_last(), second.remove(j));
        lemma_totals_remove(second, j);
    }
}

/// A fleet of cells in another order differs in the order of its cells and
/// in nothing else.
pub proof fn lemma_combined_order_independent(first: Seq<BatteryView>, second: Seq<BatteryView>)
    requires
        first.to_multiset() == second.to_multiset(),
    ensures
        combined(second) == (BatteriesView { cells: second, ..combined(first) }),
{
    lemma_status_order_independent(first, second);
    lemma_totals_order_independent(first, second);
}

/// No fleet holds more charge than its full charge.
pub proof fn lemma_totals_within_full(cells: Seq<BatteryView>)
    requires
        forall|i: int| 0 <= i < cells.len() ==> (#[trigger] cells[i]).capacity_now <= cells[i].capacity_full,
    ensures
        totals(cells).now <= totals(cells).full,
    decreases cells.len(),
{
    if cells.len() > 0 {
        let shorter = cells.drop_last();
        assert forall|i: int| 0 <= i < shorter.len() implies (#[trigger] shorter[i]).capacity_now
            <= shorter[i].capacity_full by {
            assert(shorter[i] == cells[i]);
        }
        lemma_totals_within_full(shorter);
    }
}

/// What was found under one entry of the power-supply directory: the
/// entry's name and the reading of its attribute files.
pub struct DeviceReading {
    pub name: String,
    pub reading: RawCellReading,
}

/// Tells whether a device of this name is a battery.
pub open spec fn is_battery_name(name: Seq<char>) -> bool {
    "BAT"@.is_prefix_of(name)
}

/// The cells that the devices make, in the devices' order: a device counts
/// where its name is a battery's and its reading is valid.
pub open spec fn surviving(devices: Seq<DeviceReading>) -> Seq<BatteryView>
    decreases devices.len(),
{
    if devices.len() == 0 {
        Seq::empty()
    } else {
        let rest = surviving(devices.drop_last());
        let device = devices.last();
        match validated(device.name@, device.reading@) {
            Some(cell) => if is_battery_name(device.name@) {
                rest.push(cell)
            } else {
                rest
            },
            None => rest,
        }
    }
}

/// The names of the batteries whose reading is not valid, in the devices'
/// order.
pub open spec fn refused(devices: Seq<DeviceReading>) -> Seq<Seq<char>>
    decreases devices.len(),
{
    if devices.len() == 0 {
        Seq::empty()
    } else {
        let rest = refused(devices.drop_last());
        let device = devices.last();
        if is_battery_name(device.name@) && validated(device.name@, device.reading@) is None {
            rest.push(device.name@)
        } else {
            rest
        }
    }
}

/// The texts of a vector as mathematical values.
pub open spec fn texts(names: Seq<String>) -> Seq<Seq<char>> {
    names.map_values(|name: String| name@)
}

/// Tells whether a device of this name is a battery.
pub fn is_battery(name: &str) -> (battery: bool)
    ensures
        battery == is_battery_name(name@),
{
    starts_with(name, "BAT")
}

/// The outcome of looking at every device: the cells that are valid, and the
/// names of the batteries that are not.
pub struct Survey {
    pub cells: Vec<Battery>,
    pub rejected: Vec<String>,
}

/// Validates the batteries among the devices.
pub fn survey(devices: &Vec<DeviceReading>) -> (found: Survey)
    ensures
        views(found.cells@) == surviving(devices@),
        texts(found.rejected@) == refused(devices@),
{
    let mut cells: Vec<Battery> = Vec::new();
    let mut rejected: Vec<String> = Vec::new();
    let mut i: usize = 0;
    assert(views(cells@) =~= surviving(devices@.take(0)));
    assert(texts(rejected@) =~= refused(devices@.take(0)));
    while i < devices.len()
        invariant
            i <= devices.len(),
            views(cells@) == surviving(devices@.take(i as int)),
            texts(rejected@) == refused(devices@.take(i as int)),
        decreases devices.len() - i,
    {
        let device = &devices[i];
        let ghost cells_before = cells@;
        let ghost rejected_before = rejected@;
        proof {
            let after = devices@.take(i + 1);
            assert(after.drop_last() =~= devices@.take(i as int));
            assert(after.last() == devices@[i as int]);
        }
        if is_battery(device.name.as_str()) {
            match Battery::new(device.name.as_str(), &device.reading) {
                Some(cell) => {
                    cells.push(cell);
                    assert(views(cells@) =~= views(cells_before).push(cell@));
                },
                None => {
                    rejected.push(device.name.clone());
                    assert(texts(rejected@) =~= texts(rejected_before).push(device.name@));
                },
            }
        }
        i = i + 1;
    }
    assert(devices@.take(devices.len() as int) =~= devices@);
    Survey { cells, rejected }
}

/// All cells of the machine as one logical battery.
pub struct Batteries {
    cells: Vec<Battery>,
    capacity_design: u128,
    capacity_full: u128,
    capacity_now: u128,
    charge_status: ChargeStatus,
    time_remaining: u64,
}

impl View for Batteries {
    type V = BatteriesView;

    closed spec fn view(&self) -> BatteriesView {
        BatteriesView {
            cells: views(self.cells@),
            capacity_design: self.capacity_design as nat,
            capacity_full: self.capacity_full as nat,
            capacity_now: self.capacity_now as nat,
            charge_status: self.charge_status,
            time_remaining: self.time_remaining,
        }
    }
}

/// What the block shows when no fleet can be had.
pub fn default_error() -> (text: String)
    ensures
        text@ == error_text(),
{
    String::from_str("BAT Error!\nBAT Error!\n#FF0000")
}

impl Batteries {
    #[verifier::type_invariant]
    spec fn consistent(self) -> bool {
        self.cells@.len() > 0 && self@ == combined(views(self.cells@))
    }

    /// Combines validated cells into a fleet. A fleet needs one cell at
    /// least: of none, the answer is the error text.
    pub fn new(cells: Vec<Battery>) -> (fleet: Result<Batteries, String>)
        ensures
            match fleet {
                Ok(batteries) => cells@.len() > 0 && batteries@ == combined(views(cells@)),
                Err(text) => cells@.len() == 0 && text@ == error_text(),
            },
            fleet matches Ok(batteries) ==> batteries@.capacity_now <= batteries@.capacity_full,
    {
        if cells.len() == 0 {
            return Err(default_error());
        }
        let ghost all = views(cells@);
        let mut mask = StatusMask::new();
        let mut design: u128 = 0;
        let mut full: u128 = 0;
        let mut now: u128 = 0;
        let mut time: u128 = 0;
        let mut i: usize = 0;
        assert(statuses_seen(all.take(0)) =~= Set::<ChargeStatus>::empty());
        while i < cells.len()
            invariant
                i <= cells.len(),
                all == views(cells@),
                mask@ == statuses_seen(all.take(i as int)),
                design == totals(all.take(i as int)).design,
                full == totals(all.take(i as int)).full,
                now == totals(all.take(i as int)).now,
                time == totals(all.take(i as int)).time,
                design <= i * 0xFFFF_FFFF_FFFF_FFFF,
                full <= i * 0xFFFF_FFFF_FFFF_FFFF,
                now <= i * 0xFFFF_FFFF_FFFF_FFFF,
                time <= i * 0xFFFF_FFFF_FFFF_FFFF,
                now <= full,
            decreases cells.len() - i,
        {
            let cell = &cells[i];
            proof {
                let before = all.take(i as int);
                let after = all.take(i + 1);
                assert(all[i as int] == cell@);
                assert(after =~= before.push(cell@));
                assert(after.drop_last() =~= before);
                lemma_statuses_push(before, cell@);
            }
            mask.insert(cell.charge_status());
            design = design + cell.capacity_design() as u128;
            full = full + cell.capacity_full() as u128;
            now = now + cell.capacity_now() as u128;
            time = time + cell.time_remaining() as u128;
            i = i + 1;
        }
        assert(all.take(cells.len() as int) =~= all);
        let status = mask.resolve();
        let time_remaining: u64 = match status {
            ChargeStatus::Charging | ChargeStatus::Discharging => if time > u64::MAX as u128 {
                u64::MAX
            } else {
                time as u64
            },
            _ => 0,
        };
        Ok(
            Batteries {
                cells,
                capacity_design: design,
                capacity_full: full,
                capacity_now: now,
                charge_status: status,
                time_remaining,
            },
        )
    }

    /// Builds the fleet of the batteries among the devices. A battery whose
    /// reading is not valid is left out; where no cell is left, the answer is
    /// the error text.
    pub fn from_devices(devices: &Vec<DeviceReading>) -> (fleet: Result<Batteries, String>)
        ensures
            match fleet {
                Ok(batteries) => surviving(devices@).len() > 0 && batteries@ == combined(
                    surviving(devices@),
                ),
                Err(text) => surviving(devices@).len() == 0 && text@ == error_text(),
            },
            fleet matches Ok(batteries) ==> batteries@.capacity_now <= batteries@.capacity_full,
    {
        let found = survey(devices);
        Batteries::new(found.cells)
    }

    /// The cells of the fleet, in the order in which they were given.
    pub fn cells(&self) -> (cells: &Vec<Battery>)
        ensures
            views(cells@) == self@.cells,
            self@ == combined(self@.cells),
    {
        proof {
            use_type_invariant(self);
        }
        &self.cells
    }

    /// The sum of the cells' design charges, in mAh.
    pub fn capacity_design(&self) -> (capacity: u128)
        ensures
            capacity == self@.capacity_design,
            self@ == combined(self@.cells),
    {
        proof {
            use_type_invariant(self);
        }
        self.capacity_design
    }

    /// The sum of the cells' full charges, in mAh.
    pub fn capacity_full(&self) -> (capacity: u128)
        ensures
            capacity == self@.capacity_full,
            self@ == combined(self@.cells),
    {
        proof {
            use_type_invariant(self);
        }
        self.capacity_full
    }

    /// The sum of the cells' present charges, in mAh.
    pub fn capacity_now(&self) -> (capacity: u128)
        ensures
            capacity == self@.capacity_now,
            self@ == combined(self@.cells),
    {
        proof {
            use_type_invariant(self);
        }
        self.capacity_now
    }

    /// The full charge as a percentage of the design charge: how worn the
    /// fleet is.
    pub fn capacity_percent(&self) -> (percent: Percent)
        ensures
            percent.part == self@.capacity_full,
            percent.whole == self@.capacity_design,
            self@ == combined(self@.cells),
    {
        proof {
            use_type_invariant(self);
        }
        Percent { part: self.capacity_full, whole: self.capacity_design }
    }

    /// The present charge as a percentage of the full charge: the battery level.
    pub fn charge_percent(&self) -> (percent: Percent)
        ensures
            percent.part == self@.capacity_now,
            percent.whole == self@.capacity_full,
            self@ == combined(self@.cells),
    {
        proof {
            use_type_invariant(self);
        }
        Percent { part: self.capacity_now, whole: self.capacity_full }
    }

    /// What the fleet is doing.
    pub fn charge_status(&self) -> (status: ChargeStatus)
        ensures
            status == self@.charge_status,
            self@ == combined(self@.cells),
    {
        proof {
            use_type_invariant(self);
        }
        self.charge_status
    }

    /// The seconds until the fleet is full or empty.
    pub fn time_remaining(&self) -> (time: u64)
        ensures
            time == self@.time_remaining,
            self@ == combined(self@.cells),
    {
        proof {
            use_type_invariant(self);
        }
        self.time_remaining
    }
}

} // verus!
