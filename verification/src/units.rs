//! Units as systemd lists them, and what is counted over all of them.

use vstd::prelude::*;
use zbus::zvariant::OwnedObjectPath;

use crate::names::NameMap;
use crate::timer::TimerStats;

verus! {

/// A unit that systemd lists.
pub struct ListedUnit {
    /// The primary name of the unit.
    pub name: String,
    /// The object of the unit on the bus.
    pub unit_object_path: OwnedObjectPath,
}

/// What is known of the timers among the units.
pub struct SystemdUnitStats {
    /// How many timers have Persistent= set.
    pub timer_persistent_units: u64,
    /// How many timers have RemainAfterElapse= set.
    pub timer_remain_after_elapse: u64,
    /// The timers, by unit name.
    pub timer_stats: NameMap<TimerStats>,
}

/// A [`SystemdUnitStats`] over mathematical numbers and maps.
#[verifier::ext_equal]
pub struct UnitStatsView {
    pub timer_persistent_units: int,
    pub timer_remain_after_elapse: int,
    pub timer_stats: Map<Seq<char>, TimerStats>,
}

impl View for SystemdUnitStats {
    type V = UnitStatsView;

    open spec fn view(&self) -> UnitStatsView {
        UnitStatsView {
            timer_persistent_units: self.timer_persistent_units as int,
            timer_remain_after_elapse: self.timer_remain_after_elapse as int,
            timer_stats: self.timer_stats@,
        }
    }
}

/// Nothing counted and nothing known.
pub open spec fn no_stats() -> UnitStatsView {
    UnitStatsView {
        timer_persistent_units: 0,
        timer_remain_after_elapse: 0,
        timer_stats: Map::empty(),
    }
}

impl Default for SystemdUnitStats {
    fn default() -> (stats: Self)
        ensures
            stats@ == no_stats(),
            stats.timer_persistent_units == 0,
            stats.timer_remain_after_elapse == 0,
            stats.timer_stats@ == Map::<Seq<char>, TimerStats>::empty(),
    {
        SystemdUnitStats {
            timer_persistent_units: 0,
            timer_remain_after_elapse: 0,
            timer_stats: NameMap::new(),
        }
    }
}

/// The view of what is known has its counters and its timers, each in its place; and where
/// nothing is known, the counters are zero and there are no timers.
pub proof fn law_unit_stats_views(stats: SystemdUnitStats)
    ensures
        stats@.timer_persistent_units == stats.timer_persistent_units,
        stats@.timer_remain_after_elapse == stats.timer_remain_after_elapse,
        stats@.timer_stats == stats.timer_stats@,
        no_stats().timer_persistent_units == 0,
        no_stats().timer_remain_after_elapse == 0,
        no_stats().timer_stats == Map::<Seq<char>, TimerStats>::empty(),
{
}

} // verus!
