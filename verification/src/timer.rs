//! The metrics of timer units.
//!
//! Collecting them takes calls over the bus, and each answer decides on the next call.
//! The decisions are here: every step names the call to make, and its `resume` takes the
//! answer and yields the next step.

use vstd::prelude::*;
use zbus::zvariant::{OwnedObjectPath, OwnedValue};

use crate::config::{Config, TimersConfig};
use crate::dbus_props;
use crate::dbus_props::{
    extract_property, DbusError, DbusErrorView, Properties, PropertiesRequest, ValueContents,
};
use crate::units;
use crate::units::{ListedUnit, SystemdUnitStats, UnitStatsView};

verus! {

/// Why the metrics of a timer could not be collected.
#[derive(Debug)]
pub enum MonitordTimerError {
    /// The bus did not answer as it should.
    ZbusError(DbusError),
}

/// Metrics of one timer unit, from the `org.freedesktop.systemd1.Timer` interface.
/// Ref: <https://www.freedesktop.org/software/systemd/man/org.freedesktop.systemd1.html>
#[derive(Debug, PartialEq, Eq, Structural)]
pub struct TimerStats {
    /// AccuracySec in microseconds: systemd may put off the timer by as much, to fire
    /// several at once.
    pub accuracy_usec: u64,
    /// Whether FixedRandomDelay= is set: the random delay is the same after each boot.
    pub fixed_random_delay: bool,
    /// When the timer last triggered its service, in microseconds since the epoch.
    pub last_trigger_usec: u64,
    /// When the timer last triggered its service, in microseconds since boot.
    pub last_trigger_usec_monotonic: u64,
    /// When the timer will next elapse, in microseconds since boot.
    pub next_elapse_usec_monotonic: u64,
    /// When the timer will next elapse, in microseconds since the epoch.
    pub next_elapse_usec_realtime: u64,
    /// Whether Persistent= is set: runs missed while the machine was down are made up for
    /// at the next boot.
    pub persistent: bool,
    /// RandomizedDelaySec in microseconds: a random delay of up to as much comes before
    /// each trigger.
    pub randomized_delay_usec: u64,
    /// Whether RemainAfterElapse= is set: the timer stays loaded when it will not elapse
    /// any more.
    pub remain_after_elapse: bool,
    /// When the triggered service last changed its state, in microseconds since the epoch.
    pub service_unit_last_state_change_usec: u64,
    /// When the triggered service last changed its state, in microseconds since boot.
    pub service_unit_last_state_change_usec_monotonic: u64,
}

/// The names of the fields of [`TimerStats`], in order.
pub const TIMER_STATS_FIELD_NAMES: [&'static str; 11] = [
    "accuracy_usec",
    "fixed_random_delay",
    "last_trigger_usec",
    "last_trigger_usec_monotonic",
    "next_elapse_usec_monotonic",
    "next_elapse_usec_realtime",
    "persistent",
    "randomized_delay_usec",
    "remain_after_elapse",
    "service_unit_last_state_change_usec",
    "service_unit_last_state_change_usec_monotonic",
];

impl Default for TimerStats {
    fn default() -> (stats: Self)
        ensures
            stats == blank_stats(),
            stats.accuracy_usec == 0,
            !stats.fixed_random_delay,
            stats.last_trigger_usec == 0,
            stats.last_trigger_usec_monotonic == 0,
            stats.next_elapse_usec_monotonic == 0,
            stats.next_elapse_usec_realtime == 0,
            !stats.persistent,
            stats.randomized_delay_usec == 0,
            !stats.remain_after_elapse,
            stats.service_unit_last_state_change_usec == 0,
            stats.service_unit_last_state_change_usec_monotonic == 0,
    {
        TimerStats {
            accuracy_usec: 0,
            fixed_random_delay: false,
            last_trigger_usec: 0,
            last_trigger_usec_monotonic: 0,
            next_elapse_usec_monotonic: 0,
            next_elapse_usec_realtime: 0,
            persistent: false,
            randomized_delay_usec: 0,
            remain_after_elapse: false,
            service_unit_last_state_change_usec: 0,
            service_unit_last_state_change_usec_monotonic: 0,
        }
    }
}

impl Clone for TimerStats {
    fn clone(&self) -> (copy: Self)
        ensures
            copy == *self,
    {
        TimerStats {
            accuracy_usec: self.accuracy_usec,
            fixed_random_delay: self.fixed_random_delay,
            last_trigger_usec: self.last_trigger_usec,
            last_trigger_usec_monotonic: self.last_trigger_usec_monotonic,
            next_elapse_usec_monotonic: self.next_elapse_usec_monotonic,
            next_elapse_usec_realtime: self.next_elapse_usec_realtime,
            persistent: self.persistent,
            randomized_delay_usec: self.randomized_delay_usec,
            remain_after_elapse: self.remain_after_elapse,
            service_unit_last_state_change_usec: self.service_unit_last_state_change_usec,
            service_unit_last_state_change_usec_monotonic: self.service_unit_last_state_change_usec_monotonic,
        }
    }
}

/// Metrics that are all zero or unset.
pub open spec fn blank_stats() -> TimerStats {
    TimerStats {
        accuracy_usec: 0,
        fixed_random_delay: false,
        last_trigger_usec: 0,
        last_trigger_usec_monotonic: 0,
        next_elapse_usec_monotonic: 0,
        next_elapse_usec_realtime: 0,
        persistent: false,
        randomized_delay_usec: 0,
        remain_after_elapse: false,
        service_unit_last_state_change_usec: 0,
        service_unit_last_state_change_usec_monotonic: 0,
    }
}

/// The interface that has the properties of a timer.
pub const TIMER_INTERFACE: &'static str = "org.freedesktop.systemd1.Timer";

/// The interface that has the properties of any unit.
pub const UNIT_INTERFACE: &'static str = "org.freedesktop.systemd1.Unit";

/// The properties of an object, by name.
pub type PropertyMap = Map<Seq<char>, OwnedValue>;

/// The first of two errors, if any.
pub open spec fn first_error(
    first: Option<DbusErrorView>,
    second: Option<DbusErrorView>,
) -> Option<DbusErrorView> {
    if first is Some {
        first
    } else {
        second
    }
}

/// The number that the property `name` holds.
pub open spec fn number(props: PropertyMap, name: Seq<char>) -> u64 {
    dbus_props::value_contents(props[name])->U64_0
}

/// The boolean that the property `name` holds.
pub open spec fn flag(props: PropertyMap, name: Seq<char>) -> bool {
    dbus_props::value_contents(props[name])->Bool_0
}

/// The name of the unit that the timer triggers.
pub open spec fn triggered_unit(timer_props: PropertyMap) -> Seq<char> {
    dbus_props::value_contents(timer_props["Unit"@])->Str_0
}

/// What keeps the metrics of a timer from being read from its properties, if anything
/// does: of several errors, that of the property that comes first here.
pub open spec fn timer_error(props: PropertyMap) -> Option<DbusErrorView> {
    first_error(
        dbus_props::property_error::<u64>(props, "AccuracyUSec"@),
        first_error(
            dbus_props::property_error::<bool>(props, "FixedRandomDelay"@),
            first_error(
                dbus_props::property_error::<u64>(props, "LastTriggerUSec"@),
                first_error(
                    dbus_props::property_error::<u64>(props, "LastTriggerUSecMonotonic"@),
                    first_error(
                        dbus_props::property_error::<bool>(props, "Persistent"@),
                        first_error(
                            dbus_props::property_error::<u64>(props, "NextElapseUSecMonotonic"@),
                            first_error(
                                dbus_props::property_error::<u64>(props, "NextElapseUSecRealtime"@),
                                first_error(
                                    dbus_props::property_error::<u64>(props, "RandomizedDelayUSec"@),
                                    dbus_props::property_error::<bool>(props, "RemainAfterElapse"@),
                                ),
                            ),
                        ),
                    ),
                ),
            ),
        ),
    )
}

/// What keeps the state changes of a unit from being read from its properties, if
/// anything does.
pub open spec fn state_change_error(props: PropertyMap) -> Option<DbusErrorView> {
    first_error(
        dbus_props::property_error::<u64>(props, "StateChangeTimestamp"@),
        dbus_props::property_error::<u64>(props, "StateChangeTimestampMonotonic"@),
    )
}

/// When a unit last changed its state: since the epoch, and since boot.
pub struct StateChange {
    pub realtime_usec: u64,
    pub monotonic_usec: u64,
}

/// The state change that the properties of a unit tell of.
pub open spec fn state_change(props: PropertyMap) -> StateChange {
    StateChange {
        realtime_usec: number(props, "StateChangeTimestamp"@),
        monotonic_usec: number(props, "StateChangeTimestampMonotonic"@),
    }
}

/// The state change of a unit that there is not.
pub open spec fn no_state_change() -> StateChange {
    StateChange { realtime_usec: 0, monotonic_usec: 0 }
}

/// The metrics of a timer with the properties `props`, which triggers a service with the
/// state change `service`.
pub open spec fn timer_stats(props: PropertyMap, service: StateChange) -> TimerStats {
    TimerStats {
        accuracy_usec: number(props, "AccuracyUSec"@),
        fixed_random_delay: flag(props, "FixedRandomDelay"@),
        last_trigger_usec: number(props, "LastTriggerUSec"@),
        last_trigger_usec_monotonic: number(props, "LastTriggerUSecMonotonic"@),
        next_elapse_usec_monotonic: number(props, "NextElapseUSecMonotonic"@),
        next_elapse_usec_realtime: number(props, "NextElapseUSecRealtime"@),
        persistent: flag(props, "Persistent"@),
        randomized_delay_usec: number(props, "RandomizedDelayUSec"@),
        remain_after_elapse: flag(props, "RemainAfterElapse"@),
        service_unit_last_state_change_usec: service.realtime_usec,
        service_unit_last_state_change_usec_monotonic: service.monotonic_usec,
    }
}

/// What reading the metrics from the properties of a timer gives.
pub open spec fn read_timer(props: PropertyMap, service: StateChange) -> Result<
    TimerStats,
    DbusErrorView,
> {
    match timer_error(props) {
        Some(e) => Err(e),
        None => Ok(timer_stats(props, service)),
    }
}

/// The metrics or the error, with the text of the error as a sequence of characters.
pub open spec fn outcome(result: Result<TimerStats, MonitordTimerError>) -> Result<
    TimerStats,
    DbusErrorView,
> {
    match result {
        Ok(stats) => Ok(stats),
        Err(MonitordTimerError::ZbusError(e)) => Err(e@),
    }
}

/// The properties in an answer, as a map.
pub open spec fn answer(reply: Result<Properties, zbus::Error>) -> Result<
    PropertyMap,
    zbus::Error,
> {
    match reply {
        Ok(props) => Ok(props@),
        Err(e) => Err(e),
    }
}

/// Reads the metrics of a timer from its properties.
fn read_timer_stats(props: &Properties, service: StateChange) -> (stats: Result<
    TimerStats,
    DbusError,
>)
    ensures
        match stats {
            Ok(s) => read_timer(props@, service) == Ok::<TimerStats, DbusErrorView>(s),
            Err(e) => read_timer(props@, service) == Err::<TimerStats, DbusErrorView>(e@),
        },
        stats matches Ok(s) ==> {
            &&& props@.contains_key("AccuracyUSec"@)
            &&& dbus_props::value_contents(props@["AccuracyUSec"@]) == ValueContents::U64(
                s.accuracy_usec,
            )
            &&& props@.contains_key("FixedRandomDelay"@)
            &&& dbus_props::value_contents(props@["FixedRandomDelay"@]) == ValueContents::Bool(
                s.fixed_random_delay,
            )
            &&& props@.contains_key("LastTriggerUSec"@)
            &&& dbus_props::value_contents(props@["LastTriggerUSec"@]) == ValueContents::U64(
                s.last_trigger_usec,
            )
            &&& props@.contains_key("LastTriggerUSecMonotonic"@)
            &&& dbus_props::value_contents(props@["LastTriggerUSecMonotonic"@]) == ValueContents::U64(
                s.last_trigger_usec_monotonic,
            )
            &&& props@.contains_key("NextElapseUSecMonotonic"@)
            &&& dbus_props::value_contents(props@["NextElapseUSecMonotonic"@]) == ValueContents::U64(
                s.next_elapse_usec_monotonic,
            )
            &&& props@.contains_key("NextElapseUSecRealtime"@)
            &&& dbus_props::value_contents(props@["NextElapseUSecRealtime"@]) == ValueContents::U64(
                s.next_elapse_usec_realtime,
            )
            &&& props@.contains_key("Persistent"@)
            &&& dbus_props::value_contents(props@["Persistent"@]) == ValueContents::Bool(
                s.persistent,
            )
            &&& props@.contains_key("RandomizedDelayUSec"@)
            &&& dbus_props::value_contents(props@["RandomizedDelayUSec"@]) == ValueContents::U64(
                s.randomized_delay_usec,
            )
            &&& props@.contains_key("RemainAfterElapse"@)
            &&& dbus_props::value_contents(props@["RemainAfterElapse"@]) == ValueContents::Bool(
                s.remain_after_elapse,
            )
            &&& s.service_unit_last_state_change_usec == service.realtime_usec
            &&& s.service_unit_last_state_change_usec_monotonic == service.monotonic_usec
        },
{
    let mut stats = TimerStats::default();
    stats.service_unit_last_state_change_usec = service.realtime_usec;
    stats.service_unit_last_state_change_usec_monotonic = service.monotonic_usec;
    stats.accuracy_usec = extract_property(props, "AccuracyUSec")?;
    stats.fixed_random_delay = extract_property(props, "FixedRandomDelay")?;
    stats.last_trigger_usec = extract_property(props, "LastTriggerUSec")?;
    stats.last_trigger_usec_monotonic = extract_property(props, "LastTriggerUSecMonotonic")?;
    stats.persistent = extract_property(props, "Persistent")?;
    stats.next_elapse_usec_monotonic = extract_property(props, "NextElapseUSecMonotonic")?;
    stats.next_elapse_usec_realtime = extract_property(props, "NextElapseUSecRealtime")?;
    stats.randomized_delay_usec = extract_property(props, "RandomizedDelayUSec")?;
    stats.remain_after_elapse = extract_property(props, "RemainAfterElapse")?;
    Ok(stats)
}

/// Reads when a unit last changed its state from its properties.
fn read_state_change(props: &Properties) -> (change: Result<StateChange, DbusError>)
    ensures
        match change {
            Ok(c) => state_change_error(props@) is None && c == state_change(props@),
            Err(e) => state_change_error(props@) == Some(e@),
        },
        change matches Ok(c) ==> {
            &&& dbus_props::value_contents(props@["StateChangeTimestamp"@]) == ValueContents::U64(
                c.realtime_usec,
            )
            &&& dbus_props::value_contents(props@["StateChangeTimestampMonotonic"@])
                == ValueContents::U64(c.monotonic_usec)
        },
{
    let realtime_usec: u64 = extract_property(props, "StateChangeTimestamp")?;
    let monotonic_usec: u64 = extract_property(props, "StateChangeTimestampMonotonic")?;
    Ok(StateChange { realtime_usec, monotonic_usec })
}

/// The next thing to do on the way to the metrics of a timer.
pub enum TimerStep<'a> {
    /// To get the properties of the timer.
    GetTimerProperties(AwaitTimerProperties<'a>),
    /// To find the object of the unit that the timer triggers.
    GetServiceUnit(AwaitServiceUnit),
    /// To get the properties of that unit.
    GetServiceProperties(AwaitServiceProperties),
    /// Nothing more.
    Finished(Result<TimerStats, MonitordTimerError>),
}

/// A [`TimerStep`] over mathematical maps.
pub enum TimerStepView {
    GetTimerProperties { path: OwnedObjectPath },
    GetServiceUnit { service_unit: Seq<char>, timer_props: PropertyMap },
    GetServiceProperties { path: OwnedObjectPath, timer_props: PropertyMap },
    Finished(Result<TimerStats, DbusErrorView>),
}

impl<'a> View for TimerStep<'a> {
    type V = TimerStepView;

    open spec fn view(&self) -> TimerStepView {
        match self {
            TimerStep::GetTimerProperties(step) => TimerStepView::GetTimerProperties {
                path: step.path(),
            },
            TimerStep::GetServiceUnit(step) => TimerStepView::GetServiceUnit {
                service_unit: step.unit_name(),
                timer_props: step.timer_properties(),
            },
            TimerStep::GetServiceProperties(step) => TimerStepView::GetServiceProperties {
                path: step.path(),
                timer_props: step.timer_properties(),
            },
            TimerStep::Finished(result) => TimerStepView::Finished(outcome(*result)),
        }
    }
}

/// The end of the way where a call over the bus failed.
pub open spec fn failed_call(e: zbus::Error) -> TimerStepView {
    TimerStepView::Finished(Err(DbusErrorView::Call(e)))
}

/// The step after the properties of the timer were asked for. A timer that names no unit
/// to trigger is read without one.
pub open spec fn after_timer_properties(reply: Result<PropertyMap, zbus::Error>) -> TimerStepView {
    match reply {
        Err(e) => failed_call(e),
        Ok(props) => match dbus_props::property_error::<String>(props, "Unit"@) {
            Some(e) => TimerStepView::Finished(Err(e)),
            None => if triggered_unit(props).len() == 0 {
                TimerStepView::Finished(read_timer(props, no_state_change()))
            } else {
                TimerStepView::GetServiceUnit {
                    service_unit: triggered_unit(props),
                    timer_props: props,
                }
            },
        },
    }
}

/// The step after the object of the triggered unit was asked for.
pub open spec fn after_service_unit(
    timer_props: PropertyMap,
    reply: Result<OwnedObjectPath, zbus::Error>,
) -> TimerStepView {
    match reply {
        Err(e) => failed_call(e),
        Ok(path) => TimerStepView::GetServiceProperties { path, timer_props },
    }
}

/// The step after the properties of the triggered unit were asked for.
pub open spec fn after_service_properties(
    timer_props: PropertyMap,
    reply: Result<PropertyMap, zbus::Error>,
) -> TimerStepView {
    match reply {
        Err(e) => failed_call(e),
        Ok(props) => match state_change_error(props) {
            Some(e) => TimerStepView::Finished(Err(e)),
            None => TimerStepView::Finished(read_timer(timer_props, state_change(props))),
        },
    }
}

/// Ends the way to the metrics of a timer.
fn finished<'a>(result: Result<TimerStats, DbusError>) -> (step: TimerStep<'a>)
    ensures
        match result {
            Ok(stats) => step@ == TimerStepView::Finished(Ok(stats)),
            Err(e) => step@ == TimerStepView::Finished(Err(e@)),
        },
{
    match result {
        Ok(stats) => TimerStep::Finished(Ok(stats)),
        Err(e) => TimerStep::Finished(Err(MonitordTimerError::ZbusError(e))),
    }
}

/// The first step on the way to the metrics of the timer `unit`.
pub fn collect_timer_stats<'a>(unit: &'a ListedUnit) -> (step: TimerStep<'a>)
    ensures
        step@ == (TimerStepView::GetTimerProperties { path: unit.unit_object_path }),
        step matches TimerStep::GetTimerProperties(wait) && wait.path() == unit.unit_object_path,
{
    TimerStep::GetTimerProperties(AwaitTimerProperties { path: &unit.unit_object_path })
}

/// Waiting for the properties of a timer: one call brings the name of the unit that it
/// triggers and all the metrics.
pub struct AwaitTimerProperties<'a> {
    path: &'a OwnedObjectPath,
}

impl<'a> AwaitTimerProperties<'a> {
    /// The object of the timer.
    pub closed spec fn path(&self) -> OwnedObjectPath {
        *self.path
    }

    /// The call to make.
    pub fn request(&self) -> (request: PropertiesRequest<'a>)
        ensures
            request.destination@ == dbus_props::SYSTEMD_DESTINATION@,
            *request.path == self.path(),
            request.interface@ == TIMER_INTERFACE@,
            request.destination@ == "org.freedesktop.systemd1"@,
            request.interface@ == "org.freedesktop.systemd1.Timer"@,
    {
        properties_request(self.path, TIMER_INTERFACE)
    }

    /// The step after the call.
    pub fn resume(self, reply: Result<Properties, zbus::Error>) -> (step: TimerStep<'a>)
        ensures
            step@ == after_timer_properties(answer(reply)),
    {
        let timer_props = match reply {
            Ok(props) => props,
            Err(e) => return finished(Err(DbusError::Call(e))),
        };
        let service_unit: String = match extract_property(&timer_props, "Unit") {
            Ok(name) => name,
            Err(e) => return finished(Err(e)),
        };
        if service_unit.as_str().is_empty() {
            let service = StateChange { realtime_usec: 0, monotonic_usec: 0 };
            finished(read_timer_stats(&timer_props, service))
        } else {
            TimerStep::GetServiceUnit(AwaitServiceUnit { service_unit, timer_props })
        }
    }
}

/// Waiting for the object of the unit that a timer triggers.
pub struct AwaitServiceUnit {
    service_unit: String,
    timer_props: Properties,
}

impl AwaitServiceUnit {
    /// The name of the unit.
    pub closed spec fn unit_name(&self) -> Seq<char> {
        self.service_unit@
    }

    /// The properties of the timer.
    pub closed spec fn timer_properties(&self) -> PropertyMap {
        self.timer_props@
    }

    /// The name of the unit whose object to ask for.
    pub fn service_unit(&self) -> (name: &str)
        ensures
            name@ == self.unit_name(),
    {
        self.service_unit.as_str()
    }

    /// The step after the call.
    pub fn resume<'a>(self, reply: Result<OwnedObjectPath, zbus::Error>) -> (step: TimerStep<'a>)
        ensures
            step@ == after_service_unit(self.timer_properties(), reply),
    {
        match reply {
            Ok(path) => TimerStep::GetServiceProperties(
                AwaitServiceProperties { path, timer_props: self.timer_props },
            ),
            Err(e) => finished(Err(DbusError::Call(e))),
        }
    }
}

/// Waiting for the properties of the unit that a timer triggers: one call brings both
/// times of its last state change.
pub struct AwaitServiceProperties {
    path: OwnedObjectPath,
    timer_props: Properties,
}

impl AwaitServiceProperties {
    /// The object of the unit.
    pub closed spec fn path(&self) -> OwnedObjectPath {
        self.path
    }

    /// The properties of the timer.
    pub closed spec fn timer_properties(&self) -> PropertyMap {
        self.timer_props@
    }

    /// The call to make.
    pub fn request(&self) -> (request: PropertiesRequest<'_>)
        ensures
            request.destination@ == dbus_props::SYSTEMD_DESTINATION@,
            *request.path == self.path(),
            request.interface@ == UNIT_INTERFACE@,
            request.destination@ == "org.freedesktop.systemd1"@,
            request.interface@ == "org.freedesktop.systemd1.Unit"@,
    {
        properties_request(&self.path, UNIT_INTERFACE)
    }

    /// The step after the call.
    pub fn resume<'a>(self, reply: Result<Properties, zbus::Error>) -> (step: TimerStep<'a>)
        ensures
            step@ == after_service_properties(self.timer_properties(), answer(reply)),
    {
        let service_props = match reply {
            Ok(props) => props,
            Err(e) => return finished(Err(DbusError::Call(e))),
        };
        match read_state_change(&service_props) {
            Ok(service) => finished(read_timer_stats(&self.timer_props, service)),
            Err(e) => finished(Err(e)),
        }
    }
}

/// The call for the properties of one of systemd's own interfaces, whose names are
/// well-formed.
fn properties_request<'a>(path: &'a OwnedObjectPath, interface: &'static str) -> (request:
    PropertiesRequest<'a>)
    requires
        interface@ == TIMER_INTERFACE@ || interface@ == UNIT_INTERFACE@,
    ensures
        request.destination@ == dbus_props::SYSTEMD_DESTINATION@,
        request.path == path,
        request.interface@ == interface@,
{
    proof {
        lemma_interface_names();
    }
    match dbus_props::get_all_properties(path, interface) {
        Ok(request) => request,
        Err(_) => vstd::pervasive::unreached(),
    }
}

proof fn lemma_interface_names()
    ensures
        dbus_props::is_interface_name(TIMER_INTERFACE@),
        dbus_props::is_interface_name(UNIT_INTERFACE@),
{
    reveal_strlit("org.freedesktop.systemd1.Timer");
    reveal_strlit("org.freedesktop.systemd1.Unit");
    assert(TIMER_INTERFACE@[3] == '.');
    assert(UNIT_INTERFACE@[3] == '.');
}

/// Whether the counters of `stats` have room for one more timer with the metrics `timer`.
pub open spec fn has_room(stats: UnitStatsView, timer: TimerStats) -> bool {
    &&& timer.persistent ==> stats.timer_persistent_units < u64::MAX
    &&& timer.remain_after_elapse ==> stats.timer_remain_after_elapse < u64::MAX
}

/// The counters after one more timer.
pub open spec fn counted(stats: UnitStatsView, timer: TimerStats) -> UnitStatsView {
    UnitStatsView {
        timer_persistent_units: stats.timer_persistent_units + (if timer.persistent {
            1int
        } else {
            0int
        }),
        timer_remain_after_elapse: stats.timer_remain_after_elapse
            + (if timer.remain_after_elapse {
            1int
        } else {
            0int
        }),
        ..stats
    }
}

/// Counts a timer for which collecting the metrics ended with `result`. One that failed
/// counts for nothing.
pub fn count_timer(
    stats: &mut SystemdUnitStats,
    result: &Result<TimerStats, MonitordTimerError>,
)
    requires
        *result matches Ok(timer) ==> has_room(old(stats)@, timer),
    ensures
        match *result {
            Ok(timer) => final(stats)@ == counted(old(stats)@, timer),
            Err(_) => final(stats)@ == old(stats)@,
        },
        final(stats).timer_persistent_units == old(stats).timer_persistent_units + (if *result is Ok
            && result->Ok_0.persistent {
            1int
        } else {
            0int
        }),
        final(stats).timer_remain_after_elapse == old(stats).timer_remain_after_elapse + (if *result
            is Ok && result->Ok_0.remain_after_elapse {
            1int
        } else {
            0int
        }),
        final(stats).timer_stats == old(stats).timer_stats,
{
    match result {
        Ok(timer) => {
            if timer.persistent {
                stats.timer_persistent_units = stats.timer_persistent_units + 1;
            }
            if timer.remain_after_elapse {
                stats.timer_remain_after_elapse = stats.timer_remain_after_elapse + 1;
            }
        },
        Err(_) => {},
    }
}

/// Whether `pattern` stands in `text` from the place `i` on.
pub open spec fn stands_at(text: Seq<char>, pattern: Seq<char>, i: int) -> bool {
    &&& 0 <= i
    &&& i + pattern.len() <= text.len()
    &&& text.subrange(i, i + pattern.len()) == pattern
}

/// Whether `pattern` stands anywhere in `text`.
pub open spec fn stands_in(text: Seq<char>, pattern: Seq<char>) -> bool {
    exists|i: int| stands_at(text, pattern, i)
}

/// `str::contains` of the standard library, with a string to look for: whether that is a
/// part of the text.
#[verifier::external_body]
fn str_contains(text: &str, pattern: &str) -> (found: bool)
    ensures
        found == stands_in(text@, pattern@),
{
    text.contains(pattern)
}

/// Whether the unit `name` is a timer to collect.
pub open spec fn is_collected(timers: TimersConfig, name: Seq<char>) -> bool {
    &&& stands_in(name, ".timer"@)
    &&& !timers.blocklist@.contains(name)
    &&& timers.allowlist@ == Set::<Seq<char>>::empty() || timers.allowlist@.contains(name)
}

/// Whether the unit `name` is a timer to collect: the block list is stronger than the
/// allow list, and an empty allow list allows all.
fn collects(timers: &TimersConfig, name: &str) -> (collected: bool)
    ensures
        collected == is_collected(*timers, name@),
        collected <==> stands_in(name@, ".timer"@) && !timers.blocklist@.contains(name@) && (
        timers.allowlist@.contains(name@) || timers.allowlist@ == Set::<Seq<char>>::empty()),
{
    if !str_contains(name, ".timer") {
        return false;
    }
    if timers.blocklist.contains(name) {
        return false;
    }
    timers.allowlist.is_empty() || timers.allowlist.contains(name)
}

/// The next thing to do on the way to the metrics of all timers.
pub enum AllTimersStep<'a> {
    /// To list the units.
    ListUnits(AwaitUnits<'a>),
    /// To collect the timers, one after the other.
    CollectTimers(TimersRun),
    /// Nothing more.
    Finished(Result<SystemdUnitStats, DbusError>),
}

/// The first step on the way to the metrics of all timers. Where timers are not to be
/// collected it is the last, too.
pub fn collect_all_timers_dbus<'a>(config: &'a Config) -> (step: AllTimersStep<'a>)
    ensures
        match step {
            AllTimersStep::ListUnits(wait) => config.timers.enabled && wait.timers()
                == config.timers,
            AllTimersStep::CollectTimers(_) => false,
            AllTimersStep::Finished(result) => !config.timers.enabled && result is Ok
                && result->Ok_0@ == units::no_stats(),
        },
        step matches AllTimersStep::Finished(Ok(stats)) ==> {
            &&& stats.timer_persistent_units == 0
            &&& stats.timer_remain_after_elapse == 0
            &&& stats.timer_stats@ == Map::<Seq<char>, TimerStats>::empty()
        },
{
    if !config.timers.enabled {
        return AllTimersStep::Finished(Ok(SystemdUnitStats::default()));
    }
    AllTimersStep::ListUnits(AwaitUnits { timers: &config.timers })
}

/// Waiting for the list of the units.
pub struct AwaitUnits<'a> {
    timers: &'a TimersConfig,
}

/// The timers to collect among `units`, in their order.
pub open spec fn collected_units(timers: TimersConfig, units: Seq<ListedUnit>) -> Seq<ListedUnit> {
    units.filter(|unit: ListedUnit| is_collected(timers, unit.name@))
}

impl<'a> AwaitUnits<'a> {
    /// Which timers to collect.
    pub closed spec fn timers(&self) -> TimersConfig {
        *self.timers
    }

    /// The step after the call.
    pub fn resume(self, reply: Result<Vec<ListedUnit>, zbus::Error>) -> (step: AllTimersStep<'a>)
        ensures
            match (reply, step) {
                (Ok(units), AllTimersStep::CollectTimers(run)) => run.timers() == collected_units(
                    self.timers(),
                    units@,
                ) && run.outcomes().len() == 0,
                (Err(e), AllTimersStep::Finished(Err(reported))) => reported@
                    == DbusErrorView::Call(e),
                _ => false,
            },
            reply matches Err(e) ==> (step matches AllTimersStep::Finished(Err(reported))
                && reported == DbusError::Call(e)),
            reply matches Ok(units) ==> (step matches AllTimersStep::CollectTimers(run)
                && run.timers() == units@.filter(
                |unit: ListedUnit|
                    stands_in(unit.name@, ".timer"@) && !self.timers().blocklist@.contains(
                        unit.name@,
                    ) && (self.timers().allowlist@.contains(unit.name@) || self.timers().allowlist@
                        == Set::<Seq<char>>::empty()),
            )),
    {
        let units = match reply {
            Ok(units) => units,
            Err(e) => return AllTimersStep::Finished(Err(DbusError::Call(e))),
        };
        let ghost all = units@;
        let ghost wanted = |unit: ListedUnit| is_collected(self.timers(), unit.name@);
        let mut timers: Vec<ListedUnit> = Vec::new();
        for unit in it: units
            invariant
                it.seq() == all,
                timers@ == all.take(it.index()).filter(wanted),
                wanted == |unit: ListedUnit| is_collected(self.timers(), unit.name@),
        {
            let ghost i = it.index();
            assert(all.take(i + 1) == all.take(i).push(all[i]));
            if collects(self.timers, unit.name.as_str()) {
                timers.push(unit);
            }
            proof {
                reveal(Seq::filter);
                assert(all.take(i + 1).drop_last() == all.take(i));
            }
        }
        assert(all.take(all.len() as int) == all);
        assert(wanted =~= |unit: ListedUnit|
            stands_in(unit.name@, ".timer"@) && !self.timers().blocklist@.contains(unit.name@) && (
            self.timers().allowlist@.contains(unit.name@) || self.timers().allowlist@ == Set::<
                Seq<char>,
            >::empty()));
        AllTimersStep::CollectTimers(TimersRun::new(timers))
    }
}

/// What is known of the first of `timers` when collecting each ended as `outcomes` says,
/// with `None` for one that failed.
pub open spec fn tally(
    timers: Seq<ListedUnit>,
    outcomes: Seq<Option<TimerStats>>,
) -> UnitStatsView
    decreases outcomes.len(),
{
    if outcomes.len() == 0 {
        units::no_stats()
    } else {
        let before = tally(timers, outcomes.drop_last());
        match outcomes.last() {
            None => before,
            Some(timer) => UnitStatsView {
                timer_stats: before.timer_stats.insert(
                    timers[outcomes.len() - 1].name@,
                    timer,
                ),
                ..counted(before, timer)
            },
        }
    }
}

/// The metrics, unless collecting them failed.
pub open spec fn collected(result: Result<TimerStats, MonitordTimerError>) -> Option<TimerStats> {
    match result {
        Ok(timer) => Some(timer),
        Err(_) => None,
    }
}

/// Collecting timers, one after the other. A timer that fails does not keep the others
/// from being collected.
pub struct TimersRun {
    timers: Vec<ListedUnit>,
    done: usize,
    stats: SystemdUnitStats,
    outcomes: Ghost<Seq<Option<TimerStats>>>,
}

impl TimersRun {
    /// What is known is what the timers done so far make it.
    #[verifier::type_invariant]
    spec fn inv(self) -> bool {
        &&& self.done == self.outcomes@.len() <= self.timers@.len()
        &&& self.stats@ == tally(self.timers@, self.outcomes@)
    }

    /// The timers to collect.
    pub closed spec fn timers(&self) -> Seq<ListedUnit> {
        self.timers@
    }

    /// What became of the timers done so far.
    pub closed spec fn outcomes(&self) -> Seq<Option<TimerStats>> {
        self.outcomes@
    }

    fn new(timers: Vec<ListedUnit>) -> (run: Self)
        ensures
            run.timers() == timers@,
            run.outcomes() == Seq::<Option<TimerStats>>::empty(),
    {
        TimersRun {
            timers,
            done: 0,
            stats: SystemdUnitStats::default(),
            outcomes: Ghost(Seq::empty()),
        }
    }

    /// The timer to collect next, if any is left.
    pub fn next_timer(&self) -> (next: Option<&ListedUnit>)
        ensures
            match next {
                Some(unit) => self.outcomes().len() < self.timers().len() && *unit
                    == self.timers()[self.outcomes().len() as int],
                None => self.outcomes().len() == self.timers().len(),
            },
    {
        proof {
            use_type_invariant(self);
        }
        if self.done < self.timers.len() {
            Some(&self.timers[self.done])
        } else {
            None
        }
    }

    /// Takes in what became of the next timer.
    pub fn record(self, result: Result<TimerStats, MonitordTimerError>) -> (run: Self)
        requires
            self.outcomes().len() < self.timers().len(),
        ensures
            run.timers() == self.timers(),
            run.outcomes() == self.outcomes().push(collected(result)),
            result matches Ok(timer) ==> run.outcomes() == self.outcomes().push(Some(timer)),
            result is Err ==> run.outcomes() == self.outcomes().push(None),
    {
        proof {
            use_type_invariant(&self);
            lemma_tally_bounded(self.timers@, self.outcomes@);
        }
        let ghost outcomes = self.outcomes@.push(collected(result));
        assert(outcomes.drop_last() =~= self.outcomes@);
        assert(self.timers@.len() == self.timers.len());
        let timers = self.timers;
        let done = self.done;
        let mut stats = self.stats;
        count_timer(&mut stats, &result);
        match result {
            Ok(timer) => {
                stats.timer_stats.insert(timers[done].name.clone(), timer);
            },
            Err(_) => {},
        }
        TimersRun { timers, done: done + 1, stats, outcomes: Ghost(outcomes) }
    }

    /// What is known of the timers done.
    pub fn finish(self) -> (stats: SystemdUnitStats)
        ensures
            stats@ == tally(self.timers(), self.outcomes()),
            stats.timer_persistent_units == self.outcomes().filter(
                |o: Option<TimerStats>| o is Some && o->0.persistent,
            ).len(),
            stats.timer_remain_after_elapse == self.outcomes().filter(
                |o: Option<TimerStats>| o is Some && o->0.remain_after_elapse,
            ).len(),
            forall|name: Seq<char>| #[trigger]
                stats.timer_stats@.contains_key(name) <==> exists|i: int|
                    0 <= i < self.outcomes().len() && #[trigger] self.outcomes()[i] is Some
                        && self.timers()[i].name@ == name,
            forall|i: int|
                0 <= i < self.outcomes().len() && (#[trigger] self.outcomes()[i]) is Some && (
                forall|j: int|
                    i < j < self.outcomes().len() && (#[trigger] self.outcomes()[j]) is Some
                        ==> self.timers()[j].name@ != self.timers()[i].name@)
                    ==> stats.timer_stats@[self.timers()[i].name@] == self.outcomes()[i]->0,
    {
        proof {
            use_type_invariant(&self);
            law_counters_count_timers(self.timers@, self.outcomes@);
            law_metrics_are_kept_by_name(self.timers@, self.outcomes@);
        }
        self.stats
    }
}

proof fn lemma_tally_bounded(timers: Seq<ListedUnit>, outcomes: Seq<Option<TimerStats>>)
    ensures
        0 <= tally(timers, outcomes).timer_persistent_units <= outcomes.len(),
        0 <= tally(timers, outcomes).timer_remain_after_elapse <= outcomes.len(),
    decreases outcomes.len(),
{
    if outcomes.len() > 0 {
        lemma_tally_bounded(timers, outcomes.drop_last());
    }
}

/// What the bus answers, or would answer, to the calls for one timer.
pub struct TimerReplies {
    /// The properties of the timer.
    pub timer: Result<PropertyMap, zbus::Error>,
    /// The object of the unit that the timer triggers.
    pub unit: Result<OwnedObjectPath, zbus::Error>,
    /// The properties of that unit.
    pub service: Result<PropertyMap, zbus::Error>,
}

/// The step after `step` where the bus answers with `replies`.
pub open spec fn next_step(step: TimerStepView, replies: TimerReplies) -> TimerStepView {
    match step {
        TimerStepView::GetTimerProperties { .. } => after_timer_properties(replies.timer),
        TimerStepView::GetServiceUnit { timer_props, .. } => after_service_unit(
            timer_props,
            replies.unit,
        ),
        TimerStepView::GetServiceProperties { timer_props, .. } => after_service_properties(
            timer_props,
            replies.service,
        ),
        TimerStepView::Finished(result) => TimerStepView::Finished(result),
    }
}

/// Whether a timer that answers with `reply` names a unit that it triggers.
pub open spec fn names_a_unit(reply: Result<PropertyMap, zbus::Error>) -> bool {
    &&& reply matches Ok(props)
    &&& dbus_props::property_error::<String>(props, "Unit"@) is None
    &&& triggered_unit(props).len() > 0
}

/// What keeps the metrics of a timer from being collected, if anything does: of several
/// failures, the one that is met first.
pub open spec fn collection_error(replies: TimerReplies) -> Option<DbusErrorView> {
    match replies.timer {
        Err(e) => Some(DbusErrorView::Call(e)),
        Ok(props) => first_error(
            dbus_props::property_error::<String>(props, "Unit"@),
            if names_a_unit(replies.timer) {
                first_error(service_error(replies), timer_error(props))
            } else {
                timer_error(props)
            },
        ),
    }
}

/// What keeps the triggered unit from being looked at, if anything does.
pub open spec fn service_error(replies: TimerReplies) -> Option<DbusErrorView> {
    match (replies.unit, replies.service) {
        (Err(e), _) => Some(DbusErrorView::Call(e)),
        (_, Err(e)) => Some(DbusErrorView::Call(e)),
        (_, Ok(props)) => state_change_error(props),
    }
}

/// What collecting the metrics of a timer gives.
pub open spec fn collection_outcome(replies: TimerReplies) -> Result<TimerStats, DbusErrorView> {
    match collection_error(replies) {
        Some(e) => Err(e),
        None => Ok(
            timer_stats(
                replies.timer->Ok_0,
                if names_a_unit(replies.timer) {
                    state_change(replies.service->Ok_0)
                } else {
                    no_state_change()
                },
            ),
        ),
    }
}

/// The way to the metrics of a timer ends after three calls at the latest, and after one
/// where the timer names no unit. It ends with the metrics that the answers tell of, if
/// they are all there, and otherwise with the failure that is met first. On the way it
/// asks for the unit that the timer names, and for the properties of the object that it
/// was told for that unit.
pub proof fn law_timer_is_collected_in_three_calls(path: OwnedObjectPath, replies: TimerReplies)
    ensures
        ({
            let first = TimerStepView::GetTimerProperties { path };
            let second = next_step(first, replies);
            let third = next_step(second, replies);
            let last = next_step(third, replies);
            &&& last == TimerStepView::Finished(collection_outcome(replies))
            &&& second is Finished || second is GetServiceUnit
            &&& third is Finished || third is GetServiceProperties
            &&& second is GetServiceUnit <==> names_a_unit(replies.timer)
            &&& second matches TimerStepView::GetServiceUnit { service_unit, .. }
                ==> service_unit == triggered_unit(replies.timer->Ok_0)
            &&& third matches TimerStepView::GetServiceProperties { path: object, .. }
                ==> replies.unit == Ok::<OwnedObjectPath, zbus::Error>(object)
        }),
{
}

/// The answers about a unit make no difference to a timer that names none: its metrics
/// have no state change.
pub proof fn law_timer_without_a_unit(replies: TimerReplies, others: TimerReplies)
    requires
        replies.timer == others.timer,
        !names_a_unit(replies.timer),
    ensures
        collection_outcome(replies) == collection_outcome(others),
        collection_outcome(replies) matches Ok(stats) ==> {
            &&& stats.service_unit_last_state_change_usec == 0
            &&& stats.service_unit_last_state_change_usec_monotonic == 0
        },
{
}

/// The timers collected are those units listed that are timers, are not blocked, and are
/// allowed or face no allow list: all of them and no others.
pub proof fn law_collected_units(timers: TimersConfig, listed: Seq<ListedUnit>, unit: ListedUnit)
    ensures
        collected_units(timers, listed).contains(unit) <==> listed.contains(unit) && is_collected(
            timers,
            unit.name@,
        ),
        timers.blocklist@.contains(unit.name@) ==> !is_collected(timers, unit.name@),
        timers.allowlist@ == Set::<Seq<char>>::empty() && !timers.blocklist@.contains(unit.name@)
            ==> (is_collected(timers, unit.name@) <==> stands_in(unit.name@, ".timer"@)),
{
    let wanted = |unit: ListedUnit| is_collected(timers, unit.name@);
    let kept = listed.filter(wanted);
    if kept.contains(unit) {
        listed.lemma_filter_contains_rev(wanted, unit);
        let i = choose|i: int| 0 <= i < kept.len() && kept[i] == unit;
        listed.lemma_filter_pred(wanted, i);
    }
    if listed.contains(unit) && is_collected(timers, unit.name@) {
        let i = choose|i: int| 0 <= i < listed.len() && listed[i] == unit;
        listed.lemma_filter_contains(wanted, i);
    }
}

/// A timer that fails leaves no trace.
pub proof fn law_failed_timer_leaves_no_trace(
    timers: Seq<ListedUnit>,
    outcomes: Seq<Option<TimerStats>>,
)
    ensures
        tally(timers, outcomes.push(None)) == tally(timers, outcomes),
{
    assert(outcomes.push(None).drop_last() == outcomes);
}

/// The counters say how many of the timers that were collected have the setting.
pub proof fn law_counters_count_timers(
    timers: Seq<ListedUnit>,
    outcomes: Seq<Option<TimerStats>>,
)
    ensures
        tally(timers, outcomes).timer_persistent_units == outcomes.filter(
            |o: Option<TimerStats>| o is Some && o->0.persistent,
        ).len(),
        tally(timers, outcomes).timer_remain_after_elapse == outcomes.filter(
            |o: Option<TimerStats>| o is Some && o->0.remain_after_elapse,
        ).len(),
    decreases outcomes.len(),
{
    reveal(Seq::filter);
    if outcomes.len() > 0 {
        law_counters_count_timers(timers, outcomes.drop_last());
    }
}

/// The metrics are kept under the names of the timers that were collected, and of no
/// others; under each name stand those of the last timer of that name that was collected.
pub proof fn law_metrics_are_kept_by_name(
    timers: Seq<ListedUnit>,
    outcomes: Seq<Option<TimerStats>>,
)
    ensures
        forall|name: Seq<char>| #[trigger]
            tally(timers, outcomes).timer_stats.contains_key(name) <==> exists|i: int|
                0 <= i < outcomes.len() && #[trigger] outcomes[i] is Some && timers[i].name@
                    == name,
        forall|i: int|
            0 <= i < outcomes.len() && (#[trigger] outcomes[i]) is Some && (forall|j: int|
                i < j < outcomes.len() && (#[trigger] outcomes[j]) is Some ==> timers[j].name@
                    != timers[i].name@) ==> tally(timers, outcomes).timer_stats[timers[i].name@]
                == outcomes[i]->0,
    decreases outcomes.len(),
{
    if outcomes.len() > 0 {
        let before = outcomes.drop_last();
        let last = outcomes.len() - 1;
        law_metrics_are_kept_by_name(timers, before);
        assert(forall|i: int| 0 <= i < last ==> outcomes[i] == #[trigger] before[i]);
        assert forall|name: Seq<char>| #[trigger]
            tally(timers, outcomes).timer_stats.contains_key(name) <==> exists|i: int|
                0 <= i < outcomes.len() && #[trigger] outcomes[i] is Some && timers[i].name@
                    == name by {
            if tally(timers, before).timer_stats.contains_key(name) {
                let i = choose|i: int|
                    0 <= i < before.len() && #[trigger] before[i] is Some && timers[i].name@
                        == name;
                assert(outcomes[i] is Some);
            }
            if tally(timers, outcomes).timer_stats.contains_key(name) && !tally(
                timers,
                before,
            ).timer_stats.contains_key(name) {
                assert(outcomes[last] is Some);
            }
            if exists|i: int|
                0 <= i < outcomes.len() && #[trigger] outcomes[i] is Some && timers[i].name@
                    == name {
                let i = choose|i: int|
                    0 <= i < outcomes.len() && #[trigger] outcomes[i] is Some && timers[i].name@
                        == name;
                if i < last {
                    assert(before[i] is Some);
                }
            }
        }
        assert forall|i: int|
            0 <= i < outcomes.len() && (#[trigger] outcomes[i]) is Some && (forall|j: int|
                i < j < outcomes.len() && (#[trigger] outcomes[j]) is Some ==> timers[j].name@
                    != timers[i].name@) implies tally(timers, outcomes).timer_stats[timers[i].name@]
            == outcomes[i]->0 by {
            if i < last {
                assert(before[i] is Some);
                assert(forall|j: int|
                    i < j < before.len() && (#[trigger] before[j]) is Some ==> outcomes[j]
                        is Some);
            }
        }
    }
}

/// What became of a timer, given what the bus answers about it.
pub open spec fn collected_from(replies: TimerReplies) -> Option<TimerStats> {
    match collection_outcome(replies) {
        Ok(timer) => Some(timer),
        Err(_) => None,
    }
}

/// Where no two timers have the same name, collecting all of them keeps, for each, what
/// the bus answers about it, whatever it answers about the others; it keeps nothing for a
/// timer that fails, and nothing under any other name. Each counter says for how many
/// timers the metrics that were kept have the setting.
pub proof fn law_every_timer_is_kept_on_its_own(
    timers: Seq<ListedUnit>,
    replies: Seq<TimerReplies>,
)
    requires
        timers.len() == replies.len(),
        forall|i: int, j: int|
            0 <= i < j < timers.len() ==> (#[trigger] timers[i]).name@ != (
            #[trigger] timers[j]).name@,
    ensures
        ({
            let outcomes = replies.map_values(|r: TimerReplies| collected_from(r));
            let stats = tally(timers, outcomes);
            &&& forall|i: int|
                0 <= i < timers.len() ==> (match collected_from(replies[i]) {
                    Some(timer) => stats.timer_stats.contains_key((#[trigger] timers[i]).name@)
                        && stats.timer_stats[timers[i].name@] == timer,
                    None => !stats.timer_stats.contains_key(timers[i].name@),
                })
            &&& forall|name: Seq<char>| #[trigger]
                stats.timer_stats.contains_key(name) ==> exists|i: int|
                    0 <= i < timers.len() && (#[trigger] timers[i]).name@ == name
            &&& stats.timer_persistent_units == replies.filter(
                |r: TimerReplies| collected_from(r) is Some && collected_from(r)->0.persistent,
            ).len()
            &&& stats.timer_remain_after_elapse == replies.filter(
                |r: TimerReplies|
                    collected_from(r) is Some && collected_from(r)->0.remain_after_elapse,
            ).len()
        }),
{
    let outcomes = replies.map_values(|r: TimerReplies| collected_from(r));
    let stats = tally(timers, outcomes);
    law_metrics_are_kept_by_name(timers, outcomes);
    assert forall|i: int| 0 <= i < timers.len() implies (match collected_from(replies[i]) {
        Some(timer) => stats.timer_stats.contains_key((#[trigger] timers[i]).name@)
            && stats.timer_stats[timers[i].name@] == timer,
        None => !stats.timer_stats.contains_key(timers[i].name@),
    }) by {
        assert(outcomes[i] == collected_from(replies[i]));
        if outcomes[i] is None && stats.timer_stats.contains_key(timers[i].name@) {
            let j = choose|j: int|
                0 <= j < outcomes.len() && #[trigger] outcomes[j] is Some && timers[j].name@
                    == timers[i].name@;
            assert(i < j || j < i || i == j);
        }
    }
    assert forall|name: Seq<char>| #[trigger]
        stats.timer_stats.contains_key(name) implies exists|i: int|
        0 <= i < timers.len() && (#[trigger] timers[i]).name@ == name by {
        let i = choose|i: int|
            0 <= i < outcomes.len() && #[trigger] outcomes[i] is Some && timers[i].name@ == name;
        assert(timers[i].name@ == name);
    }
    lemma_counters_from_replies(timers, replies);
}

proof fn lemma_counters_from_replies(timers: Seq<ListedUnit>, replies: Seq<TimerReplies>)
    ensures
        ({
            let stats = tally(timers, replies.map_values(|r: TimerReplies| collected_from(r)));
            &&& stats.timer_persistent_units == replies.filter(
                |r: TimerReplies| collected_from(r) is Some && collected_from(r)->0.persistent,
            ).len()
            &&& stats.timer_remain_after_elapse == replies.filter(
                |r: TimerReplies|
                    collected_from(r) is Some && collected_from(r)->0.remain_after_elapse,
            ).len()
        }),
    decreases replies.len(),
{
    reveal(Seq::filter);
    if replies.len() > 0 {
        let outcomes = replies.map_values(|r: TimerReplies| collected_from(r));
        assert(outcomes.drop_last() =~= replies.drop_last().map_values(
            |r: TimerReplies| collected_from(r),
        ));
        lemma_counters_from_replies(timers, replies.drop_last());
    }
}

/// Where the metrics of a timer are collected, each of them is what the timer's property of
/// that name holds. Where the timer names a unit, the state change is what the properties
/// of that unit hold, and otherwise it is none.
pub proof fn law_metrics_hold_their_properties(replies: TimerReplies)
    ensures
        collection_outcome(replies) matches Ok(stats) ==> {
            let props = replies.timer->Ok_0;
            let named = dbus_props::value_contents(props["Unit"@]);
            &&& replies.timer is Ok
            &&& props.contains_key("Unit"@)
            &&& named is Str
            &&& props.contains_key("AccuracyUSec"@)
            &&& dbus_props::value_contents(props["AccuracyUSec"@]) == ValueContents::U64(
                stats.accuracy_usec,
            )
            &&& props.contains_key("FixedRandomDelay"@)
            &&& dbus_props::value_contents(props["FixedRandomDelay"@]) == ValueContents::Bool(
                stats.fixed_random_delay,
            )
            &&& props.contains_key("LastTriggerUSec"@)
            &&& dbus_props::value_contents(props["LastTriggerUSec"@]) == ValueContents::U64(
                stats.last_trigger_usec,
            )
            &&& props.contains_key("LastTriggerUSecMonotonic"@)
            &&& dbus_props::value_contents(props["LastTriggerUSecMonotonic"@]) == ValueContents::U64(
                stats.last_trigger_usec_monotonic,
            )
            &&& props.contains_key("NextElapseUSecMonotonic"@)
            &&& dbus_props::value_contents(props["NextElapseUSecMonotonic"@]) == ValueContents::U64(
                stats.next_elapse_usec_monotonic,
            )
            &&& props.contains_key("NextElapseUSecRealtime"@)
            &&& dbus_props::value_contents(props["NextElapseUSecRealtime"@]) == ValueContents::U64(
                stats.next_elapse_usec_realtime,
            )
            &&& props.contains_key("Persistent"@)
            &&& dbus_props::value_contents(props["Persistent"@]) == ValueContents::Bool(
                stats.persistent,
            )
            &&& props.contains_key("RandomizedDelayUSec"@)
            &&& dbus_props::value_contents(props["RandomizedDelayUSec"@]) == ValueContents::U64(
                stats.randomized_delay_usec,
            )
            &&& props.contains_key("RemainAfterElapse"@)
            &&& dbus_props::value_contents(props["RemainAfterElapse"@]) == ValueContents::Bool(
                stats.remain_after_elapse,
            )
            &&& named->Str_0.len() == 0 ==> {
                &&& stats.service_unit_last_state_change_usec == 0
                &&& stats.service_unit_last_state_change_usec_monotonic == 0
            }
            &&& named->Str_0.len() > 0 ==> {
                let service_props = replies.service->Ok_0;
                &&& replies.unit is Ok
                &&& replies.service is Ok
                &&& service_props.contains_key("StateChangeTimestamp"@)
                &&& dbus_props::value_contents(service_props["StateChangeTimestamp"@]) == ValueContents::U64(
                    stats.service_unit_last_state_change_usec,
                )
                &&& service_props.contains_key("StateChangeTimestampMonotonic"@)
                &&& dbus_props::value_contents(service_props["StateChangeTimestampMonotonic"@]) == ValueContents::U64(
                    stats.service_unit_last_state_change_usec_monotonic,
                )
            }
        },
{
}

/// The metrics of a timer are collected whenever no call fails that has to be made and
/// every property is there and of its type. Where the timer names no unit, nothing is
/// asked of the answers about one.
pub proof fn law_complete_answers_are_collected(replies: TimerReplies)
    requires
        replies.timer is Ok,
        ({
            let props = replies.timer->Ok_0;
            &&& props.contains_key("Unit"@)
            &&& dbus_props::value_contents(props["Unit"@]) is Str
            &&& props.contains_key("AccuracyUSec"@)
            &&& dbus_props::value_contents(props["AccuracyUSec"@]) is U64
            &&& props.contains_key("FixedRandomDelay"@)
            &&& dbus_props::value_contents(props["FixedRandomDelay"@]) is Bool
            &&& props.contains_key("LastTriggerUSec"@)
            &&& dbus_props::value_contents(props["LastTriggerUSec"@]) is U64
            &&& props.contains_key("LastTriggerUSecMonotonic"@)
            &&& dbus_props::value_contents(props["LastTriggerUSecMonotonic"@]) is U64
            &&& props.contains_key("NextElapseUSecMonotonic"@)
            &&& dbus_props::value_contents(props["NextElapseUSecMonotonic"@]) is U64
            &&& props.contains_key("NextElapseUSecRealtime"@)
            &&& dbus_props::value_contents(props["NextElapseUSecRealtime"@]) is U64
            &&& props.contains_key("Persistent"@)
            &&& dbus_props::value_contents(props["Persistent"@]) is Bool
            &&& props.contains_key("RandomizedDelayUSec"@)
            &&& dbus_props::value_contents(props["RandomizedDelayUSec"@]) is U64
            &&& props.contains_key("RemainAfterElapse"@)
            &&& dbus_props::value_contents(props["RemainAfterElapse"@]) is Bool
            &&& dbus_props::value_contents(props["Unit"@])->Str_0.len() > 0 ==> {
                let service_props = replies.service->Ok_0;
                &&& replies.unit is Ok
                &&& replies.service is Ok
                &&& service_props.contains_key("StateChangeTimestamp"@)
                &&& dbus_props::value_contents(service_props["StateChangeTimestamp"@]) is U64
                &&& service_props.contains_key("StateChangeTimestampMonotonic"@)
                &&& dbus_props::value_contents(service_props["StateChangeTimestampMonotonic"@]) is U64
            }
        }),
    ensures
        collection_outcome(replies) is Ok,
{
}

/// A call that fails ends the way to the metrics with the error of that call: the first
/// that is made and fails, of those that have to be made. So does a timer without the
/// property that names its unit, or with one of another type.
pub proof fn law_failed_calls_are_reported(replies: TimerReplies)
    ensures
        replies.timer matches Err(e) ==> collection_outcome(replies) == Err::<TimerStats, _>(
            DbusErrorView::Call(e),
        ),
        replies.timer matches Ok(props) ==> {
            let named = dbus_props::value_contents(props["Unit"@]);
            &&& !props.contains_key("Unit"@) ==> collection_outcome(replies) == Err::<TimerStats, _>(
                DbusErrorView::Failure("Missing property "@ + "Unit"@),
            )
            &&& props.contains_key("Unit"@) && !(named is Str) ==> collection_outcome(replies)
                == Err::<TimerStats, _>(DbusErrorView::IncorrectType)
            &&& props.contains_key("Unit"@) && named is Str && named->Str_0.len() > 0 ==> {
                &&& replies.unit matches Err(e) ==> collection_outcome(replies) == Err::<
                    TimerStats,
                    _,
                >(DbusErrorView::Call(e))
                &&& replies.unit is Ok ==> (replies.service matches Err(e) ==> collection_outcome(
                    replies,
                ) == Err::<TimerStats, _>(DbusErrorView::Call(e)))
            }
        },
{
}

/// Of the timer's properties that are missing or of another type, the first in this order
/// is the one reported.
pub proof fn law_first_unreadable_property_is_reported(replies: TimerReplies, i: int)
    requires
        replies.timer is Ok,
        replies.timer->Ok_0.contains_key("Unit"@),
        dbus_props::value_contents(replies.timer->Ok_0["Unit"@]) is Str,
        dbus_props::value_contents(replies.timer->Ok_0["Unit"@])->Str_0.len() > 0 ==> {
            let service_props = replies.service->Ok_0;
            &&& replies.unit is Ok
            &&& replies.service is Ok
            &&& service_props.contains_key("StateChangeTimestamp"@)
            &&& dbus_props::value_contents(service_props["StateChangeTimestamp"@]) is U64
            &&& service_props.contains_key("StateChangeTimestampMonotonic"@)
            &&& dbus_props::value_contents(service_props["StateChangeTimestampMonotonic"@]) is U64
        },
    ensures
        ({
            let props = replies.timer->Ok_0;
            let list = seq![
                ("AccuracyUSec"@, false),
                ("FixedRandomDelay"@, true),
                ("LastTriggerUSec"@, false),
                ("LastTriggerUSecMonotonic"@, false),
                ("Persistent"@, true),
                ("NextElapseUSecMonotonic"@, false),
                ("NextElapseUSecRealtime"@, false),
                ("RandomizedDelayUSec"@, false),
                ("RemainAfterElapse"@, true),
            ];
            let readable = |k: int|
                props.contains_key(list[k].0) && (if list[k].1 {
                    dbus_props::value_contents(props[list[k].0]) is Bool
                } else {
                    dbus_props::value_contents(props[list[k].0]) is U64
                });
            0 <= i < list.len() && !readable(i) && (forall|j: int|
                0 <= j < i ==> #[trigger] readable(j)) ==> collection_outcome(replies) == Err::<
                TimerStats,
                _,
            >(
                if props.contains_key(list[i].0) {
                    DbusErrorView::IncorrectType
                } else {
                    DbusErrorView::Failure("Missing property "@ + list[i].0)
                },
            )
        }),
{
    let props = replies.timer->Ok_0;
    let list = seq![
        ("AccuracyUSec"@, false),
        ("FixedRandomDelay"@, true),
        ("LastTriggerUSec"@, false),
        ("LastTriggerUSecMonotonic"@, false),
        ("Persistent"@, true),
        ("NextElapseUSecMonotonic"@, false),
        ("NextElapseUSecRealtime"@, false),
        ("RandomizedDelayUSec"@, false),
        ("RemainAfterElapse"@, true),
    ];
    let readable = |k: int|
        props.contains_key(list[k].0) && (if list[k].1 {
            dbus_props::value_contents(props[list[k].0]) is Bool
        } else {
            dbus_props::value_contents(props[list[k].0]) is U64
        });
    if 0 <= i < list.len() && !readable(i) && (forall|j: int| 0 <= j < i ==> #[trigger] readable(j)) {
        assert(0 < i ==> readable(0));
        assert(1 < i ==> readable(1));
        assert(2 < i ==> readable(2));
        assert(3 < i ==> readable(3));
        assert(4 < i ==> readable(4));
        assert(5 < i ==> readable(5));
        assert(6 < i ==> readable(6));
        assert(7 < i ==> readable(7));
    }
}

/// Where the triggered unit's state change cannot be read, that is reported, whatever the
/// timer's own metrics are: the time since the epoch is looked at first.
pub proof fn law_unreadable_state_change_is_reported(replies: TimerReplies)
    requires
        replies.timer is Ok,
        replies.timer->Ok_0.contains_key("Unit"@),
        dbus_props::value_contents(replies.timer->Ok_0["Unit"@]) is Str,
        dbus_props::value_contents(replies.timer->Ok_0["Unit"@])->Str_0.len() > 0,
        replies.unit is Ok,
        replies.service is Ok,
    ensures
        ({
            let props = replies.service->Ok_0;
            let first = "StateChangeTimestamp"@;
            let second = "StateChangeTimestampMonotonic"@;
            let first_is_read = props.contains_key(first) && dbus_props::value_contents(
                props[first],
            ) is U64;
            &&& !props.contains_key(first) ==> collection_outcome(replies) == Err::<TimerStats, _>(
                DbusErrorView::Failure("Missing property "@ + first),
            )
            &&& props.contains_key(first) && !first_is_read ==> collection_outcome(replies) == Err::<
                TimerStats,
                _,
            >(DbusErrorView::IncorrectType)
            &&& first_is_read && !props.contains_key(second) ==> collection_outcome(replies)
                == Err::<TimerStats, _>(DbusErrorView::Failure("Missing property "@ + second))
            &&& first_is_read && props.contains_key(second) && !(dbus_props::value_contents(
                props[second],
            ) is U64) ==> collection_outcome(replies) == Err::<TimerStats, _>(
                DbusErrorView::IncorrectType,
            )
        }),
{
}

/// What follows the answer about a timer's properties: the end, with the call's own error,
/// where the call failed; the look-up of the very unit that the timer names, if it names
/// one; and otherwise the end. Metrics that are there at the end hold what the properties
/// hold, and no state change.
pub proof fn law_answer_about_a_timer<'a>(
    wait: AwaitTimerProperties<'a>,
    reply: Result<Properties, zbus::Error>,
    step: TimerStep<'a>,
)
    requires
        call_ensures(AwaitTimerProperties::<'a>::resume, (wait, reply), step),
    ensures
        reply matches Err(e) ==> step == TimerStep::Finished(
            Err(MonitordTimerError::ZbusError(DbusError::Call(e))),
        ),
        reply matches Ok(answered) ==> {
            let props = answered@;
            let named = dbus_props::value_contents(props["Unit"@]);
            &&& !props.contains_key("Unit"@) ==> (step matches TimerStep::Finished(
                Err(MonitordTimerError::ZbusError(DbusError::Failure(text))),
            ) && text@ == "Missing property "@ + "Unit"@)
            &&& props.contains_key("Unit"@) && !(named is Str) ==> step == TimerStep::Finished(
                Err(MonitordTimerError::ZbusError(DbusError::IncorrectType)),
            )
            &&& props.contains_key("Unit"@) && named is Str && named->Str_0.len() > 0 ==> (
            step matches TimerStep::GetServiceUnit(next) && named == ValueContents::Str(
                next.unit_name(),
            ) && next.timer_properties() == props)
            &&& props.contains_key("Unit"@) && named is Str && named->Str_0.len() == 0
                ==> step is Finished
            &&& props.contains_key("Unit"@) && named is Str && named->Str_0.len() == 0 && ({
                &&& props.contains_key("AccuracyUSec"@)
                &&& dbus_props::value_contents(props["AccuracyUSec"@]) is U64
                &&& props.contains_key("FixedRandomDelay"@)
                &&& dbus_props::value_contents(props["FixedRandomDelay"@]) is Bool
                &&& props.contains_key("LastTriggerUSec"@)
                &&& dbus_props::value_contents(props["LastTriggerUSec"@]) is U64
                &&& props.contains_key("LastTriggerUSecMonotonic"@)
                &&& dbus_props::value_contents(props["LastTriggerUSecMonotonic"@]) is U64
                &&& props.contains_key("NextElapseUSecMonotonic"@)
                &&& dbus_props::value_contents(props["NextElapseUSecMonotonic"@]) is U64
                &&& props.contains_key("NextElapseUSecRealtime"@)
                &&& dbus_props::value_contents(props["NextElapseUSecRealtime"@]) is U64
                &&& props.contains_key("Persistent"@)
                &&& dbus_props::value_contents(props["Persistent"@]) is Bool
                &&& props.contains_key("RandomizedDelayUSec"@)
                &&& dbus_props::value_contents(props["RandomizedDelayUSec"@]) is U64
                &&& props.contains_key("RemainAfterElapse"@)
                &&& dbus_props::value_contents(props["RemainAfterElapse"@]) is Bool
            }) ==> (step matches TimerStep::Finished(Ok(_)))
            &&& step matches TimerStep::Finished(Ok(stats)) ==> {
                &&& props.contains_key("AccuracyUSec"@)
                &&& dbus_props::value_contents(props["AccuracyUSec"@]) == ValueContents::U64(
                    stats.accuracy_usec,
                )
                &&& props.contains_key("FixedRandomDelay"@)
                &&& dbus_props::value_contents(props["FixedRandomDelay"@]) == ValueContents::Bool(
                    stats.fixed_random_delay,
                )
                &&& props.contains_key("LastTriggerUSec"@)
                &&& dbus_props::value_contents(props["LastTriggerUSec"@]) == ValueContents::U64(
                    stats.last_trigger_usec,
                )
                &&& props.contains_key("LastTriggerUSecMonotonic"@)
                &&& dbus_props::value_contents(props["LastTriggerUSecMonotonic"@]) == ValueContents::U64(
                    stats.last_trigger_usec_monotonic,
                )
                &&& props.contains_key("NextElapseUSecMonotonic"@)
                &&& dbus_props::value_contents(props["NextElapseUSecMonotonic"@]) == ValueContents::U64(
                    stats.next_elapse_usec_monotonic,
                )
                &&& props.contains_key("NextElapseUSecRealtime"@)
                &&& dbus_props::value_contents(props["NextElapseUSecRealtime"@]) == ValueContents::U64(
                    stats.next_elapse_usec_realtime,
                )
                &&& props.contains_key("Persistent"@)
                &&& dbus_props::value_contents(props["Persistent"@]) == ValueContents::Bool(
                    stats.persistent,
                )
                &&& props.contains_key("RandomizedDelayUSec"@)
                &&& dbus_props::value_contents(props["RandomizedDelayUSec"@]) == ValueContents::U64(
                    stats.randomized_delay_usec,
                )
                &&& props.contains_key("RemainAfterElapse"@)
                &&& dbus_props::value_contents(props["RemainAfterElapse"@]) == ValueContents::Bool(
                    stats.remain_after_elapse,
                )
                &&& stats.service_unit_last_state_change_usec == 0
                &&& stats.service_unit_last_state_change_usec_monotonic == 0
            }
        },
{
}

/// What follows the answer about the object of the triggered unit: the end, with the
/// call's own error, where the call failed, and otherwise the call for the properties of
/// that object. The properties of the timer are still the same.
pub proof fn law_answer_about_a_unit<'a>(
    wait: AwaitServiceUnit,
    reply: Result<OwnedObjectPath, zbus::Error>,
    step: TimerStep<'a>,
)
    requires
        call_ensures(AwaitServiceUnit::resume, (wait, reply), step),
    ensures
        reply matches Err(e) ==> step == TimerStep::<'a>::Finished(
            Err(MonitordTimerError::ZbusError(DbusError::Call(e))),
        ),
        reply matches Ok(path) ==> (step matches TimerStep::GetServiceProperties(next)
            && next.path() == path && next.timer_properties() == wait.timer_properties()),
{
}

/// What follows the answer about the properties of the triggered unit: the end, with the
/// call's own error, where the call failed. Metrics that are there at the end hold what
/// the properties of the timer and of the unit hold.
pub proof fn law_answer_about_a_service<'a>(
    wait: AwaitServiceProperties,
    reply: Result<Properties, zbus::Error>,
    step: TimerStep<'a>,
)
    requires
        call_ensures(AwaitServiceProperties::resume, (wait, reply), step),
    ensures
        step is Finished,
        reply matches Err(e) ==> step == TimerStep::<'a>::Finished(
            Err(MonitordTimerError::ZbusError(DbusError::Call(e))),
        ),
        reply is Ok && ({
            let props = wait.timer_properties();
            let service_props = reply->Ok_0@;
            &&& props.contains_key("AccuracyUSec"@)
            &&& dbus_props::value_contents(props["AccuracyUSec"@]) is U64
            &&& props.contains_key("FixedRandomDelay"@)
            &&& dbus_props::value_contents(props["FixedRandomDelay"@]) is Bool
            &&& props.contains_key("LastTriggerUSec"@)
            &&& dbus_props::value_contents(props["LastTriggerUSec"@]) is U64
            &&& props.contains_key("LastTriggerUSecMonotonic"@)
            &&& dbus_props::value_contents(props["LastTriggerUSecMonotonic"@]) is U64
            &&& props.contains_key("NextElapseUSecMonotonic"@)
            &&& dbus_props::value_contents(props["NextElapseUSecMonotonic"@]) is U64
            &&& props.contains_key("NextElapseUSecRealtime"@)
            &&& dbus_props::value_contents(props["NextElapseUSecRealtime"@]) is U64
            &&& props.contains_key("Persistent"@)
            &&& dbus_props::value_contents(props["Persistent"@]) is Bool
            &&& props.contains_key("RandomizedDelayUSec"@)
            &&& dbus_props::value_contents(props["RandomizedDelayUSec"@]) is U64
            &&& props.contains_key("RemainAfterElapse"@)
            &&& dbus_props::value_contents(props["RemainAfterElapse"@]) is Bool
            &&& service_props.contains_key("StateChangeTimestamp"@)
            &&& dbus_props::value_contents(service_props["StateChangeTimestamp"@]) is U64
            &&& service_props.contains_key("StateChangeTimestampMonotonic"@)
            &&& dbus_props::value_contents(service_props["StateChangeTimestampMonotonic"@]) is U64
        }) ==> (step matches TimerStep::Finished(Ok(_))),
        step matches TimerStep::Finished(Ok(stats)) ==> {
            let props = wait.timer_properties();
            let service_props = reply->Ok_0@;
            &&& reply is Ok
            &&& props.contains_key("AccuracyUSec"@)
            &&& dbus_props::value_contents(props["AccuracyUSec"@]) == ValueContents::U64(
                stats.accuracy_usec,
            )
            &&& props.contains_key("FixedRandomDelay"@)
            &&& dbus_props::value_contents(props["FixedRandomDelay"@]) == ValueContents::Bool(
                stats.fixed_random_delay,
            )
            &&& props.contains_key("LastTriggerUSec"@)
            &&& dbus_props::value_contents(props["LastTriggerUSec"@]) == ValueContents::U64(
                stats.last_trigger_usec,
            )
            &&& props.contains_key("LastTriggerUSecMonotonic"@)
            &&& dbus_props::value_contents(props["LastTriggerUSecMonotonic"@]) == ValueContents::U64(
                stats.last_trigger_usec_monotonic,
            )
            &&& props.contains_key("NextElapseUSecMonotonic"@)
            &&& dbus_props::value_contents(props["NextElapseUSecMonotonic"@]) == ValueContents::U64(
                stats.next_elapse_usec_monotonic,
            )
            &&& props.contains_key("NextElapseUSecRealtime"@)
            &&& dbus_props::value_contents(props["NextElapseUSecRealtime"@]) == ValueContents::U64(
                stats.next_elapse_usec_realtime,
            )
            &&& props.contains_key("Persistent"@)
            &&& dbus_props::value_contents(props["Persistent"@]) == ValueContents::Bool(
                stats.persistent,
            )
            &&& props.contains_key("RandomizedDelayUSec"@)
            &&& dbus_props::value_contents(props["RandomizedDelayUSec"@]) == ValueContents::U64(
                stats.randomized_delay_usec,
            )
            &&& props.contains_key("RemainAfterElapse"@)
            &&& dbus_props::value_contents(props["RemainAfterElapse"@]) == ValueContents::Bool(
                stats.remain_after_elapse,
            )
            &&& service_props.contains_key("StateChangeTimestamp"@)
            &&& dbus_props::value_contents(service_props["StateChangeTimestamp"@]) == ValueContents::U64(
                stats.service_unit_last_state_change_usec,
            )
            &&& service_props.contains_key("StateChangeTimestampMonotonic"@)
            &&& dbus_props::value_contents(service_props["StateChangeTimestampMonotonic"@]) == ValueContents::U64(
                stats.service_unit_last_state_change_usec_monotonic,
            )
        },
{
}

/// A step of the way, and what it ended with, are viewed as they are.
pub proof fn law_steps_are_viewed_as_they_are<'a>(
    step: TimerStep<'a>,
    reply: Result<Properties, zbus::Error>,
)
    ensures
        step matches TimerStep::GetTimerProperties(wait) ==> step@ == (
        TimerStepView::GetTimerProperties { path: wait.path() }),
        step matches TimerStep::GetServiceUnit(wait) ==> step@ == (TimerStepView::GetServiceUnit {
            service_unit: wait.unit_name(),
            timer_props: wait.timer_properties(),
        }),
        step matches TimerStep::GetServiceProperties(wait) ==> step@ == (
        TimerStepView::GetServiceProperties {
            path: wait.path(),
            timer_props: wait.timer_properties(),
        }),
        step matches TimerStep::Finished(Ok(stats)) ==> step@ == TimerStepView::Finished(Ok(stats)),
        step matches TimerStep::Finished(Err(MonitordTimerError::ZbusError(e))) ==> step@
            == TimerStepView::Finished(Err(e@)),
        reply matches Ok(props) ==> answer(reply) == Ok::<PropertyMap, zbus::Error>(props@),
        reply matches Err(e) ==> answer(reply) == Err::<PropertyMap, zbus::Error>(e),
{
}

/// A text has a part in it exactly where it is made of something, that part, and something
/// else.
pub proof fn law_parts_of_a_text(
    text: Seq<char>,
    before: Seq<char>,
    pattern: Seq<char>,
    after: Seq<char>,
)
    ensures
        text == before + pattern + after ==> stands_in(text, pattern),
        stands_in(text, pattern) ==> exists|head: Seq<char>, tail: Seq<char>|
            text == #[trigger] (head + pattern + tail),
{
    if text == before + pattern + after {
        assert(text.subrange(before.len() as int, before.len() as int + pattern.len()) =~= pattern);
        assert(stands_at(text, pattern, before.len() as int));
    }
    if stands_in(text, pattern) {
        let i = choose|i: int| stands_at(text, pattern, i);
        let head = text.subrange(0, i);
        let tail = text.subrange(i + pattern.len(), text.len() as int);
        let part = text.subrange(i, i + pattern.len());
        assert(text =~= head + part + tail);
        assert(text == head + pattern + tail);
    }
}

/// A name that is blocked, or has no `.timer` in it, is not collected. Where some name
/// stands in the allow list, whichever and however many others do, exactly those names
/// are collected that stand there too, are not blocked and have `.timer` in them. An empty
/// allow list asks for nothing.
pub proof fn law_lists_decide_on_names(timers: TimersConfig, name: Seq<char>, allowed: Seq<char>)
    ensures
        timers.blocklist@.contains(name) ==> !is_collected(timers, name),
        !stands_in(name, ".timer"@) ==> !is_collected(timers, name),
        timers.allowlist@.contains(allowed) && !timers.blocklist@.contains(name) ==> (is_collected(
            timers,
            name,
        ) <==> timers.allowlist@.contains(name) && stands_in(name, ".timer"@)),
        timers.allowlist@ != Set::<Seq<char>>::empty() && !timers.blocklist@.contains(name) ==> (
        is_collected(timers, name) <==> timers.allowlist@.contains(name) && stands_in(
            name,
            ".timer"@,
        )),
        timers.allowlist@ == Set::<Seq<char>>::empty() && !timers.blocklist@.contains(name) ==> (
        is_collected(timers, name) <==> stands_in(name, ".timer"@)),
{
}

/// The timers that are collected of a list are those of its beginning and then those of
/// its end: their order stays, and none is dropped or doubled.
pub proof fn law_timers_keep_their_order(
    timers: TimersConfig,
    listed: Seq<ListedUnit>,
    unit: ListedUnit,
)
    ensures
        collected_units(timers, Seq::empty()) == Seq::<ListedUnit>::empty(),
        ({
            let wanted = stands_in(unit.name@, ".timer"@) && !timers.blocklist@.contains(unit.name@)
                && (timers.allowlist@.contains(unit.name@) || timers.allowlist@ == Set::<
                Seq<char>,
            >::empty());
            collected_units(timers, listed.push(unit)) == (if wanted {
                collected_units(timers, listed).push(unit)
            } else {
                collected_units(timers, listed)
            })
        }),
{
    reveal(Seq::filter);
    assert(listed.push(unit).drop_last() =~= listed);
}

/// A counter grows by one exactly when the timer has its own setting, and the two do not
/// look at each other. Counting leaves the metrics that are kept alone, and asks for room
/// in those counters only that it raises.
pub proof fn law_counters_are_independent(stats: UnitStatsView, timer: TimerStats)
    ensures
        timer.persistent ==> counted(stats, timer).timer_persistent_units
            == stats.timer_persistent_units + 1,
        !timer.persistent ==> counted(stats, timer).timer_persistent_units
            == stats.timer_persistent_units,
        timer.remain_after_elapse ==> counted(stats, timer).timer_remain_after_elapse
            == stats.timer_remain_after_elapse + 1,
        !timer.remain_after_elapse ==> counted(stats, timer).timer_remain_after_elapse
            == stats.timer_remain_after_elapse,
        counted(stats, timer).timer_stats == stats.timer_stats,
        has_room(stats, timer) <==> !(timer.persistent && stats.timer_persistent_units >= u64::MAX)
            && !(timer.remain_after_elapse && stats.timer_remain_after_elapse >= u64::MAX),
{
}

/// What a timer that was collected adds to what is known: its own metrics, all of them,
/// under its own name, and one in each counter whose setting it has.
pub proof fn law_collected_timer_is_kept(
    timers: Seq<ListedUnit>,
    outcomes: Seq<Option<TimerStats>>,
    timer: TimerStats,
)
    ensures
        ({
            let before = tally(timers, outcomes);
            let after = tally(timers, outcomes.push(Some(timer)));
            &&& after.timer_stats == before.timer_stats.insert(
                timers[outcomes.len() as int].name@,
                timer,
            )
            &&& after.timer_persistent_units - before.timer_persistent_units == (
            if timer.persistent {
                1int
            } else {
                0int
            })
            &&& after.timer_remain_after_elapse - before.timer_remain_after_elapse == (
            if timer.remain_after_elapse {
                1int
            } else {
                0int
            })
        }),
{
    assert(outcomes.push(Some(timer)).drop_last() =~= outcomes);
}

/// Recording a result, between two looks at what is known: metrics that were collected
/// stand under the name of the timer that was next, whatever they are, and raise each
/// counter whose setting they have; a failure leaves everything as it was.
pub proof fn law_recorded_result_is_known(
    run: TimersRun,
    before: SystemdUnitStats,
    result: Result<TimerStats, MonitordTimerError>,
    next: TimersRun,
    after: SystemdUnitStats,
)
    requires
        run.outcomes().len() < run.timers().len(),
        call_ensures(TimersRun::finish, (run,), before),
        call_ensures(TimersRun::record, (run, result), next),
        call_ensures(TimersRun::finish, (next,), after),
    ensures
        next.timers() == run.timers(),
        next.outcomes().len() == run.outcomes().len() + 1,
        result matches Ok(timer) ==> {
            &&& next.outcomes().last() == Some(timer)
            &&& after.timer_stats@ == before.timer_stats@.insert(
                run.timers()[run.outcomes().len() as int].name@,
                timer,
            )
            &&& after.timer_persistent_units == before.timer_persistent_units + (
            if timer.persistent {
                1int
            } else {
                0int
            })
            &&& after.timer_remain_after_elapse == before.timer_remain_after_elapse + (
            if timer.remain_after_elapse {
                1int
            } else {
                0int
            })
        },
        result is Err ==> {
            &&& next.outcomes().last() is None
            &&& after.timer_stats@ == before.timer_stats@
            &&& after.timer_persistent_units == before.timer_persistent_units
            &&& after.timer_remain_after_elapse == before.timer_remain_after_elapse
        },
{
    if result is Ok {
        law_collected_timer_is_kept(run.timers(), run.outcomes(), result->Ok_0);
    } else {
        law_failed_timer_leaves_no_trace(run.timers(), run.outcomes());
    }
}

/// A timer counts as collected exactly when metrics came of it, and then with all of them.
pub proof fn law_what_counts_as_collected(
    result: Result<TimerStats, MonitordTimerError>,
    replies: TimerReplies,
)
    ensures
        result matches Ok(timer) ==> collected(result) == Some(timer),
        result is Err ==> collected(result) is None,
        collection_outcome(replies) matches Ok(timer) ==> collected_from(replies) == Some(timer),
        collection_outcome(replies) is Err ==> collected_from(replies) is None,
{
}

/// A timer names a unit exactly when its property says so with a name that is not empty.
pub proof fn law_named_units(reply: Result<PropertyMap, zbus::Error>)
    ensures
        names_a_unit(reply) <==> reply is Ok && reply->Ok_0.contains_key("Unit"@) && (
        dbus_props::value_contents(reply->Ok_0["Unit"@]) matches ValueContents::Str(name)
            && name.len() > 0),
        names_a_unit(reply) ==> dbus_props::value_contents(reply->Ok_0["Unit"@])
            == ValueContents::Str(triggered_unit(reply->Ok_0)),
{
}

/// Whichever way the steps lead, what they end with is what the answers give: the very
/// metrics, or an error that reads the same.
pub proof fn law_steps_end_with_the_outcome<'a>(
    first: AwaitTimerProperties<'a>,
    timer: Result<Properties, zbus::Error>,
    second: TimerStep<'a>,
    unit: Result<OwnedObjectPath, zbus::Error>,
    third: TimerStep<'a>,
    service: Result<Properties, zbus::Error>,
    last: TimerStep<'a>,
)
    requires
        call_ensures(AwaitTimerProperties::<'a>::resume, (first, timer), second),
        match second {
            TimerStep::GetServiceUnit(wait) => call_ensures(
                AwaitServiceUnit::resume,
                (wait, unit),
                third,
            ),
            _ => third == second,
        },
        match third {
            TimerStep::GetServiceProperties(wait) => call_ensures(
                AwaitServiceProperties::resume,
                (wait, service),
                last,
            ),
            _ => last == third,
        },
    ensures
        ({
            let replies = TimerReplies {
                timer: match timer {
                    Ok(props) => Ok(props@),
                    Err(e) => Err(e),
                },
                unit,
                service: match service {
                    Ok(props) => Ok(props@),
                    Err(e) => Err(e),
                },
            };
            match last {
                TimerStep::Finished(Ok(stats)) => collection_outcome(replies) == Ok::<_, DbusErrorView>(
                    stats,
                ),
                TimerStep::Finished(Err(MonitordTimerError::ZbusError(e))) => collection_outcome(
                    replies,
                ) == Err::<TimerStats, _>(e@),
                _ => false,
            }
        }),
{
}

/// Of the units that are listed, exactly those are up for collecting that have `.timer` in
/// their names, are not blocked, and stand in the allow list if any name does.
pub proof fn law_listed_timers_are_up_for_collecting<'a>(
    wait: AwaitUnits<'a>,
    listed: Vec<ListedUnit>,
    step: AllTimersStep<'a>,
    unit: ListedUnit,
    allowed: Seq<char>,
)
    requires
        call_ensures(
            AwaitUnits::<'a>::resume,
            (wait, Ok::<Vec<ListedUnit>, zbus::Error>(listed)),
            step,
        ),
        wait.timers().allowlist@.contains(allowed) || wait.timers().allowlist@ == Set::<
            Seq<char>,
        >::empty(),
    ensures
        step matches AllTimersStep::CollectTimers(run) && (run.timers().contains(unit) <==> {
            &&& listed@.contains(unit)
            &&& stands_in(unit.name@, ".timer"@)
            &&& !wait.timers().blocklist@.contains(unit.name@)
            &&& wait.timers().allowlist@.contains(allowed) ==> wait.timers().allowlist@.contains(
                unit.name@,
            )
        }),
{
    law_collected_units(wait.timers(), listed@, unit);
}

} // verus!
