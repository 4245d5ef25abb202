use monitord_timers::config::{Config, TimersConfig};
use monitord_timers::dbus_props::{DbusError, Properties};
use monitord_timers::names::{NameMap, NameSet};
use monitord_timers::timer::{
    collect_all_timers_dbus, collect_timer_stats, count_timer, AllTimersStep, MonitordTimerError,
    TimerStats, TimerStep, TimersRun, TIMER_STATS_FIELD_NAMES,
};
use monitord_timers::units::{ListedUnit, SystemdUnitStats};
use zbus::zvariant::{OwnedObjectPath, OwnedValue, Value};

fn path(text: &str) -> OwnedObjectPath {
    OwnedObjectPath::try_from(text).unwrap()
}

fn unit(name: &str) -> ListedUnit {
    ListedUnit {
        name: name.to_string(),
        unit_object_path: path("/timer"),
    }
}

fn text(value: &str) -> OwnedValue {
    Value::from(value).try_into().unwrap()
}

fn timer_props(service_unit: &str) -> Properties {
    let mut props = NameMap::new();
    props.insert("Unit".to_string(), text(service_unit));
    for (name, number) in [
        ("AccuracyUSec", 1u64),
        ("LastTriggerUSec", 2),
        ("LastTriggerUSecMonotonic", 3),
        ("NextElapseUSecMonotonic", 4),
        ("NextElapseUSecRealtime", 5),
        ("RandomizedDelayUSec", 6),
    ] {
        props.insert(name.to_string(), OwnedValue::from(number));
    }
    for (name, flag) in [
        ("FixedRandomDelay", false),
        ("Persistent", true),
        ("RemainAfterElapse", false),
    ] {
        props.insert(name.to_string(), OwnedValue::from(flag));
    }
    props
}

fn service_props() -> Properties {
    let mut props = NameMap::new();
    props.insert("StateChangeTimestamp".to_string(), OwnedValue::from(42u64));
    props.insert(
        "StateChangeTimestampMonotonic".to_string(),
        OwnedValue::from(43u64),
    );
    props
}

fn stats(changed: u64, changed_monotonic: u64) -> TimerStats {
    TimerStats {
        accuracy_usec: 1,
        fixed_random_delay: false,
        last_trigger_usec: 2,
        last_trigger_usec_monotonic: 3,
        next_elapse_usec_monotonic: 4,
        next_elapse_usec_realtime: 5,
        persistent: true,
        randomized_delay_usec: 6,
        remain_after_elapse: false,
        service_unit_last_state_change_usec: changed,
        service_unit_last_state_change_usec_monotonic: changed_monotonic,
    }
}

/// Runs the steps for a timer on the given answers, and says which calls were made.
fn run(
    timer: Result<Properties, zbus::Error>,
    service_path: Result<OwnedObjectPath, zbus::Error>,
    service: Result<Properties, zbus::Error>,
) -> (Vec<String>, Result<TimerStats, MonitordTimerError>) {
    let unit = unit("a.timer");
    let mut calls = Vec::new();
    let mut timer = Some(timer);
    let mut service_path = Some(service_path);
    let mut service = Some(service);
    let mut step = collect_timer_stats(&unit);
    loop {
        step = match step {
            TimerStep::GetTimerProperties(wait) => {
                let request = wait.request();
                calls.push(format!(
                    "{} {} {}",
                    request.destination,
                    request.path.as_str(),
                    request.interface
                ));
                wait.resume(timer.take().unwrap())
            }
            TimerStep::GetServiceUnit(wait) => {
                calls.push(wait.service_unit().to_string());
                wait.resume(service_path.take().unwrap())
            }
            TimerStep::GetServiceProperties(wait) => {
                let request = wait.request();
                calls.push(format!(
                    "{} {} {}",
                    request.destination,
                    request.path.as_str(),
                    request.interface
                ));
                wait.resume(service.take().unwrap())
            }
            TimerStep::Finished(result) => return (calls, result),
        };
    }
}

fn no_bus() -> zbus::Error {
    zbus::Error::Failure("no bus".to_string())
}

fn dbus_error(result: Result<TimerStats, MonitordTimerError>) -> DbusError {
    match result {
        Err(MonitordTimerError::ZbusError(e)) => e,
        Ok(stats) => panic!("{:?}", stats),
    }
}

fn failure(result: Result<TimerStats, MonitordTimerError>) -> String {
    match dbus_error(result) {
        DbusError::Failure(text) => text,
        other => panic!("{:?}", other),
    }
}

#[test]
fn a_timer_takes_three_calls() {
    let (calls, result) = run(
        Ok(timer_props("a.service")),
        Ok(path("/service")),
        Ok(service_props()),
    );
    assert_eq!(
        calls,
        vec![
            "org.freedesktop.systemd1 /timer org.freedesktop.systemd1.Timer",
            "a.service",
            "org.freedesktop.systemd1 /service org.freedesktop.systemd1.Unit",
        ]
    );
    assert_eq!(result.unwrap(), stats(42, 43));
}

#[test]
fn a_timer_without_a_unit_takes_one_call() {
    let (calls, result) = run(Ok(timer_props("")), Err(no_bus()), Err(no_bus()));
    assert_eq!(calls.len(), 1);
    assert_eq!(result.unwrap(), stats(0, 0));
}

#[test]
fn failed_calls_end_the_collection() {
    let (calls, result) = run(Err(no_bus()), Ok(path("/service")), Ok(service_props()));
    assert_eq!(calls.len(), 1);
    assert!(matches!(dbus_error(result), DbusError::Call(e) if e == no_bus()));

    let (calls, result) = run(
        Ok(timer_props("a.service")),
        Err(no_bus()),
        Ok(service_props()),
    );
    assert_eq!(calls.len(), 2);
    assert!(matches!(dbus_error(result), DbusError::Call(e) if e == no_bus()));

    let (calls, result) = run(
        Ok(timer_props("a.service")),
        Ok(path("/service")),
        Err(no_bus()),
    );
    assert_eq!(calls.len(), 3);
    assert!(matches!(dbus_error(result), DbusError::Call(e) if e == no_bus()));
}

#[test]
fn every_property_is_needed() {
    for name in [
        "Unit",
        "AccuracyUSec",
        "FixedRandomDelay",
        "LastTriggerUSec",
        "LastTriggerUSecMonotonic",
        "Persistent",
        "NextElapseUSecMonotonic",
        "NextElapseUSecRealtime",
        "RandomizedDelayUSec",
        "RemainAfterElapse",
    ] {
        let mut props = timer_props("a.service");
        props.remove(name);
        let (_, result) = run(Ok(props), Ok(path("/service")), Ok(service_props()));
        assert_eq!(failure(result), format!("Missing property {name}"));

        let mut props = timer_props("a.service");
        props.insert(name.to_string(), OwnedValue::from(1u8));
        let (_, result) = run(Ok(props), Ok(path("/service")), Ok(service_props()));
        assert!(matches!(dbus_error(result), DbusError::IncorrectType));
    }
    for name in ["StateChangeTimestamp", "StateChangeTimestampMonotonic"] {
        let mut props = service_props();
        props.remove(name);
        let (_, result) = run(
            Ok(timer_props("a.service")),
            Ok(path("/service")),
            Ok(props),
        );
        assert_eq!(failure(result), format!("Missing property {name}"));
    }
}

#[test]
fn the_failure_met_first_is_reported() {
    let mut props = timer_props("a.service");
    props.remove("AccuracyUSec");
    props.remove("Persistent");
    let mut service = service_props();
    service.remove("StateChangeTimestampMonotonic");
    let (_, result) = run(Ok(props), Ok(path("/service")), Ok(service));
    assert_eq!(
        failure(result),
        "Missing property StateChangeTimestampMonotonic"
    );

    let mut props = timer_props("a.service");
    props.remove("NextElapseUSecRealtime");
    props.remove("Persistent");
    let (_, result) = run(Ok(props), Ok(path("/service")), Ok(service_props()));
    assert_eq!(failure(result), "Missing property Persistent");

    let mut props = timer_props("a.service");
    props.remove("Unit");
    props.remove("AccuracyUSec");
    let (calls, result) = run(Ok(props), Err(no_bus()), Err(no_bus()));
    assert_eq!(calls.len(), 1);
    assert_eq!(failure(result), "Missing property Unit");
}

#[test]
fn counters_follow_the_settings() {
    let mut counts = SystemdUnitStats::default();
    count_timer(&mut counts, &Ok(stats(0, 0)));
    assert_eq!(counts.timer_persistent_units, 1);
    assert_eq!(counts.timer_remain_after_elapse, 0);
    let mut remaining = TimerStats::default();
    remaining.remain_after_elapse = true;
    count_timer(&mut counts, &Ok(remaining));
    count_timer(&mut counts, &Ok(TimerStats::default()));
    count_timer(
        &mut counts,
        &Err(MonitordTimerError::ZbusError(DbusError::IncorrectType)),
    );
    assert_eq!(counts.timer_persistent_units, 1);
    assert_eq!(counts.timer_remain_after_elapse, 1);
    assert!(counts.timer_stats.into_entries().is_empty());
}

fn names(list: &[&str]) -> NameSet {
    let mut set = NameSet::new();
    for name in list {
        set.insert(name.to_string());
    }
    set
}

fn config(enabled: bool, allowlist: &[&str], blocklist: &[&str]) -> Config {
    Config {
        timers: TimersConfig {
            enabled,
            allowlist: names(allowlist),
            blocklist: names(blocklist),
        },
    }
}

fn start(config: &Config, units: &[&str]) -> TimersRun {
    let listed: Vec<ListedUnit> = units.iter().map(|name| unit(name)).collect();
    match collect_all_timers_dbus(config) {
        AllTimersStep::ListUnits(wait) => match wait.resume(Ok(listed)) {
            AllTimersStep::CollectTimers(run) => run,
            _ => panic!("nothing to collect"),
        },
        _ => panic!("no units asked for"),
    }
}

/// The timers that are collected among `units`.
fn collected(config: &Config, units: &[&str]) -> Vec<String> {
    let mut run = start(config, units);
    let mut found = Vec::new();
    while let Some(unit) = run.next_timer() {
        found.push(unit.name.clone());
        run = run.record(Ok(TimerStats::default()));
    }
    found
}

const UNITS: [&str; 6] = [
    "b.timer",
    "a.service",
    "a.timer",
    "x.timer.d",
    "timer",
    "c.timer",
];

#[test]
fn nothing_is_asked_when_timers_are_off() {
    match collect_all_timers_dbus(&config(false, &["a.timer"], &[])) {
        AllTimersStep::Finished(Ok(stats)) => {
            assert_eq!(stats.timer_persistent_units, 0);
            assert_eq!(stats.timer_remain_after_elapse, 0);
            assert!(stats.timer_stats.into_entries().is_empty());
        }
        _ => panic!("not finished"),
    }
}

#[test]
fn a_failed_list_ends_the_collection() {
    let config = config(true, &[], &[]);
    match collect_all_timers_dbus(&config) {
        AllTimersStep::ListUnits(wait) => match wait.resume(Err(no_bus())) {
            AllTimersStep::Finished(Err(DbusError::Call(e))) => assert_eq!(e, no_bus()),
            _ => panic!("not failed"),
        },
        _ => panic!("no units asked for"),
    }
}

#[test]
fn timers_are_chosen_by_name() {
    assert_eq!(
        collected(&config(true, &[], &[]), &UNITS),
        vec!["b.timer", "a.timer", "x.timer.d", "c.timer"]
    );
    assert_eq!(
        collected(&config(true, &[], &["a.timer"]), &UNITS),
        vec!["b.timer", "x.timer.d", "c.timer"]
    );
    assert_eq!(
        collected(
            &config(true, &["c.timer", "b.timer", "a.service"], &[]),
            &UNITS
        ),
        vec!["b.timer", "c.timer"]
    );
    assert_eq!(
        collected(
            &config(true, &["c.timer", "b.timer"], &["c.timer"]),
            &UNITS
        ),
        vec!["b.timer"]
    );
    assert!(collected(&config(true, &["z.timer"], &[]), &UNITS).is_empty());
}

#[test]
fn a_failing_timer_does_not_stop_the_others() {
    let config = config(true, &[], &[]);
    let run = start(&config, &["a.timer", "b.timer", "c.timer"]);
    let run = run.record(Ok(stats(7, 8)));
    let run = run.record(Err(MonitordTimerError::ZbusError(DbusError::IncorrectType)));
    let mut last = stats(9, 10);
    last.remain_after_elapse = true;
    let run = run.record(Ok(last.clone()));
    assert!(run.next_timer().is_none());
    let found = run.finish();
    assert_eq!(found.timer_persistent_units, 2);
    assert_eq!(found.timer_remain_after_elapse, 1);
    assert_eq!(found.timer_stats.get("a.timer"), Some(&stats(7, 8)));
    assert_eq!(found.timer_stats.get("b.timer"), None);
    assert_eq!(found.timer_stats.get("c.timer"), Some(&last));
    assert_eq!(found.timer_stats.into_entries().len(), 2);
}

#[test]
fn the_last_timer_of_a_name_stays() {
    let config = config(true, &[], &[]);
    let run = start(&config, &["a.timer", "a.timer"]);
    let run = run.record(Ok(stats(1, 1)));
    let run = run.record(Ok(stats(2, 2)));
    let found = run.finish();
    assert_eq!(found.timer_persistent_units, 2);
    assert_eq!(found.timer_stats.get("a.timer"), Some(&stats(2, 2)));
}

#[test]
fn fields_are_named_in_order() {
    assert_eq!(TIMER_STATS_FIELD_NAMES.len(), 11);
    assert_eq!(TIMER_STATS_FIELD_NAMES[0], "accuracy_usec");
    assert_eq!(
        TIMER_STATS_FIELD_NAMES[10],
        "service_unit_last_state_change_usec_monotonic"
    );
    let shown = format!("{:?}", TimerStats::default());
    let mut rest = shown.as_str();
    for name in TIMER_STATS_FIELD_NAMES {
        let field = format!("{name}: ");
        let at = rest.find(&field).unwrap();
        rest = &rest[at + field.len()..];
    }
    assert!(!rest.contains(": "));
}
