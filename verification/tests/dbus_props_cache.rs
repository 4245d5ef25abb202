use std::collections::HashSet;

use monitord_timers::dbus_props_cache::{
    evict_unit, get_or_create_service_proxy, get_or_create_timer_proxy, get_or_create_unit_proxy,
    service_proxy_built, timer_proxy_built, unit_names_to_evict, unit_proxy_built, CacheOutcome,
    ProxyStep, UnitPropertyCache,
};
use monitord_timers::names::NameSet;

type Cache = UnitPropertyCache<u32, u32, u32>;

fn set_of(names: &[&str]) -> NameSet {
    let mut set = NameSet::new();
    for name in names {
        set.insert(name.to_string());
    }
    set
}

fn std_set(set: &NameSet) -> HashSet<String> {
    set.names().iter().cloned().collect()
}

fn built(proxy: u32) -> Result<u32, String> {
    Ok(proxy)
}

fn cache_with_unit(name: &str, proxy: u32) -> Cache {
    let mut cache = Cache::new();
    unit_proxy_built(&mut cache, name, built(proxy)).unwrap();
    cache
}

/// The unit, service and timer proxies of a unit, if it has an entry.
fn entry(cache: &Cache, name: &str) -> Option<(u32, Option<u32>, Option<u32>)> {
    match get_or_create_unit_proxy(cache, name) {
        ProxyStep::Ready(entry, outcome) => {
            assert_eq!(outcome, CacheOutcome::Hit);
            Some((entry.unit, entry.service, entry.timer))
        }
        ProxyStep::Build => None,
    }
}

#[test]
fn test_unit_names_to_evict_empty_when_all_present() {
    let cached = set_of(&["a.service", "b.timer"]);
    let current = set_of(&["a.service", "b.timer"]);
    assert!(unit_names_to_evict(&cached, &current).is_empty());
}

#[test]
fn test_unit_names_to_evict_finds_removed_units() {
    let cached = set_of(&["a.service", "b.timer", "c.service"]);
    let current = set_of(&["a.service", "c.service"]);
    let evicted = unit_names_to_evict(&cached, &current);
    assert_eq!(std_set(&evicted), HashSet::from(["b.timer".to_string()]));
}

#[test]
fn test_unit_names_to_evict_new_units_not_evicted() {
    let cached = set_of(&["a.service"]);
    let current = set_of(&["a.service", "new.service"]);
    assert!(unit_names_to_evict(&cached, &current).is_empty());
}

#[test]
fn all_cached_units_go_when_none_is_listed() {
    let cached = set_of(&["a.service", "b.timer"]);
    let evicted = unit_names_to_evict(&cached, &NameSet::new());
    assert_eq!(std_set(&evicted), std_set(&cached));
}

#[test]
fn a_unit_proxy_is_built_once() {
    let mut cache = Cache::new();
    assert!(entry(&cache, "a.service").is_none());
    let (fresh, outcome) = unit_proxy_built(&mut cache, "a.service", built(1)).unwrap();
    assert_eq!(outcome, CacheOutcome::Bootstrap);
    assert_eq!((fresh.unit, fresh.service, fresh.timer), (1, None, None));
    assert_eq!(entry(&cache, "a.service"), Some((1, None, None)));
    assert!(entry(&cache, "b.service").is_none());
}

#[test]
fn the_loser_of_a_race_gets_the_entry_of_the_winner() {
    let mut cache = cache_with_unit("a.service", 1);
    service_proxy_built(&mut cache, "a.service", built(5)).unwrap();
    let (found, outcome) = unit_proxy_built(&mut cache, "a.service", built(2)).unwrap();
    assert_eq!(outcome, CacheOutcome::Bootstrap);
    assert_eq!((found.unit, found.service), (1, Some(5)));
    assert_eq!(entry(&cache, "a.service"), Some((1, Some(5), None)));
}

#[test]
fn a_proxy_that_cannot_be_built_changes_nothing() {
    let failed: Result<u32, String> = Err("no bus".to_string());
    let mut cache = Cache::new();
    let result = unit_proxy_built(&mut cache, "a.service", failed.clone());
    assert!(matches!(result, Err(e) if e == "no bus"));
    assert!(!cache.contains("a.service"));
    unit_proxy_built(&mut cache, "a.service", built(1)).unwrap();
    let result = service_proxy_built(&mut cache, "a.service", failed.clone());
    assert_eq!(result, Err("no bus".to_string()));
    let result = timer_proxy_built(&mut cache, "a.service", failed);
    assert_eq!(result, Err("no bus".to_string()));
    assert_eq!(entry(&cache, "a.service"), Some((1, None, None)));
}

#[test]
fn sub_proxies_are_built_once_and_apart() {
    let mut cache = cache_with_unit("a.timer", 1);
    assert!(matches!(
        get_or_create_service_proxy(&cache, "a.timer"),
        ProxyStep::Build
    ));
    assert!(matches!(
        get_or_create_timer_proxy(&cache, "a.timer"),
        ProxyStep::Build
    ));
    assert_eq!(
        timer_proxy_built(&mut cache, "a.timer", built(3)),
        Ok((3, CacheOutcome::Bootstrap))
    );
    assert!(matches!(
        get_or_create_service_proxy(&cache, "a.timer"),
        ProxyStep::Build
    ));
    assert!(matches!(
        get_or_create_timer_proxy(&cache, "a.timer"),
        ProxyStep::Ready(3, CacheOutcome::Hit)
    ));
    assert_eq!(
        service_proxy_built(&mut cache, "a.timer", built(2)),
        Ok((2, CacheOutcome::Bootstrap))
    );
    assert!(matches!(
        get_or_create_service_proxy(&cache, "a.timer"),
        ProxyStep::Ready(2, CacheOutcome::Hit)
    ));
    assert_eq!(entry(&cache, "a.timer"), Some((1, Some(2), Some(3))));
}

#[test]
fn a_second_sub_proxy_is_returned_but_not_kept() {
    let mut cache = cache_with_unit("a.timer", 1);
    service_proxy_built(&mut cache, "a.timer", built(2)).unwrap();
    timer_proxy_built(&mut cache, "a.timer", built(3)).unwrap();
    assert_eq!(
        service_proxy_built(&mut cache, "a.timer", built(8)),
        Ok((8, CacheOutcome::Bootstrap))
    );
    assert_eq!(
        timer_proxy_built(&mut cache, "a.timer", built(9)),
        Ok((9, CacheOutcome::Bootstrap))
    );
    assert_eq!(entry(&cache, "a.timer"), Some((1, Some(2), Some(3))));
}

#[test]
fn a_sub_proxy_makes_no_entry() {
    let mut cache = Cache::new();
    assert_eq!(
        service_proxy_built(&mut cache, "a.timer", built(2)),
        Ok((2, CacheOutcome::Bootstrap))
    );
    assert_eq!(
        timer_proxy_built(&mut cache, "a.timer", built(3)),
        Ok((3, CacheOutcome::Bootstrap))
    );
    assert!(!cache.contains("a.timer"));
    assert!(matches!(
        get_or_create_timer_proxy(&cache, "a.timer"),
        ProxyStep::Build
    ));
}

#[test]
fn an_evicted_unit_starts_afresh() {
    let mut cache = cache_with_unit("a.timer", 1);
    timer_proxy_built(&mut cache, "a.timer", built(3)).unwrap();
    unit_proxy_built(&mut cache, "b.timer", built(4)).unwrap();
    evict_unit(&mut cache, "a.timer");
    evict_unit(&mut cache, "c.timer");
    assert_eq!(entry(&cache, "a.timer"), None);
    assert_eq!(entry(&cache, "b.timer"), Some((4, None, None)));
    unit_proxy_built(&mut cache, "a.timer", built(5)).unwrap();
    assert_eq!(entry(&cache, "a.timer"), Some((5, None, None)));
}

#[test]
fn eviction_leaves_the_listed_units() {
    let mut cache = Cache::new();
    for (name, proxy) in [("a", 1), ("b", 2), ("c", 3), ("d", 4)] {
        unit_proxy_built(&mut cache, name, built(proxy)).unwrap();
    }
    let current = set_of(&["b", "d", "e"]);
    let evicted = unit_names_to_evict(&cache.unit_names(), &current);
    for name in evicted.names() {
        evict_unit(&mut cache, name);
    }
    assert_eq!(
        std_set(&cache.unit_names()),
        HashSet::from(["b".to_string(), "d".to_string()])
    );
    assert_eq!(entry(&cache, "b"), Some((2, None, None)));
    assert_eq!(entry(&cache, "d"), Some((4, None, None)));
    assert!(unit_names_to_evict(&cache.unit_names(), &current).is_empty());
}
