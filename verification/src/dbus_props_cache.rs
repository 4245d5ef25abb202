//! A cache of long-lived property proxies, one entry per unit.
//!
//! A proxy that stays alive serves the properties of its unit from memory, so a later
//! collection cycle that finds the proxy here reads them without asking the bus again.
//! Building a proxy takes a call over the bus, which nobody should make with the cache
//! locked. So each way to a proxy has two halves: a look into the shared cache, which
//! yields the proxy or asks for one to be built, and the entry of what was built. Between
//! the halves other tasks may have changed the cache.

use vstd::prelude::*;

use crate::names::{NameMap, NameSet};

verus! {

/// The proxies of a single unit. The unit's own proxy is there from the start; those of
/// its service and timer interfaces are added when somebody needs them.
pub struct CachedUnitEntry<U, S, T> {
    pub unit: U,
    pub service: Option<S>,
    pub timer: Option<T>,
}

/// Whether `copy` is what cloning `proxy` gives, if there is one.
pub open spec fn cloned_option<P: Clone>(proxy: Option<P>, copy: Option<P>) -> bool {
    match (proxy, copy) {
        (Some(p), Some(c)) => cloned(p, c),
        (None, None) => true,
        _ => false,
    }
}

/// Whether `copy` is what cloning `entry`, proxy by proxy, gives.
pub open spec fn cloned_entry<U: Clone, S: Clone, T: Clone>(
    entry: CachedUnitEntry<U, S, T>,
    copy: CachedUnitEntry<U, S, T>,
) -> bool {
    &&& cloned(entry.unit, copy.unit)
    &&& cloned_option(entry.service, copy.service)
    &&& cloned_option(entry.timer, copy.timer)
}

impl<U: Clone, S: Clone, T: Clone> Clone for CachedUnitEntry<U, S, T> {
    fn clone(&self) -> (copy: Self)
        ensures
            cloned_entry(*self, copy),
            cloned(self.unit, copy.unit),
            self.service is Some == copy.service is Some,
            self.service is Some ==> cloned(self.service->0, copy.service->0),
            self.timer is Some == copy.timer is Some,
            self.timer is Some ==> cloned(self.timer->0, copy.timer->0),
    {
        CachedUnitEntry {
            unit: self.unit.clone(),
            service: self.service.clone(),
            timer: self.timer.clone(),
        }
    }
}

/// Whether a proxy was there already, at no cost, or had to be built in this call.
/// Counting the hits shows what the cache is worth.
#[derive(Debug, Clone, Copy, PartialEq, Eq, Structural)]
pub enum CacheOutcome {
    Hit,
    Bootstrap,
}

/// Where the way to a proxy leads from the shared cache.
pub enum ProxyStep<P> {
    /// To the proxy.
    Ready(P, CacheOutcome),
    /// To the bus: a proxy has to be built and then entered.
    Build,
}

/// The entries of all units, by unit name.
pub struct UnitPropertyCache<U, S, T> {
    entries: NameMap<CachedUnitEntry<U, S, T>>,
}

impl<U, S, T> View for UnitPropertyCache<U, S, T> {
    type V = Map<Seq<char>, CachedUnitEntry<U, S, T>>;

    closed spec fn view(&self) -> Map<Seq<char>, CachedUnitEntry<U, S, T>> {
        self.entries@
    }
}

/// The cache after a proxy of the unit was entered: an entry that is there stays.
pub open spec fn with_unit<U, S, T>(
    cache: Map<Seq<char>, CachedUnitEntry<U, S, T>>,
    unit_name: Seq<char>,
    unit: U,
) -> Map<Seq<char>, CachedUnitEntry<U, S, T>> {
    if cache.contains_key(unit_name) {
        cache
    } else {
        cache.insert(unit_name, CachedUnitEntry { unit, service: None, timer: None })
    }
}

/// The cache after a service proxy was entered: one that is there stays, and a unit
/// without an entry gets none.
pub open spec fn with_service<U, S, T>(
    cache: Map<Seq<char>, CachedUnitEntry<U, S, T>>,
    unit_name: Seq<char>,
    service: S,
) -> Map<Seq<char>, CachedUnitEntry<U, S, T>> {
    if cache.contains_key(unit_name) && cache[unit_name].service is None {
        cache.insert(
            unit_name,
            CachedUnitEntry { service: Some(service), ..cache[unit_name] },
        )
    } else {
        cache
    }
}

/// The cache after a timer proxy was entered: one that is there stays, and a unit
/// without an entry gets none.
pub open spec fn with_timer<U, S, T>(
    cache: Map<Seq<char>, CachedUnitEntry<U, S, T>>,
    unit_name: Seq<char>,
    timer: T,
) -> Map<Seq<char>, CachedUnitEntry<U, S, T>> {
    if cache.contains_key(unit_name) && cache[unit_name].timer is None {
        cache.insert(unit_name, CachedUnitEntry { timer: Some(timer), ..cache[unit_name] })
    } else {
        cache
    }
}

impl<U, S, T> UnitPropertyCache<U, S, T> {
    /// An empty cache.
    pub fn new() -> (cache: Self)
        ensures
            cache@ == Map::<Seq<char>, CachedUnitEntry<U, S, T>>::empty(),
    {
        UnitPropertyCache { entries: NameMap::new() }
    }

    /// Whether the unit has an entry.
    pub fn contains(&self, unit_name: &str) -> (found: bool)
        ensures
            found == self@.contains_key(unit_name@),
    {
        self.entries.contains(unit_name)
    }

    /// The units that have an entry.
    pub fn unit_names(&self) -> (names: NameSet)
        ensures
            names@ == self@.dom(),
    {
        self.entries.names()
    }
}

/// The first half of the way to a unit's entry: a copy of the entry, if the unit has one.
pub fn get_or_create_unit_proxy<U: Clone, S: Clone, T: Clone>(
    cache: &UnitPropertyCache<U, S, T>,
    unit_name: &str,
) -> (step: ProxyStep<CachedUnitEntry<U, S, T>>)
    ensures
        match step {
            ProxyStep::Ready(entry, outcome) => cache@.contains_key(unit_name@) && cloned_entry(
                cache@[unit_name@],
                entry,
            ) && outcome == CacheOutcome::Hit,
            ProxyStep::Build => !cache@.contains_key(unit_name@),
        },
        step matches ProxyStep::Ready(entry, _) ==> {
            let held = cache@[unit_name@];
            &&& cloned(held.unit, entry.unit)
            &&& held.service is Some == entry.service is Some
            &&& held.service is Some ==> cloned(held.service->0, entry.service->0)
            &&& held.timer is Some == entry.timer is Some
            &&& held.timer is Some ==> cloned(held.timer->0, entry.timer->0)
        },
{
    match cache.entries.get(unit_name) {
        Some(entry) => ProxyStep::Ready(entry.clone(), CacheOutcome::Hit),
        None => ProxyStep::Build,
    }
}

/// The second half: enters the unit proxy that was built, unless the unit has got an
/// entry meanwhile, and yields a copy of the entry that the cache then holds. Where
/// building failed the cache stays as it is.
pub fn unit_proxy_built<U: Clone, S: Clone, T: Clone, E>(
    cache: &mut UnitPropertyCache<U, S, T>,
    unit_name: &str,
    built: Result<U, E>,
) -> (entered: Result<(CachedUnitEntry<U, S, T>, CacheOutcome), E>)
    ensures
        match (built, entered) {
            (Ok(unit), Ok((entry, outcome))) => final(cache)@ == with_unit(
                old(cache)@,
                unit_name@,
                unit,
            ) && cloned_entry(final(cache)@[unit_name@], entry) && outcome
                == CacheOutcome::Bootstrap,
            (Err(e), Err(reported)) => *final(cache) == *old(cache) && reported == e,
            _ => false,
        },
        built is Ok && old(cache)@.contains_key(unit_name@) ==> final(cache)@ == old(cache)@,
        built is Ok && !old(cache)@.contains_key(unit_name@) ==> final(cache)@
            == old(cache)@.insert(
            unit_name@,
            (CachedUnitEntry { unit: built->Ok_0, service: None, timer: None }),
        ),
        entered matches Ok((entry, _)) ==> {
            let held = final(cache)@[unit_name@];
            &&& cloned(held.unit, entry.unit)
            &&& held.service is Some == entry.service is Some
            &&& held.service is Some ==> cloned(held.service->0, entry.service->0)
            &&& held.timer is Some == entry.timer is Some
            &&& held.timer is Some ==> cloned(held.timer->0, entry.timer->0)
        },
{
    match built {
        Ok(unit) => {
            match cache.entries.get(unit_name) {
                Some(entry) => {
                    return Ok((entry.clone(), CacheOutcome::Bootstrap));
                },
                None => {},
            }
            let entry = CachedUnitEntry { unit, service: None, timer: None };
            let copy = entry.clone();
            cache.entries.insert(unit_name.to_owned(), entry);
            Ok((copy, CacheOutcome::Bootstrap))
        },
        Err(e) => Err(e),
    }
}

/// The first half of the way to a proxy of one of a unit's interfaces, of which `slot` is
/// the place in the unit's entry.
fn get_or_create_sub_proxy<P: Clone>(slot: Option<&Option<P>>) -> (step: ProxyStep<P>)
    ensures
        match step {
            ProxyStep::Ready(proxy, outcome) => slot is Some && *(slot->0) is Some && cloned(
                (*(slot->0))->0,
                proxy,
            ) && outcome == CacheOutcome::Hit,
            ProxyStep::Build => slot is None || *(slot->0) is None,
        },
{
    match slot {
        Some(Some(proxy)) => ProxyStep::Ready(proxy.clone(), CacheOutcome::Hit),
        _ => ProxyStep::Build,
    }
}

/// Fills `slot` with a copy of `proxy`, unless it is filled.
fn keep_first<P: Clone>(slot: Option<P>, proxy: &P) -> (filled: Option<P>)
    ensures
        slot is Some ==> filled == slot,
        slot is None ==> filled is Some && cloned(*proxy, filled->0),
{
    match slot {
        Some(kept) => Some(kept),
        None => Some(proxy.clone()),
    }
}

/// The first half of the way to a unit's service proxy. The unit's entry has to be made
/// before, with [`get_or_create_unit_proxy`].
pub fn get_or_create_service_proxy<U, S: Clone, T>(
    cache: &UnitPropertyCache<U, S, T>,
    unit_name: &str,
) -> (step: ProxyStep<S>)
    ensures
        match step {
            ProxyStep::Ready(proxy, outcome) => cache@.contains_key(unit_name@)
                && cache@[unit_name@].service is Some && cloned(
                cache@[unit_name@].service->0,
                proxy,
            ) && outcome == CacheOutcome::Hit,
            ProxyStep::Build => !cache@.contains_key(unit_name@)
                || cache@[unit_name@].service is None,
        },
{
    match cache.entries.get(unit_name) {
        Some(entry) => get_or_create_sub_proxy(Some(&entry.service)),
        None => get_or_create_sub_proxy(None),
    }
}

/// The second half: puts a copy of the service proxy that was built into the unit's
/// entry, unless there is one meanwhile, and yields the proxy that was built, whichever
/// the entry holds. A unit without an entry gets none: the proxy is then not kept, and
/// the next call builds another.
pub fn service_proxy_built<U, S: Clone, T, E>(
    cache: &mut UnitPropertyCache<U, S, T>,
    unit_name: &str,
    built: Result<S, E>,
) -> (entered: Result<(S, CacheOutcome), E>)
    ensures
        match (built, entered) {
            (Ok(service), Ok((proxy, outcome))) => proxy == service && outcome
                == CacheOutcome::Bootstrap && exists|copy: S|
                cloned(service, copy) && final(cache)@ == #[trigger] with_service(
                    old(cache)@,
                    unit_name@,
                    copy,
                ),
            (Err(e), Err(reported)) => *final(cache) == *old(cache) && reported == e,
            _ => false,
        },
        built is Ok ==> {
            let before = old(cache)@;
            let after = final(cache)@;
            &&& after.dom() == before.dom()
            &&& forall|name: Seq<char>|
                name != unit_name@ && before.contains_key(name) ==> #[trigger] after[name]
                    == before[name]
            &&& before.contains_key(unit_name@) ==> {
                let held = before[unit_name@];
                let kept = after[unit_name@];
                &&& kept.unit == held.unit
                &&& kept.timer == held.timer
                &&& kept.service is Some
                &&& held.service is Some ==> kept.service == held.service
                &&& held.service is None ==> cloned(built->Ok_0, kept.service->0)
            }
        },
{
    match built {
        Ok(service) => {
            match cache.entries.remove(unit_name) {
                Some(entry) => {
                    let CachedUnitEntry { unit, service: slot, timer } = entry;
                    let filled = keep_first(slot, &service);
                    cache.entries.insert(
                        unit_name.to_owned(),
                        CachedUnitEntry { unit, service: filled, timer },
                    );
                    assert(slot is None ==> cache@ =~= with_service(
                        old(cache)@,
                        unit_name@,
                        filled->0,
                    ));
                    assert(slot is Some ==> cache@ =~= with_service(
                        old(cache)@,
                        unit_name@,
                        service,
                    ));
                },
                None => {
                    assert(cache@ =~= with_service(old(cache)@, unit_name@, service));
                },
            }
            assert(cache@.dom() =~= old(cache)@.dom());
            Ok((service, CacheOutcome::Bootstrap))
        },
        Err(e) => Err(e),
    }
}

/// The first half of the way to a unit's timer proxy. The unit's entry has to be made
/// before, with [`get_or_create_unit_proxy`].
pub fn get_or_create_timer_proxy<U, S, T: Clone>(
    cache: &UnitPropertyCache<U, S, T>,
    unit_name: &str,
) -> (step: ProxyStep<T>)
    ensures
        match step {
            ProxyStep::Ready(proxy, outcome) => cache@.contains_key(unit_name@)
                && cache@[unit_name@].timer is Some && cloned(
                cache@[unit_name@].timer->0,
                proxy,
            ) && outcome == CacheOutcome::Hit,
            ProxyStep::Build => !cache@.contains_key(unit_name@)
                || cache@[unit_name@].timer is None,
        },
{
    match cache.entries.get(unit_name) {
        Some(entry) => get_or_create_sub_proxy(Some(&entry.timer)),
        None => get_or_create_sub_proxy(None),
    }
}

/// The second half: as [`service_proxy_built`], for the timer proxy.
pub fn timer_proxy_built<U, S, T: Clone, E>(
    cache: &mut UnitPropertyCache<U, S, T>,
    unit_name: &str,
    built: Result<T, E>,
) -> (entered: Result<(T, CacheOutcome), E>)
    ensures
        match (built, entered) {
            (Ok(timer), Ok((proxy, outcome))) => proxy == timer && outcome
                == CacheOutcome::Bootstrap && exists|copy: T|
                cloned(timer, copy) && final(cache)@ == #[trigger] with_timer(
                    old(cache)@,
                    unit_name@,
                    copy,
                ),
            (Err(e), Err(reported)) => *final(cache) == *old(cache) && reported == e,
            _ => false,
        },
        built is Ok ==> {
            let before = old(cache)@;
            let after = final(cache)@;
            &&& after.dom() == before.dom()
            &&& forall|name: Seq<char>|
                name != unit_name@ && before.contains_key(name) ==> #[trigger] after[name]
                    == before[name]
            &&& before.contains_key(unit_name@) ==> {
                let held = before[unit_name@];
                let kept = after[unit_name@];
                &&& kept.unit == held.unit
                &&& kept.service == held.service
                &&& kept.timer is Some
                &&& held.timer is Some ==> kept.timer == held.timer
                &&& held.timer is None ==> cloned(built->Ok_0, kept.timer->0)
            }
        },
{
    match built {
        Ok(timer) => {
            match cache.entries.remove(unit_name) {
                Some(entry) => {
                    let CachedUnitEntry { unit, service, timer: slot } = entry;
                    let filled = keep_first(slot, &timer);
                    cache.entries.insert(
                        unit_name.to_owned(),
                        CachedUnitEntry { unit, service, timer: filled },
                    );
                    assert(slot is None ==> cache@ =~= with_timer(
                        old(cache)@,
                        unit_name@,
                        filled->0,
                    ));
                    assert(slot is Some ==> cache@ =~= with_timer(
                        old(cache)@,
                        unit_name@,
                        timer,
                    ));
                },
                None => {
                    assert(cache@ =~= with_timer(old(cache)@, unit_name@, timer));
                },
            }
            assert(cache@.dom() =~= old(cache)@.dom());
            Ok((timer, CacheOutcome::Bootstrap))
        },
        Err(e) => Err(e),
    }
}

/// The units in `cached` that are not in `current`: systemd lists them no longer, so
/// their entries go.
///
/// Run once per cycle, this drops what [`evict_unit`] missed: a signal can get lost when
/// the connection drops.
pub fn unit_names_to_evict(cached: &NameSet, current: &NameSet) -> (evicted: NameSet)
    ensures
        evicted@ == cached@.difference(current@),
{
    let names = cached.names();
    let mut evicted = NameSet::new();
    for i in 0..names.len()
        invariant
            forall|name: Seq<char>|
                evicted@.contains(name) <==> !current@.contains(name) && exists|j: int|
                    0 <= j < i && #[trigger] names@[j]@ == name,
    {
        let ghost before = evicted@;
        if !current.contains(names[i].as_str()) {
            evicted.insert(names[i].clone());
        }
        assert forall|name: Seq<char>|
            evicted@.contains(name) <==> !current@.contains(name) && exists|j: int|
                0 <= j < i + 1 && #[trigger] names@[j]@ == name by {
            if before.contains(name) {
                let j = choose|j: int| 0 <= j < i && #[trigger] names@[j]@ == name;
                assert(names@[j]@ == name);
            }
            assert(names@[i as int]@ == name ==> exists|j: int|
                0 <= j < i + 1 && #[trigger] names@[j]@ == name);
        }
    }
    assert(evicted@ =~= cached@.difference(current@));
    evicted
}

/// Drops the entry of one unit, in answer to the signal that systemd removed the unit.
pub fn evict_unit<U, S, T>(cache: &mut UnitPropertyCache<U, S, T>, unit_name: &str)
    ensures
        final(cache)@ == old(cache)@.remove(unit_name@),
{
    let _ = cache.entries.remove(unit_name);
}

/// Once a unit proxy is entered, a look into the cache finds the unit; and once a service
/// or timer proxy is entered for a unit with an entry, a look finds that: what has been
/// built is not built again while the entry lasts.
pub proof fn law_entered_proxies_are_found<U, S, T>(
    cache: Map<Seq<char>, CachedUnitEntry<U, S, T>>,
    unit_name: Seq<char>,
    unit: U,
    service: S,
    timer: T,
)
    ensures
        with_unit(cache, unit_name, unit).contains_key(unit_name),
        cache.contains_key(unit_name) ==> with_service(
            cache,
            unit_name,
            service,
        )[unit_name].service is Some,
        cache.contains_key(unit_name) ==> with_timer(cache, unit_name, timer)[unit_name].timer
            is Some,
{
}

/// Of two tasks that both found nothing and both built a proxy, the first to enter it
/// wins: the second changes nothing.
pub proof fn law_first_proxy_stays<U, S, T>(
    cache: Map<Seq<char>, CachedUnitEntry<U, S, T>>,
    unit_name: Seq<char>,
    units: (U, U),
    services: (S, S),
    timers: (T, T),
)
    ensures
        with_unit(with_unit(cache, unit_name, units.0), unit_name, units.1) == with_unit(
            cache,
            unit_name,
            units.0,
        ),
        with_service(with_service(cache, unit_name, services.0), unit_name, services.1)
            == with_service(cache, unit_name, services.0),
        with_timer(with_timer(cache, unit_name, timers.0), unit_name, timers.1) == with_timer(
            cache,
            unit_name,
            timers.0,
        ),
{
}

/// Entering a service or timer proxy never makes an entry, and touches nothing else in
/// the unit's entry: the two can be entered in either order.
pub proof fn law_sub_proxies_are_independent<U, S, T>(
    cache: Map<Seq<char>, CachedUnitEntry<U, S, T>>,
    unit_name: Seq<char>,
    service: S,
    timer: T,
)
    ensures
        with_service(cache, unit_name, service).dom() == cache.dom(),
        with_timer(cache, unit_name, timer).dom() == cache.dom(),
        cache.contains_key(unit_name) ==> {
            &&& with_service(cache, unit_name, service)[unit_name].unit == cache[unit_name].unit
            &&& with_service(cache, unit_name, service)[unit_name].timer == cache[unit_name].timer
            &&& with_timer(cache, unit_name, timer)[unit_name].unit == cache[unit_name].unit
            &&& with_timer(cache, unit_name, timer)[unit_name].service
                == cache[unit_name].service
        },
        with_timer(with_service(cache, unit_name, service), unit_name, timer) == with_service(
            with_timer(cache, unit_name, timer),
            unit_name,
            service,
        ),
{
    assert(with_service(cache, unit_name, service).dom() =~= cache.dom());
    assert(with_timer(cache, unit_name, timer).dom() =~= cache.dom());
    assert(with_timer(with_service(cache, unit_name, service), unit_name, timer) =~= with_service(
        with_timer(cache, unit_name, timer),
        unit_name,
        service,
    ));
}

/// Whether both caches hold the same for a unit: the same entry, or none.
pub open spec fn same_entry<U, S, T>(
    one: Map<Seq<char>, CachedUnitEntry<U, S, T>>,
    other: Map<Seq<char>, CachedUnitEntry<U, S, T>>,
    unit_name: Seq<char>,
) -> bool {
    &&& one.contains_key(unit_name) == other.contains_key(unit_name)
    &&& one.contains_key(unit_name) ==> one[unit_name] == other[unit_name]
}

/// What is entered for one unit, or the eviction of one unit, leaves every other unit as
/// it was.
pub proof fn law_other_units_are_untouched<U, S, T>(
    cache: Map<Seq<char>, CachedUnitEntry<U, S, T>>,
    unit_name: Seq<char>,
    unit: U,
    service: S,
    timer: T,
    other: Seq<char>,
)
    requires
        other != unit_name,
    ensures
        same_entry(with_unit(cache, unit_name, unit), cache, other),
        same_entry(with_service(cache, unit_name, service), cache, other),
        same_entry(with_timer(cache, unit_name, timer), cache, other),
        same_entry(cache.remove(unit_name), cache, other),
{
}

/// An evicted unit is not found any more, and what is entered for it later starts afresh.
pub proof fn law_evicted_unit_starts_afresh<U, S, T>(
    cache: Map<Seq<char>, CachedUnitEntry<U, S, T>>,
    unit_name: Seq<char>,
    unit: U,
)
    ensures
        !cache.remove(unit_name).contains_key(unit_name),
        with_unit(cache.remove(unit_name), unit_name, unit)[unit_name] == (CachedUnitEntry::<
            U,
            S,
            T,
        > { unit, service: None, timer: None }),
{
}

/// The cache after the units of `names` were evicted one after the other.
pub open spec fn evict_each<U, S, T>(
    cache: Map<Seq<char>, CachedUnitEntry<U, S, T>>,
    names: Seq<Seq<char>>,
) -> Map<Seq<char>, CachedUnitEntry<U, S, T>>
    decreases names.len(),
{
    if names.len() == 0 {
        cache
    } else {
        evict_each(cache, names.drop_last()).remove(names.last())
    }
}

/// Evicting the units of a list, one after the other, drops those and no others.
pub proof fn law_evicting_each_evicts_all<U, S, T>(
    cache: Map<Seq<char>, CachedUnitEntry<U, S, T>>,
    names: Seq<Seq<char>>,
)
    ensures
        evict_each(cache, names) == cache.remove_keys(names.to_set()),
    decreases names.len(),
{
    if names.len() == 0 {
        assert(cache =~= cache.remove_keys(names.to_set()));
    } else {
        let rest = names.drop_last();
        law_evicting_each_evicts_all(cache, rest);
        assert forall|name: Seq<char>|
            names.to_set().contains(name) <==> (rest.to_set().contains(name) || name
                == names.last()) by {
            if names.contains(name) && name != names.last() {
                let i = choose|i: int| 0 <= i < names.len() && names[i] == name;
                assert(rest[i] == name);
            }
            if rest.contains(name) {
                let i = choose|i: int| 0 <= i < rest.len() && rest[i] == name;
                assert(names[i] == name);
            }
            assert(names[names.len() - 1] == names.last());
        }
        assert(evict_each(cache, names) =~= cache.remove_keys(names.to_set()));
    }
}

/// Evicting what [`unit_names_to_evict`] names leaves exactly the units that systemd
/// still lists, each with the entry it had, and then there is nothing left to evict.
/// Units that are listed and not cached are never named, and nothing is named when all
/// that is cached is listed.
pub proof fn law_eviction_leaves_listed_units<U, S, T>(
    cache: Map<Seq<char>, CachedUnitEntry<U, S, T>>,
    current: Set<Seq<char>>,
)
    ensures
        ({
            let evicted = cache.dom().difference(current);
            let left = cache.remove_keys(evicted);
            &&& left.dom() == cache.dom().intersect(current)
            &&& forall|name: Seq<char>| #[trigger]
                left.contains_key(name) ==> left[name] == cache[name]
            &&& left.dom().difference(current) == Set::<Seq<char>>::empty()
            &&& evicted.disjoint(current)
            &&& (evicted == Set::<Seq<char>>::empty() <==> cache.dom().subset_of(current))
        }),
{
    let evicted = cache.dom().difference(current);
    let left = cache.remove_keys(evicted);
    assert(left.dom() =~= cache.dom().intersect(current));
    assert(left.dom().difference(current) =~= Set::<Seq<char>>::empty());
    if cache.dom().subset_of(current) {
        assert(evicted =~= Set::<Seq<char>>::empty());
    } else {
        let name = choose|name: Seq<char>| cache.dom().contains(name) && !current.contains(name);
        assert(evicted.contains(name));
    }
}

/// A copy of an entry has copies of the proxies that the entry has, each in its place, and
/// no others.
pub proof fn law_copies_have_all_proxies<U: Clone, S: Clone, T: Clone>(
    entry: CachedUnitEntry<U, S, T>,
    copy: CachedUnitEntry<U, S, T>,
)
    ensures
        cloned_entry(entry, copy) <==> {
            &&& cloned(entry.unit, copy.unit)
            &&& entry.service is Some == copy.service is Some
            &&& entry.service is Some ==> cloned(entry.service->0, copy.service->0)
            &&& entry.timer is Some == copy.timer is Some
            &&& entry.timer is Some ==> cloned(entry.timer->0, copy.timer->0)
        },
{
}

/// The proxy that is entered first is the one that is kept: the unit proxy in a new entry
/// with nothing else in it, the others in their places in the entry.
pub proof fn law_entered_proxy_is_kept<U, S, T>(
    cache: Map<Seq<char>, CachedUnitEntry<U, S, T>>,
    unit_name: Seq<char>,
    unit: U,
    service: S,
    timer: T,
)
    ensures
        !cache.contains_key(unit_name) ==> {
            let entry = with_unit(cache, unit_name, unit)[unit_name];
            entry.unit == unit && entry.service is None && entry.timer is None
        },
        cache.contains_key(unit_name) ==> with_unit(cache, unit_name, unit) == cache,
        cache.contains_key(unit_name) ==> {
            let kept = with_service(cache, unit_name, service)[unit_name].service;
            kept == (if cache[unit_name].service is Some {
                cache[unit_name].service
            } else {
                Some(service)
            })
        },
        cache.contains_key(unit_name) ==> {
            let kept = with_timer(cache, unit_name, timer)[unit_name].timer;
            kept == (if cache[unit_name].timer is Some {
                cache[unit_name].timer
            } else {
                Some(timer)
            })
        },
        !cache.contains_key(unit_name) ==> with_service(cache, unit_name, service) == cache
            && with_timer(cache, unit_name, timer) == cache,
{
}

} // verus!
