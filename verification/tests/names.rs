use std::collections::{HashMap, HashSet};

use monitord_timers::names::{NameMap, NameSet};

fn set_of(names: &[&str]) -> NameSet {
    let mut set = NameSet::new();
    for name in names {
        set.insert(name.to_string());
    }
    set
}

#[test]
fn a_new_map_is_empty() {
    let map: NameMap<u32> = NameMap::new();
    assert!(!map.contains("a"));
    assert_eq!(map.get("a"), None);
    assert!(map.into_entries().is_empty());
}

#[test]
fn a_map_gives_back_what_was_inserted_last() {
    let mut map = NameMap::new();
    map.insert("a".to_string(), 1);
    map.insert("b".to_string(), 2);
    map.insert("a".to_string(), 3);
    assert_eq!(map.get("a"), Some(&3));
    assert_eq!(map.get("b"), Some(&2));
    assert_eq!(map.get("c"), None);
    let entries: HashMap<String, i32> = map.into_entries().into_iter().collect();
    assert_eq!(
        entries,
        HashMap::from([("a".to_string(), 3), ("b".to_string(), 2)])
    );
}

#[test]
fn removing_a_name_keeps_the_others() {
    for gone in ["a", "b", "c"] {
        let mut map = NameMap::new();
        map.insert("a".to_string(), 1);
        map.insert("b".to_string(), 2);
        map.insert("c".to_string(), 3);
        let value = map.get(gone).copied();
        assert_eq!(map.remove(gone), value);
        assert_eq!(map.remove(gone), None);
        for (name, number) in [("a", 1), ("b", 2), ("c", 3)] {
            let expected = if name == gone { None } else { Some(&number) };
            assert_eq!(map.get(name), expected);
        }
        map.insert(gone.to_string(), 9);
        assert_eq!(map.get(gone), Some(&9));
        assert_eq!(map.into_entries().len(), 3);
    }
}

#[test]
fn the_names_of_a_map_are_a_set() {
    let mut map = NameMap::new();
    map.insert("a".to_string(), 1);
    map.insert("b".to_string(), 2);
    map.insert("a".to_string(), 3);
    let names: HashSet<String> = map.names().names().iter().cloned().collect();
    assert_eq!(names, HashSet::from(["a".to_string(), "b".to_string()]));
}

#[test]
fn a_set_holds_each_name_once() {
    let set = set_of(&["x", "y", "x"]);
    assert!(set.contains("x"));
    assert!(set.contains("y"));
    assert!(!set.contains("z"));
    assert!(!set.is_empty());
    assert_eq!(set.names(), &vec!["x".to_string(), "y".to_string()]);
    assert!(NameSet::new().is_empty());
}
