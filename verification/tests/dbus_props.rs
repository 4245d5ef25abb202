use monitord_timers::dbus_props::{
    extract_property, get_all_properties, DbusError, Properties, SYSTEMD_DESTINATION,
};
use monitord_timers::names::NameMap;
use zbus::zvariant::{ObjectPath, OwnedObjectPath, OwnedValue, Value};

fn props_with(name: &str, value: OwnedValue) -> Properties {
    let mut props = NameMap::new();
    props.insert(name.to_string(), value);
    props
}

#[test]
fn test_extract_property_found_correct_type() {
    let props = props_with(
        "StateChangeTimestamp",
        Value::from(42u64).try_into().unwrap(),
    );
    let value: u64 = extract_property(&props, "StateChangeTimestamp").unwrap();
    assert_eq!(value, 42);
}

#[test]
fn test_extract_property_missing_key() {
    let props: Properties = NameMap::new();
    let result: Result<u64, DbusError> = extract_property(&props, "StateChangeTimestamp");
    assert!(result.is_err());
}

#[test]
fn test_extract_property_wrong_type() {
    let props = props_with(
        "StateChangeTimestamp",
        Value::from("not a number").try_into().unwrap(),
    );
    let result: Result<u64, DbusError> = extract_property(&props, "StateChangeTimestamp");
    assert!(result.is_err());
}

#[test]
fn a_missing_property_is_named() {
    let props = props_with("Persistent", OwnedValue::from(true));
    let result: Result<bool, DbusError> = extract_property(&props, "persistent");
    match result {
        Err(DbusError::Failure(text)) => assert_eq!(text, "Missing property persistent"),
        other => panic!("{:?}", other),
    }
}

#[test]
fn each_type_reads_its_own_values_only() {
    let number = props_with("P", OwnedValue::from(7u64));
    let flag = props_with("P", OwnedValue::from(true));
    let text = props_with("P", Value::from("seven").try_into().unwrap());
    let small = props_with("P", OwnedValue::from(7u32));
    let path = props_with("P", OwnedValue::from(ObjectPath::try_from("/seven").unwrap()));
    let nested = props_with("P", Value::new(Value::from(7u64)).try_into().unwrap());

    assert_eq!(extract_property::<u64>(&number, "P").unwrap(), 7);
    assert!(extract_property::<bool>(&flag, "P").unwrap());
    assert_eq!(extract_property::<String>(&text, "P").unwrap(), "seven");

    for props in [&flag, &text, &small, &path, &nested] {
        assert!(matches!(
            extract_property::<u64>(props, "P"),
            Err(DbusError::IncorrectType)
        ));
    }
    for props in [&number, &text, &small, &path, &nested] {
        assert!(matches!(
            extract_property::<bool>(props, "P"),
            Err(DbusError::IncorrectType)
        ));
    }
    for props in [&number, &flag, &small, &path, &nested] {
        assert!(matches!(
            extract_property::<String>(props, "P"),
            Err(DbusError::IncorrectType)
        ));
    }
}

#[test]
fn false_and_extreme_numbers_are_read_as_they_are() {
    let flag = props_with("P", OwnedValue::from(false));
    assert!(!extract_property::<bool>(&flag, "P").unwrap());
    let number = props_with("P", OwnedValue::from(u64::MAX));
    assert_eq!(extract_property::<u64>(&number, "P").unwrap(), u64::MAX);
    let text = props_with("P", Value::from("").try_into().unwrap());
    assert_eq!(extract_property::<String>(&text, "P").unwrap(), "");
}

#[test]
fn properties_are_asked_of_systemd() {
    let path = OwnedObjectPath::try_from("/org/freedesktop/systemd1/unit/a_2etimer").unwrap();
    let request = get_all_properties(&path, "org.freedesktop.systemd1.Timer").unwrap();
    assert_eq!(SYSTEMD_DESTINATION, "org.freedesktop.systemd1");
    assert_eq!(request.destination, "org.freedesktop.systemd1");
    assert_eq!(request.path, &path);
    assert_eq!(request.interface, "org.freedesktop.systemd1.Timer");
}

#[test]
fn malformed_interface_names_are_refused() {
    let path = OwnedObjectPath::try_from("/").unwrap();
    let long = format!("a.{}", "b".repeat(254));
    for name in [
        "", ".", "a", "a.", ".a", "a..b", "a.b.", "1a.b", "a.1b", "a.b-c", "a.\u{e9}", "a b.c",
        long.as_str(),
    ] {
        assert!(
            matches!(get_all_properties(&path, name), Err(DbusError::InvalidName)),
            "{}",
            name
        );
    }
    let longest = format!("a.{}", "b".repeat(253));
    for name in ["a.b", "_._", "a1.B2_.c", longest.as_str()] {
        assert_eq!(get_all_properties(&path, name).unwrap().interface, name);
    }
}
