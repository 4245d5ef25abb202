//! Reading several properties of one D-Bus interface from one reply.
//!
//! Where several properties of the same interface on the same object are needed,
//! one `Properties.GetAll` call brings them all. [`get_all_properties`] says what
//! to ask for, and [`extract_property`] takes the answer apart.

use vstd::prelude::*;
use vstd::string::StringExecFns;
use zbus::zvariant::{OwnedObjectPath, OwnedValue};

use crate::names::NameMap;

verus! {

/// The value of one property, as zvariant holds it. Opaque here: see [`value_contents`].
#[verifier::external_type_specification]
#[verifier::external_body]
pub struct ExOwnedValue(zbus::zvariant::OwnedValue);

/// The path of an object on the bus. Opaque: it is only carried along.
#[verifier::external_type_specification]
#[verifier::external_body]
pub struct ExOwnedObjectPath(zbus::zvariant::OwnedObjectPath);

/// What a conversion out of a property value fails with. Opaque.
#[verifier::external_type_specification]
#[verifier::external_body]
pub struct ExVariantError(zbus::zvariant::Error);

/// What zbus answers to a malformed name. Opaque.
#[verifier::external_type_specification]
#[verifier::external_body]
pub struct ExNamesError(zbus::names::Error);

/// What a call over the bus fails with. Opaque: it is only carried along.
#[verifier::external_type_specification]
#[verifier::external_body]
pub struct ExBusError(zbus::Error);

/// What a property value holds, as far as this library reads it.
pub enum ValueContents {
    U64(u64),
    Bool(bool),
    Str(Seq<char>),
    /// A value of any other D-Bus type.
    Other,
}

/// What `value` holds. A `Value::U64`, `Value::Bool` or `Value::Str` of zvariant holds its
/// number, boolean or text; every other variant is `Other`.
pub uninterp spec fn value_contents(value: OwnedValue) -> ValueContents;

/// `<u64 as TryFrom<&OwnedValue>>::try_from` of zvariant. It yields the number that the
/// value holds where that is a `u64`, and fails on a value of any other type.
#[verifier::external_body]
fn value_as_u64(value: &OwnedValue) -> (number: Result<u64, zbus::zvariant::Error>)
    ensures
        match number {
            Ok(n) => value_contents(*value) == ValueContents::U64(n),
            Err(_) => !(value_contents(*value) is U64),
        },
{
    u64::try_from(value)
}

/// `<bool as TryFrom<&OwnedValue>>::try_from` of zvariant. It yields the boolean that the
/// value holds where that is a boolean, and fails on a value of any other type.
#[verifier::external_body]
fn value_as_bool(value: &OwnedValue) -> (flag: Result<bool, zbus::zvariant::Error>)
    ensures
        match flag {
            Ok(b) => value_contents(*value) == ValueContents::Bool(b),
            Err(_) => !(value_contents(*value) is Bool),
        },
{
    bool::try_from(value)
}

/// `<&str as TryFrom<&OwnedValue>>::try_from` of zvariant. It yields the string that the
/// value holds where that is a string, and fails on a value of any other type, object
/// paths and signatures among them.
#[verifier::external_body]
fn value_as_str(value: &OwnedValue) -> (text: Result<&str, zbus::zvariant::Error>)
    ensures
        match text {
            Ok(s) => value_contents(*value) == ValueContents::Str(s@),
            Err(_) => !(value_contents(*value) is Str),
        },
{
    <&str>::try_from(value)
}

/// The properties of one interface, by name: the answer to one `Properties.GetAll` call.
pub type Properties = NameMap<OwnedValue>;

/// Why properties could not be had or read.
#[derive(Debug)]
pub enum DbusError {
    /// A failure in words.
    Failure(String),
    /// A property has a value of another type than the one asked for.
    IncorrectType,
    /// A name is malformed.
    InvalidName,
    /// A call over the bus failed.
    Call(zbus::Error),
}

/// A [`DbusError`] with its text as a sequence of characters.
pub enum DbusErrorView {
    Failure(Seq<char>),
    IncorrectType,
    InvalidName,
    Call(zbus::Error),
}

impl View for DbusError {
    type V = DbusErrorView;

    open spec fn view(&self) -> DbusErrorView {
        match self {
            DbusError::Failure(text) => DbusErrorView::Failure(text@),
            DbusError::IncorrectType => DbusErrorView::IncorrectType,
            DbusError::InvalidName => DbusErrorView::InvalidName,
            DbusError::Call(e) => DbusErrorView::Call(*e),
        }
    }
}

/// A type that a property can be read as.
pub trait PropertyType: Sized {
    /// Whether a value can be read as this type.
    spec fn fits(contents: ValueContents) -> bool;

    /// Whether this is what a value is read as.
    spec fn is_read_from(self, contents: ValueContents) -> bool;

    /// Reads `value` as this type.
    fn read(value: &OwnedValue) -> (read: Result<Self, zbus::zvariant::Error>)
        ensures
            match read {
                Ok(x) => Self::fits(value_contents(*value)) && x.is_read_from(
                    value_contents(*value),
                ),
                Err(_) => !Self::fits(value_contents(*value)),
            },
    ;
}

impl PropertyType for u64 {
    open spec fn fits(contents: ValueContents) -> bool {
        contents is U64
    }

    open spec fn is_read_from(self, contents: ValueContents) -> bool {
        contents == ValueContents::U64(self)
    }

    fn read(value: &OwnedValue) -> (read: Result<u64, zbus::zvariant::Error>) {
        value_as_u64(value)
    }
}

impl PropertyType for bool {
    open spec fn fits(contents: ValueContents) -> bool {
        contents is Bool
    }

    open spec fn is_read_from(self, contents: ValueContents) -> bool {
        contents == ValueContents::Bool(self)
    }

    fn read(value: &OwnedValue) -> (read: Result<bool, zbus::zvariant::Error>) {
        value_as_bool(value)
    }
}

impl PropertyType for String {
    open spec fn fits(contents: ValueContents) -> bool {
        contents is Str
    }

    open spec fn is_read_from(self, contents: ValueContents) -> bool {
        contents == ValueContents::Str(self@)
    }

    fn read(value: &OwnedValue) -> (read: Result<String, zbus::zvariant::Error>) {
        match value_as_str(value) {
            Ok(text) => Ok(text.to_owned()),
            Err(e) => Err(e),
        }
    }
}

/// What a missing property is reported with.
pub open spec fn missing_property(name: Seq<char>) -> DbusErrorView {
    DbusErrorView::Failure("Missing property "@ + name)
}

/// What keeps the property `name` of `props` from being read as a `T`, if anything does.
pub open spec fn property_error<T: PropertyType>(
    props: Map<Seq<char>, OwnedValue>,
    name: Seq<char>,
) -> Option<DbusErrorView> {
    if !props.contains_key(name) {
        Some(missing_property(name))
    } else if !T::fits(value_contents(props[name])) {
        Some(DbusErrorView::IncorrectType)
    } else {
        None
    }
}

/// Reads the property `name` as a `T`.
pub fn extract_property<T: PropertyType>(props: &Properties, name: &str) -> (property: Result<
    T,
    DbusError,
>)
    ensures
        match property {
            Ok(x) => property_error::<T>(props@, name@) is None && x.is_read_from(
                value_contents(props@[name@]),
            ),
            Err(e) => property_error::<T>(props@, name@) == Some(e@),
        },
        !props@.contains_key(name@) ==> (property matches Err(DbusError::Failure(text)) && text@
            == "Missing property "@ + name@),
        props@.contains_key(name@) && !T::fits(value_contents(props@[name@])) ==> property
            matches Err(DbusError::IncorrectType),
        props@.contains_key(name@) && T::fits(value_contents(props@[name@])) ==> (property
            matches Ok(x) && x.is_read_from(value_contents(props@[name@]))),
{
    match props.get(name) {
        Some(value) => match T::read(value) {
            Ok(x) => Ok(x),
            Err(_) => Err(DbusError::IncorrectType),
        },
        None => Err(DbusError::Failure(String::from_str("Missing property ").concat(name))),
    }
}

/// The bus name that systemd answers to.
pub const SYSTEMD_DESTINATION: &'static str = "org.freedesktop.systemd1";

/// A letter or an underscore.
pub open spec fn starts_element(c: char) -> bool {
    'a' <= c <= 'z' || 'A' <= c <= 'Z' || c == '_'
}

/// Whether `name` has the form of a D-Bus interface name: two or more elements with a
/// dot between them, each made of letters, digits and underscores and not starting with
/// a digit, and 255 characters at most in all.
pub open spec fn is_interface_name(name: Seq<char>) -> bool {
    &&& 0 < name.len() <= 255
    &&& name.contains('.')
    &&& name.last() != '.'
    &&& forall|i: int|
        0 <= i < name.len() ==> starts_element(#[trigger] name[i]) || '0' <= name[i] <= '9'
            || name[i] == '.'
    &&& starts_element(name[0])
    &&& forall|i: int, j: int|
        0 <= i && j == i + 1 && j < name.len() && #[trigger] name[i] == '.' ==> starts_element(
            #[trigger] name[j],
        )
}

/// `InterfaceName::try_from` of zbus_names, with the name taken back out as text. It
/// accepts the names of the form of [`is_interface_name`], unchanged, and refuses all
/// others.
#[verifier::external_body]
fn interface_name(name: &str) -> (checked: Result<String, zbus::names::Error>)
    ensures
        match checked {
            Ok(text) => is_interface_name(name@) && text@ == name@,
            Err(_) => !is_interface_name(name@),
        },
{
    match zbus::names::InterfaceName::try_from(name) {
        Ok(checked) => Ok(checked.as_str().to_owned()),
        Err(e) => Err(e),
    }
}

/// A `Properties.GetAll` call to make.
pub struct PropertiesRequest<'a> {
    /// The bus name to call.
    pub destination: &'static str,
    /// The object whose properties are asked for.
    pub path: &'a OwnedObjectPath,
    /// The interface whose properties are asked for.
    pub interface: String,
}

/// The call that brings all properties of `interface` on the object at `path` of
/// systemd.
pub fn get_all_properties<'a>(path: &'a OwnedObjectPath, interface: &str) -> (request: Result<
    PropertiesRequest<'a>,
    DbusError,
>)
    ensures
        match request {
            Ok(r) => is_interface_name(interface@) && r.destination@ == SYSTEMD_DESTINATION@
                && r.path == path && r.interface@ == interface@,
            Err(e) => !is_interface_name(interface@) && e is InvalidName,
        },
        request matches Ok(r) ==> r.destination@ == "org.freedesktop.systemd1"@,
{
    match interface_name(interface) {
        Ok(interface) => Ok(PropertiesRequest { destination: SYSTEMD_DESTINATION, path, interface }),
        Err(_) => Err(DbusError::InvalidName),
    }
}

/// A number, a boolean and a string are read from a value that holds the very same
/// number, boolean or string, and from no other.
pub proof fn law_values_are_read_unchanged(
    contents: ValueContents,
    number: u64,
    flag: bool,
    text: String,
)
    ensures
        number.is_read_from(contents) <==> contents == ValueContents::U64(number),
        flag.is_read_from(contents) <==> contents == ValueContents::Bool(flag),
        text.is_read_from(contents) <==> contents == ValueContents::Str(text@),
        <u64 as PropertyType>::fits(contents) <==> contents is U64,
        <bool as PropertyType>::fits(contents) <==> contents is Bool,
        <String as PropertyType>::fits(contents) <==> contents is Str,
{
}

/// A property that is not there is reported with its name, one of another type as that,
/// and for one that is there with the right type there is nothing to report.
pub proof fn law_property_errors<T: PropertyType>(
    props: Map<Seq<char>, OwnedValue>,
    name: Seq<char>,
)
    ensures
        !props.contains_key(name) ==> property_error::<T>(props, name) == Some(
            DbusErrorView::Failure("Missing property "@ + name),
        ),
        props.contains_key(name) && !T::fits(value_contents(props[name])) ==> property_error::<T>(
            props,
            name,
        ) == Some(DbusErrorView::IncorrectType),
        props.contains_key(name) && T::fits(value_contents(props[name])) ==> property_error::<T>(
            props,
            name,
        ) is None,
{
}

/// The view of an error is of its kind, with the same text or the same failed call in it.
pub proof fn law_error_views(error: DbusError)
    ensures
        error matches DbusError::Failure(text) ==> error@ == DbusErrorView::Failure(text@),
        error is IncorrectType ==> error@ is IncorrectType,
        error is InvalidName ==> error@ is InvalidName,
        error matches DbusError::Call(e) ==> error@ == DbusErrorView::Call(e),
{
}

/// What can be read of a property: a number, a boolean or a string is had exactly where the
/// property is there and holds one, and it is the one that the property holds.
pub proof fn law_properties_are_read_as_they_are(
    props: Properties,
    name: &str,
    number: Result<u64, DbusError>,
    flag: Result<bool, DbusError>,
    text: Result<String, DbusError>,
)
    requires
        call_ensures(extract_property::<u64>, (&props, name), number),
        call_ensures(extract_property::<bool>, (&props, name), flag),
        call_ensures(extract_property::<String>, (&props, name), text),
    ensures
        props@.contains_key(name@) ==> {
            let held = value_contents(props@[name@]);
            &&& match held {
                ValueContents::U64(n) => number matches Ok(x) && x == n,
                _ => (number matches Err(DbusError::IncorrectType)),
            }
            &&& match held {
                ValueContents::Bool(b) => flag matches Ok(x) && x == b,
                _ => (flag matches Err(DbusError::IncorrectType)),
            }
            &&& match held {
                ValueContents::Str(s) => text matches Ok(x) && x@ == s,
                _ => (text matches Err(DbusError::IncorrectType)),
            }
        },
        !props@.contains_key(name@) ==> {
            let missing = "Missing property "@ + name@;
            &&& (number matches Err(DbusError::Failure(words)) && words@ == missing)
            &&& (flag matches Err(DbusError::Failure(words)) && words@ == missing)
            &&& (text matches Err(DbusError::Failure(words)) && words@ == missing)
        },
{
}

/// Interface names are made of elements with dots between them. An element is not empty,
/// has letters, digits and underscores in it and does not start with a digit. Two of them
/// make a name, each further one makes another, and nothing else is one; none is longer
/// than 255 characters.
pub proof fn law_interface_names_are_made_of_elements(first: Seq<char>, element: Seq<char>)
    requires
        !element.contains('.'),
    ensures
        ({
            let is_element = |e: Seq<char>|
                e.len() > 0 && !('0' <= e[0] <= '9') && forall|i: int|
                    0 <= i < e.len() ==> 'a' <= #[trigger] e[i] <= 'z' || 'A' <= e[i] <= 'Z'
                        || '0' <= e[i] <= '9' || e[i] == '_';
            let name = first + seq!['.'] + element;
            &&& !is_interface_name(element)
            &&& name.len() > 255 ==> !is_interface_name(name)
            &&& name.len() <= 255 && first.contains('.') ==> (is_interface_name(name)
                <==> is_interface_name(first) && is_element(element))
            &&& name.len() <= 255 && !first.contains('.') ==> (is_interface_name(name)
                <==> is_element(first) && is_element(element))
        }),
{
    let name = first + seq!['.'] + element;
    let n = first.len() as int;
    assert(name[n] == '.');
    assert(name.contains('.'));
    assert(forall|i: int| 0 <= i < n ==> name[i] == #[trigger] first[i]);
    assert(forall|i: int| n < i < name.len() ==> #[trigger] name[i] == element[i - n - 1]);
    assert(forall|i: int| 0 <= i < element.len() ==> name[i + n + 1] == #[trigger] element[i]);
    assert(forall|i: int| 0 <= i < element.len() ==> #[trigger] element[i] != '.');
    assert(!first.contains('.') ==> forall|i: int| 0 <= i < n ==> #[trigger] first[i] != '.');
    if is_interface_name(name) {
        assert(name[0] == '.' ==> n == 0);
        assert(n > 0);
        assert(first[0] == name[0]);
        assert(first.last() == name[n - 1]);
        assert(name[name.len() - 1] == name.last());
        assert(element.len() > 0);
        assert(element[0] == name[n + 1]);
    }
}

} // verus!
