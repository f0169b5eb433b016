//! Why a definition gets no generated code.
use vstd::prelude::*;

verus! {

/// A shape of definition that has no members to set one by one.
#[derive(Clone, Copy, Debug, PartialEq, Eq)]
pub enum Unsupported {
    Enum,
    Union,
}

/// An option that an annotation can hold.
#[derive(Clone, Copy, Debug, PartialEq, Eq)]
pub enum Key {
    /// `name = "..."`, on a record.
    Name,
    /// `derive(...)`, on a record.
    Derive,
    /// `visibility(...)`, on a record.
    Visibility,
    /// `flatten`, on a member.
    Flatten,
}

/// What is wrong with an annotation.
#[derive(Clone, Copy, Debug, PartialEq, Eq)]
pub enum Reason {
    /// The annotation is written as `fields = ...`, not as `fields(...)`
    /// or `fields` alone.
    NotAList,
    /// The option does not start with a key that is recognized there.
    UnknownOption,
    /// The key is followed by something else than the value it takes.
    MalformedValue(Key),
    /// An option that takes one value is given a second time.
    DuplicateOption(Key),
    /// An entry of `derive(...)` is not a path.
    MalformedPath,
    /// An entry of `visibility(...)` is none of `priv`, `pub` and
    /// `pub(<scope-path>)`.
    UnknownVisibility,
}

/// Where in the definition an annotation is wrong.
///
/// The numbers count from zero: the member in the member list, the
/// annotation among all attributes of the record or member that carries it,
/// the token in the annotation's tokens with which the offending option
/// starts, and, where one entry of a list is at fault, the token in the list
/// with which that entry starts.
#[derive(Clone, Copy, Debug, PartialEq, Eq)]
pub struct Location {
    /// The member that carries the annotation, or nothing for the record.
    pub member: Option<usize>,
    pub attribute: usize,
    pub option: usize,
    pub entry: Option<usize>,
}

/// Why generation stops. There is no partial output: a definition gives
/// either all of its generated code or one of these.
#[derive(Clone, Copy, Debug, PartialEq, Eq)]
pub enum Error {
    /// The definition is an enum or a union.
    Shape(Unsupported),
    /// An annotation holds an unrecognized key or a malformed value.
    Configuration(Reason, Location),
    /// The record's name is no name, or the name made of it for the
    /// generated type, the record's name followed by `Field`, is no
    /// identifier.
    Name,
    /// The name of the member at this position, counted from zero, is no
    /// name, or the name made of it for the variant, the member's name in
    /// upper camel case, is no identifier.
    Member(usize),
}

/// The diagnostic for `error`, which names what was expected where there
/// is a choice.
pub open spec fn message_of(error: Error) -> Seq<char> {
    match error {
        Error::Shape(Unsupported::Enum) => "enum not supported by fields derive"@,
        Error::Shape(Unsupported::Union) => "union not supported by fields derive"@,
        Error::Name => "no identifier can be made of the name of this record"@,
        Error::Member(_) => "no identifier can be made of the name of this member"@,
        Error::Configuration(Reason::NotAList, _) => "expected `fields(...)`"@,
        Error::Configuration(Reason::UnknownOption, location) => if location.member is Some {
            "expected supported field `flatten`"@
        } else {
            "supported fields are `name`, `derive` and `visibility`"@
        },
        Error::Configuration(Reason::MalformedValue(key), _) => "expected "@ + form_of(key),
        Error::Configuration(Reason::DuplicateOption(key), _) => "`"@ + name_of(key)
            + "` is specified multiple times"@,
        Error::Configuration(Reason::MalformedPath, _) => "expected a path"@,
        Error::Configuration(Reason::UnknownVisibility, _) =>
            "expected `priv`, `pub` or `pub(<scope-path>)`"@,
    }
}

/// The key as it is written.
pub open spec fn name_of(key: Key) -> Seq<char> {
    match key {
        Key::Name => "name"@,
        Key::Derive => "derive"@,
        Key::Visibility => "visibility"@,
        Key::Flatten => "flatten"@,
    }
}

/// The form of the option with the key `key`.
pub open spec fn form_of(key: Key) -> Seq<char> {
    match key {
        Key::Name => "`name = \"<identifier>\"`"@,
        Key::Derive => "`derive(<path>, ...)`"@,
        Key::Visibility => "`visibility(<entry>, ...)`"@,
        Key::Flatten => "`flatten` alone"@,
    }
}

impl Key {
    /// The key as it is written.
    pub fn name(&self) -> (name: &'static str)
        ensures
            name@ == name_of(*self),
    {
        match self {
            Key::Name => "name",
            Key::Derive => "derive",
            Key::Visibility => "visibility",
            Key::Flatten => "flatten",
        }
    }

    /// The form of the option with this key.
    pub fn form(&self) -> (form: &'static str)
        ensures
            form@ == form_of(*self),
    {
        match self {
            Key::Name => "`name = \"<identifier>\"`",
            Key::Derive => "`derive(<path>, ...)`",
            Key::Visibility => "`visibility(<entry>, ...)`",
            Key::Flatten => "`flatten` alone",
        }
    }
}

impl Error {
    /// The diagnostic to show for this error.
    pub fn message(&self) -> (message: String)
        ensures
            message@ == message_of(*self),
    {
        match self {
            Error::Shape(Unsupported::Enum) => String::from_str(
                "enum not supported by fields derive",
            ),
            Error::Shape(Unsupported::Union) => String::from_str(
                "union not supported by fields derive",
            ),
            Error::Name => String::from_str(
                "no identifier can be made of the name of this record",
            ),
            Error::Member(_) => String::from_str(
                "no identifier can be made of the name of this member",
            ),
            Error::Configuration(Reason::NotAList, _) => String::from_str("expected `fields(...)`"),
            Error::Configuration(Reason::UnknownOption, location) => {
                if location.member.is_some() {
                    String::from_str("expected supported field `flatten`")
                } else {
                    String::from_str("supported fields are `name`, `derive` and `visibility`")
                }
            },
            Error::Configuration(Reason::MalformedValue(key), _) => {
                let mut message = String::from_str("expected ");
                message.append(key.form());
                message
            },
            Error::Configuration(Reason::DuplicateOption(key), _) => {
                let mut message = String::from_str("`");
                message.append(key.name());
                message.append("` is specified multiple times");
                message
            },
            Error::Configuration(Reason::MalformedPath, _) => String::from_str("expected a path"),
            Error::Configuration(Reason::UnknownVisibility, _) => String::from_str(
                "expected `priv`, `pub` or `pub(<scope-path>)`",
            ),
        }
    }
}

} // verus!
