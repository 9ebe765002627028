//! The settings of a record-producing type: the name of its series, the
//! precision of its timestamps, and which of its members are tags or fields.
//!
//! The settings are written as a list of attributes, each a bare name or a
//! name with a value. A value is the text of a string literal, its quotes
//! included.

use super::time::TimestampPrecision;
use vstd::prelude::*;
use vstd::string::*;

verus! {

/// One attribute of a list.
#[derive(Clone, Debug)]
pub enum ParsedAttribute {
    /// A bare name.
    Tag(String),
    /// A name and the text of its value.
    Property(String, String),
}

/// Why a list of attributes was refused.
#[derive(Clone, Copy, Debug, PartialEq, Eq, Structural)]
pub enum AttributeError {
    /// A value is not a string literal.
    NotALiteralStr,
    /// A timestamp precision is not one of the four.
    UnknownTimestampPrecision,
    /// A type has an attribute that no type can have.
    UnknownContainerAttribute,
    /// A member has an attribute that no member can have.
    UnknownFieldAttribute,
}

/// The contents of a string literal: its text without the quote at either end.
/// A text that does not begin and end with a quote of its own is no literal.
pub open spec fn unquoted(text: Seq<char>) -> Option<Seq<char>> {
    if text.len() >= 2 && text[0] == '"' && text.last() == '"' {
        Some(text.subrange(1, text.len() - 1))
    } else {
        None
    }
}

/// The contents of a string literal, where the text is one.
pub fn unquote(text: &str) -> (r: Option<String>)
    ensures
        match r {
            Some(contents) => unquoted(text@) == Some(contents@),
            None => unquoted(text@) is None,
        },
{
    let length: usize = text.unicode_len();
    if length >= 2 && text.get_char(0) == '"' && text.get_char(length - 1) == '"' {
        Some(String::from_str(text.substring_char(1, length - 1)))
    } else {
        None
    }
}

/// Whether a text is the literal given.
fn is(text: &String, literal: &str) -> (r: bool)
    ensures
        r == (text@ == literal@),
{
    *text == String::from_str(literal)
}

/// The settings of a type.
#[derive(Clone, Debug)]
pub struct ContainerAttributes {
    /// The name of the series.
    pub measurement: String,
    /// The unit of the timestamps.
    pub timestamp_precision: TimestampPrecision,
}

/// The settings of a type, as values.
pub struct ContainerSettings {
    pub measurement: Seq<char>,
    pub timestamp_precision: TimestampPrecision,
}

impl View for ContainerAttributes {
    type V = ContainerSettings;

    open spec fn view(&self) -> ContainerSettings {
        ContainerSettings {
            measurement: self.measurement@,
            timestamp_precision: self.timestamp_precision,
        }
    }
}

impl Default for ContainerAttributes {
    /// The series `measurment`, with timestamps in nanoseconds.
    fn default() -> (r: Self)
        ensures
            r@ == ContainerAttributes::initial(),
    {
        ContainerAttributes {
            measurement: String::from_str("measurment"),
            timestamp_precision: TimestampPrecision::Nanoseconds,
        }
    }
}

impl ContainerAttributes {
    /// The settings of a type without attributes.
    pub open spec fn initial() -> ContainerSettings {
        ContainerSettings {
            measurement: "measurment"@,
            timestamp_precision: TimestampPrecision::Nanoseconds,
        }
    }

    /// The settings after one more attribute.
    ///
    /// `measurement` names the series and `timestamp_precision` the unit of
    /// the timestamps, each by a string literal. Nothing else is an attribute
    /// of a type.
    pub open spec fn with(
        settings: ContainerSettings,
        attribute: ParsedAttribute,
    ) -> Result<ContainerSettings, AttributeError> {
        match attribute {
            ParsedAttribute::Property(key, value) => if key@ == "measurement"@ {
                match unquoted(value@) {
                    Some(name) => Ok(ContainerSettings { measurement: name, ..settings }),
                    None => Err(AttributeError::NotALiteralStr),
                }
            } else if key@ == "timestamp_precision"@ {
                match unquoted(value@) {
                    Some(name) => match TimestampPrecision::named(name) {
                        Some(precision) => Ok(
                            ContainerSettings { timestamp_precision: precision, ..settings },
                        ),
                        None => Err(AttributeError::UnknownTimestampPrecision),
                    },
                    None => Err(AttributeError::NotALiteralStr),
                }
            } else {
                Err(AttributeError::UnknownContainerAttribute)
            },
            ParsedAttribute::Tag(_) => Err(AttributeError::UnknownContainerAttribute),
        }
    }

    /// The settings after a list of attributes, taken in their order: a later
    /// attribute overrides an earlier one, and the first that is refused
    /// refuses the list.
    pub open spec fn parsed(
        attributes: Seq<ParsedAttribute>,
        settings: ContainerSettings,
    ) -> Result<ContainerSettings, AttributeError>
        decreases attributes.len(),
    {
        if attributes.len() == 0 {
            Ok(settings)
        } else {
            match ContainerAttributes::with(settings, attributes[0]) {
                Ok(next) => ContainerAttributes::parsed(attributes.drop_first(), next),
                Err(e) => Err(e),
            }
        }
    }

    /// Reads the settings of a type from its attributes.
    pub fn parse(attributes: &Vec<ParsedAttribute>) -> (r: Result<Self, AttributeError>)
        ensures
            match (r, ContainerAttributes::parsed(attributes@, ContainerAttributes::initial())) {
                (Ok(settings), Ok(expected)) => settings@ == expected,
                (Err(e), Err(expected)) => e == expected,
                _ => false,
            },
    {
        let mut result = ContainerAttributes::default();
        let mut i: usize = 0;
        proof {
            assert(attributes@.skip(0) =~= attributes@);
        }
        while i < attributes.len()
            invariant
                i <= attributes.len(),
                ContainerAttributes::parsed(attributes@, ContainerAttributes::initial())
                    == ContainerAttributes::parsed(attributes@.skip(i as int), result@),
            decreases attributes.len() - i,
        {
            proof {
                assert(attributes@.skip(i as int).drop_first() =~= attributes@.skip(i + 1));
                assert(attributes@.skip(i as int)[0] == attributes@[i as int]);
            }
            match &attributes[i] {
                ParsedAttribute::Property(key, value) => {
                    if is(key, "measurement") {
                        match unquote(value.as_str()) {
                            Some(name) => {
                                result.measurement = name;
                            },
                            None => {
                                return Err(AttributeError::NotALiteralStr);
                            },
                        }
                    } else if is(key, "timestamp_precision") {
                        match unquote(value.as_str()) {
                            Some(name) => match TimestampPrecision::from_name(&name) {
                                Some(precision) => {
                                    result.timestamp_precision = precision;
                                },
                                None => {
                                    return Err(AttributeError::UnknownTimestampPrecision);
                                },
                            },
                            None => {
                                return Err(AttributeError::NotALiteralStr);
                            },
                        }
                    } else {
                        return Err(AttributeError::UnknownContainerAttribute);
                    }
                },
                ParsedAttribute::Tag(_) => {
                    return Err(AttributeError::UnknownContainerAttribute);
                },
            }
            i += 1;
        }
        Ok(result)
    }
}

/// What a member of a type is in its record.
#[derive(Clone, Debug)]
pub enum FieldAttributes {
    /// A tag, under the key given or under the member's own name.
    Tag(Option<String>),
    /// A field, under the key given or under the member's own name.
    Field(Option<String>),
    /// No part of the record.
    Untracked,
}

/// What a member of a type is in its record, as a value.
pub enum FieldSetting {
    Tag(Option<Seq<char>>),
    Field(Option<Seq<char>>),
    Untracked,
}

impl View for FieldAttributes {
    type V = FieldSetting;

    open spec fn view(&self) -> FieldSetting {
        match self {
            FieldAttributes::Tag(Some(key)) => FieldSetting::Tag(Some(key@)),
            FieldAttributes::Tag(None) => FieldSetting::Tag(None),
            FieldAttributes::Field(Some(key)) => FieldSetting::Field(Some(key@)),
            FieldAttributes::Field(None) => FieldSetting::Field(None),
            FieldAttributes::Untracked => FieldSetting::Untracked,
        }
    }
}

impl Default for FieldAttributes {
    fn default() -> (r: Self)
        ensures
            r@ == FieldSetting::Untracked,
    {
        FieldAttributes::Untracked
    }
}

impl FieldAttributes {
    /// The setting after one more attribute.
    ///
    /// `tag` and `field` make the member a tag or a field, under its own name
    /// where they stand bare and under the key given where they have a string
    /// literal; with any other value they change nothing. Nothing else is an
    /// attribute of a member.
    pub open spec fn with(setting: FieldSetting, attribute: ParsedAttribute) -> Result<
        FieldSetting,
        AttributeError,
    > {
        match attribute {
            ParsedAttribute::Property(key, value) => if key@ == "tag"@ {
                match unquoted(value@) {
                    Some(name) => Ok(FieldSetting::Tag(Some(name))),
                    None => Ok(setting),
                }
            } else if key@ == "field"@ {
                match unquoted(value@) {
                    Some(name) => Ok(FieldSetting::Field(Some(name))),
                    None => Ok(setting),
                }
            } else {
                Err(AttributeError::UnknownFieldAttribute)
            },
            ParsedAttribute::Tag(name) => if name@ == "tag"@ {
                Ok(FieldSetting::Tag(None))
            } else if name@ == "field"@ {
                Ok(FieldSetting::Field(None))
            } else {
                Err(AttributeError::UnknownFieldAttribute)
            },
        }
    }

    /// The setting after a list of attributes, taken in their order: a later
    /// attribute overrides an earlier one, and the first that is refused
    /// refuses the list.
    pub open spec fn parsed(attributes: Seq<ParsedAttribute>, setting: FieldSetting) -> Result<
        FieldSetting,
        AttributeError,
    >
        decreases attributes.len(),
    {
        if attributes.len() == 0 {
            Ok(setting)
        } else {
            match FieldAttributes::with(setting, attributes[0]) {
                Ok(next) => FieldAttributes::parsed(attributes.drop_first(), next),
                Err(e) => Err(e),
            }
        }
    }

    /// Reads what a member is from its attributes.
    pub fn parse(attributes: &Vec<ParsedAttribute>) -> (r: Result<Self, AttributeError>)
        ensures
            match (r, FieldAttributes::parsed(attributes@, FieldSetting::Untracked)) {
                (Ok(setting), Ok(expected)) => setting@ == expected,
                (Err(e), Err(expected)) => e == expected,
                _ => false,
            },
    {
        let mut result = FieldAttributes::default();
        let mut i: usize = 0;
        proof {
            assert(attributes@.skip(0) =~= attributes@);
        }
        while i < attributes.len()
            invariant
                i <= attributes.len(),
                FieldAttributes::parsed(attributes@, FieldSetting::Untracked)
                    == FieldAttributes::parsed(attributes@.skip(i as int), result@),
            decreases attributes.len() - i,
        {
            proof {
                assert(attributes@.skip(i as int).drop_first() =~= attributes@.skip(i + 1));
                assert(attributes@.skip(i as int)[0] == attributes@[i as int]);
            }
            match &attributes[i] {
                ParsedAttribute::Property(key, value) => {
                    if is(key, "tag") {
                        match unquote(value.as_str()) {
                            Some(name) => {
                                result = FieldAttributes::Tag(Some(name));
                            },
                            None => {},
                        }
                    } else if is(key, "field") {
                        match unquote(value.as_str()) {
                            Some(name) => {
                                result = FieldAttributes::Field(Some(name));
                            },
                            None => {},
                        }
                    } else {
                        return Err(AttributeError::UnknownFieldAttribute);
                    }
                },
                ParsedAttribute::Tag(name) => {
                    if is(name, "tag") {
                        result = FieldAttributes::Tag(None);
                    } else if is(name, "field") {
                        result = FieldAttributes::Field(None);
                    } else {
                        return Err(AttributeError::UnknownFieldAttribute);
                    }
                },
            }
            i += 1;
        }
        Ok(result)
    }
}

} // verus!
