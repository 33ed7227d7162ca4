//! Validation of a loaded configuration: item keys must be unique across the
//! item set, and every interval must be positive. Reading and parsing the
//! configuration file itself is the embedding program's work; it hands a
//! `Config` of plain values in and rejects it if validation fails.

use vstd::prelude::*;
use vstd::string::*;

use crate::item::Item;
use crate::item::ItemError;
use crate::item::ItemErrorKind;
use crate::output::OutputKind;

verus! {

/// The ways a configuration can be invalid.
#[derive(Debug, Clone, Eq, PartialEq)]
pub enum ConfigErrorKind {
    /// The configuration file could not be read.
    IoError,
    /// The configuration file was not well-formed.
    TomlError,
    /// Some item is invalid (today: a non-positive interval).
    ErrorItems,
    /// Two items share this key.
    DuplicateItem(String),
    /// The configuration file was not valid UTF-8.
    Utf8Error,
}

/// An invalid configuration, with an optional message from the underlying
/// cause.
#[derive(Debug, Clone, Eq, PartialEq)]
pub struct ConfigError {
    pub kind: ConfigErrorKind,
    pub cause: Option<String>,
}

impl ConfigError {
    /// A human-readable description of the error.
    pub fn describe(&self) -> (r: String)
        ensures
            (match self.kind {
                ConfigErrorKind::IoError | ConfigErrorKind::TomlError => (match self.cause {
                    Option::Some(c) => r@ == c@,
                    Option::None => r@ == Seq::<char>::empty(),
                }),
                ConfigErrorKind::ErrorItems => r@ == "some items have errors"@,
                ConfigErrorKind::DuplicateItem(s) => r@ == "duplicate key: "@ + s@,
                ConfigErrorKind::Utf8Error => r@ == "utf8 error"@,
            }),
    {
        match &self.kind {
            ConfigErrorKind::IoError | ConfigErrorKind::TomlError => {
                match &self.cause {
                    Option::Some(c) => c.clone(),
                    Option::None => String::new(),
                }
            },
            ConfigErrorKind::ErrorItems => String::from_str("some items have errors"),
            ConfigErrorKind::DuplicateItem(s) => String::from_str("duplicate key: ").concat(
                s.as_str(),
            ),
            ConfigErrorKind::Utf8Error => String::from_str("utf8 error"),
        }
    }
}

/// The general section of a configuration.
#[derive(Debug, Clone, Eq, PartialEq)]
pub struct General {
    /// The shell interpreter `Shell`-kind items run under.
    pub shell: String,
}

/// The shell used when the configuration names none.
pub fn shell_default() -> (r: String)
    ensures
        r@ == "/usr/bin/sh"@,
{
    String::from_str("/usr/bin/sh")
}

/// A loaded configuration: the general settings, the configured sinks, and
/// the items to supervise.
#[derive(Debug, Clone)]
pub struct Config {
    pub general: General,
    pub output: Vec<OutputKind>,
    pub items: Vec<Item>,
}

/// Two items of the set share a key.
pub open spec fn has_duplicate_key(items: Seq<Item>) -> bool {
    exists|i: int, j: int| 0 <= i < j < items.len() && items[i].key@ == items[j].key@
}

/// `k` is a key that two items of the set share.
pub open spec fn is_duplicated_key(items: Seq<Item>, k: Seq<char>) -> bool {
    exists|i: int, j: int|
        0 <= i < j < items.len() && items[i].key@ == items[j].key@ && items[i].key@ == k
}

/// Some item's interval is zero or negative.
pub open spec fn has_invalid_interval(items: Seq<Item>) -> bool {
    exists|i: int| 0 <= i < items.len() && items[i].interval <= 0
}

/// Reject any item whose interval is not positive, reporting the first one's
/// key.
pub fn check_intervals(items: &Vec<Item>) -> (r: Result<(), ItemError>)
    ensures
        r is Ok <==> !has_invalid_interval(items@),
        r matches Err(e) ==> e.spec_kind() == ItemErrorKind::InvalidInterval && (exists|i: int|
            0 <= i < items@.len() && (#[trigger] items@[i]).interval <= 0 && items@[i].key@
                == e.spec_key()),
{
    let mut i: usize = 0;
    while i < items.len()
        invariant
            0 <= i <= items@.len(),
            forall|t: int| 0 <= t < i ==> (#[trigger] items@[t]).interval > 0,
        decreases items@.len() - i,
    {
        if items[i].interval <= 0 {
            return Err(ItemError::new(items[i].key.clone(), ItemErrorKind::InvalidInterval));
        }
        i = i + 1;
    }
    Ok(())
}

/// Find a key that two items share, if any.
fn find_duplicate(items: &Vec<Item>) -> (r: Option<String>)
    ensures
        r is Some <==> has_duplicate_key(items@),
        r matches Some(k) ==> is_duplicated_key(items@, k@),
{
    let mut i: usize = 0;
    while i < items.len()
        invariant
            0 <= i <= items@.len(),
            forall|a: int, b: int|
                0 <= a < b < items@.len() && a < i ==> (#[trigger] items@[a]).key@ != (
                #[trigger] items@[b]).key@,
        decreases items@.len() - i,
    {
        let mut j: usize = i + 1;
        while j < items.len()
            invariant
                0 <= i < items@.len(),
                i < j <= items@.len(),
                forall|b: int| i < b < j ==> (#[trigger] items@[b]).key@ != items@[i as int].key@,
            decreases items@.len() - j,
        {
            if items[i].key == items[j].key {
                return Some(items[i].key.clone());
            }
            j = j + 1;
        }
        i = i + 1;
    }
    None
}

/// Validate an item set: keys must be unique and intervals positive. A
/// duplicate key is reported first, carrying the key's text; an
/// invalid interval is reported as an item error, with the offending item's
/// key in the message.
pub fn validate_items(items: &Vec<Item>) -> (r: Result<(), ConfigError>)
    ensures
        r is Ok <==> !has_duplicate_key(items@) && !has_invalid_interval(items@),
        has_duplicate_key(items@) ==> (r matches Err(e) && (e.kind matches
        ConfigErrorKind::DuplicateItem(k) && is_duplicated_key(items@, k@)) && e.cause is None),
        !has_duplicate_key(items@) && has_invalid_interval(items@) ==> (r matches Err(e)
            && e.kind is ErrorItems && (e.cause matches Some(c) && (exists|i: int|
            0 <= i < items@.len() && (#[trigger] items@[i]).interval <= 0 && c@ == items@[i].key@
                + ": "@
                + "interval has to be bigger than 0 and smaller than MAX_INT64"@))),
{
    match find_duplicate(items) {
        Option::Some(k) => Err(
            ConfigError { kind: ConfigErrorKind::DuplicateItem(k), cause: None },
        ),
        Option::None => {
            match check_intervals(items) {
                Result::Err(e) => Err(
                    ConfigError {
                        kind: ConfigErrorKind::ErrorItems,
                        cause: Some(e.describe()),
                    },
                ),
                Result::Ok(()) => Ok(()),
            }
        },
    }
}

impl Config {
    /// Validate this configuration's item set, as `validate_items` does.
    pub fn validate(&self) -> (r: Result<(), ConfigError>)
        ensures
            r is Ok <==> !has_duplicate_key(self.items@) && !has_invalid_interval(self.items@),
            has_duplicate_key(self.items@) ==> (r matches Err(e) && (e.kind matches
            ConfigErrorKind::DuplicateItem(k) && is_duplicated_key(self.items@, k@))),
            !has_duplicate_key(self.items@) && has_invalid_interval(self.items@) ==> (r matches Err(
                e,
            ) && e.kind is ErrorItems),
    {
        validate_items(&self.items)
    }
}

} // verus!
