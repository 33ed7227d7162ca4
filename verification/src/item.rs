//! The items a collector supervises: what to acquire, how often, and how to
//! digest the captured text.

use vstd::prelude::*;
use vstd::string::*;

verus! {

/// The ways an item's configuration can be invalid.
#[derive(Debug, Clone, Copy, Eq, PartialEq)]
pub enum ItemErrorKind {
    InvalidInterval,
}

/// An invalid item, remembered together with the key it was configured under.
#[derive(Debug, Clone, Eq, PartialEq)]
pub struct ItemError {
    key: String,
    kind: ItemErrorKind,
}

impl ItemError {
    /// The key of the item this error belongs to.
    pub closed spec fn spec_key(&self) -> Seq<char> {
        self.key@
    }

    /// The kind of this error.
    pub closed spec fn spec_kind(&self) -> ItemErrorKind {
        self.kind
    }

    pub fn new(key: String, k: ItemErrorKind) -> (r: ItemError)
        ensures
            r.spec_key() == key@,
            r.spec_kind() == k,
    {
        ItemError { key, kind: k }
    }

    /// The key of the item this error belongs to.
    pub fn key(&self) -> (r: &String)
        ensures
            r@ == self.spec_key(),
    {
        &self.key
    }

    /// The kind of this error.
    pub fn kind(&self) -> (r: ItemErrorKind)
        ensures
            r == self.spec_kind(),
    {
        self.kind
    }

    /// A human-readable description of the error.
    pub fn as_str(&self) -> (r: &'static str)
        ensures
            r@ == "interval has to be bigger than 0 and smaller than MAX_INT64"@,
    {
        match self.kind {
            ItemErrorKind::InvalidInterval => {
                "interval has to be bigger than 0 and smaller than MAX_INT64"
            },
        }
    }

    /// The error prefixed with the key it belongs to.
    pub fn describe(&self) -> (r: String)
        ensures
            r@ == self.spec_key() + ": "@
                + "interval has to be bigger than 0 and smaller than MAX_INT64"@,
    {
        String::from_str(self.key.as_str()).concat(": ").concat(self.as_str())
    }
}

/// The different kinds of items one can supervise.
#[derive(Debug, Clone, Eq, PartialEq)]
pub enum ItemKind {
    /// Read the file at the given location, useful on Linux for the /sys dir for example.
    File { path: String },
    /// Path to an executable with a list of arguments to be given to the executable.
    Command { path: String, args: Vec<String> },
    /// A string to be executed in a shell context.
    Shell { script: String },
}

/// How raw captured text is turned into named numeric measurements.
#[derive(Debug, Clone, Eq, PartialEq)]
pub enum DigestKind {
    /// Match the pattern against the text and emit one measurement per named
    /// capture group.
    Regex { pattern: String },
    /// Parse the whole text as one number, emitted under the `parsed` suffix.
    Raw,
}

impl Default for DigestKind {
    fn default() -> (r: DigestKind)
        ensures
            r is Raw,
    {
        DigestKind::Raw
    }
}

/// A single item: its key, its acquisition interval and strategy, the extra
/// environment its child processes get, and its digestion rule.
#[derive(Debug, Clone)]
pub struct Item {
    pub interval: i64,
    pub key: String,
    /// Extra environment variables merged into the child process environment,
    /// in configuration order; keys are unique.
    pub env: Vec<(String, String)>,
    pub kind: ItemKind,
    pub digest: DigestKind,
}

} // verus!
