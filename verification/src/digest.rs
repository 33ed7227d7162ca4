//! Digestion: turning one tick's raw captured text into named numeric
//! measurements, as the item's `DigestKind` directs.
//!
//! A `Raw` rule parses the whole trimmed text as one number and emits it under
//! `<key>.parsed`; text that is no float literal yields no measurement. A
//! `Regex` rule matches the pattern against the text and emits one measurement
//! per named capture group, named `<key>.<group>` and carrying the captured
//! text; a group whose text is no float literal stands for a NaN sample. A
//! pattern that does not match yields no measurements at all, and so does a
//! match of a pattern without named groups: either way the tick falls back
//! to the raw write.

use vstd::prelude::*;
use vstd::string::*;

use crate::item::DigestKind;
use crate::text::is_float_literal;

verus! {

/// One named sample produced by a tick: the measurement's full name and the
/// text its numeric value is read from.
#[derive(Debug, Clone, PartialEq, Eq)]
pub struct Measurement {
    pub name: String,
    pub value: String,
}

impl View for Measurement {
    type V = (Seq<char>, Seq<char>);

    open spec fn view(&self) -> (Seq<char>, Seq<char>) {
        (self.name@, self.value@)
    }
}

impl DeepView for Measurement {
    type V = (Seq<char>, Seq<char>);

    open spec fn deep_view(&self) -> (Seq<char>, Seq<char>) {
        self@
    }
}

/// What matching `pattern` against `text` yields: `None` when the pattern does
/// not match (or does not compile), otherwise the pattern's named capture
/// groups in definition order, each with its captured text (empty when the
/// group did not participate in the match).
pub uninterp spec fn regex_captures_spec(pattern: Seq<char>, text: Seq<char>) -> Option<
    Seq<(Seq<char>, Seq<char>)>,
>;

/// Relies on regex::Regex::new, Regex::captures, Regex::capture_names and
/// Captures::name: whether the pattern compiles and matches, which named
/// groups it defines, and each group's captured text are functions of the
/// pattern and the text alone. A pattern that does not compile matches
/// nothing; a named group that did not participate in a match is reported
/// with empty text.
#[verifier::external_body]
fn regex_named_captures(pattern: &str, text: &str) -> (r: Option<Vec<(String, String)>>)
    ensures
        match r {
            Option::None => regex_captures_spec(pattern@, text@) is None,
            Option::Some(v) => regex_captures_spec(pattern@, text@) == Some(v.deep_view()),
        },
{
    let re = match regex::Regex::new(pattern) {
        Ok(re) => re,
        Err(_) => return None,
    };
    let caps = re.captures(text)?;
    let mut out = Vec::new();
    for name in re.capture_names().flatten() {
        let captured = match caps.name(name) {
            Some(m) => m.as_str().to_string(),
            None => String::new(),
        };
        out.push((name.to_string(), captured));
    }
    Some(out)
}

/// The full name of the measurement a capture group produces.
pub open spec fn group_name(key: Seq<char>, group: Seq<char>) -> Seq<char> {
    key + "."@ + group
}

/// The measurements one tick's digestion produces, as pairs of name and value
/// text.
pub open spec fn digest_spec(key: Seq<char>, rule: DigestKind, text: Seq<char>) -> Seq<
    (Seq<char>, Seq<char>),
> {
    match rule {
        DigestKind::Raw => {
            if is_float_literal(text) {
                seq![(key + ".parsed"@, text)]
            } else {
                Seq::empty()
            }
        },
        DigestKind::Regex { pattern } => {
            match regex_captures_spec(pattern@, text) {
                Option::None => Seq::empty(),
                Option::Some(groups) => Seq::new(
                    groups.len(),
                    |i: int| (group_name(key, groups[i].0), groups[i].1),
                ),
            }
        },
    }
}

/// Digest one tick's trimmed text under the given rule.
pub fn digest(key: &str, rule: &DigestKind, text: &str) -> (r: Vec<Measurement>)
    ensures
        r.deep_view() == digest_spec(key@, *rule, text@),
{
    let mut out: Vec<Measurement> = Vec::new();
    match rule {
        DigestKind::Raw => {
            if crate::text::parses_as_float(text) {
                let name = String::from_str(key).concat(".parsed");
                out.push(Measurement { name, value: String::from_str(text) });
            }
            proof {
                assert(out.deep_view() =~~= digest_spec(key@, *rule, text@));
            }
        },
        DigestKind::Regex { pattern } => {
            match regex_named_captures(pattern.as_str(), text) {
                Option::None => {
                    proof {
                        assert(out.deep_view() =~~= digest_spec(key@, *rule, text@));
                    }
                },
                Option::Some(groups) => {
                    let ghost gv = groups.deep_view();
                    let mut i: usize = 0;
                    while i < groups.len()
                        invariant
                            gv == groups.deep_view(),
                            regex_captures_spec(pattern@, text@) == Some(gv),
                            0 <= i <= groups.len(),
                            out@.len() == i,
                            forall|t: int|
                                0 <= t < i ==> (#[trigger] out@[t]).name@ == group_name(
                                    key@,
                                    gv[t].0,
                                ) && out@[t].value@ == gv[t].1,
                        decreases groups.len() - i,
                    {
                        let name = String::from_str(key).concat(".").concat(
                            groups[i].0.as_str(),
                        );
                        let value = groups[i].1.clone();
                        proof {
                            assert(gv[i as int] == groups@[i as int].deep_view());
                        }
                        out.push(Measurement { name, value });
                        i = i + 1;
                    }
                    proof {
                        assert(out.deep_view() =~~= digest_spec(key@, *rule, text@));
                    }
                },
            }
        },
    }
    out
}

/// Law: digestion is a pure function of the key, the rule and the text;
/// re-running it on the same inputs yields the same measurement mapping.
pub proof fn lemma_digestion_deterministic(
    key: Seq<char>,
    rule: DigestKind,
    text: Seq<char>,
    m1: Seq<(Seq<char>, Seq<char>)>,
    m2: Seq<(Seq<char>, Seq<char>)>,
)
    requires
        m1 == digest_spec(key, rule, text),
        m2 == digest_spec(key, rule, text),
    ensures
        m1 == m2,
{
}

/// Law: under the `Raw` rule, text that parses as a float yields exactly one
/// measurement, named `<key>.parsed` and carrying that text.
pub proof fn lemma_raw_digest_parseable(key: Seq<char>, text: Seq<char>)
    requires
        is_float_literal(text),
    ensures
        digest_spec(key, DigestKind::Raw, text) == seq![(key + ".parsed"@, text)],
{
}

/// Law: under the `Raw` rule, text that does not parse as a float yields no
/// measurements.
pub proof fn lemma_raw_digest_unparseable(key: Seq<char>, text: Seq<char>)
    requires
        !is_float_literal(text),
    ensures
        digest_spec(key, DigestKind::Raw, text).len() == 0,
{
}

/// Law: under a `Regex` rule whose pattern matches, the measurement set equals
/// exactly the pattern's named capture groups, each named `<key>.<group>` and
/// carrying the group's captured text.
pub proof fn lemma_regex_digest_matched(
    key: Seq<char>,
    pattern: String,
    text: Seq<char>,
    groups: Seq<(Seq<char>, Seq<char>)>,
)
    requires
        regex_captures_spec(pattern@, text) == Some(groups),
    ensures
        digest_spec(key, DigestKind::Regex { pattern }, text).len() == groups.len(),
        forall|i: int|
            0 <= i < groups.len() ==> digest_spec(key, DigestKind::Regex { pattern }, text)[i] == (
            group_name(key, groups[i].0),
            groups[i].1,
            ),
{
}

/// Law: under a `Regex` rule whose pattern does not match, no measurements are
/// produced.
pub proof fn lemma_regex_digest_mismatch(key: Seq<char>, pattern: String, text: Seq<char>)
    requires
        regex_captures_spec(pattern@, text) is None,
    ensures
        digest_spec(key, DigestKind::Regex { pattern }, text).len() == 0,
{
}

} // verus!
