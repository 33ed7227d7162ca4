//! The remote time-series sink: every write becomes one single-point write
//! query, dispatched asynchronously by the embedding program so that a slow
//! backend never blocks a tick.

use vstd::prelude::*;
use vstd::string::*;

use crate::output::LineValue;
use crate::output::LineValueV;
use crate::output::SinkAction;
use crate::output::SinkActionV;
use crate::output::TickTime;
use crate::output::action_opt_view;

verus! {

/// Credentials for the remote backend.
#[derive(Debug, Clone, Eq, PartialEq)]
pub struct InfluxAuth {
    pub username: String,
    pub password: String,
}

impl View for InfluxAuth {
    type V = (Seq<char>, Seq<char>);

    open spec fn view(&self) -> (Seq<char>, Seq<char>) {
        (self.username@, self.password@)
    }
}

/// A remote sink: where to reach the backend, the database written to, the
/// optional credentials, and which raw writes it performs.
#[derive(Debug, Clone, Eq, PartialEq)]
pub struct InfluxOutput {
    pub url: String,
    pub database: String,
    pub auth: Option<InfluxAuth>,
    pub use_raw_as_fallback: bool,
    pub always_write_raw: bool,
}

/// The database a remote sink writes to by default.
pub fn influx_database_default() -> (r: String)
    ensures
        r@ == "antikoerper"@,
{
    String::from_str("antikoerper")
}

/// The address a remote sink connects to by default.
pub fn influx_url_default() -> (r: String)
    ensures
        r@ == "http://localhost:8086"@,
{
    String::from_str("http://localhost:8086")
}

/// By default a remote sink does not record raw text as a fallback.
pub fn influx_raw_as_fallback_default() -> (r: bool)
    ensures
        r == false,
{
    false
}

/// By default a remote sink does not keep raw text beside numeric
/// measurements.
pub fn influx_always_raw_default() -> (r: bool)
    ensures
        r == false,
{
    false
}

/// The credentials as plain values.
pub open spec fn auth_view(a: Option<InfluxAuth>) -> Option<(Seq<char>, Seq<char>)> {
    match a {
        Option::None => None,
        Option::Some(x) => Some(x@),
    }
}

/// The single-point write a remote sink performs.
pub open spec fn influx_point(
    io: InfluxOutput,
    key: Seq<char>,
    t: TickTime,
    v: LineValueV,
) -> SinkActionV {
    SinkActionV::SendPoint {
        url: io.url@,
        database: io.database@,
        auth: auth_view(io.auth),
        key: key,
        millis: t.millis,
        value: v,
    }
}

/// What a non-fallback raw write performs: a point only when the sink is
/// configured to always keep raw text, otherwise nothing.
pub open spec fn influx_raw_action(
    io: InfluxOutput,
    key: Seq<char>,
    t: TickTime,
    text: Seq<char>,
) -> Option<SinkActionV> {
    if io.always_write_raw {
        Some(influx_point(io, key, t, LineValueV::Text(text)))
    } else {
        None
    }
}

/// What a fallback raw write performs: a point only when the sink opted into
/// recording raw text as a fallback, otherwise nothing.
pub open spec fn influx_fallback_action(
    io: InfluxOutput,
    key: Seq<char>,
    t: TickTime,
    text: Seq<char>,
) -> Option<SinkActionV> {
    if io.use_raw_as_fallback {
        Some(influx_point(io, key, t, LineValueV::Text(text)))
    } else {
        None
    }
}

impl InfluxOutput {
    fn point(&self, key: &str, t: TickTime, value: LineValue) -> (r: SinkAction)
        ensures
            r@ == influx_point(*self, key@, t, value@),
    {
        let auth = match &self.auth {
            Option::None => None,
            Option::Some(a) => Some(
                InfluxAuth { username: a.username.clone(), password: a.password.clone() },
            ),
        };
        SinkAction::SendPoint {
            url: self.url.clone(),
            database: self.database.clone(),
            auth,
            key: String::from_str(key),
            millis: t.millis,
            value,
        }
    }

    /// The write this sink performs for a numeric sample: one single-point
    /// query carrying the value under the field `value`.
    pub fn write_value(&self, key: &str, t: TickTime, num: &str) -> (r: SinkAction)
        ensures
            r@ == influx_point(*self, key@, t, LineValueV::Num(num@)),
    {
        self.point(key, t, LineValue::Num { text: String::from_str(num) })
    }

    /// The write this sink performs for raw text when measurements were also
    /// produced: a point only if `always_write_raw` is set.
    pub fn write_raw_value(&self, key: &str, t: TickTime, text: &str) -> (r: Option<SinkAction>)
        ensures
            action_opt_view(r) == influx_raw_action(*self, key@, t, text@),
    {
        if self.always_write_raw {
            Some(self.point(key, t, LineValue::Text { text: String::from_str(text) }))
        } else {
            None
        }
    }

    /// The write this sink performs when a tick produced no measurements: a
    /// point only if `use_raw_as_fallback` is set.
    pub fn write_raw_value_as_fallback(&self, key: &str, t: TickTime, text: &str) -> (r: Option<
        SinkAction,
    >)
        ensures
            action_opt_view(r) == influx_fallback_action(*self, key@, t, text@),
    {
        if self.use_raw_as_fallback {
            Some(self.point(key, t, LineValue::Text { text: String::from_str(text) }))
        } else {
            None
        }
    }
}

} // verus!
