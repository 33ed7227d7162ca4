//! The sinks measurements are recorded to, polymorphic over a local
//! time-series file tree and a remote time-series database.
//!
//! A sink in this crate decides; the embedding program performs. Each write
//! method returns the `SinkAction` the sink carries out for that write — the
//! file line to append, or the point to send — or nothing where the sink's
//! flags say the write is a no-op. The embedding program executes one action
//! at a time and logs failures, so one sink's failure never reaches another.

pub mod error;
pub mod file;
pub mod influx;

pub use self::error::OutputError;
pub use self::error::OutputErrorKind;
pub use self::file::file_always_raw_default;
pub use self::file::FileOutput;
pub use self::influx::influx_always_raw_default;
pub use self::influx::influx_database_default;
pub use self::influx::influx_raw_as_fallback_default;
pub use self::influx::influx_url_default;
pub use self::influx::InfluxAuth;
pub use self::influx::InfluxOutput;

use vstd::prelude::*;

use self::file::file_raw_action;
use self::file::file_text_action;
use self::file::file_value_action;
use self::influx::influx_fallback_action;
use self::influx::influx_point;
use self::influx::influx_raw_action;

verus! {

/// The instant one tick was captured at, as seconds and as milliseconds since
/// the Unix epoch.
#[derive(Debug, Clone, Copy, PartialEq, Eq, Structural)]
pub struct TickTime {
    pub secs: u64,
    pub millis: u64,
}

/// The value one write records: the text of a numeric sample (parsed as a
/// float by the writer, NaN where it does not parse), or raw text kept as it
/// is.
#[derive(Debug, Clone, PartialEq, Eq)]
pub enum LineValue {
    Num { text: String },
    Text { text: String },
}

/// Mathematical image of a `LineValue`.
pub enum LineValueV {
    Num(Seq<char>),
    Text(Seq<char>),
}

impl View for LineValue {
    type V = LineValueV;

    open spec fn view(&self) -> LineValueV {
        match self {
            LineValue::Num { text } => LineValueV::Num(text@),
            LineValue::Text { text } => LineValueV::Text(text@),
        }
    }
}

/// One write a sink performs: append a line `<secs> <value>` to a file, or
/// send one single-point write query to a remote backend.
#[derive(Debug, Clone, PartialEq, Eq)]
pub enum SinkAction {
    AppendLine { path: String, secs: u64, value: LineValue },
    SendPoint {
        url: String,
        database: String,
        auth: Option<InfluxAuth>,
        key: String,
        millis: u64,
        value: LineValue,
    },
}

/// Mathematical image of a `SinkAction`.
pub enum SinkActionV {
    AppendLine { path: Seq<char>, secs: u64, value: LineValueV },
    SendPoint {
        url: Seq<char>,
        database: Seq<char>,
        auth: Option<(Seq<char>, Seq<char>)>,
        key: Seq<char>,
        millis: u64,
        value: LineValueV,
    },
}

impl View for SinkAction {
    type V = SinkActionV;

    open spec fn view(&self) -> SinkActionV {
        match self {
            SinkAction::AppendLine { path, secs, value } => SinkActionV::AppendLine {
                path: path@,
                secs: *secs,
                value: value@,
            },
            SinkAction::SendPoint { url, database, auth, key, millis, value } => {
                SinkActionV::SendPoint {
                    url: url@,
                    database: database@,
                    auth: influx::auth_view(*auth),
                    key: key@,
                    millis: *millis,
                    value: value@,
                }
            },
        }
    }
}

impl DeepView for SinkAction {
    type V = SinkActionV;

    open spec fn deep_view(&self) -> SinkActionV {
        self@
    }
}

/// The view of an optional action.
pub open spec fn action_opt_view(r: Option<SinkAction>) -> Option<SinkActionV> {
    match r {
        Option::None => None,
        Option::Some(a) => Some(a@),
    }
}

/// A sink as configured: a file sink or a remote time-series sink.
#[derive(Debug, Clone, PartialEq)]
pub enum OutputKind {
    File { fo: FileOutput },
    InfluxDB { io: InfluxOutput },
}

/// What a sink performs for a numeric sample: both sink kinds always record
/// it.
pub open spec fn value_action(
    o: OutputKind,
    key: Seq<char>,
    t: TickTime,
    num: Seq<char>,
) -> Option<SinkActionV> {
    match o {
        OutputKind::File { fo } => Some(file_value_action(fo, key, t, num)),
        OutputKind::InfluxDB { io } => Some(influx_point(io, key, t, LineValueV::Num(num))),
    }
}

/// What a sink performs for a non-fallback raw write: a write only where its
/// `always_write_raw` flag is set.
pub open spec fn raw_action(o: OutputKind, key: Seq<char>, t: TickTime, text: Seq<char>) -> Option<
    SinkActionV,
> {
    match o {
        OutputKind::File { fo } => file_raw_action(fo, key, t, text),
        OutputKind::InfluxDB { io } => influx_raw_action(io, key, t, text),
    }
}

/// What a sink performs for a fallback raw write: the file sink always
/// records it, the remote sink only where `use_raw_as_fallback` is set.
pub open spec fn fallback_action(
    o: OutputKind,
    key: Seq<char>,
    t: TickTime,
    text: Seq<char>,
) -> Option<SinkActionV> {
    match o {
        OutputKind::File { fo } => Some(file_text_action(fo, key, t, text)),
        OutputKind::InfluxDB { io } => influx_fallback_action(io, key, t, text),
    }
}

impl OutputKind {
    /// The write this sink performs for a numeric sample.
    pub fn write_value(&self, key: &str, t: TickTime, num: &str) -> (r: Option<SinkAction>)
        ensures
            action_opt_view(r) == value_action(*self, key@, t, num@),
    {
        match self {
            OutputKind::File { fo } => Some(fo.write_value(key, t, num)),
            OutputKind::InfluxDB { io } => Some(io.write_value(key, t, num)),
        }
    }

    /// The write this sink performs for raw text when the tick also produced
    /// measurements.
    pub fn write_raw_value(&self, key: &str, t: TickTime, text: &str) -> (r: Option<SinkAction>)
        ensures
            action_opt_view(r) == raw_action(*self, key@, t, text@),
    {
        match self {
            OutputKind::File { fo } => fo.write_raw_value(key, t, text),
            OutputKind::InfluxDB { io } => io.write_raw_value(key, t, text),
        }
    }

    /// The write this sink performs when the tick produced no measurements.
    pub fn write_raw_value_as_fallback(&self, key: &str, t: TickTime, text: &str) -> (r: Option<
        SinkAction,
    >)
        ensures
            action_opt_view(r) == fallback_action(*self, key@, t, text@),
    {
        match self {
            OutputKind::File { fo } => Some(fo.write_raw_value_as_fallback(key, t, text)),
            OutputKind::InfluxDB { io } => io.write_raw_value_as_fallback(key, t, text),
        }
    }
}

} // verus!
