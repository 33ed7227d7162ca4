//! The file sink: every write appends one line `<epoch-seconds> <value>` to a
//! file named after the measurement key inside the sink's base directory.

use vstd::prelude::*;
use vstd::string::*;

use crate::output::LineValue;
use crate::output::LineValueV;
use crate::output::SinkAction;
use crate::output::SinkActionV;
use crate::output::TickTime;
use crate::output::action_opt_view;

verus! {

/// A file sink: where its files live, and whether it keeps raw text even when
/// numeric measurements were produced.
#[derive(Debug, Clone, Eq, PartialEq)]
pub struct FileOutput {
    pub base_path: String,
    pub always_write_raw: bool,
}

/// By default a file sink does not keep raw text beside numeric measurements.
pub fn file_always_raw_default() -> (r: bool)
    ensures
        r == false,
{
    false
}

/// The file a measurement key is recorded in: `<base>/<key>`.
pub open spec fn file_path_spec(base: Seq<char>, key: Seq<char>) -> Seq<char> {
    base + "/"@ + key
}

/// The decimal digit `d` as a character.
pub open spec fn digit_char(d: int) -> char {
    if d == 0 {
        '0'
    } else if d == 1 {
        '1'
    } else if d == 2 {
        '2'
    } else if d == 3 {
        '3'
    } else if d == 4 {
        '4'
    } else if d == 5 {
        '5'
    } else if d == 6 {
        '6'
    } else if d == 7 {
        '7'
    } else if d == 8 {
        '8'
    } else {
        '9'
    }
}

/// `n` written in decimal, without leading zeroes (except for `0` itself).
pub open spec fn dec_spec(n: int) -> Seq<char>
    decreases n,
{
    if n < 10 {
        seq![digit_char(n)]
    } else {
        dec_spec(n / 10) + seq![digit_char(n % 10)]
    }
}

fn digit_str(d: u64) -> (r: &'static str)
    requires
        d < 10,
    ensures
        r@ == seq![digit_char(d as int)],
{
    proof {
        reveal_strlit("0");
        reveal_strlit("1");
        reveal_strlit("2");
        reveal_strlit("3");
        reveal_strlit("4");
        reveal_strlit("5");
        reveal_strlit("6");
        reveal_strlit("7");
        reveal_strlit("8");
        reveal_strlit("9");
    }
    let r = match d {
        0 => "0",
        1 => "1",
        2 => "2",
        3 => "3",
        4 => "4",
        5 => "5",
        6 => "6",
        7 => "7",
        8 => "8",
        _ => "9",
    };
    proof {
        assert(r@ =~= seq![digit_char(d as int)]);
    }
    r
}

/// Write `n` in decimal.
pub fn u64_to_dec(n: u64) -> (r: String)
    ensures
        r@ == dec_spec(n as int),
    decreases n,
{
    if n < 10 {
        String::from_str(digit_str(n))
    } else {
        u64_to_dec(n / 10).concat(digit_str(n % 10))
    }
}

/// The line appended for one write: `<secs> <value>` and a newline. The value
/// text of a numeric sample is the float's rendering, produced by the writer.
pub open spec fn line_spec(secs: u64, value_text: Seq<char>) -> Seq<char> {
    dec_spec(secs as int) + " "@ + value_text + "\n"@
}

/// Render one file sink line.
pub fn render_line(secs: u64, value_text: &str) -> (r: String)
    ensures
        r@ == line_spec(secs, value_text@),
{
    u64_to_dec(secs).concat(" ").concat(value_text).concat("\n")
}

/// The append a file sink performs for a numeric sample.
pub open spec fn file_value_action(
    fo: FileOutput,
    key: Seq<char>,
    t: TickTime,
    num: Seq<char>,
) -> SinkActionV {
    SinkActionV::AppendLine {
        path: file_path_spec(fo.base_path@, key),
        secs: t.secs,
        value: LineValueV::Num(num),
    }
}

/// The append a file sink performs for raw text.
pub open spec fn file_text_action(
    fo: FileOutput,
    key: Seq<char>,
    t: TickTime,
    text: Seq<char>,
) -> SinkActionV {
    SinkActionV::AppendLine {
        path: file_path_spec(fo.base_path@, key),
        secs: t.secs,
        value: LineValueV::Text(text),
    }
}

/// What a non-fallback raw write performs: the append only when the sink is
/// configured to always keep raw text, otherwise nothing.
pub open spec fn file_raw_action(
    fo: FileOutput,
    key: Seq<char>,
    t: TickTime,
    text: Seq<char>,
) -> Option<SinkActionV> {
    if fo.always_write_raw {
        Some(file_text_action(fo, key, t, text))
    } else {
        None
    }
}

impl FileOutput {
    fn path_for(&self, key: &str) -> (r: String)
        ensures
            r@ == file_path_spec(self.base_path@, key@),
    {
        String::from_str(self.base_path.as_str()).concat("/").concat(key)
    }

    /// The write this sink performs for a numeric sample: append
    /// `<secs> <value>` to the key's file.
    pub fn write_value(&self, key: &str, t: TickTime, num: &str) -> (r: SinkAction)
        ensures
            r@ == file_value_action(*self, key@, t, num@),
    {
        SinkAction::AppendLine {
            path: self.path_for(key),
            secs: t.secs,
            value: LineValue::Num { text: String::from_str(num) },
        }
    }

    /// The write this sink performs for raw text when measurements were also
    /// produced: an append only if `always_write_raw` is set.
    pub fn write_raw_value(&self, key: &str, t: TickTime, text: &str) -> (r: Option<SinkAction>)
        ensures
            action_opt_view(r) == file_raw_action(*self, key@, t, text@),
    {
        if self.always_write_raw {
            Some(self.write_raw_value_as_fallback(key, t, text))
        } else {
            None
        }
    }

    /// The write this sink performs when a tick produced no measurements: the
    /// raw text is always recorded.
    pub fn write_raw_value_as_fallback(&self, key: &str, t: TickTime, text: &str) -> (r:
        SinkAction)
        ensures
            r@ == file_text_action(*self, key@, t, text@),
    {
        SinkAction::AppendLine {
            path: self.path_for(key),
            secs: t.secs,
            value: LineValue::Text { text: String::from_str(text) },
        }
    }
}

} // verus!
