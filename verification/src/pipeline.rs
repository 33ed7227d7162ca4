//! The per-tick pipeline: what one firing of one item writes to each sink.
//!
//! On a tick the raw acquisition outcome is turned into a list of write
//! requests — nothing on an acquisition failure, otherwise the fallback raw
//! write when digestion produced no measurements, or the raw write and one
//! value write per measurement when it did — and each sink independently
//! plans its actions for those requests. The embedding program executes each
//! sink's actions and logs failures; because every sink's plan is a function
//! of that sink and the requests alone, one sink's failure can never change
//! what another sink records.

use vstd::prelude::*;
use vstd::string::*;

use crate::acquire::AcquisitionFailure;
use crate::digest::Measurement;
use crate::digest::digest;
use crate::digest::digest_spec;
use crate::digest::regex_captures_spec;
use crate::item::DigestKind;
use crate::item::Item;
use crate::output::OutputKind;
use crate::output::SinkAction;
use crate::output::SinkActionV;
use crate::output::TickTime;
use crate::output::action_opt_view;
use crate::output::fallback_action;
use crate::output::raw_action;
use crate::output::value_action;
use crate::text::trim_of;
use crate::text::trim_spec;

verus! {

/// One write the fan-out rule asks every sink to consider: a numeric sample,
/// the tick's raw text beside samples, or the tick's raw text as a fallback.
#[derive(Debug, Clone, PartialEq, Eq)]
pub enum WriteRequest {
    Value { name: String, num: String },
    Raw { name: String, text: String },
    Fallback { name: String, text: String },
}

/// Mathematical image of a `WriteRequest`.
pub enum WriteRequestV {
    Value(Seq<char>, Seq<char>),
    Raw(Seq<char>, Seq<char>),
    Fallback(Seq<char>, Seq<char>),
}

impl View for WriteRequest {
    type V = WriteRequestV;

    open spec fn view(&self) -> WriteRequestV {
        match self {
            WriteRequest::Value { name, num } => WriteRequestV::Value(name@, num@),
            WriteRequest::Raw { name, text } => WriteRequestV::Raw(name@, text@),
            WriteRequest::Fallback { name, text } => WriteRequestV::Fallback(name@, text@),
        }
    }
}

impl DeepView for WriteRequest {
    type V = WriteRequestV;

    open spec fn deep_view(&self) -> WriteRequestV {
        self@
    }
}

/// The name raw text is recorded under: `<key>.raw`.
pub open spec fn raw_name(key: Seq<char>) -> Seq<char> {
    key + ".raw"@
}

/// The fan-out rule for one tick: with no measurements, one fallback raw
/// write; otherwise the raw write followed by one value write per
/// measurement.
pub open spec fn fan_out_spec(
    key: Seq<char>,
    text: Seq<char>,
    ms: Seq<(Seq<char>, Seq<char>)>,
) -> Seq<WriteRequestV> {
    if ms.len() == 0 {
        seq![WriteRequestV::Fallback(raw_name(key), text)]
    } else {
        seq![WriteRequestV::Raw(raw_name(key), text)] + Seq::new(
            ms.len(),
            |i: int| WriteRequestV::Value(ms[i].0, ms[i].1),
        )
    }
}

/// Apply the fan-out rule to one tick's trimmed text and measurements.
pub fn fan_out(key: &str, text: &str, ms: &Vec<Measurement>) -> (r: Vec<WriteRequest>)
    ensures
        r.deep_view() == fan_out_spec(key@, text@, ms.deep_view()),
{
    let mut r: Vec<WriteRequest> = Vec::new();
    let rname = String::from_str(key).concat(".raw");
    if ms.len() == 0 {
        r.push(WriteRequest::Fallback { name: rname, text: String::from_str(text) });
    } else {
        r.push(WriteRequest::Raw { name: rname, text: String::from_str(text) });
        let mut i: usize = 0;
        while i < ms.len()
            invariant
                0 <= i <= ms@.len(),
                r@.len() == i + 1,
                r@[0] matches WriteRequest::Raw { name, text: t } && name@ == raw_name(key@)
                    && t@ == text@,
                forall|s: int|
                    1 <= s < r@.len() ==> ((#[trigger] r@[s]) matches WriteRequest::Value {
                        name,
                        num,
                    } && name@ == ms@[s - 1]@.0 && num@ == ms@[s - 1]@.1),
            decreases ms@.len() - i,
        {
            let m = &ms[i];
            r.push(WriteRequest::Value { name: m.name.clone(), num: m.value.clone() });
            i = i + 1;
        }
    }
    proof {
        assert(r.deep_view() =~~= fan_out_spec(key@, text@, ms.deep_view()));
    }
    r
}

/// What one request asks one sink to perform.
pub open spec fn request_action(o: OutputKind, req: WriteRequestV, t: TickTime) -> Option<
    SinkActionV,
> {
    match req {
        WriteRequestV::Value(name, num) => value_action(o, name, t, num),
        WriteRequestV::Raw(name, text) => raw_action(o, name, t, text),
        WriteRequestV::Fallback(name, text) => fallback_action(o, name, t, text),
    }
}

/// The actions one sink performs for a tick's requests, in request order,
/// with the requests its flags make a no-op left out.
pub open spec fn sink_plan_spec(o: OutputKind, reqs: Seq<WriteRequestV>, t: TickTime) -> Seq<
    SinkActionV,
>
    decreases reqs.len(),
{
    if reqs.len() == 0 {
        Seq::empty()
    } else {
        sink_plan_spec(o, reqs.drop_last(), t) + match request_action(o, reqs.last(), t) {
            Option::Some(a) => seq![a],
            Option::None => Seq::empty(),
        }
    }
}

/// Plan the writes one sink performs for one tick's requests.
pub fn writes_for_sink(o: &OutputKind, reqs: &Vec<WriteRequest>, t: TickTime) -> (r: Vec<
    SinkAction,
>)
    ensures
        r.deep_view() == sink_plan_spec(*o, reqs.deep_view(), t),
{
    let ghost rv = reqs.deep_view();
    let mut r: Vec<SinkAction> = Vec::new();
    let mut i: usize = 0;
    while i < reqs.len()
        invariant
            rv == reqs.deep_view(),
            0 <= i <= reqs@.len(),
            r.deep_view() == sink_plan_spec(*o, rv.take(i as int), t),
        decreases reqs@.len() - i,
    {
        let ghost prefix = rv.take(i as int);
        let act: Option<SinkAction> = match &reqs[i] {
            WriteRequest::Value { name, num } => o.write_value(name.as_str(), t, num.as_str()),
            WriteRequest::Raw { name, text } => o.write_raw_value(name.as_str(), t, text.as_str()),
            WriteRequest::Fallback { name, text } => o.write_raw_value_as_fallback(
                name.as_str(),
                t,
                text.as_str(),
            ),
        };
        proof {
            assert(action_opt_view(act) == request_action(*o, rv[i as int], t));
            assert(rv.take(i + 1).drop_last() =~= prefix);
            assert(rv.take(i + 1).last() == rv[i as int]);
        }
        match act {
            Option::Some(a) => {
                r.push(a);
                proof {
                    assert(r.deep_view() =~~= sink_plan_spec(*o, rv.take(i + 1), t));
                }
            },
            Option::None => {
                proof {
                    assert(r.deep_view() =~~= sink_plan_spec(*o, rv.take(i + 1), t));
                }
            },
        }
        i = i + 1;
    }
    proof {
        assert(rv.take(reqs@.len() as int) =~= rv);
    }
    r
}

/// The acquisition outcome as the pipeline sees it: the raw text, or nothing
/// on a failure.
pub open spec fn acquired_view(a: Result<String, AcquisitionFailure>) -> Option<Seq<char>> {
    match a {
        Result::Ok(s) => Some(s@),
        Result::Err(_) => None,
    }
}

/// The write requests one tick produces: none on an acquisition failure,
/// otherwise the fan-out of the trimmed text's digestion.
pub open spec fn tick_requests_spec(item: Item, raw: Option<Seq<char>>) -> Seq<WriteRequestV> {
    match raw {
        Option::None => Seq::empty(),
        Option::Some(r) => fan_out_spec(
            item.key@,
            trim_spec(r),
            digest_spec(item.key@, item.digest, trim_spec(r)),
        ),
    }
}

/// Decide everything one tick of one item writes: for each sink, in sink
/// order, the actions it performs. An acquisition failure plans no writes at
/// all; the next tick is unaffected.
pub fn tick_actions(
    item: &Item,
    acquired: &Result<String, AcquisitionFailure>,
    outputs: &Vec<OutputKind>,
    t: TickTime,
) -> (r: Vec<Vec<SinkAction>>)
    ensures
        r@.len() == outputs@.len(),
        forall|j: int|
            0 <= j < outputs@.len() ==> (#[trigger] r@[j]).deep_view() == sink_plan_spec(
                outputs@[j],
                tick_requests_spec(*item, acquired_view(*acquired)),
                t,
            ),
{
    let reqs: Vec<WriteRequest> = match acquired {
        Result::Ok(raw) => {
            let trimmed = trim_of(raw.as_str());
            let ms = digest(item.key.as_str(), &item.digest, trimmed);
            fan_out(item.key.as_str(), trimmed, &ms)
        },
        Result::Err(_) => Vec::new(),
    };
    proof {
        assert(reqs.deep_view() =~~= tick_requests_spec(*item, acquired_view(*acquired)));
    }
    let mut r: Vec<Vec<SinkAction>> = Vec::new();
    let mut j: usize = 0;
    while j < outputs.len()
        invariant
            0 <= j <= outputs@.len(),
            r@.len() == j,
            reqs.deep_view() == tick_requests_spec(*item, acquired_view(*acquired)),
            forall|s: int|
                0 <= s < j ==> (#[trigger] r@[s]).deep_view() == sink_plan_spec(
                    outputs@[s],
                    tick_requests_spec(*item, acquired_view(*acquired)),
                    t,
                ),
        decreases outputs@.len() - j,
    {
        r.push(writes_for_sink(&outputs[j], &reqs, t));
        j = j + 1;
    }
    r
}

/// Law: sink isolation. A sink's plan for a tick is a function of that sink
/// and the tick's requests alone; whatever the other sinks are — and
/// whatever happens when their actions are executed — a sink's own actions
/// are unchanged.
pub proof fn lemma_sink_isolation(
    a: Seq<OutputKind>,
    b: Seq<OutputKind>,
    reqs: Seq<WriteRequestV>,
    t: TickTime,
    i: int,
    j: int,
)
    requires
        0 <= i < a.len(),
        0 <= j < b.len(),
        a[i] == b[j],
    ensures
        sink_plan_spec(a[i], reqs, t) == sink_plan_spec(b[j], reqs, t),
{
}

/// Law: when an item's pattern does not match the tick's trimmed text, the
/// tick produces zero measurements, and every sink whose fallback write is
/// enabled performs exactly the fallback raw write of the trimmed text.
pub proof fn lemma_regex_mismatch_fallback(
    item: Item,
    raw: Seq<char>,
    o: OutputKind,
    t: TickTime,
)
    requires
        item.digest matches DigestKind::Regex { pattern } && regex_captures_spec(
            pattern@,
            trim_spec(raw),
        ) is None,
        fallback_action(o, raw_name(item.key@), t, trim_spec(raw)) is Some,
    ensures
        digest_spec(item.key@, item.digest, trim_spec(raw)).len() == 0,
        sink_plan_spec(o, tick_requests_spec(item, Some(raw)), t) == seq![
            fallback_action(o, raw_name(item.key@), t, trim_spec(raw))->Some_0,
        ],
{
    let reqs = tick_requests_spec(item, Some(raw));
    let fa = fallback_action(o, raw_name(item.key@), t, trim_spec(raw));
    assert(reqs =~= seq![WriteRequestV::Fallback(raw_name(item.key@), trim_spec(raw))]);
    assert(reqs.last() == WriteRequestV::Fallback(raw_name(item.key@), trim_spec(raw)));
    assert(reqs.drop_last() =~= Seq::<WriteRequestV>::empty());
    assert(sink_plan_spec(o, reqs.drop_last(), t) =~= Seq::<SinkActionV>::empty());
    assert(request_action(o, reqs.last(), t) == fa);
    assert(sink_plan_spec(o, reqs, t) =~= seq![fa->Some_0]);
}

} // verus!
