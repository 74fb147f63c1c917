//! The codec that carries a distributed-trace context through a message.
//!
//! The producer writes the context of the request's span into the message's
//! properties; the worker reads it back and continues the trace. The text
//! format is that of the W3C `traceparent` and `tracestate` headers, as the
//! OpenTelemetry propagator writes and reads them.

use std::collections::HashMap;

use opentelemetry::propagation::TextMapPropagator;
use opentelemetry::sdk::propagation::TraceContextPropagator;
use opentelemetry::trace::{SpanId, TraceContextExt, TraceFlags, TraceId, TraceState};
use opentelemetry::Context;
use vstd::prelude::*;
use vstd::string::StringExecFns;

use crate::hexadecimal::{
    hex_value, is_lower_hex, lemma_hex_round_trip, lemma_lower_hex_shape, lemma_pow16_bounds,
    lower_hex,
};

verus! {

/// What a `traceparent` header carries: the two identifiers of the span and
/// whether the trace is sampled.
#[derive(Debug, Clone, Copy, PartialEq, Eq, Structural)]
pub struct TraceParent {
    pub trace_id: u128,
    pub span_id: u64,
    pub sampled: bool,
}

impl TraceParent {
    /// Identifiers are valid when neither of them is zero.
    pub open spec fn is_valid(&self) -> bool {
        self.trace_id != 0 && self.span_id != 0
    }
}

/// The part of a span's context that travels with a message. The trace
/// state is held as the text of its header.
#[derive(Debug, PartialEq, Eq)]
pub struct SpanContext {
    pub trace_id: u128,
    pub span_id: u64,
    pub sampled: bool,
    pub trace_state: String,
}

/// The mathematical value of a [`SpanContext`].
pub struct SpanContextView {
    pub trace_id: u128,
    pub span_id: u64,
    pub sampled: bool,
    pub trace_state: Seq<char>,
}

impl View for SpanContext {
    type V = SpanContextView;

    open spec fn view(&self) -> SpanContextView {
        SpanContextView {
            trace_id: self.trace_id,
            span_id: self.span_id,
            sampled: self.sampled,
            trace_state: self.trace_state@,
        }
    }
}

impl DeepView for SpanContext {
    type V = SpanContextView;

    open spec fn deep_view(&self) -> SpanContextView {
        self@
    }
}

impl Clone for SpanContext {
    fn clone(&self) -> (copy: SpanContext)
        ensures
            copy == *self,
    {
        SpanContext {
            trace_id: self.trace_id,
            span_id: self.span_id,
            sampled: self.sampled,
            trace_state: self.trace_state.clone(),
        }
    }
}

impl SpanContextView {
    /// The identifiers and the sampling flag of the context.
    pub open spec fn parent(self) -> TraceParent {
        TraceParent { trace_id: self.trace_id, span_id: self.span_id, sampled: self.sampled }
    }

    /// A context is valid when neither of its identifiers is zero. Only a
    /// valid context is ever written into a message.
    pub open spec fn is_valid(self) -> bool {
        self.parent().is_valid()
    }

    /// Whether the trace state of the context is spelled as the propagator
    /// spells it.
    pub open spec fn is_written(self) -> bool {
        trace_state_text(self.trace_state) == self.trace_state
    }

    /// The context with its trace state spelled as the propagator spells it.
    pub open spec fn written(self) -> SpanContextView {
        SpanContextView { trace_state: trace_state_text(self.trace_state), ..self }
    }
}

impl SpanContext {
    /// Whether this context is valid.
    pub fn valid(&self) -> (valid: bool)
        ensures
            valid == self@.is_valid(),
    {
        self.trace_id != 0 && self.span_id != 0
    }
}

/// The property list of a message as a mathematical value.
pub type PropertiesView = Seq<(Seq<char>, Seq<char>)>;

/// The value that `entries` gives to `key`. Where a key occurs more than
/// once, its last entry counts.
pub open spec fn last_value(entries: PropertiesView, key: Seq<char>) -> Option<Seq<char>>
    decreases entries.len(),
{
    if entries.len() == 0 {
        None
    } else if entries.last().0 == key {
        Some(entries.last().1)
    } else {
        last_value(entries.drop_last(), key)
    }
}

/// No key occurs twice among `entries`.
pub open spec fn distinct_keys(entries: PropertiesView) -> bool {
    forall|i: int, j: int|
        0 <= i < j < entries.len() ==> (#[trigger] entries[i]).0 != (#[trigger] entries[j]).0
}

/// The `traceparent` header of a span: version `00`, the trace id in 32
/// digits, the span id in 16 digits and the flags in two, joined by hyphens.
pub open spec fn traceparent_text(parent: TraceParent) -> Seq<char> {
    seq!['0', '0', '-'] + lower_hex(parent.trace_id as nat, 32) + seq!['-'] + lower_hex(
        parent.span_id as nat,
        16,
    ) + seq!['-', '0', if parent.sampled { '1' } else { '0' }]
}

/// Whether `header` has exactly the form that `traceparent_text` writes for
/// valid identifiers.
pub open spec fn is_canonical_traceparent(header: Seq<char>) -> bool {
    &&& header.len() == 55
    &&& header[0] == '0'
    &&& header[1] == '0'
    &&& header[2] == '-'
    &&& is_lower_hex(header.subrange(3, 35))
    &&& header[35] == '-'
    &&& is_lower_hex(header.subrange(36, 52))
    &&& header[52] == '-'
    &&& header[53] == '0'
    &&& (header[54] == '0' || header[54] == '1')
    &&& 0 < hex_value(header.subrange(3, 35)) <= u128::MAX
    &&& 0 < hex_value(header.subrange(36, 52)) <= u64::MAX
}

/// What a canonical `traceparent` header spells out.
pub open spec fn canonical_parent(header: Seq<char>) -> TraceParent {
    TraceParent {
        trace_id: hex_value(header.subrange(3, 35)) as u128,
        span_id: hex_value(header.subrange(36, 52)) as u64,
        sampled: header[54] == '1',
    }
}

/// What the propagator reads out of a `traceparent` header that is not in
/// canonical form: other versions, surrounding blanks, malformed text. A
/// header that it rejects gives identifiers that are not valid.
pub uninterp spec fn parsed_traceparent(header: Seq<char>) -> TraceParent;

/// The header that the propagator writes for the trace state that it reads
/// out of the header `state`. A header that it cannot read counts as an
/// empty trace state.
pub uninterp spec fn trace_state_text(state: Seq<char>) -> Seq<char>;

/// What a `traceparent` header stands for.
pub open spec fn read_traceparent(header: Seq<char>) -> TraceParent {
    if is_canonical_traceparent(header) {
        canonical_parent(header)
    } else {
        parsed_traceparent(header)
    }
}

/// The context without a span: no identifiers, not sampled, no trace state.
pub open spec fn empty_context() -> SpanContextView {
    SpanContextView { trace_id: 0, span_id: 0, sampled: false, trace_state: Seq::empty() }
}

/// The context made of `parent` and the trace state header `state`, where
/// `parent` is valid; the empty context where it is not.
pub open spec fn accepted(parent: TraceParent, state: Seq<char>) -> SpanContextView {
    if parent.is_valid() {
        SpanContextView {
            trace_id: parent.trace_id,
            span_id: parent.span_id,
            sampled: parent.sampled,
            trace_state: trace_state_text(state),
        }
    } else {
        empty_context()
    }
}

/// The `tracestate` header among `properties`; empty where there is none.
pub open spec fn state_header(properties: PropertiesView) -> Seq<char> {
    match last_value(properties, "tracestate"@) {
        Some(state) => state,
        None => Seq::empty(),
    }
}

/// What the propagator reads out of a property list.
pub open spec fn propagated_context(properties: PropertiesView) -> SpanContextView {
    match last_value(properties, "traceparent"@) {
        None => empty_context(),
        Some(header) => accepted(read_traceparent(header), state_header(properties)),
    }
}

/// The properties that `inject` writes for `context`.
pub open spec fn inject_spec(context: SpanContextView) -> PropertiesView {
    if context.is_valid() {
        seq![
            ("traceparent"@, traceparent_text(context.parent())),
            ("tracestate"@, trace_state_text(context.trace_state)),
        ]
    } else {
        Seq::empty()
    }
}

/// The context that `extract` finds in `properties`, if it finds a valid one.
pub open spec fn extract_spec(properties: PropertiesView) -> Option<SpanContextView> {
    let found = propagated_context(properties);
    if found.is_valid() {
        Some(found)
    } else {
        None
    }
}

/// Calls `TraceContextPropagator::inject_context` on a remote span context
/// made of the identifiers, the flag and the trace state that
/// `TraceState::from_str` reads out of the context's text (an empty one
/// where it reads none), and returns what the propagator put into the
/// carrier, in no particular order.
///
/// Trusted: for a valid context the carrier holds two entries, the
/// `traceparent` header in the form of `traceparent_text` and the
/// `tracestate` header that `trace_state_text` names, which reads back as
/// itself; for any other context it stays empty.
#[verifier::external_body]
fn propagator_inject(context: &SpanContext) -> (carrier: Vec<(String, String)>)
    ensures
        !context@.is_valid() ==> carrier@.len() == 0,
        context@.is_valid() ==> {
            &&& carrier@.len() == 2
            &&& last_value(carrier.deep_view(), "traceparent"@) == Some(
                traceparent_text(context@.parent()),
            )
            &&& last_value(carrier.deep_view(), "tracestate"@) == Some(
                trace_state_text(context@.trace_state),
            )
            &&& trace_state_text(state_header(carrier.deep_view())) == state_header(
                carrier.deep_view(),
            )
        },
{
    let span = opentelemetry::trace::SpanContext::new(
        TraceId::from(context.trace_id),
        SpanId::from(context.span_id),
        TraceFlags::default().with_sampled(context.sampled),
        true,
        context.trace_state.parse::<TraceState>().unwrap_or_default(),
    );
    let mut carrier: HashMap<String, String> = HashMap::new();
    TraceContextPropagator::new().inject_context(
        &Context::new().with_remote_span_context(span),
        &mut carrier,
    );
    carrier.into_iter().collect()
}

/// Calls `TraceContextPropagator::extract_with_context` on an empty context
/// with the properties as carrier, and returns the identifiers, the
/// sampling flag and the trace state header of the span context that comes
/// out.
///
/// Trusted: without a `traceparent` entry, and with one that the propagator
/// rejects, the result is the empty context. A canonical header gives the
/// identifiers that it spells out, any other header those that
/// `parsed_traceparent` names. With valid identifiers comes the trace state
/// that `trace_state_text` names for the `tracestate` entry. The trace state
/// of the result reads back as itself.
#[verifier::external_body]
fn propagator_extract(properties: &Vec<(String, String)>) -> (found: SpanContext)
    ensures
        found@ == match last_value(properties.deep_view(), "traceparent"@) {
            None => empty_context(),
            Some(header) => accepted(
                if is_canonical_traceparent(header) {
                    canonical_parent(header)
                } else {
                    parsed_traceparent(header)
                },
                state_header(properties.deep_view()),
            ),
        },
        trace_state_text(found@.trace_state) == found@.trace_state,
{
    let carrier: HashMap<String, String> = properties.iter().cloned().collect();
    let context = TraceContextPropagator::new().extract_with_context(&Context::new(), &carrier);
    let span = context.span();
    let found = span.span_context();
    SpanContext {
        trace_id: u128::from_be_bytes(found.trace_id().to_bytes()),
        span_id: u64::from_be_bytes(found.span_id().to_bytes()),
        sampled: found.is_sampled(),
        trace_state: found.trace_state().header(),
    }
}

/// The value of `key` in `entries`, the last one where there are several.
pub fn find_value(entries: &Vec<(String, String)>, key: &str) -> (value: Option<String>)
    ensures
        value.deep_view() == last_value(entries.deep_view(), key@),
{
    let mut value: Option<String> = None;
    let mut i: usize = 0;
    while i < entries.len()
        invariant
            i <= entries.len(),
            value.deep_view() == last_value(entries.deep_view().take(i as int), key@),
        decreases entries.len() - i,
    {
        let wanted = String::from_str(key);
        proof {
            let before = entries.deep_view().take(i as int);
            let now = entries.deep_view().take(i as int + 1);
            assert(now.drop_last() =~= before);
            assert(now.last() == entries.deep_view()[i as int]);
        }
        if entries[i].0 == wanted {
            value = Some(entries[i].1.clone());
        }
        i += 1;
    }
    proof {
        assert(entries.deep_view().take(i as int) =~= entries.deep_view());
    }
    value
}

/// Writes `context` into message properties.
///
/// A valid context gives the `traceparent` entry followed by the
/// `tracestate` entry; any other context gives no property at all. No key
/// occurs twice. What is written reads back as the context it was written
/// for, with the trace state spelled as the propagator spells it.
pub fn inject(context: &SpanContext) -> (properties: Vec<(String, String)>)
    ensures
        properties.deep_view() == inject_spec(context@),
        distinct_keys(properties.deep_view()),
        extract_spec(properties.deep_view()) == if context@.is_valid() {
            Some(context@.written())
        } else {
            None
        },
{
    let carrier = propagator_inject(context);
    let mut properties: Vec<(String, String)> = Vec::new();
    if context.valid() {
        let parent = find_value(&carrier, "traceparent");
        let state = find_value(&carrier, "tracestate");
        match (parent, state) {
            (Some(parent), Some(state)) => {
                properties.push((String::from_str("traceparent"), parent));
                properties.push((String::from_str("tracestate"), state));
            },
            _ => {},
        }
    }
    proof {
        assert(properties.deep_view() =~= inject_spec(context@));
        lemma_keys_differ();
        lemma_extract_inverts_inject(context@.written());
        assert(inject_spec(context@.written()) == inject_spec(context@));
    }
    properties
}

/// Reads the context of the producing span out of message properties.
///
/// The result is `Some` exactly when the propagator finds a valid context,
/// and its trace state is spelled as the propagator spells it.
pub fn extract(properties: &Vec<(String, String)>) -> (context: Option<SpanContext>)
    ensures
        context.deep_view() == extract_spec(properties.deep_view()),
        context matches Some(found) ==> found@.is_valid() && found@.is_written(),
{
    let found = propagator_extract(properties);
    if found.valid() {
        Some(found)
    } else {
        None
    }
}

/// The two keys of the codec are different texts.
pub proof fn lemma_keys_differ()
    ensures
        "traceparent"@ != "tracestate"@,
{
    reveal_strlit("traceparent");
    reveal_strlit("tracestate");
    assert("traceparent"@[5] == 'p');
    assert("tracestate"@[5] == 's');
}

/// The text that `inject` writes is canonical and spells out the
/// identifiers it was written for.
pub proof fn lemma_traceparent_text_is_canonical(parent: TraceParent)
    requires
        parent.is_valid(),
    ensures
        is_canonical_traceparent(traceparent_text(parent)),
        canonical_parent(traceparent_text(parent)) == parent,
{
    let text = traceparent_text(parent);
    let trace = lower_hex(parent.trace_id as nat, 32);
    let span = lower_hex(parent.span_id as nat, 16);
    lemma_lower_hex_shape(parent.trace_id as nat, 32);
    lemma_lower_hex_shape(parent.span_id as nat, 16);
    lemma_pow16_bounds();
    lemma_hex_round_trip(parent.trace_id as nat, 32);
    lemma_hex_round_trip(parent.span_id as nat, 16);
    assert(text.len() == 55);
    assert(text.subrange(3, 35) =~= trace);
    assert(text.subrange(36, 52) =~= span);
}

/// Trace context round-trips: what `extract` reads out of the properties
/// that `inject` wrote for a valid context is that context, identifiers,
/// flag and trace state, as long as the trace state is spelled as the
/// propagator spells it. Every context that `extract` returns is spelled so,
/// and `inject` states what comes back for one that is not. A context that
/// is not valid leaves no trace in the properties, and none is read back.
pub proof fn lemma_extract_inverts_inject(context: SpanContextView)
    ensures
        context.is_valid() && context.is_written() ==> extract_spec(inject_spec(context)) == Some(
            context,
        ),
        !context.is_valid() ==> extract_spec(inject_spec(context)) is None,
{
    let properties = inject_spec(context);
    if context.is_valid() && context.is_written() {
        lemma_traceparent_text_is_canonical(context.parent());
        lemma_keys_differ();
        reveal_with_fuel(last_value, 3);
        assert(properties.drop_last() =~= seq![
            ("traceparent"@, traceparent_text(context.parent())),
        ]);
        assert(last_value(properties, "traceparent"@) == Some(
            traceparent_text(context.parent()),
        ));
        assert(last_value(properties, "tracestate"@) == Some(context.trace_state));
    }
}

} // verus!
