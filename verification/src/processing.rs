//! The message processing pipeline: a caller-assembled chain of filters,
//! transformers and aggregators applied in that fixed order to each output
//! message, with a final flush for buffered state.

use vstd::prelude::*;
use vstd::string::StrSliceExecFns;
use vstd::string::StringExecFns;

use crate::message::OutputData;
use crate::message::OutputDataView;
use crate::message::OutputMessage;
use crate::message::OutputMessageView;
use crate::utils::spec_clean_ansi;
use crate::utils::spec_lines;
use crate::utils::spec_join_between_nl;
use crate::utils::clean_ansi;
use crate::utils::split_lines;

verus! {

/// The type tag of an output message, as filters select on it.
pub open spec fn spec_type_name(d: OutputDataView) -> Seq<char> {
    match d {
        OutputDataView::Primary(_) => "primary"@,
        OutputDataView::PrimaryDelta(_) => "delta"@,
        OutputDataView::ToolStart { .. } => "tool_start"@,
        OutputDataView::ToolOutput { .. } => "tool_output"@,
        OutputDataView::ToolComplete { .. } => "tool_complete"@,
        OutputDataView::Completed => "completed"@,
        OutputDataView::Error(_) => "error"@,
        OutputDataView::Start => "start"@,
        _ => "unknown"@,
    }
}

fn data_type_tag(d: &OutputData) -> (r: String)
    ensures
        r@ == spec_type_name(d@),
{
    match d {
        OutputData::Primary(_) => String::from_str("primary"),
        OutputData::PrimaryDelta(_) => String::from_str("delta"),
        OutputData::ToolStart { .. } => String::from_str("tool_start"),
        OutputData::ToolOutput { .. } => String::from_str("tool_output"),
        OutputData::ToolComplete { .. } => String::from_str("tool_complete"),
        OutputData::Completed => String::from_str("completed"),
        OutputData::Error(_) => String::from_str("error"),
        OutputData::Start => String::from_str("start"),
        _ => String::from_str("unknown"),
    }
}

/// A filter keeping only messages of the named types.
#[derive(Debug)]
pub struct TypeFilter {
    /// The type tags that pass the filter.
    pub allowed_types: Vec<String>,
}

impl TypeFilter {
    /// A filter from type tag names.
    pub fn new(types: Vec<&str>) -> (r: TypeFilter)
        ensures
            r.allowed_types@.map_values(|t: String| t@) == types@.map_values(|t: &str| t@),
    {
        let mut allowed_types: Vec<String> = Vec::new();
        let mut i: usize = 0;
        while i < types.len()
            invariant
                i <= types.len(),
                allowed_types@.len() == i,
                allowed_types@.map_values(|t: String| t@) == types@.map_values(
                    |t: &str| t@,
                ).take(i as int),
            decreases types.len() - i,
        {
            allowed_types.push(String::from_str(types[i]));
            i = i + 1;
            proof {
                let m1 = allowed_types@.map_values(|t: String| t@);
                let m2 = types@.map_values(|t: &str| t@);
                assert(allowed_types@[i as int - 1]@ == types@[i as int - 1]@);
                assert forall|j: int| 0 <= j < i implies #[trigger] m1[j] == m2.take(
                    i as int,
                )[j] by {
                    assert(m1[j] == allowed_types@[j]@);
                    assert(m2[j] == types@[j]@);
                }
                assert(m1 =~= m2.take(i as int));
            }
        }
        proof {
            assert(types@.map_values(|t: &str| t@).take(types@.len() as int) =~= types@
                .map_values(|t: &str| t@));
        }
        TypeFilter { allowed_types }
    }
}

/// A filter stage of the pipeline: each may veto a message, and the first
/// veto drops it.
#[derive(Debug)]
pub enum MessageFilter {
    /// Drop tool start and tool output messages.
    ToolOutput,
    /// Keep only messages of the named types.
    ByType(TypeFilter),
}

/// Whether a filter keeps a message.
pub open spec fn spec_should_keep(f: MessageFilter, d: OutputDataView) -> bool {
    match f {
        MessageFilter::ToolOutput => !(d is ToolOutput || d is ToolStart),
        MessageFilter::ByType(tf) => tf.allowed_types@.map_values(|t: String| t@).contains(
            spec_type_name(d),
        ),
    }
}

impl MessageFilter {
    /// Returns true if the message should be kept.
    pub fn should_keep(&self, msg: &OutputMessage) -> (r: bool)
        ensures
            r == spec_should_keep(*self, msg@.data),
    {
        match self {
            MessageFilter::ToolOutput => {
                match &msg.data {
                    OutputData::ToolOutput { .. } => false,
                    OutputData::ToolStart { .. } => false,
                    _ => true,
                }
            },
            MessageFilter::ByType(tf) => {
                let name = data_type_tag(&msg.data);
                let ghost allowed = tf.allowed_types@.map_values(|t: String| t@);
                let mut i: usize = 0;
                while i < tf.allowed_types.len()
                    invariant
                        i <= tf.allowed_types.len(),
                        allowed == tf.allowed_types@.map_values(|t: String| t@),
                        name@ == spec_type_name(msg@.data),
                        spec_should_keep(*self, msg@.data) == allowed.contains(name@),
                        forall|j: int| 0 <= j < i ==> allowed[j] != name@,
                    decreases tf.allowed_types.len() - i,
                {
                    if tf.allowed_types[i].eq(&name) {
                        proof {
                            assert(allowed[i as int] == name@);
                            assert(allowed.contains(name@));
                        }
                        return true;
                    }
                    i = i + 1;
                }
                proof {
                    assert(!allowed.contains(name@));
                }
                false
            },
        }
    }
}

/// How long lines are truncated: each line over the budget keeps its first
/// characters and gains a marker; the lines are joined back with newlines
/// between them.
pub open spec fn spec_truncate_lines(text: Seq<char>, max_length: nat) -> Seq<char> {
    spec_join_between_nl(
        spec_lines(text).map_values(
            |l: Seq<char>|
                if l.len() > max_length {
                    l.take(max_length as int) + "..."@
                } else {
                    l
                },
        ),
    )
}

/// Truncate each line of a text to the given length, marking the cut.
pub fn truncate_lines(text: &str, max_length: usize) -> (r: String)
    ensures
        r@ == spec_truncate_lines(text@, max_length as nat),
{
    let lines = split_lines(text);
    let ghost truncated = spec_lines(text@).map_values(
        |l: Seq<char>|
            if l.len() > max_length {
                l.take(max_length as int) + "..."@
            } else {
                l
            },
    );
    let mut r = String::new();
    let mut i: usize = 0;
    proof {
        assert(r@ =~= spec_join_between_nl(truncated.take(0)));
    }
    while i < lines.len()
        invariant
            i <= lines.len(),
            lines@.map_values(|l: String| l@) == spec_lines(text@),
            truncated == spec_lines(text@).map_values(
                |l: Seq<char>|
                    if l.len() > max_length {
                        l.take(max_length as int) + "..."@
                    } else {
                        l
                    },
            ),
            r@ == spec_join_between_nl(truncated.take(i as int)),
        decreases lines.len() - i,
    {
        if i > 0 {
            r.append("\n");
        }
        let line = &lines[i];
        if line.as_str().unicode_len() > max_length {
            let cut = line.as_str().substring_char(0, max_length);
            r.append(cut);
            r.append("...");
        } else {
            r.append(line.as_str());
        }
        i = i + 1;
        proof {
            reveal_strlit("\n");
            assert("\n"@ =~= seq!['\n']);
            assert(truncated[i as int - 1] == (if lines@[i as int - 1]@.len() > max_length {
                lines@[i as int - 1]@.take(max_length as int) + "..."@
            } else {
                lines@[i as int - 1]@
            }));
            assert(lines@[i as int - 1]@.take(max_length as int) =~= lines@[i as int
                - 1]@.subrange(0, max_length as int)) by {
                if lines@[i as int - 1]@.len() > max_length {
                }
            }
            assert(truncated.take(i as int).drop_last() =~= truncated.take(i as int - 1));
            assert(r@ =~= spec_join_between_nl(truncated.take(i as int)));
        }
    }
    proof {
        assert(truncated.take(truncated.len() as int) =~= truncated);
    }
    r
}

/// A transformer stage of the pipeline: rewrites text-bearing fields in
/// place.
#[derive(Debug)]
pub enum MessageTransformer {
    /// Strip ANSI escape codes from text-bearing fields.
    StripAnsi,
    /// Truncate long lines in text-bearing fields.
    TruncateLines {
        /// The per-line length budget.
        max_length: usize,
    },
}

/// How one transformer rewrites a message's text-bearing fields: primary
/// content, streaming deltas and tool output; everything else passes
/// unchanged.
pub open spec fn spec_transform(t: MessageTransformer, m: OutputMessageView) -> OutputMessageView {
    let rewrite = |text: Seq<char>|
        match t {
            MessageTransformer::StripAnsi => spec_clean_ansi(text),
            MessageTransformer::TruncateLines { max_length } => spec_truncate_lines(
                text,
                max_length as nat,
            ),
        };
    match m.data {
        OutputDataView::Primary(text) => OutputMessageView {
            data: OutputDataView::Primary(rewrite(text)),
            ..m
        },
        OutputDataView::PrimaryDelta(text) => OutputMessageView {
            data: OutputDataView::PrimaryDelta(rewrite(text)),
            ..m
        },
        OutputDataView::ToolOutput { tool_name, output } => OutputMessageView {
            data: OutputDataView::ToolOutput { tool_name, output: rewrite(output) },
            ..m
        },
        _ => m,
    }
}

impl MessageTransformer {
    /// Transform a message.
    pub fn transform(&self, msg: OutputMessage) -> (r: OutputMessage)
        ensures
            r@ == spec_transform(*self, msg@),
    {
        let OutputMessage { turn_id, data } = msg;
        let data = match data {
            OutputData::Primary(text) => OutputData::Primary(self.rewrite(text)),
            OutputData::PrimaryDelta(text) => OutputData::PrimaryDelta(self.rewrite(text)),
            OutputData::ToolOutput { tool_name, output } => OutputData::ToolOutput {
                tool_name,
                output: self.rewrite(output),
            },
            other => other,
        };
        OutputMessage { turn_id, data }
    }

    fn rewrite(&self, text: String) -> (r: String)
        ensures
            r@ == match *self {
                MessageTransformer::StripAnsi => spec_clean_ansi(text@),
                MessageTransformer::TruncateLines { max_length } => spec_truncate_lines(
                    text@,
                    max_length as nat,
                ),
            },
    {
        match self {
            MessageTransformer::StripAnsi => clean_ansi(text.as_str()),
            MessageTransformer::TruncateLines { max_length } => truncate_lines(
                text.as_str(),
                *max_length,
            ),
        }
    }
}

/// Buffers streaming deltas and emits them as one primary message.
#[derive(Debug)]
pub struct DeltaAggregator {
    /// The delta text buffered so far.
    pub buffer: String,
}

impl DeltaAggregator {
    /// An aggregator with an empty buffer.
    pub fn new() -> (r: DeltaAggregator)
        ensures
            r.buffer@ == Seq::<char>::empty(),
    {
        DeltaAggregator { buffer: String::new() }
    }
}

/// Drops a message whose text repeats the immediately preceding one.
#[derive(Debug)]
pub struct DuplicateRemover {
    /// The last delivered text-bearing content.
    pub last_message: Option<String>,
}

impl DuplicateRemover {
    /// A remover that has delivered nothing yet.
    pub fn new() -> (r: DuplicateRemover)
        ensures
            r.last_message is None,
    {
        DuplicateRemover { last_message: None }
    }
}

/// An aggregator stage of the pipeline: may consume a message, emit
/// nothing, or emit a different message derived from buffered state.
#[derive(Debug)]
pub enum MessageAggregator {
    /// Aggregate streaming deltas into one primary message.
    Deltas(DeltaAggregator),
    /// Remove consecutive duplicate text-bearing messages.
    Duplicates(DuplicateRemover),
}

/// The buffered state of an aggregator.
#[verifier::ext_equal]
pub ghost enum AggState {
    Deltas { buffer: Seq<char> },
    Duplicates { last: Option<Seq<char>> },
}

impl View for MessageAggregator {
    type V = AggState;

    open spec fn view(&self) -> AggState {
        match self {
            MessageAggregator::Deltas(a) => AggState::Deltas { buffer: a.buffer@ },
            MessageAggregator::Duplicates(a) => AggState::Duplicates {
                last: match a.last_message {
                    Some(ref s) => Some(s@),
                    None => None,
                },
            },
        }
    }
}

/// The text-bearing content of a message, as the duplicate remover tracks
/// it.
pub open spec fn spec_message_content(d: OutputDataView) -> Option<Seq<char>> {
    match d {
        OutputDataView::Primary(text) => Some(text),
        OutputDataView::PrimaryDelta(text) => Some(text),
        _ => None,
    }
}

/// What one aggregator does with one message. A delta aggregator swallows
/// deltas into its buffer; any other message, met over a non-empty buffer,
/// is replaced by one primary message holding the buffered text, under the
/// sentinel turn id zero. A duplicate remover drops a message whose text
/// equals the immediately preceding one and passes everything else
/// through, tracking the last text it delivered.
pub open spec fn spec_agg_step(a: AggState, m: OutputMessageView) -> (
    AggState,
    Option<OutputMessageView>,
) {
    match a {
        AggState::Deltas { buffer } => match m.data {
            OutputDataView::PrimaryDelta(delta) => (
                AggState::Deltas { buffer: buffer + delta },
                None::<OutputMessageView>,
            ),
            _ => if buffer.len() > 0 {
                (
                    AggState::Deltas { buffer: Seq::empty() },
                    Some(
                        OutputMessageView { turn_id: 0, data: OutputDataView::Primary(buffer) },
                    ),
                )
            } else {
                (a, Some(m))
            },
        },
        AggState::Duplicates { last } => match spec_message_content(m.data) {
            Some(text) => if last == Some(text) {
                (a, None)
            } else {
                (AggState::Duplicates { last: Some(text) }, Some(m))
            },
            None => (a, Some(m)),
        },
    }
}

/// What flushing an aggregator yields at stream end: a delta aggregator
/// emits its buffered text as one final primary message; a duplicate
/// remover emits nothing.
pub open spec fn spec_agg_flush(a: AggState) -> (AggState, Seq<OutputMessageView>) {
    match a {
        AggState::Deltas { buffer } => if buffer.len() > 0 {
            (
                AggState::Deltas { buffer: Seq::empty() },
                seq![OutputMessageView { turn_id: 0, data: OutputDataView::Primary(buffer) }],
            )
        } else {
            (a, Seq::<OutputMessageView>::empty())
        },
        AggState::Duplicates { .. } => (a, Seq::<OutputMessageView>::empty()),
    }
}

impl MessageAggregator {
    /// Process a message and potentially return an aggregated result.
    pub fn process(&mut self, msg: OutputMessage) -> (r: Option<OutputMessage>)
        ensures
            final(self)@ == spec_agg_step(old(self)@, msg@).0,
            match spec_agg_step(old(self)@, msg@).1 {
                Some(mv) => r matches Some(m) && m@ == mv,
                None => r is None,
            },
    {
        match self {
            MessageAggregator::Deltas(agg) => {
                match &msg.data {
                    OutputData::PrimaryDelta(delta) => {
                        agg.buffer.append(delta.as_str());
                        None
                    },
                    _ => {
                        if !agg.buffer.as_str().is_empty() {
                            let text = agg.buffer.clone();
                            agg.buffer = String::new();
                            Some(OutputMessage { turn_id: 0, data: OutputData::Primary(text) })
                        } else {
                            Some(msg)
                        }
                    },
                }
            },
            MessageAggregator::Duplicates(agg) => {
                let content: Option<String> = match &msg.data {
                    OutputData::Primary(text) => Some(text.clone()),
                    OutputData::PrimaryDelta(text) => Some(text.clone()),
                    _ => None,
                };
                match content {
                    Some(text) => {
                        let duplicate = match &agg.last_message {
                            Some(prev) => prev.eq(&text),
                            None => false,
                        };
                        if duplicate {
                            None
                        } else {
                            agg.last_message = Some(text);
                            Some(msg)
                        }
                    },
                    None => Some(msg),
                }
            },
        }
    }

    /// Flush any remaining buffered message.
    pub fn flush(&mut self) -> (r: Vec<OutputMessage>)
        ensures
            final(self)@ == spec_agg_flush(old(self)@).0,
            r@.map_values(|m: OutputMessage| m@) == spec_agg_flush(old(self)@).1,
    {
        let mut out: Vec<OutputMessage> = Vec::new();
        match self {
            MessageAggregator::Deltas(agg) => {
                if !agg.buffer.as_str().is_empty() {
                    let text = agg.buffer.clone();
                    agg.buffer = String::new();
                    out.push(OutputMessage { turn_id: 0, data: OutputData::Primary(text) });
                }
            },
            MessageAggregator::Duplicates(_) => {},
        }
        proof {
            assert(out@.map_values(|m: OutputMessage| m@) =~= spec_agg_flush(old(self)@).1);
        }
        out
    }
}

/// Whether every filter keeps a message: the first veto drops it.
pub open spec fn spec_all_keep(filters: Seq<MessageFilter>, d: OutputDataView) -> bool {
    forall|i: int| 0 <= i < filters.len() ==> spec_should_keep(#[trigger] filters[i], d)
}

/// A message after a run of transformers, applied in order.
pub open spec fn spec_transform_all(
    transformers: Seq<MessageTransformer>,
    m: OutputMessageView,
) -> OutputMessageView
    decreases transformers.len(),
{
    if transformers.len() == 0 {
        m
    } else {
        spec_transform(
            transformers.last(),
            spec_transform_all(transformers.drop_last(), m),
        )
    }
}

/// One message threaded through the aggregator chain: each aggregator in
/// order takes what the previous one emitted; once one consumes it, the
/// rest are left untouched.
pub open spec fn spec_chain_step(aggs: Seq<AggState>, m: OutputMessageView) -> (
    Seq<AggState>,
    Option<OutputMessageView>,
)
    decreases aggs.len(),
{
    if aggs.len() == 0 {
        (aggs, Some(m))
    } else {
        let (a, r) = spec_agg_step(aggs[0], m);
        match r {
            Some(m2) => {
                let (rest, out) = spec_chain_step(aggs.drop_first(), m2);
                (seq![a] + rest, out)
            },
            None => (seq![a] + aggs.drop_first(), None),
        }
    }
}

/// The flush of the whole chain: each aggregator flushed in order, the
/// emitted messages concatenated.
pub open spec fn spec_chain_flush(aggs: Seq<AggState>) -> (Seq<AggState>, Seq<OutputMessageView>)
    decreases aggs.len(),
{
    if aggs.len() == 0 {
        (aggs, Seq::<OutputMessageView>::empty())
    } else {
        let (init, outs) = spec_chain_flush(aggs.drop_last());
        let (a, out) = spec_agg_flush(aggs.last());
        (init.push(a), outs + out)
    }
}

/// Message processor that applies filters, transformers, and aggregators,
/// in that fixed order.
#[derive(Debug)]
pub struct MessageProcessor {
    /// The filter stages, in registration order.
    pub filters: Vec<MessageFilter>,
    /// The transformer stages, in registration order.
    pub transformers: Vec<MessageTransformer>,
    /// The aggregator stages, in registration order.
    pub aggregators: Vec<MessageAggregator>,
}

impl MessageProcessor {
    /// Create a new builder.
    pub fn builder() -> (r: MessageProcessorBuilder)
        ensures
            r.filters@.len() == 0,
            r.transformers@.len() == 0,
            r.aggregators@.len() == 0,
    {
        MessageProcessorBuilder {
            filters: Vec::new(),
            transformers: Vec::new(),
            aggregators: Vec::new(),
        }
    }

    /// Process a single message: vetoed messages are dropped, kept ones
    /// are transformed in order, and the result is threaded through the
    /// aggregator chain.
    pub fn process(&mut self, msg: OutputMessage) -> (r: Vec<OutputMessage>)
        ensures
            final(self).filters == old(self).filters,
            final(self).transformers == old(self).transformers,
            !spec_all_keep(old(self).filters@, msg@.data) ==> final(self).aggregators == old(
                self,
            ).aggregators && r@.len() == 0,
            spec_all_keep(old(self).filters@, msg@.data) ==> {
                let mt = spec_transform_all(old(self).transformers@, msg@);
                let st = spec_chain_step(
                    old(self).aggregators@.map_values(|a: MessageAggregator| a@),
                    mt,
                );
                final(self).aggregators@.map_values(|a: MessageAggregator| a@) == st.0
                    && match st.1 {
                    Some(mv) => r@.map_values(|m: OutputMessage| m@) == seq![mv],
                    None => r@.len() == 0,
                }
            },
    {
        let ghost d0 = msg@.data;
        let mut fi: usize = 0;
        while fi < self.filters.len()
            invariant
                fi <= self.filters@.len(),
                *self == *old(self),
                d0 == msg@.data,
                forall|j: int| 0 <= j < fi ==> spec_should_keep(#[trigger] self.filters@[j], d0),
            decreases self.filters@.len() - fi,
        {
            if !self.filters[fi].should_keep(&msg) {
                proof {
                    assert(!spec_should_keep(self.filters@[fi as int], d0));
                }
                return Vec::new();
            }
            fi = fi + 1;
        }
        let ghost m0 = msg@;
        let mut current = msg;
        let mut ti: usize = 0;
        proof {
            assert(self.transformers@.take(0) =~= Seq::<MessageTransformer>::empty());
        }
        while ti < self.transformers.len()
            invariant
                ti <= self.transformers@.len(),
                *self == *old(self),
                current@ == spec_transform_all(self.transformers@.take(ti as int), m0),
            decreases self.transformers@.len() - ti,
        {
            current = self.transformers[ti].transform(current);
            ti = ti + 1;
            proof {
                assert(self.transformers@.take(ti as int).drop_last() =~= self.transformers@
                    .take(ti as int - 1));
            }
        }
        proof {
            assert(self.transformers@.take(self.transformers@.len() as int) =~= self
                .transformers@);
        }
        let ghost mt = current@;
        let ghost orig = self.aggregators@.map_values(|a: MessageAggregator| a@);
        let mut cur: Option<OutputMessage> = Some(current);
        let mut done: Vec<MessageAggregator> = Vec::new();
        proof {
            assert(done@.map_values(|a: MessageAggregator| a@) =~= Seq::<AggState>::empty());
            let st = spec_chain_step(orig, mt);
            assert(Seq::<AggState>::empty() + st.0 =~= st.0);
        }
        while self.aggregators.len() > 0
            invariant
                old(self).filters == self.filters,
                old(self).transformers == self.transformers,
                match cur {
                    Some(m) => {
                        let rem = spec_chain_step(
                            self.aggregators@.map_values(|a: MessageAggregator| a@),
                            m@,
                        );
                        spec_chain_step(orig, mt).0 == done@.map_values(
                            |a: MessageAggregator| a@,
                        ) + rem.0 && spec_chain_step(orig, mt).1 == rem.1
                    },
                    None => spec_chain_step(orig, mt).0 == done@.map_values(
                        |a: MessageAggregator| a@,
                    ) + self.aggregators@.map_values(|a: MessageAggregator| a@)
                        && spec_chain_step(orig, mt).1 is None,
                },
            decreases self.aggregators@.len(),
        {
            let ghost rem_views = self.aggregators@.map_values(|a: MessageAggregator| a@);
            let mut a = self.aggregators.remove(0);
            proof {
                assert(self.aggregators@.map_values(|a: MessageAggregator| a@) =~= rem_views
                    .drop_first());
            }
            match cur {
                Some(m) => {
                    let out = a.process(m);
                    cur = out;
                },
                None => {},
            }
            done.push(a);
            proof {
                assert(done@.map_values(|x: MessageAggregator| x@) =~= done@.map_values(
                    |x: MessageAggregator| x@,
                ).drop_last().push(a@));
                if let Some(ref m2) = cur {
                    let rem = spec_chain_step(
                        self.aggregators@.map_values(|x: MessageAggregator| x@),
                        m2@,
                    );
                    assert(done@.map_values(|x: MessageAggregator| x@) + rem.0 =~= done@
                        .map_values(|x: MessageAggregator| x@).drop_last() + (seq![a@]
                        + rem.0));
                } else {
                    assert(done@.map_values(|x: MessageAggregator| x@) + self.aggregators@
                        .map_values(|x: MessageAggregator| x@) =~= done@.map_values(
                        |x: MessageAggregator| x@,
                    ).drop_last() + (seq![a@] + self.aggregators@.map_values(
                        |x: MessageAggregator| x@,
                    )));
                }
            }
        }
        self.aggregators = done;
        proof {
            assert(done@.map_values(|a: MessageAggregator| a@) + Seq::<AggState>::empty()
                =~= done@.map_values(|a: MessageAggregator| a@));
        }
        match cur {
            Some(m) => {
                let mut r: Vec<OutputMessage> = Vec::new();
                r.push(m);
                proof {
                    assert(r@.map_values(|x: OutputMessage| x@) =~= seq![m@]);
                }
                r
            },
            None => Vec::new(),
        }
    }

    /// Flush any remaining aggregated messages; to be called exactly once,
    /// after the last live message.
    pub fn flush(&mut self) -> (r: Vec<OutputMessage>)
        ensures
            final(self).filters == old(self).filters,
            final(self).transformers == old(self).transformers,
            final(self).aggregators@.map_values(|a: MessageAggregator| a@) == spec_chain_flush(
                old(self).aggregators@.map_values(|a: MessageAggregator| a@),
            ).0,
            r@.map_values(|m: OutputMessage| m@) == spec_chain_flush(
                old(self).aggregators@.map_values(|a: MessageAggregator| a@),
            ).1,
    {
        let ghost orig = self.aggregators@.map_values(|a: MessageAggregator| a@);
        let mut results: Vec<OutputMessage> = Vec::new();
        let mut i: usize = 0;
        proof {
            assert(orig.take(0) =~= Seq::<AggState>::empty());
            assert(self.aggregators@.map_values(|a: MessageAggregator| a@).take(0)
                =~= Seq::<AggState>::empty());
            assert(results@.map_values(|m: OutputMessage| m@) =~= spec_chain_flush(
                orig.take(0),
            ).1);
        }
        while i < self.aggregators.len()
            invariant
                i <= self.aggregators@.len(),
                old(self).filters == self.filters,
                old(self).transformers == self.transformers,
                self.aggregators@.len() == orig.len(),
                orig == old(self).aggregators@.map_values(|a: MessageAggregator| a@),
                forall|j: int|
                    i <= j < orig.len() ==> (#[trigger] self.aggregators@[j])@ == orig[j],
                self.aggregators@.map_values(|a: MessageAggregator| a@).take(i as int)
                    == spec_chain_flush(orig.take(i as int)).0,
                results@.map_values(|m: OutputMessage| m@) == spec_chain_flush(
                    orig.take(i as int),
                ).1,
            decreases self.aggregators@.len() - i,
        {
            let mut a = self.aggregators.remove(i);
            let mut out = a.flush();
            let ghost outs = out@;
            let ghost rbefore = results@;
            proof {
                assert(results@ + out@ =~= rbefore + outs);
            }
            while out.len() > 0
                invariant
                    results@ + out@ == rbefore + outs,
                decreases out@.len(),
            {
                let m = out.remove(0);
                results.push(m);
                proof {
                    assert(results@ + out@ =~= rbefore + outs);
                }
            }
            proof {
                assert(results@ =~= rbefore + outs);
            }
            self.aggregators.insert(i, a);
            i = i + 1;
            proof {
                let cur_views = self.aggregators@.map_values(|x: MessageAggregator| x@);
                assert(orig.take(i as int).drop_last() =~= orig.take(i as int - 1));
                assert(orig.take(i as int).last() == orig[i as int - 1]);
                assert(cur_views.take(i as int) =~= spec_chain_flush(orig.take(i as int)).0);
                assert(results@.map_values(|m: OutputMessage| m@) =~= spec_chain_flush(
                    orig.take(i as int),
                ).1);
            }
        }
        proof {
            assert(orig.take(orig.len() as int) =~= orig);
            assert(self.aggregators@.map_values(|a: MessageAggregator| a@).take(
                orig.len() as int,
            ) =~= self.aggregators@.map_values(|a: MessageAggregator| a@));
        }
        results
    }
}

/// Builder for `MessageProcessor`.
#[derive(Debug)]
pub struct MessageProcessorBuilder {
    /// The filter stages collected so far.
    pub filters: Vec<MessageFilter>,
    /// The transformer stages collected so far.
    pub transformers: Vec<MessageTransformer>,
    /// The aggregator stages collected so far.
    pub aggregators: Vec<MessageAggregator>,
}

impl Default for MessageProcessorBuilder {
    /// A builder with no stages.
    fn default() -> (r: MessageProcessorBuilder)
        ensures
            r.filters@.len() == 0,
            r.transformers@.len() == 0,
            r.aggregators@.len() == 0,
    {
        MessageProcessorBuilder {
            filters: Vec::new(),
            transformers: Vec::new(),
            aggregators: Vec::new(),
        }
    }
}

impl MessageProcessorBuilder {
    /// Add a custom filter.
    pub fn filter(self, filter: MessageFilter) -> (r: MessageProcessorBuilder)
        ensures
            r.filters@ == self.filters@.push(filter),
            r.transformers@ == self.transformers@,
            r.aggregators@ == self.aggregators@,
    {
        let mut b = self;
        b.filters.push(filter);
        b
    }

    /// Add a custom transformer.
    pub fn transform(self, transformer: MessageTransformer) -> (r: MessageProcessorBuilder)
        ensures
            r.filters@ == self.filters@,
            r.transformers@ == self.transformers@.push(transformer),
            r.aggregators@ == self.aggregators@,
    {
        let mut b = self;
        b.transformers.push(transformer);
        b
    }

    /// Add a custom aggregator.
    pub fn aggregate(self, aggregator: MessageAggregator) -> (r: MessageProcessorBuilder)
        ensures
            r.filters@ == self.filters@,
            r.transformers@ == self.transformers@,
            r.aggregators@ == self.aggregators@.push(aggregator),
    {
        let mut b = self;
        b.aggregators.push(aggregator);
        b
    }

    /// Filter out tool output messages.
    pub fn filter_tool_output(self) -> (r: MessageProcessorBuilder)
        ensures
            r.filters@ == self.filters@.push(MessageFilter::ToolOutput),
            r.transformers@ == self.transformers@,
            r.aggregators@ == self.aggregators@,
    {
        self.filter(MessageFilter::ToolOutput)
    }

    /// Filter messages by type.
    pub fn filter_by_type(self, types: Vec<&str>) -> (r: MessageProcessorBuilder)
        ensures
            r.filters@.len() == self.filters@.len() + 1,
            r.filters@.drop_last() == self.filters@,
            r.filters@.last() matches MessageFilter::ByType(tf) && tf.allowed_types@.map_values(
                |t: String| t@,
            ) == types@.map_values(|t: &str| t@),
            r.transformers@ == self.transformers@,
            r.aggregators@ == self.aggregators@,
    {
        let tf = TypeFilter::new(types);
        let r = self.filter(MessageFilter::ByType(tf));
        proof {
            assert(r.filters@.drop_last() =~= self.filters@);
        }
        r
    }

    /// Strip ANSI codes from messages.
    pub fn strip_ansi_codes(self) -> (r: MessageProcessorBuilder)
        ensures
            r.filters@ == self.filters@,
            r.transformers@ == self.transformers@.push(MessageTransformer::StripAnsi),
            r.aggregators@ == self.aggregators@,
    {
        self.transform(MessageTransformer::StripAnsi)
    }

    /// Truncate long lines.
    pub fn truncate_lines(self, max_length: usize) -> (r: MessageProcessorBuilder)
        ensures
            r.filters@ == self.filters@,
            r.transformers@ == self.transformers@.push(
                MessageTransformer::TruncateLines { max_length },
            ),
            r.aggregators@ == self.aggregators@,
    {
        self.transform(MessageTransformer::TruncateLines { max_length })
    }

    /// Aggregate delta messages.
    pub fn aggregate_deltas(self) -> (r: MessageProcessorBuilder)
        ensures
            r.filters@ == self.filters@,
            r.transformers@ == self.transformers@,
            r.aggregators@.len() == self.aggregators@.len() + 1,
            r.aggregators@.drop_last() == self.aggregators@,
            r.aggregators@.last()@ == (AggState::Deltas { buffer: Seq::<char>::empty() }),
    {
        let r = self.aggregate(MessageAggregator::Deltas(DeltaAggregator::new()));
        proof {
            assert(r.aggregators@.drop_last() =~= self.aggregators@);
        }
        r
    }

    /// Remove duplicate consecutive messages.
    pub fn remove_duplicates(self) -> (r: MessageProcessorBuilder)
        ensures
            r.filters@ == self.filters@,
            r.transformers@ == self.transformers@,
            r.aggregators@.len() == self.aggregators@.len() + 1,
            r.aggregators@.drop_last() == self.aggregators@,
            r.aggregators@.last()@ == (AggState::Duplicates { last: None }),
    {
        let r = self.aggregate(MessageAggregator::Duplicates(DuplicateRemover::new()));
        proof {
            assert(r.aggregators@.drop_last() =~= self.aggregators@);
        }
        r
    }

    /// Build the processor.
    pub fn build(self) -> (r: MessageProcessor)
        ensures
            r.filters@ == self.filters@,
            r.transformers@ == self.transformers@,
            r.aggregators@ == self.aggregators@,
    {
        MessageProcessor {
            filters: self.filters,
            transformers: self.transformers,
            aggregators: self.aggregators,
        }
    }
}

} // verus!
