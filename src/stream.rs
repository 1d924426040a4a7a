use vstd::prelude::*;
use crate::error::RunnerError;

verus! {

/// The summary of a finished completion.
#[derive(Debug, Clone, PartialEq, Eq)]
pub struct ChatCompletion {
    pub text: String,
    pub input_tokens: u32,
    pub output_tokens: u32,
    pub finish_reason: Option<String>,
}

/// One unit of partial output of a streaming completion.
#[derive(Debug, Clone, PartialEq, Eq)]
pub struct StreamChunk {
    pub content: String,
}

/// What the provider side of a streaming call reports next.
#[derive(Debug, Clone, PartialEq, Eq)]
pub enum StreamEvent {
    /// A piece of partial output arrived.
    Chunk(StreamChunk),
    /// The provider closed its stream with a summary.
    Completed(ChatCompletion),
    /// The provider failed; the stream ends here.
    Failed(RunnerError),
    /// The receiving end of the sink is gone.
    SinkClosed,
}

/// What the caller of the relay must do next.
#[derive(Debug, PartialEq, Eq)]
pub enum RelayAction {
    /// Send this chunk to the sink, waiting while the sink is full.
    Deliver(StreamChunk),
    /// Stop reading from the provider and return this result.
    Finish(Result<ChatCompletion, RunnerError>),
    /// Nothing: the call has already finished.
    Ignore,
}

/// The result a terminal event ends a call with.
pub open spec fn outcome_of(ev: StreamEvent) -> Result<ChatCompletion, RunnerError> {
    match ev {
        StreamEvent::Completed(s) => Ok(s),
        StreamEvent::Failed(e) => Err(e),
        _ => Err(RunnerError::SinkClosed),
    }
}

/// One step of the relay: the next finished flag and the action.
pub open spec fn step_spec(finished: bool, ev: StreamEvent) -> (bool, RelayAction) {
    if finished {
        (true, RelayAction::Ignore)
    } else {
        match ev {
            StreamEvent::Chunk(c) => (false, RelayAction::Deliver(c)),
            _ => (true, RelayAction::Finish(outcome_of(ev))),
        }
    }
}

/// What a call delivers for a sequence of events, and how it ends: every
/// chunk before the first terminal event, in order, then that event's result
/// (absent when the events run out first).
pub open spec fn relay_spec(evs: Seq<StreamEvent>) -> (Seq<StreamChunk>, Option<Result<ChatCompletion, RunnerError>>)
    decreases evs.len(),
{
    if evs.len() == 0 {
        (Seq::empty(), None)
    } else {
        match evs[0] {
            StreamEvent::Chunk(c) => {
                let rest = relay_spec(evs.drop_first());
                (seq![c] + rest.0, rest.1)
            },
            _ => (Seq::empty(), Some(outcome_of(evs[0]))),
        }
    }
}

/// The decisions of one streaming call: forward chunks in order until the
/// provider finishes, fails, or the sink closes.
pub struct StreamRelay {
    finished: bool,
}

impl StreamRelay {
    /// Whether the call has ended.
    pub closed spec fn finished_spec(&self) -> bool {
        self.finished
    }

    /// A relay for a call that has not ended yet.
    pub fn new() -> (r: StreamRelay)
        ensures
            !r.finished_spec(),
    {
        StreamRelay { finished: false }
    }

    /// Whether the call has ended.
    pub fn is_finished(&self) -> (r: bool)
        ensures
            r == self.finished_spec(),
    {
        self.finished
    }

    /// Decides what to do with the next event.
    pub fn step(&mut self, ev: StreamEvent) -> (r: RelayAction)
        ensures
            (final(self).finished_spec(), r) == step_spec(old(self).finished_spec(), ev),
    {
        if self.finished {
            return RelayAction::Ignore;
        }
        match ev {
            StreamEvent::Chunk(c) => RelayAction::Deliver(c),
            StreamEvent::Completed(s) => {
                self.finished = true;
                RelayAction::Finish(Ok(s))
            },
            StreamEvent::Failed(e) => {
                self.finished = true;
                RelayAction::Finish(Err(e))
            },
            StreamEvent::SinkClosed => {
                self.finished = true;
                RelayAction::Finish(Err(RunnerError::SinkClosed))
            },
        }
    }
}

/// The chunks a call delivered and the result it ended with.
#[derive(Debug, PartialEq, Eq)]
pub struct RelayOutcome {
    pub delivered: Vec<StreamChunk>,
    pub result: Option<Result<ChatCompletion, RunnerError>>,
}

/// Runs the relay over a whole sequence of events.
pub fn relay(events: Vec<StreamEvent>) -> (r: RelayOutcome)
    ensures
        r.delivered@ == relay_spec(events@).0,
        r.result == relay_spec(events@).1,
{
    let ghost orig = events@;
    let mut pending = events;
    let mut relay = StreamRelay::new();
    let mut delivered: Vec<StreamChunk> = Vec::new();
    let mut result: Option<Result<ChatCompletion, RunnerError>> = None;
    while pending.len() > 0
        invariant
            orig == events@,
            !relay.finished_spec(),
            result is None,
            relay_spec(orig) == (delivered@ + relay_spec(pending@).0, relay_spec(pending@).1),
        decreases pending@.len(),
    {
        let ghost before = pending@;
        let ghost ev0 = pending@[0];
        let ev = pending.remove(0);
        assert(pending@ =~= before.drop_first());
        match relay.step(ev) {
            RelayAction::Deliver(c) => {
                let ghost d = delivered@;
                delivered.push(c);
                assert(delivered@ + relay_spec(pending@).0 =~= d + (seq![c] + relay_spec(pending@).0));
            },
            RelayAction::Finish(res) => {
                assert(relay_spec(before) == (Seq::<StreamChunk>::empty(), Some(outcome_of(ev0))));
                assert(delivered@ + Seq::<StreamChunk>::empty() =~= delivered@);
                return RelayOutcome { delivered, result: Some(res) };
            },
            RelayAction::Ignore => {},
        }
    }
    assert(delivered@ + Seq::<StreamChunk>::empty() =~= delivered@);
    RelayOutcome { delivered, result }
}

/// Chunks that precede a terminal event reach the sink exactly, in their
/// order, and the call then ends with that event's result; nothing after the
/// terminal event is delivered.
pub proof fn lemma_chunks_then_terminal(chunks: Seq<StreamChunk>, terminal: StreamEvent, rest: Seq<StreamEvent>)
    requires
        !(terminal is Chunk),
    ensures
        relay_spec(chunks.map_values(|c: StreamChunk| StreamEvent::Chunk(c)) + seq![terminal] + rest)
            == (chunks, Some(outcome_of(terminal))),
    decreases chunks.len(),
{
    let evs = chunks.map_values(|c: StreamChunk| StreamEvent::Chunk(c)) + seq![terminal] + rest;
    if chunks.len() == 0 {
        assert(evs[0] == terminal);
    } else {
        let tail = chunks.drop_first();
        lemma_chunks_then_terminal(tail, terminal, rest);
        assert(evs[0] == StreamEvent::Chunk(chunks[0]));
        assert(evs.drop_first() =~= tail.map_values(|c: StreamChunk| StreamEvent::Chunk(c)) + seq![terminal] + rest);
        assert(seq![chunks[0]] + tail =~= chunks);
    }
}

/// Once the sink is seen closed the call ends at that step with
/// `SinkClosed`, and every later event is ignored.
pub proof fn lemma_sink_closed_ends_call(finished: bool, ev: StreamEvent)
    ensures
        !finished ==> step_spec(finished, StreamEvent::SinkClosed) == (
            true,
            RelayAction::Finish(Err(RunnerError::SinkClosed)),
        ),
        step_spec(step_spec(finished, StreamEvent::SinkClosed).0, ev) == (true, RelayAction::Ignore),
{
}

} // verus!
