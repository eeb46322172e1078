use vstd::prelude::*;
use crate::buffer::{BATCH_CAPACITY, Tick, TickBatch, TransferBuffer};
use crate::error::ScanError;

verus! {

/// Where a scan stream stands in its life.
#[derive(Clone, Copy, Debug, PartialEq, Eq, Structural)]
pub enum StreamState {
    /// The native handle is open and further pulls may be made.
    Open,
    /// The native side reported zero rows; the handle is still to be released.
    Exhausted,
    /// The handle has been released; nothing more is produced.
    Closed,
}

/// What the native fill call reported, as the stream reads it.
#[derive(Clone, Copy, Debug, PartialEq, Eq, Structural)]
pub enum FillOutcome {
    /// This many rows were written to the transfer buffer.
    Rows(u32),
    /// Zero rows: the series is exhausted.
    End,
    /// A negative fault code.
    Fault(i32),
}

/// Something that happens to a stream: a fill call returns, or the handle is released
/// (at natural end or because the consumer stopped pulling).
#[derive(Clone, Copy, Debug, PartialEq, Eq, Structural)]
pub enum Event {
    /// The native fill call returned this value.
    Filled(i32),
    /// The holder of the handle ends the stream.
    Release,
}

/// What the consumer receives from one pull.
#[derive(Debug)]
pub enum Pull {
    /// A batch of ticks, copied out of the transfer buffer.
    Batch(TickBatch),
    /// Clean end of the sequence; the handle is to be released next.
    End,
    /// The stream failed and closed: the handle is to be released now, and
    /// `release` will not ask for it again.
    Failed(ScanError),
}

/// The reading of a native fill result: positive is a row count, zero the end,
/// negative a fault.
pub open spec fn outcome_of(result: i32) -> FillOutcome {
    if result > 0 {
        FillOutcome::Rows(result as u32)
    } else if result == 0 {
        FillOutcome::End
    } else {
        FillOutcome::Fault(result)
    }
}

/// Classifies the value a native fill call returned.
pub fn classify_fill(result: i32) -> (r: FillOutcome)
    ensures
        r == outcome_of(result),
{
    if result > 0 {
        FillOutcome::Rows(result as u32)
    } else if result == 0 {
        FillOutcome::End
    } else {
        FillOutcome::Fault(result)
    }
}

/// The state a stream moves to on an event.
pub open spec fn next_state(s: StreamState, e: Event) -> StreamState {
    match (s, e) {
        (StreamState::Open, Event::Filled(result)) => {
            if 0 < result && result <= BATCH_CAPACITY {
                StreamState::Open
            } else if result == 0 {
                StreamState::Exhausted
            } else {
                StreamState::Closed
            }
        },
        (StreamState::Closed, _) => StreamState::Closed,
        (_, Event::Release) => StreamState::Closed,
        (StreamState::Exhausted, Event::Filled(_)) => StreamState::Exhausted,
    }
}

/// Whether the native handle is released on this event: exactly when the stream
/// leaves an unreleased state for `Closed`.
pub open spec fn releases_on(s: StreamState, e: Event) -> bool {
    s != StreamState::Closed && next_state(s, e) == StreamState::Closed
}

/// The state after a sequence of events.
pub open spec fn run(s: StreamState, events: Seq<Event>) -> StreamState
    decreases events.len(),
{
    if events.len() == 0 {
        s
    } else {
        run(next_state(s, events[0]), events.drop_first())
    }
}

/// How many times the handle is released over a sequence of events.
pub open spec fn release_count(s: StreamState, events: Seq<Event>) -> nat
    decreases events.len(),
{
    if events.len() == 0 {
        0
    } else {
        (if releases_on(s, events[0]) { 1nat } else { 0nat }) + release_count(
            next_state(s, events[0]),
            events.drop_first(),
        )
    }
}

/// The release count is one exactly when the run goes from an unreleased state to
/// `Closed`, and zero otherwise.
pub proof fn lemma_release_count(s: StreamState, events: Seq<Event>)
    ensures
        release_count(s, events) == (if s != StreamState::Closed && run(s, events)
            == StreamState::Closed {
            1nat
        } else {
            0nat
        }),
    decreases events.len(),
{
    if events.len() > 0 {
        lemma_release_count(next_state(s, events[0]), events.drop_first());
        if next_state(s, events[0]) == StreamState::Closed {
            lemma_closed_stays(events.drop_first());
        }
    }
}

/// A closed stream stays closed.
pub proof fn lemma_closed_stays(events: Seq<Event>)
    ensures
        run(StreamState::Closed, events) == StreamState::Closed,
    decreases events.len(),
{
    if events.len() > 0 {
        lemma_closed_stays(events.drop_first());
    }
}

/// The handle of an opened stream is released exactly once on every path that
/// terminates it: whatever fill results come back, a stream that ends in `Closed`
/// released its handle once, and never twice.
pub proof fn lemma_release_exactly_once(events: Seq<Event>)
    ensures
        release_count(StreamState::Open, events) <= 1,
        run(StreamState::Open, events) == StreamState::Closed <==> release_count(
            StreamState::Open,
            events,
        ) == 1,
{
    lemma_release_count(StreamState::Open, events);
}

/// Releasing the handle (at natural end, or when the consumer abandons the stream)
/// always leaves an opened stream closed with its handle released exactly once.
pub proof fn lemma_release_terminates(events: Seq<Event>)
    ensures
        run(StreamState::Open, events.push(Event::Release)) == StreamState::Closed,
        release_count(StreamState::Open, events.push(Event::Release)) == 1,
{
    lemma_run_push(StreamState::Open, events, Event::Release);
    lemma_release_count(StreamState::Open, events.push(Event::Release));
}

/// Running a sequence and then one more event.
pub proof fn lemma_run_push(s: StreamState, events: Seq<Event>, e: Event)
    ensures
        run(s, events.push(e)) == next_state(run(s, events), e),
    decreases events.len(),
{
    if events.len() > 0 {
        assert(events.push(e)[0] == events[0]);
        assert(events.push(e).drop_first() =~= events.drop_first().push(e));
        lemma_run_push(next_state(s, events[0]), events.drop_first(), e);
    } else {
        assert(events.push(e)[0] == e);
        assert(events.push(e).drop_first() =~= Seq::<Event>::empty());
        assert(run(next_state(s, e), Seq::<Event>::empty()) == next_state(s, e));
    }
}

/// The rows one fill delivers, given what the whole buffer holds after it: the first
/// `result` rows for a row count within capacity, nothing for any other result.
pub open spec fn delivered_by(contents: Seq<Tick>, result: i32) -> Seq<Tick> {
    if 0 < result <= BATCH_CAPACITY {
        contents.take(result as int)
    } else {
        Seq::empty()
    }
}

/// The rows an open stream delivers over a sequence of fills, each given as the
/// buffer's contents after it and the fill's result; the first result that is not a
/// row count within capacity ends the stream.
pub open spec fn delivered_over(fills: Seq<(Seq<Tick>, i32)>) -> Seq<Tick>
    decreases fills.len(),
{
    if fills.len() == 0 {
        Seq::empty()
    } else if 0 < fills[0].1 <= BATCH_CAPACITY {
        delivered_by(fills[0].0, fills[0].1) + delivered_over(fills.drop_first())
    } else {
        Seq::empty()
    }
}

/// The chunks of a series concatenated in order.
pub open spec fn concat_chunks(chunks: Seq<Seq<Tick>>) -> Seq<Tick>
    decreases chunks.len(),
{
    if chunks.len() == 0 {
        Seq::empty()
    } else {
        chunks[0] + concat_chunks(chunks.drop_first())
    }
}

/// Batches concatenated in yield order reproduce the native source's rows: when
/// each fill writes the next chunk of the series at the front of the buffer (whatever
/// stale rows stay behind it) and reports the chunk's length, and a final fill reports
/// zero, the rows delivered are the chunks in order, with nothing lost, repeated,
/// reordered or left over from an earlier fill.
pub proof fn lemma_batches_reproduce_source(
    chunks: Seq<Seq<Tick>>,
    fills: Seq<(Seq<Tick>, i32)>,
)
    requires
        fills.len() == chunks.len() + 1,
        fills[chunks.len() as int].1 == 0,
        forall|i: int|
            0 <= i < chunks.len() ==> 0 < #[trigger] chunks[i].len() <= BATCH_CAPACITY
                && fills[i].1 == chunks[i].len() && fills[i].0.len() >= chunks[i].len()
                && fills[i].0.take(chunks[i].len() as int) == chunks[i],
    ensures
        delivered_over(fills) == concat_chunks(chunks),
    decreases chunks.len(),
{
    if chunks.len() == 0 {
        assert(delivered_over(fills.drop_first()) == Seq::<Tick>::empty());
    } else {
        let rest = chunks.drop_first();
        let rest_fills = fills.drop_first();
        assert forall|i: int| 0 <= i < rest.len() implies 0 < #[trigger] rest[i].len()
            <= BATCH_CAPACITY && rest_fills[i].1 == rest[i].len() && rest_fills[i].0.len()
            >= rest[i].len() && rest_fills[i].0.take(rest[i].len() as int) == rest[i] by {
            assert(rest[i] == chunks[i + 1]);
            assert(rest_fills[i] == fills[i + 1]);
        }
        lemma_batches_reproduce_source(rest, rest_fills);
        assert(chunks[0].len() > 0);
    }
}

/// The decision core of one scan stream over one opened native handle.
///
/// It tracks the stream's state, how many times the handle has been released, and
/// every row delivered so far. Whoever holds the handle makes the native calls the
/// stream asks for and reports each result back.
pub struct ScanStream {
    state: StreamState,
    released: Ghost<nat>,
    delivered: Ghost<Seq<Tick>>,
}

impl ScanStream {
    /// The stream's state.
    pub closed spec fn phase(&self) -> StreamState {
        self.state
    }

    /// How many times the handle has been released.
    pub closed spec fn release_total(&self) -> nat {
        self.released@
    }

    /// Every row handed to the consumer, in yield order.
    pub closed spec fn delivered(&self) -> Seq<Tick> {
        self.delivered@
    }

    /// The handle has been released once if the stream is closed, and not at all otherwise.
    pub closed spec fn wf(&self) -> bool {
        self.released@ == (if self.state == StreamState::Closed {
            1nat
        } else {
            0nat
        })
    }

    /// Starts a stream once the native open call has returned; a missing handle
    /// is reported as an error, never taken for an empty series.
    pub fn open(handle_opened: bool) -> (r: Result<ScanStream, ScanError>)
        ensures
            handle_opened <==> r is Ok,
            !handle_opened ==> r == Err::<ScanStream, ScanError>(ScanError::OpenFailed),
            r is Ok ==> {
                let s = r->Ok_0;
                &&& s.wf()
                &&& s.phase() == StreamState::Open
                &&& s.release_total() == 0
                &&& s.delivered() == Seq::<Tick>::empty()
            },
    {
        if handle_opened {
            Ok(ScanStream {
                state: StreamState::Open,
                released: Ghost(0nat),
                delivered: Ghost(Seq::empty()),
            })
        } else {
            Err(ScanError::OpenFailed)
        }
    }

    /// The stream's state.
    pub fn state(&self) -> (r: StreamState)
        ensures
            r == self.phase(),
    {
        self.state
    }

    /// Whether the next pull should call the native fill function.
    pub fn wants_fill(&self) -> (r: bool)
        ensures
            r == (self.phase() == StreamState::Open),
    {
        self.state == StreamState::Open
    }

    /// Takes in what one native fill call returned, with the buffer it wrote to,
    /// and says what the consumer receives.
    ///
    /// Rows within capacity become a batch copied from the buffer; zero rows end the
    /// stream; a fault or a row count above capacity fails it and releases the handle.
    pub fn on_filled(&mut self, buffer: &TransferBuffer, result: i32) -> (r: Pull)
        requires
            old(self).wf(),
            old(self).phase() == StreamState::Open,
            buffer.wf(),
        ensures
            final(self).wf(),
            final(self).phase() == next_state(old(self).phase(), Event::Filled(result)),
            final(self).release_total() == old(self).release_total() + (if releases_on(
                old(self).phase(),
                Event::Filled(result),
            ) {
                1nat
            } else {
                0nat
            }),
            0 < result <= BATCH_CAPACITY ==> r is Batch && r->Batch_0.wf()
                && r->Batch_0.timestamps@.len() == result
                && r->Batch_0.rows() == buffer.rows(result as nat)
                && final(self).delivered() == old(self).delivered() + r->Batch_0.rows(),
            final(self).delivered() == old(self).delivered() + delivered_by(
                buffer.rows(BATCH_CAPACITY as nat),
                result,
            ),
            result > BATCH_CAPACITY ==> r == Pull::Failed(
                ScanError::CapacityExceeded { rows: result as u32 },
            ),
            result == 0 ==> r is End,
            result < 0 ==> r == Pull::Failed(ScanError::NativeFault { code: result }),
            !(0 < result <= BATCH_CAPACITY) ==> final(self).delivered() == old(self).delivered(),
    {
        match classify_fill(result) {
            FillOutcome::Rows(n) => {
                match buffer.convert(n) {
                    Ok(batch) => {
                        assert(buffer.rows(n as nat) =~= buffer.rows(BATCH_CAPACITY as nat).take(
                            n as int,
                        ));
                        self.delivered = Ghost(self.delivered@ + batch.rows());
                        Pull::Batch(batch)
                    },
                    Err(e) => {
                        self.state = StreamState::Closed;
                        self.released = Ghost(self.released@ + 1);
                        Pull::Failed(e)
                    },
                }
            },
            FillOutcome::End => {
                self.state = StreamState::Exhausted;
                Pull::End
            },
            FillOutcome::Fault(code) => {
                self.state = StreamState::Closed;
                self.released = Ghost(self.released@ + 1);
                Pull::Failed(ScanError::NativeFault { code })
            },
        }
    }

    /// Ends the stream, at natural end or because the consumer stopped pulling.
    ///
    /// Returns whether the native handle must be released now: true exactly once
    /// over the stream's life.
    pub fn release(&mut self) -> (r: bool)
        requires
            old(self).wf(),
        ensures
            final(self).wf(),
            r == releases_on(old(self).phase(), Event::Release),
            r == (old(self).phase() != StreamState::Closed),
            final(self).phase() == StreamState::Closed,
            final(self).release_total() == 1,
            final(self).release_total() == old(self).release_total() + (if r {
                1nat
            } else {
                0nat
            }),
            final(self).delivered() == old(self).delivered(),
    {
        if self.state == StreamState::Closed {
            false
        } else {
            self.state = StreamState::Closed;
            self.released = Ghost(self.released@ + 1);
            true
        }
    }
}

} // verus!
