//! The batch sink: accumulates validated records and decides when to flush.
//!
//! The sink never touches the store. A driver feeds it what happened on the
//! input (a record arrived, the idle timeout passed, the stream closed) and
//! performs the flush it is handed before feeding it again, so that at most
//! one flush is in flight.

use crate::models::{KLine, KLineView};
use vstd::prelude::*;

verus! {

/// Records per flush unless configured otherwise.
pub const DEFAULT_SINK_BATCH_SIZE: usize = 100;

/// Idle seconds before a partial batch is flushed, unless configured
/// otherwise.
pub const DEFAULT_SINK_TIMEOUT_SECS: u64 = 5;

/// What happened on the sink's input.
pub enum SinkEvent {
    /// A record arrived.
    Record(KLine),
    /// No record arrived within the idle timeout.
    Timeout,
    /// The input stream was closed.
    Closed,
}

/// Mathematical content of a [`SinkEvent`].
pub enum SinkEventView {
    Record(KLineView),
    Timeout,
    Closed,
}

impl View for SinkEvent {
    type V = SinkEventView;

    open spec fn view(&self) -> SinkEventView {
        match self {
            SinkEvent::Record(k) => SinkEventView::Record(k@),
            SinkEvent::Timeout => SinkEventView::Timeout,
            SinkEvent::Closed => SinkEventView::Closed,
        }
    }
}

/// What the driver must do next.
pub enum SinkAction {
    /// Nothing to write: go on receiving.
    Wait,
    /// Write this batch in one bulk write, then go on receiving.
    Flush(Vec<KLine>),
    /// Write this batch in one bulk write, then terminate.
    FlushAndStop(Vec<KLine>),
    /// Terminate.
    Stop,
}

/// Mathematical content of a [`SinkAction`].
pub enum SinkActionView {
    Wait,
    Flush(Seq<KLineView>),
    FlushAndStop(Seq<KLineView>),
    Stop,
}

/// The contents of a list of records, in order.
pub open spec fn kline_views(records: Seq<KLine>) -> Seq<KLineView> {
    Seq::new(records.len(), |i: int| records[i]@)
}

impl View for SinkAction {
    type V = SinkActionView;

    open spec fn view(&self) -> SinkActionView {
        match self {
            SinkAction::Wait => SinkActionView::Wait,
            SinkAction::Flush(b) => SinkActionView::Flush(kline_views(b@)),
            SinkAction::FlushAndStop(b) => SinkActionView::FlushAndStop(kline_views(b@)),
            SinkAction::Stop => SinkActionView::Stop,
        }
    }
}

/// The sink as a mathematical value.
pub struct SinkModel {
    pub batch_size: nat,
    pub timeout_secs: nat,
    /// Records accumulated since the last flush, oldest first.
    pub batch: Seq<KLineView>,
}

impl SinkModel {
    /// The sink with its batch emptied.
    pub open spec fn drained(self) -> SinkModel {
        SinkModel { batch: Seq::empty(), ..self }
    }

    /// What a finished write calls for: after a write that succeeded the
    /// sink goes on receiving, after one that failed it terminates, so that
    /// the failure reaches the caller. The records of a failed write are not
    /// taken back: the state is the same either way.
    pub open spec fn after_write(self, ok: bool) -> (SinkModel, SinkActionView) {
        if ok {
            (self, SinkActionView::Wait)
        } else {
            (self, SinkActionView::Stop)
        }
    }

    /// One step of the sink.
    ///
    /// A record joins the batch, and the batch is flushed once it reaches
    /// the threshold. A timeout flushes a partial batch and does nothing to
    /// an empty one. Closing flushes any remainder and terminates.
    pub open spec fn step(self, event: SinkEventView) -> (SinkModel, SinkActionView) {
        match event {
            SinkEventView::Record(k) => {
                if self.batch.len() + 1 >= self.batch_size {
                    (self.drained(), SinkActionView::Flush(self.batch.push(k)))
                } else {
                    (SinkModel { batch: self.batch.push(k), ..self }, SinkActionView::Wait)
                }
            },
            SinkEventView::Timeout => {
                if self.batch.len() > 0 {
                    (self.drained(), SinkActionView::Flush(self.batch))
                } else {
                    (self, SinkActionView::Wait)
                }
            },
            SinkEventView::Closed => {
                if self.batch.len() > 0 {
                    (self.drained(), SinkActionView::FlushAndStop(self.batch))
                } else {
                    (self, SinkActionView::Stop)
                }
            },
        }
    }

    /// The sink after a sequence of events, and the batches flushed on the
    /// way, in order.
    pub open spec fn run(self, events: Seq<SinkEventView>) -> (SinkModel, Seq<Seq<KLineView>>)
        decreases events.len(),
    {
        if events.len() == 0 {
            (self, Seq::empty())
        } else {
            let (before, flushed) = self.run(events.drop_last());
            let (after, action) = before.step(events.last());
            (after, flushed + written(action))
        }
    }
}

/// The batches that an action writes: one or none.
pub open spec fn written(action: SinkActionView) -> Seq<Seq<KLineView>> {
    match action {
        SinkActionView::Flush(b) => seq![b],
        SinkActionView::FlushAndStop(b) => seq![b],
        _ => Seq::empty(),
    }
}

/// The arrival of each of `records`, in order.
pub open spec fn arrivals(records: Seq<KLineView>) -> Seq<SinkEventView> {
    Seq::new(records.len(), |i: int| SinkEventView::Record(records[i]))
}

/// The contents of a list of events, in order.
pub open spec fn event_views(events: Seq<SinkEvent>) -> Seq<SinkEventView> {
    Seq::new(events.len(), |i: int| events[i]@)
}

/// The contents of a list of batches, in order.
pub open spec fn batch_views(batches: Seq<Vec<KLine>>) -> Seq<Seq<KLineView>> {
    Seq::new(batches.len(), |i: int| kline_views(batches[i]@))
}

/// The batching writer.
pub struct BatchWriter {
    batch_size: usize,
    batch_timeout_secs: u64,
    batch: Vec<KLine>,
}

impl View for BatchWriter {
    type V = SinkModel;

    closed spec fn view(&self) -> SinkModel {
        SinkModel {
            batch_size: self.batch_size as nat,
            timeout_secs: self.batch_timeout_secs as nat,
            batch: kline_views(self.batch@),
        }
    }
}

impl BatchWriter {
    /// A writer with the default threshold and timeout and an empty batch.
    pub fn new() -> (writer: Self)
        ensures
            writer@ == (SinkModel {
                batch_size: DEFAULT_SINK_BATCH_SIZE as nat,
                timeout_secs: DEFAULT_SINK_TIMEOUT_SECS as nat,
                batch: Seq::empty(),
            }),
    {
        let writer = BatchWriter {
            batch_size: DEFAULT_SINK_BATCH_SIZE,
            batch_timeout_secs: DEFAULT_SINK_TIMEOUT_SECS,
            batch: Vec::new(),
        };
        assert(kline_views(writer.batch@) =~= Seq::empty());
        writer
    }

    /// A writer with the given threshold and timeout and an empty batch.
    pub fn with_limits(batch_size: usize, batch_timeout_secs: u64) -> (writer: Self)
        ensures
            writer@ == (SinkModel {
                batch_size: batch_size as nat,
                timeout_secs: batch_timeout_secs as nat,
                batch: Seq::empty(),
            }),
    {
        let writer = BatchWriter {
            batch_size: batch_size,
            batch_timeout_secs: batch_timeout_secs,
            batch: Vec::new(),
        };
        assert(kline_views(writer.batch@) =~= Seq::empty());
        writer
    }

    /// The flush threshold.
    pub fn batch_size(&self) -> (n: usize)
        ensures
            n == self@.batch_size,
    {
        self.batch_size
    }

    /// The idle timeout in seconds.
    pub fn batch_timeout_secs(&self) -> (n: u64)
        ensures
            n == self@.timeout_secs,
    {
        self.batch_timeout_secs
    }

    /// Number of records waiting for the next flush.
    pub fn pending(&self) -> (n: usize)
        ensures
            n == self@.batch.len(),
    {
        self.batch.len()
    }

    fn drain(&mut self) -> (batch: Vec<KLine>)
        ensures
            kline_views(batch@) == old(self)@.batch,
            final(self)@ == old(self)@.drained(),
    {
        let mut batch: Vec<KLine> = Vec::new();
        core::mem::swap(&mut self.batch, &mut batch);
        assert(kline_views(self.batch@) =~= Seq::empty());
        batch
    }

    /// Feeds one event to the sink and says what to do next. The new state
    /// and the action are exactly those of [`SinkModel::step`].
    pub fn handle(&mut self, event: SinkEvent) -> (action: SinkAction)
        ensures
            (final(self)@, action@) == old(self)@.step(event@),
    {
        match event {
            SinkEvent::Record(k) => {
                let ghost before = self@.batch;
                let ghost kv = k@;
                let full: bool = self.batch.len() >= usize::MAX || self.batch.len() + 1
                    >= self.batch_size;
                self.batch.push(k);
                assert(kline_views(self.batch@) =~= before.push(kv));
                if full {
                    let batch = self.drain();
                    SinkAction::Flush(batch)
                } else {
                    SinkAction::Wait
                }
            },
            SinkEvent::Timeout => {
                if self.batch.len() > 0 {
                    let batch = self.drain();
                    SinkAction::Flush(batch)
                } else {
                    SinkAction::Wait
                }
            },
            SinkEvent::Closed => {
                if self.batch.len() > 0 {
                    let batch = self.drain();
                    SinkAction::FlushAndStop(batch)
                } else {
                    SinkAction::Stop
                }
            },
        }
    }
}

impl BatchWriter {
    /// Takes note of how the write of the last flushed batch ended and says
    /// what to do next: go on after a success, terminate after a failure.
    /// Nothing is retried and nothing is taken back.
    pub fn on_write_result(&mut self, ok: bool) -> (action: SinkAction)
        ensures
            (final(self)@, action@) == old(self)@.after_write(ok),
            !ok ==> action@ == SinkActionView::Stop && final(self)@ == old(self)@,
            ok ==> action@ == SinkActionView::Wait && final(self)@ == old(self)@,
    {
        if ok {
            SinkAction::Wait
        } else {
            SinkAction::Stop
        }
    }

    /// Runs the sink over a stream of events, up to and including the first
    /// close, and returns the batches to write, in order, with the number of
    /// events consumed. The state and the batches are exactly those of
    /// [`SinkModel::run`] over the events consumed; no close lies before the
    /// last of them, and events are left over only behind a close.
    pub fn start(&mut self, events: &Vec<SinkEvent>) -> (out: (Vec<Vec<KLine>>, usize))
        ensures
            out.1 <= events@.len(),
            forall|j: int| 0 <= j < out.1 - 1 ==> !((#[trigger] events@[j])@ is Closed),
            out.1 < events@.len() ==> out.1 >= 1 && events@[out.1 - 1]@ is Closed,
            (final(self)@, batch_views(out.0@)) == old(self)@.run(
                event_views(events@).subrange(0, out.1 as int),
            ),
    {
        let mut flushed: Vec<Vec<KLine>> = Vec::new();
        let mut i: usize = 0;
        let ghost all = event_views(events@);
        proof {
            assert(all.subrange(0, 0) =~= Seq::<SinkEventView>::empty());
            assert(batch_views(flushed@) =~= Seq::<Seq<KLineView>>::empty());
        }
        while i < events.len()
            invariant
                i <= events@.len(),
                all == event_views(events@),
                forall|j: int| 0 <= j < i ==> !((#[trigger] events@[j])@ is Closed),
                (self@, batch_views(flushed@)) == old(self)@.run(all.subrange(0, i as int)),
            decreases events@.len() - i,
        {
            let ghost before = self@;
            let ghost sofar = batch_views(flushed@);
            let event = match &events[i] {
                SinkEvent::Record(k) => SinkEvent::Record(k.duplicate()),
                SinkEvent::Timeout => SinkEvent::Timeout,
                SinkEvent::Closed => SinkEvent::Closed,
            };
            assert(event@ == all[i as int]);
            let closed: bool = match &event {
                SinkEvent::Closed => true,
                _ => false,
            };
            let action = self.handle(event);
            proof {
                assert(all.subrange(0, i + 1).drop_last() =~= all.subrange(0, i as int));
                assert(all.subrange(0, i + 1).last() == all[i as int]);
            }
            match action {
                SinkAction::Flush(batch) => {
                    let ghost bv = kline_views(batch@);
                    flushed.push(batch);
                    assert(batch_views(flushed@) =~= sofar + seq![bv]);
                },
                SinkAction::FlushAndStop(batch) => {
                    let ghost bv = kline_views(batch@);
                    flushed.push(batch);
                    assert(batch_views(flushed@) =~= sofar + seq![bv]);
                },
                _ => {
                    assert(batch_views(flushed@) =~= sofar + Seq::<Seq<KLineView>>::empty());
                },
            }
            i += 1;
            if closed {
                return (flushed, i);
            }
        }
        (flushed, i)
    }
}

/// Records that arrive while the batch stays under the threshold are kept,
/// in order, and nothing is flushed.
pub proof fn law_partial_batch_waits(m: SinkModel, records: Seq<KLineView>)
    requires
        m.batch.len() == 0,
        records.len() < m.batch_size,
    ensures
        m.run(arrivals(records)) == (
            SinkModel { batch: records, ..m },
            Seq::<Seq<KLineView>>::empty(),
        ),
    decreases records.len(),
{
    if records.len() == 0 {
        assert(records =~= m.batch);
    } else {
        law_partial_batch_waits(m, records.drop_last());
        assert(arrivals(records).drop_last() =~= arrivals(records.drop_last()));
        assert(arrivals(records).last() == SinkEventView::Record(records.last()));
        assert(records.drop_last().push(records.last()) =~= records);
    }
}

/// Exactly a threshold's worth of records triggers exactly one flush, with
/// those records in order, and leaves the batch empty.
pub proof fn law_full_batch_flushes_once(m: SinkModel, records: Seq<KLineView>)
    requires
        m.batch.len() == 0,
        m.batch_size >= 1,
        records.len() == m.batch_size,
    ensures
        m.run(arrivals(records)) == (m, seq![records]),
{
    law_partial_batch_waits(m, records.drop_last());
    assert(arrivals(records).drop_last() =~= arrivals(records.drop_last()));
    assert(arrivals(records).last() == SinkEventView::Record(records.last()));
    assert(records.drop_last().push(records.last()) =~= records);
    assert(m.batch =~= Seq::empty());
    assert(m.drained() == m);
    assert(Seq::<Seq<KLineView>>::empty() + seq![records] =~= seq![records]);
}

/// Fewer records than the threshold followed by the idle timeout trigger
/// exactly one flush, with the partial batch; an idle timeout with nothing
/// accumulated flushes nothing.
pub proof fn law_timeout_flushes_partial(m: SinkModel, records: Seq<KLineView>)
    requires
        m.batch.len() == 0,
        records.len() < m.batch_size,
    ensures
        records.len() > 0 ==> m.run(arrivals(records).push(SinkEventView::Timeout)) == (
            m,
            seq![records],
        ),
        records.len() == 0 ==> m.run(arrivals(records).push(SinkEventView::Timeout)) == (
            m,
            Seq::<Seq<KLineView>>::empty(),
        ),
{
    law_partial_batch_waits(m, records);
    let events = arrivals(records).push(SinkEventView::Timeout);
    assert(events.drop_last() =~= arrivals(records));
    assert(m.batch =~= Seq::empty());
    assert(m.drained() == m);
    assert(Seq::<Seq<KLineView>>::empty() + seq![records] =~= seq![records]);
    assert(Seq::<Seq<KLineView>>::empty() + Seq::<Seq<KLineView>>::empty() =~= Seq::<
        Seq<KLineView>,
    >::empty());
    if records.len() == 0 {
        assert(records =~= m.batch);
    }
}

/// Closing the stream over a partial batch flushes it once more and
/// terminates; closing over an empty batch terminates with no write.
pub proof fn law_close_flushes_remainder(m: SinkModel, records: Seq<KLineView>)
    requires
        m.batch.len() == 0,
        records.len() < m.batch_size,
    ensures
        records.len() > 0 ==> m.run(arrivals(records)).0.step(SinkEventView::Closed) == (
            m,
            SinkActionView::FlushAndStop(records),
        ),
        records.len() == 0 ==> m.run(arrivals(records)).0.step(SinkEventView::Closed) == (
            m,
            SinkActionView::Stop,
        ),
{
    law_partial_batch_waits(m, records);
    assert(m.batch =~= Seq::empty());
    assert(m.drained() == m);
    if records.len() == 0 {
        assert(records =~= m.batch);
    }
}


/// The records that a sequence of events brings, in order.
pub open spec fn arrived(events: Seq<SinkEventView>) -> Seq<KLineView>
    decreases events.len(),
{
    if events.len() == 0 {
        Seq::empty()
    } else {
        match events.last() {
            SinkEventView::Record(k) => arrived(events.drop_last()).push(k),
            _ => arrived(events.drop_last()),
        }
    }
}

/// The records of a sequence of batches, one batch after the other.
pub open spec fn joined(batches: Seq<Seq<KLineView>>) -> Seq<KLineView>
    decreases batches.len(),
{
    if batches.len() == 0 {
        Seq::empty()
    } else {
        joined(batches.drop_last()) + batches.last()
    }
}

/// Nothing is lost, doubled or reordered: whatever the events, the batches
/// flushed so far followed by the batch still held are exactly the records
/// held at the start followed by those that arrived, in order. No flushed
/// batch is empty, and the settings never change.
pub proof fn law_sink_conserves_records(m: SinkModel, events: Seq<SinkEventView>)
    ensures
        joined(m.run(events).1) + m.run(events).0.batch == m.batch + arrived(events),
        forall|i: int| 0 <= i < m.run(events).1.len() ==> (#[trigger] m.run(events).1[i]).len() > 0,
        m.run(events).0.batch_size == m.batch_size,
        m.run(events).0.timeout_secs == m.timeout_secs,
    decreases events.len(),
{
    if events.len() == 0 {
        assert(joined(m.run(events).1) + m.batch =~= m.batch + arrived(events));
    } else {
        law_sink_conserves_records(m, events.drop_last());
        let (before, flushed) = m.run(events.drop_last());
        let (after, action) = before.step(events.last());
        let all = flushed + written(action);
        assert(m.run(events) == (after, all));
        if written(action).len() == 0 {
            assert(all =~= flushed);
        } else {
            assert(all.drop_last() =~= flushed);
            assert(all.last() == written(action)[0]);
        }
        let held = joined(flushed) + before.batch;
        let prev = arrived(events.drop_last());
        assert(held == m.batch + prev);
        match events.last() {
            SinkEventView::Record(k) => {
                assert(arrived(events) == prev.push(k));
                assert((m.batch + prev).push(k) =~= m.batch + prev.push(k));
                if before.batch.len() + 1 >= before.batch_size {
                    assert(joined(all) == joined(flushed) + before.batch.push(k));
                    assert(joined(all) + after.batch =~= held.push(k));
                } else {
                    assert(joined(all) + after.batch =~= held.push(k));
                }
            },
            _ => {
                assert(arrived(events) == prev);
                if before.batch.len() > 0 {
                    assert(joined(all) == joined(flushed) + before.batch);
                    assert(joined(all) + after.batch =~= held);
                } else {
                    assert(joined(all) + after.batch =~= held);
                }
            },
        }
    }
}

} // verus!
