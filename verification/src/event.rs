//! The events by which a transfer reports its progress, and the order they
//! come in.
//!
//! For one transfer the events are: `PreparingFile` once, then any number of
//! `TransferUpdate` whose byte count never falls, then at most one
//! `TransferComplete`, after which nothing follows. Events of different
//! transfers interleave freely.

use vstd::prelude::*;

use crate::crypto::transfer_id::TransferId;
use crate::fs::metadata::{FlapFileMetadata, MetadataView};

verus! {

#[derive(Debug, Clone, PartialEq, Eq)]
pub enum Event {
    TransferUpdate(TransferId, u64),
    PreparingFile(TransferId, FlapFileMetadata, bool  /* sending? */ ),
    TransferComplete(TransferId),
}

/// What an event says.
pub enum EventView {
    TransferUpdate(Seq<u8>, u64),
    PreparingFile(Seq<u8>, MetadataView, bool),
    TransferComplete(Seq<u8>),
}

impl View for Event {
    type V = EventView;

    open spec fn view(&self) -> EventView {
        match self {
            Event::TransferUpdate(id, bytes) => EventView::TransferUpdate(id@, *bytes),
            Event::PreparingFile(id, metadata, sending) => EventView::PreparingFile(
                id@,
                metadata@,
                *sending,
            ),
            Event::TransferComplete(id) => EventView::TransferComplete(id@),
        }
    }
}

impl EventView {
    /// The transfer that the event is about.
    pub open spec fn transfer_id(self) -> Seq<u8> {
        match self {
            EventView::TransferUpdate(id, _) => id,
            EventView::PreparingFile(id, _, _) => id,
            EventView::TransferComplete(id) => id,
        }
    }
}

impl Event {
    /// The transfer that the event is about.
    pub fn transfer_id(&self) -> (id: TransferId)
        ensures
            id@ == self@.transfer_id(),
    {
        match self {
            Event::TransferUpdate(id, _) => *id,
            Event::PreparingFile(id, _, _) => *id,
            Event::TransferComplete(id) => *id,
        }
    }
}

/// How far the events of one transfer have come.
#[derive(Debug, Clone, Copy, PartialEq, Eq, Structural)]
pub enum Progress {
    /// Nothing has been reported.
    NotStarted,
    /// The file has been announced, and this many bytes reported.
    Streaming(u64),
    /// Completion has been reported.
    Complete,
}

impl Progress {
    /// Where the events stand after `event`, if `event` may come next for
    /// the transfer `id`.
    pub open spec fn spec_after(self, id: Seq<u8>, event: EventView) -> Option<Progress> {
        if event.transfer_id() != id {
            None
        } else {
            match (self, event) {
                (Progress::NotStarted, EventView::PreparingFile(_, _, _)) => Some(
                    Progress::Streaming(0),
                ),
                (Progress::Streaming(before), EventView::TransferUpdate(_, bytes)) => if bytes
                    >= before {
                    Some(Progress::Streaming(bytes))
                } else {
                    None
                },
                (Progress::Streaming(_), EventView::TransferComplete(_)) => Some(
                    Progress::Complete,
                ),
                _ => None,
            }
        }
    }

    /// Where the events stand after all of `trace`, if `trace` is a possible
    /// sequence of events of the transfer `id`.
    pub open spec fn spec_run(id: Seq<u8>, trace: Seq<EventView>) -> Option<Progress>
        decreases trace.len(),
    {
        if trace.len() == 0 {
            Some(Progress::NotStarted)
        } else {
            match Self::spec_run(id, trace.drop_last()) {
                Some(progress) => progress.spec_after(id, trace.last()),
                None => None,
            }
        }
    }

    /// Where the events stand after `event`; `None` where `event` may not
    /// come next for the transfer `id`.
    pub fn after(&self, id: &TransferId, event: &Event) -> (next: Option<Progress>)
        ensures
            next == self.spec_after(id@, event@),
    {
        if !event.transfer_id().same(id) {
            return None;
        }
        match (self, event) {
            (Progress::NotStarted, Event::PreparingFile(_, _, _)) => Some(Progress::Streaming(0)),
            (Progress::Streaming(before), Event::TransferUpdate(_, bytes)) => {
                if *bytes >= *before {
                    Some(Progress::Streaming(*bytes))
                } else {
                    None
                }
            },
            (Progress::Streaming(_), Event::TransferComplete(_)) => Some(Progress::Complete),
            _ => None,
        }
    }
}

/// Whether `trace` is a possible sequence of events of the transfer `id`.
pub open spec fn well_ordered(id: Seq<u8>, trace: Seq<EventView>) -> bool {
    Progress::spec_run(id, trace) is Some
}

/// One more event extends a trace by one step.
pub proof fn lemma_run_push(id: Seq<u8>, trace: Seq<EventView>, event: EventView)
    ensures
        Progress::spec_run(id, trace.push(event)) == (match Progress::spec_run(id, trace) {
            Some(progress) => progress.spec_after(id, event),
            None => None,
        }),
{
    assert(trace.push(event).drop_last() =~= trace);
}

/// Every beginning of a well-ordered trace is well ordered.
pub proof fn lemma_prefix_well_ordered(id: Seq<u8>, trace: Seq<EventView>, length: int)
    requires
        well_ordered(id, trace),
        0 <= length <= trace.len(),
    ensures
        well_ordered(id, trace.take(length)),
    decreases trace.len(),
{
    if length == trace.len() {
        assert(trace.take(length) =~= trace);
    } else {
        assert(trace.drop_last().take(length) =~= trace.take(length));
        lemma_prefix_well_ordered(id, trace.drop_last(), length);
    }
}

/// No update of a well-ordered trace reports more bytes than the trace has
/// reached when it ends in the streaming phase.
proof fn lemma_updates_bounded(id: Seq<u8>, trace: Seq<EventView>, i: int)
    requires
        0 <= i < trace.len(),
        Progress::spec_run(id, trace) matches Some(Progress::Streaming(_)),
        trace[i] is TransferUpdate,
    ensures
        trace[i]->TransferUpdate_1 <= Progress::spec_run(id, trace)->0->Streaming_0,
    decreases trace.len(),
{
    let before = trace.drop_last();
    if i < trace.len() - 1 {
        assert(before[i] == trace[i]);
        lemma_updates_bounded(id, before, i);
    }
}

/// Progress is monotonic: of two updates of the same transfer, the later
/// never reports fewer bytes than the earlier.
pub proof fn lemma_updates_monotonic(id: Seq<u8>, trace: Seq<EventView>, i: int, j: int)
    requires
        well_ordered(id, trace),
        0 <= i < j < trace.len(),
        trace[i] is TransferUpdate,
        trace[j] is TransferUpdate,
    ensures
        trace[i]->TransferUpdate_1 <= trace[j]->TransferUpdate_1,
{
    let upto = trace.take(j + 1);
    lemma_prefix_well_ordered(id, trace, j + 1);
    let before = upto.drop_last();
    assert(before =~= trace.take(j));
    assert(upto.last() == trace[j]);
    assert(before[i] == trace[i]);
    lemma_updates_bounded(id, before, i);
}

/// The events of a transfer come in one order: `PreparingFile` first and
/// only first, `TransferComplete` last and only last, updates between them;
/// and all of them are about that transfer.
pub proof fn lemma_events_ordered(id: Seq<u8>, trace: Seq<EventView>)
    requires
        well_ordered(id, trace),
    ensures
        forall|i: int| 0 <= i < trace.len() ==> (#[trigger] trace[i]).transfer_id() == id,
        forall|i: int| 0 <= i < trace.len() ==> ((#[trigger] trace[i]) is PreparingFile <==> i == 0),
        forall|i: int|
            0 <= i < trace.len() && (#[trigger] trace[i]) is TransferComplete ==> i == trace.len()
                - 1,
        (Progress::spec_run(id, trace) == Some(Progress::NotStarted)) <==> trace.len() == 0,
        (Progress::spec_run(id, trace) == Some(Progress::Complete)) <==> (trace.len() > 0
            && trace.last() is TransferComplete),
    decreases trace.len(),
{
    if trace.len() > 0 {
        let before = trace.drop_last();
        lemma_events_ordered(id, before);
        assert forall|i: int| 0 <= i < trace.len() implies (#[trigger] trace[i]).transfer_id()
            == id by {
            if i < trace.len() - 1 {
                assert(before[i] == trace[i]);
            }
        }
        assert forall|i: int| 0 <= i < trace.len() implies ((#[trigger] trace[i]) is PreparingFile
            <==> i == 0) by {
            if i < trace.len() - 1 {
                assert(before[i] == trace[i]);
            }
        }
        assert forall|i: int|
            0 <= i < trace.len() && (#[trigger] trace[i]) is TransferComplete implies i
            == trace.len() - 1 by {
            if i < trace.len() - 1 {
                assert(before[i] == trace[i]);
                assert(before.last() == before[before.len() - 1]);
            }
        }
    }
}

} // verus!
