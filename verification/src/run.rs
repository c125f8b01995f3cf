//! The archiving run as a step machine.
//!
//! A run asks its driver for one thing at a time: read the source, create
//! the destination, write the container, report the outcome. The driver
//! does what is asked and answers with an event. The run never touches a
//! file itself, so the order of the file operations and the error class of
//! each failure are decided, and proved, here.

use crate::container::{
    build_container, container_image, lemma_one_entry, sealed_image, Entry, ENTRY_MODE,
};
use crate::error::ArchiveError;
use crate::request::{Request, RequestView};
use crate::stamp::{clock_reading, Timestamp};
use vstd::prelude::*;

verus! {

/// What the driver reports back to the run.
#[derive(Clone, Debug, PartialEq, Eq)]
pub enum Event {
    /// The source file was read in full; these are its bytes.
    SourceRead(Vec<u8>),
    /// The source file could not be opened or read.
    SourceFailed,
    /// The destination file was created, or truncated if it existed.
    DestinationCreated,
    /// The destination file could not be created.
    DestinationFailed,
    /// The container bytes were written to the destination.
    ContainerWritten,
    /// Writing the container bytes to the destination failed.
    ContainerFailed,
}

/// An event as plain values.
pub enum EventView {
    SourceRead(Seq<u8>),
    SourceFailed,
    DestinationCreated,
    DestinationFailed,
    ContainerWritten,
    ContainerFailed,
}

impl View for Event {
    type V = EventView;

    open spec fn view(&self) -> EventView {
        match self {
            Event::SourceRead(data) => EventView::SourceRead(data@),
            Event::SourceFailed => EventView::SourceFailed,
            Event::DestinationCreated => EventView::DestinationCreated,
            Event::DestinationFailed => EventView::DestinationFailed,
            Event::ContainerWritten => EventView::ContainerWritten,
            Event::ContainerFailed => EventView::ContainerFailed,
        }
    }
}

/// What the run asks of its driver next.
#[derive(Clone, Copy, Debug, PartialEq, Eq)]
pub enum Action {
    /// Read the whole source file, named by the request's source path.
    ReadSource,
    /// Create the destination file, truncating one that exists.
    CreateDestination,
    /// Write the run's container to the destination file.
    WriteContainer,
    /// Tell the user how the run ended. Nothing is left to do.
    Report(Result<(), ArchiveError>),
}

/// How far a run has come.
pub enum Progress {
    AwaitingSource,
    AwaitingDestination { data: Seq<u8> },
    AwaitingWrite { image: Seq<u8> },
    Finished { outcome: Result<(), ArchiveError> },
}

/// What the destination file holds.
pub enum Destination {
    /// There is no such file.
    Absent,
    /// A file of these bytes.
    Holds(Seq<u8>),
    /// What a failed write left behind: some part of what was to be there.
    Partial,
}

/// The mathematical model of a run.
pub struct Run {
    pub request: RequestView,
    pub stamp: Timestamp,
    pub progress: Progress,
}

impl Run {
    /// A run that has done nothing yet.
    pub open spec fn fresh(request: RequestView, stamp: Timestamp) -> Run {
        Run { request, stamp: stamp.normalized(), progress: Progress::AwaitingSource }
    }

    /// The same run at another point of its progress.
    pub open spec fn at(self, progress: Progress) -> Run {
        Run { progress, ..self }
    }

    /// The same run, ended with `outcome`.
    pub open spec fn ended(self, outcome: Result<(), ArchiveError>) -> Run {
        self.at(Progress::Finished { outcome })
    }

    /// What the run waits for.
    pub open spec fn pending(self) -> Action {
        match self.progress {
            Progress::AwaitingSource => Action::ReadSource,
            Progress::AwaitingDestination { .. } => Action::CreateDestination,
            Progress::AwaitingWrite { .. } => Action::WriteContainer,
            Progress::Finished { outcome } => Action::Report(outcome),
        }
    }

    /// The run once its destination exists and the writer has produced
    /// `image`, or `None` for a failure. A run that is not waiting for its
    /// destination is left as it is.
    pub open spec fn with_container(self, image: Option<Seq<u8>>) -> Run {
        match (self.progress, image) {
            (Progress::AwaitingDestination { .. }, Some(bytes)) => self.at(
                Progress::AwaitingWrite { image: bytes },
            ),
            (Progress::AwaitingDestination { .. }, None) => self.ended(
                Err(ArchiveError::WriteFailed),
            ),
            _ => self,
        }
    }

    /// The one entry of the run's container: named by the source path as
    /// given, holding `data`, with the requested method, the fixed
    /// permission bits and the run's time stamp.
    pub open spec fn entry_of(self, data: Seq<u8>) -> Entry {
        Entry {
            name: self.request.source,
            method: self.request.method,
            mode: ENTRY_MODE,
            stamp: self.stamp.normalized(),
            data,
        }
    }

    /// The container of the run's source, or `None` where it cannot be
    /// built.
    pub open spec fn image_of(self, data: Seq<u8>) -> Option<Seq<u8>> {
        container_image(
            self.request.source,
            data,
            self.request.method,
            ENTRY_MODE,
            self.stamp.normalized(),
        )
    }

    /// The run is waiting for this event: it answers what the run asked for.
    pub open spec fn awaits(self, event: EventView) -> bool {
        match self.pending() {
            Action::ReadSource => event is SourceRead || event is SourceFailed,
            Action::CreateDestination => event is DestinationCreated || event is DestinationFailed,
            Action::WriteContainer => event is ContainerWritten || event is ContainerFailed,
            Action::Report(_) => false,
        }
    }

    /// One step. An event that the run is not waiting for changes nothing.
    pub open spec fn next(self, event: EventView) -> Run {
        match (self.progress, event) {
            (Progress::AwaitingSource, EventView::SourceRead(data)) => self.at(
                Progress::AwaitingDestination { data },
            ),
            (Progress::AwaitingSource, EventView::SourceFailed) => self.ended(
                Err(ArchiveError::SourceUnavailable),
            ),
            (
                Progress::AwaitingDestination { data },
                EventView::DestinationCreated,
            ) => self.with_container(self.image_of(data)),
            (Progress::AwaitingDestination { .. }, EventView::DestinationFailed) => self.ended(
                Err(ArchiveError::DestinationUnavailable),
            ),
            (Progress::AwaitingWrite { .. }, EventView::ContainerWritten) => self.ended(Ok(())),
            (Progress::AwaitingWrite { .. }, EventView::ContainerFailed) => self.ended(
                Err(ArchiveError::WriteFailed),
            ),
            _ => self,
        }
    }

    /// The run after a series of events, first event first.
    pub open spec fn after(self, events: Seq<EventView>) -> Run
        decreases events.len(),
    {
        if events.len() == 0 {
            self
        } else {
            self.next(events.first()).after(events.drop_first())
        }
    }

    /// What the destination holds when a driver that does what it is asked
    /// reports `event`, where it held `before`. Creating leaves an empty
    /// file, whatever was there. Writing puts the container behind the
    /// bytes that the file holds. A failed write leaves a part. Nothing
    /// else touches the destination, and an event that the run is not
    /// waiting for stands for no work done.
    pub open spec fn destination_after(self, event: EventView, before: Destination) -> Destination {
        match (self.progress, event) {
            (
                Progress::AwaitingDestination { .. },
                EventView::DestinationCreated,
            ) => Destination::Holds(Seq::empty()),
            (Progress::AwaitingWrite { image }, EventView::ContainerWritten) => match before {
                Destination::Holds(bytes) => Destination::Holds(bytes + image),
                _ => Destination::Partial,
            },
            (Progress::AwaitingWrite { .. }, EventView::ContainerFailed) => Destination::Partial,
            _ => before,
        }
    }

    /// What the destination holds after a series of events.
    pub open spec fn destination_along(self, events: Seq<EventView>, before: Destination) -> Destination
        decreases events.len(),
    {
        if events.len() == 0 {
            before
        } else {
            self.next(events.first()).destination_along(
                events.drop_first(),
                self.destination_after(events.first(), before),
            )
        }
    }

    /// The events of a run that meets no failure.
    pub open spec fn smooth(data: Seq<u8>) -> Seq<EventView> {
        seq![
            EventView::SourceRead(data),
            EventView::DestinationCreated,
            EventView::ContainerWritten,
        ]
    }
}

/// How far along a run is, as a number: each stage is one more than the
/// stage before it.
pub open spec fn rank(progress: Progress) -> nat {
    match progress {
        Progress::AwaitingSource => 0,
        Progress::AwaitingDestination { .. } => 1,
        Progress::AwaitingWrite { .. } => 2,
        Progress::Finished { .. } => 3,
    }
}

/// A step never changes what was asked for, nor the time stamp.
pub proof fn lemma_request_kept(run: Run, events: Seq<EventView>)
    ensures
        run.after(events).request == run.request,
        run.after(events).stamp == run.stamp,
    decreases events.len(),
{
    if events.len() > 0 {
        lemma_request_kept(run.next(events.first()), events.drop_first());
    }
}

/// There is one way forward and no way back. An event that the run is not
/// waiting for changes nothing. One that it is waiting for moves it to the
/// next stage or to its end. So a run is over after at most three events
/// that it waited for, and a run that has ended waits for none.
pub proof fn lemma_forward_only(run: Run, event: EventView)
    ensures
        !run.awaits(event) ==> run.next(event) == run,
        run.awaits(event) ==> rank(run.next(event).progress) == rank(run.progress) + 1
            || run.next(event).progress is Finished,
        run.awaits(event) ==> rank(run.next(event).progress) > rank(run.progress),
        rank(run.next(event).progress) <= 3,
        run.progress is Finished ==> !run.awaits(event),
{
}

/// The file operations come in order. The destination is asked for only
/// when the source has been read, and then the run holds the bytes that
/// were read. The container is asked to be written only when the
/// destination has been created, and then it is the container of exactly
/// those bytes, under the source path as its name.
pub proof fn lemma_steps_in_order(run: Run, event: EventView)
    ensures
        run.next(event).pending() == Action::CreateDestination && run.pending()
            != Action::CreateDestination ==> run.pending() == Action::ReadSource && event
            == EventView::SourceRead(run.next(event).progress->AwaitingDestination_data),
        run.next(event).pending() == Action::WriteContainer && run.pending()
            != Action::WriteContainer ==> run.pending() == Action::CreateDestination && event
            == EventView::DestinationCreated && run.image_of(
            run.progress->AwaitingDestination_data,
        ) == Some(run.next(event).progress->AwaitingWrite_image),
{
}

/// The container that a run asks to be written holds exactly one entry: it
/// is named by the source path as given, holds the bytes that were read,
/// and carries the requested method, the fixed permission bits and the
/// run's time stamp.
pub proof fn lemma_written_container(run: Run, data: Seq<u8>, image: Seq<u8>)
    requires
        run.progress == (Progress::AwaitingDestination { data }),
        run.next(EventView::DestinationCreated).progress == (Progress::AwaitingWrite { image }),
    ensures
        sealed_image(seq![run.entry_of(data)]) == Some(image),
        run.entry_of(data).name == run.request.source,
        run.entry_of(data).data == data,
        run.entry_of(data).method == run.request.method,
        run.entry_of(data).mode == ENTRY_MODE,
{
    lemma_one_entry(
        run.request.source,
        data,
        run.request.method,
        ENTRY_MODE,
        run.stamp.normalized(),
    );
}

/// A run that has ended stays as it is, whatever is reported to it.
pub proof fn lemma_finished_is_final(run: Run, events: Seq<EventView>)
    requires
        run.progress is Finished,
    ensures
        run.after(events) == run,
    decreases events.len(),
{
    if events.len() > 0 {
        lemma_finished_is_final(run, events.drop_first());
    }
}

/// A run that has not been told that its source was read: it still waits
/// for the source, or it has ended because the source could not be read.
pub open spec fn source_unread(run: Run) -> bool {
    run.progress is AwaitingSource || run.progress == (Progress::Finished {
        outcome: Err(ArchiveError::SourceUnavailable),
    })
}

/// A run that has not been told that its destination was created: it holds
/// no container, and if it has ended, then because the source could not be
/// read or the destination not be created.
pub open spec fn destination_uncreated(run: Run) -> bool {
    match run.progress {
        Progress::AwaitingSource => true,
        Progress::AwaitingDestination { .. } => true,
        Progress::AwaitingWrite { .. } => false,
        Progress::Finished { outcome } => outcome == Err::<(), ArchiveError>(
            ArchiveError::SourceUnavailable,
        ) || outcome == Err::<(), ArchiveError>(ArchiveError::DestinationUnavailable),
    }
}

/// No event of the series says that the source was read.
pub open spec fn none_read(events: Seq<EventView>) -> bool {
    forall|i: int| 0 <= i < events.len() ==> !(#[trigger] events[i] is SourceRead)
}

/// When the source cannot be read, the destination is never asked for and
/// stays as it was. Whatever else is reported to a run, as long as no event
/// says that the source was read, the run still asks for the source or has
/// ended with `SourceUnavailable`; and it has ended so once the failure was
/// reported.
pub proof fn lemma_missing_source(run: Run, events: Seq<EventView>, before: Destination)
    requires
        source_unread(run),
        none_read(events),
    ensures
        source_unread(run.after(events)),
        run.after(events).pending() == Action::ReadSource || run.after(events).pending()
            == Action::Report(Err(ArchiveError::SourceUnavailable)),
        events.contains(EventView::SourceFailed) ==> run.after(events).pending() == Action::Report(
            Err(ArchiveError::SourceUnavailable),
        ),
        run.destination_along(events, before) == before,
    decreases events.len(),
{
    if events.len() > 0 {
        let rest = events.drop_first();
        assert forall|i: int| 0 <= i < rest.len() implies !(#[trigger] rest[i] is SourceRead) by {
            assert(rest[i] == events[i + 1]);
        }
        assert(!(events[0] is SourceRead));
        lemma_missing_source(run.next(events.first()), rest, before);
        if events.contains(EventView::SourceFailed) {
            let i = choose|i: int| 0 <= i < events.len() && events[i] == EventView::SourceFailed;
            if i == 0 {
                lemma_finished_is_final(run.next(events.first()), rest);
            } else {
                assert(rest[i - 1] == EventView::SourceFailed);
            }
        }
    }
}

/// When the destination cannot be created, nothing is written and what was
/// there stays. Whatever else is reported to a run, as long as no event
/// says that the destination was created, the run builds no container,
/// never asks for one to be written and never reports success: if it ends,
/// it ends with `SourceUnavailable` or `DestinationUnavailable`.
pub proof fn lemma_uncreated_destination(run: Run, events: Seq<EventView>, before: Destination)
    requires
        destination_uncreated(run),
        !events.contains(EventView::DestinationCreated),
    ensures
        destination_uncreated(run.after(events)),
        run.after(events).pending() != Action::WriteContainer,
        run.after(events).pending() != Action::Report(Ok(())),
        run.destination_along(events, before) == before,
    decreases events.len(),
{
    if events.len() > 0 {
        let rest = events.drop_first();
        assert(events[0] != EventView::DestinationCreated);
        assert forall|i: int| 0 <= i < rest.len() implies rest[i]
            != EventView::DestinationCreated by {
            assert(rest[i] == events[i + 1]);
        }
        lemma_uncreated_destination(run.next(events.first()), rest, before);
    }
}

/// When a run that waits for its destination is told that it could not be
/// created, the run ends with `DestinationUnavailable`. Whatever is
/// reported afterwards, it asks for nothing but that report, and the
/// request is as it was.
pub proof fn lemma_unwritable_destination(run: Run, later: Seq<EventView>)
    requires
        run.pending() == Action::CreateDestination,
    ensures
        run.next(EventView::DestinationFailed).after(later).pending() == Action::Report(
            Err(ArchiveError::DestinationUnavailable),
        ),
        run.next(EventView::DestinationFailed).after(later).request == run.request,
{
    lemma_finished_is_final(run.next(EventView::DestinationFailed), later);
}

/// A failure to build or to write the container ends the run with
/// `WriteFailed`.
pub proof fn lemma_write_failures(run: Run, data: Seq<u8>)
    ensures
        run.progress == (Progress::AwaitingDestination { data }) && run.image_of(data) is None
            ==> run.next(EventView::DestinationCreated).pending() == Action::Report(
            Err(ArchiveError::WriteFailed),
        ),
        run.pending() == Action::WriteContainer ==> run.next(EventView::ContainerFailed).pending()
            == Action::Report(Err(ArchiveError::WriteFailed)),
{
}

/// The run that meets no failure: the source is read, the destination is
/// created, the container of the source bytes is written, and success is
/// reported. The destination then holds the container and nothing else,
/// whatever it held before.
pub proof fn lemma_successful_run(
    request: RequestView,
    stamp: Timestamp,
    data: Seq<u8>,
    image: Seq<u8>,
    before: Destination,
)
    requires
        Run::fresh(request, stamp).image_of(data) == Some(image),
    ensures
        Run::fresh(request, stamp).after(seq![EventView::SourceRead(data)]).pending()
            == Action::CreateDestination,
        Run::fresh(request, stamp).after(
            seq![EventView::SourceRead(data), EventView::DestinationCreated],
        ).progress == (Progress::AwaitingWrite { image }),
        Run::fresh(request, stamp).after(Run::smooth(data)).pending() == Action::Report(Ok(())),
        Run::fresh(request, stamp).destination_along(Run::smooth(data), before)
            == Destination::Holds(image),
{
    let run = Run::fresh(request, stamp);
    let e1 = EventView::SourceRead(data);
    let e2 = EventView::DestinationCreated;
    let e3 = EventView::ContainerWritten;
    lemma_after_one(run, e1);
    lemma_after_push(run, seq![e1], e2);
    assert(seq![e1].push(e2) =~= seq![e1, e2]);
    lemma_after_push(run, seq![e1, e2], e3);
    assert(seq![e1, e2].push(e3) =~= seq![e1, e2, e3]);

    let all = Run::smooth(data);
    let two = all.drop_first();
    let one = two.drop_first();
    let none = one.drop_first();
    assert(two =~= seq![e2, e3]);
    assert(one =~= seq![e3]);
    assert(none =~= Seq::<EventView>::empty());
    let r1 = run.next(e1);
    let r2 = r1.next(e2);
    let r3 = r2.next(e3);
    let d1 = run.destination_after(e1, before);
    let d2 = r1.destination_after(e2, d1);
    let d3 = r2.destination_after(e3, d2);
    assert(d3 == Destination::Holds(Seq::<u8>::empty() + image));
    assert(Seq::<u8>::empty() + image =~= image);
    assert(r3.destination_along(none, d3) == d3);
    assert(r2.destination_along(one, d2) == d3);
    assert(r1.destination_along(two, d1) == d3);
    assert(run.destination_along(all, before) == d3);
}

/// Running twice on the same inputs gives the same result: two runs of one
/// request, stamped alike and told the same events, end alike, and where
/// they write a container it is the same bytes.
pub proof fn lemma_same_inputs_same_run(
    request: RequestView,
    first_stamp: Timestamp,
    second_stamp: Timestamp,
    events: Seq<EventView>,
)
    requires
        first_stamp.normalized() == second_stamp.normalized(),
    ensures
        Run::fresh(request, first_stamp).after(events) == Run::fresh(request, second_stamp).after(
            events,
        ),
{
}

/// A run that succeeded, run again: on the same request and the same source
/// bytes, stamped alike, the second run succeeds too, and the destination,
/// which held the first container, holds the same bytes afterwards. The
/// old bytes are replaced; nothing is put behind them.
pub proof fn lemma_rerun_overwrites_alike(
    request: RequestView,
    first_stamp: Timestamp,
    second_stamp: Timestamp,
    data: Seq<u8>,
    before: Destination,
)
    requires
        first_stamp.normalized() == second_stamp.normalized(),
        Run::fresh(request, first_stamp).after(Run::smooth(data)).pending() == Action::Report(
            Ok(()),
        ),
    ensures
        Run::fresh(request, first_stamp).image_of(data) is Some,
        Run::fresh(request, first_stamp).destination_along(Run::smooth(data), before)
            == Destination::Holds(Run::fresh(request, first_stamp).image_of(data)->0),
        Run::fresh(request, second_stamp).after(Run::smooth(data)).pending() == Action::Report(
            Ok(()),
        ),
        Run::fresh(request, second_stamp).destination_along(
            Run::smooth(data),
            Run::fresh(request, first_stamp).destination_along(Run::smooth(data), before),
        ) == Run::fresh(request, first_stamp).destination_along(Run::smooth(data), before),
{
    let first = Run::fresh(request, first_stamp);
    let second = Run::fresh(request, second_stamp);
    assert(first == second);
    if first.image_of(data) is None {
        let e1 = EventView::SourceRead(data);
        let e2 = EventView::DestinationCreated;
        let e3 = EventView::ContainerWritten;
        lemma_after_one(first, e1);
        lemma_after_push(first, seq![e1], e2);
        assert(seq![e1].push(e2) =~= seq![e1, e2]);
        lemma_after_push(first, seq![e1, e2], e3);
        assert(seq![e1, e2].push(e3) =~= seq![e1, e2, e3]);
        assert(false);
    }
    let image = first.image_of(data)->0;
    lemma_successful_run(request, first_stamp, data, image, before);
    lemma_successful_run(request, second_stamp, data, image, Destination::Holds(image));
}

/// Two runs of one request on the same source bytes, whatever their time
/// stamps: where both build a container, each is the sealed image of one
/// entry, and the two entries are alike in name, method, permission bits
/// and data. They differ in the time stamp at most, and where the stamps
/// are recorded alike the containers are the same bytes.
pub proof fn lemma_rerun_seals_same_entry(
    request: RequestView,
    first_stamp: Timestamp,
    second_stamp: Timestamp,
    data: Seq<u8>,
)
    requires
        Run::fresh(request, first_stamp).image_of(data) is Some,
        Run::fresh(request, second_stamp).image_of(data) is Some,
    ensures
        Run::fresh(request, first_stamp).image_of(data) == sealed_image(
            seq![Run::fresh(request, first_stamp).entry_of(data)],
        ),
        Run::fresh(request, second_stamp).image_of(data) == sealed_image(
            seq![Run::fresh(request, second_stamp).entry_of(data)],
        ),
        Run::fresh(request, first_stamp).entry_of(data) == (Entry {
            stamp: first_stamp.normalized(),
            ..Run::fresh(request, second_stamp).entry_of(data)
        }),
        first_stamp.normalized() == second_stamp.normalized() ==> Run::fresh(
            request,
            first_stamp,
        ).image_of(data) == Run::fresh(request, second_stamp).image_of(data),
{
    lemma_one_entry(request.source, data, request.method, ENTRY_MODE, first_stamp.normalized());
    lemma_one_entry(request.source, data, request.method, ENTRY_MODE, second_stamp.normalized());
}

/// A single event is one step.
pub proof fn lemma_after_one(run: Run, event: EventView)
    ensures
        run.after(seq![event]) == run.next(event),
{
    assert(seq![event].drop_first() =~= Seq::<EventView>::empty());
    assert(run.next(event).after(Seq::<EventView>::empty()) == run.next(event));
}

/// One more event at the end is one more step at the end.
pub proof fn lemma_after_push(run: Run, events: Seq<EventView>, event: EventView)
    ensures
        run.after(events.push(event)) == run.after(events).next(event),
    decreases events.len(),
{
    if events.len() == 0 {
        assert(events.push(event) =~= seq![event]);
        lemma_after_one(run, event);
    } else {
        assert(events.push(event).drop_first() =~= events.drop_first().push(event));
        lemma_after_push(run.next(events.first()), events.drop_first(), event);
    }
}

enum Stage {
    AwaitingSource,
    AwaitingDestination { data: Vec<u8> },
    AwaitingWrite { image: Vec<u8> },
    Finished { outcome: Result<(), ArchiveError> },
}

/// One archiving run.
pub struct Archiver {
    request: Request,
    stamp: Timestamp,
    stage: Stage,
}

impl View for Archiver {
    type V = Run;

    closed spec fn view(&self) -> Run {
        Run {
            request: self.request@,
            stamp: self.stamp,
            progress: match self.stage {
                Stage::AwaitingSource => Progress::AwaitingSource,
                Stage::AwaitingDestination { data } => Progress::AwaitingDestination { data: data@ },
                Stage::AwaitingWrite { image } => Progress::AwaitingWrite { image: image@ },
                Stage::Finished { outcome } => Progress::Finished { outcome },
            },
        }
    }
}

impl Archiver {
    /// Begins a run whose entry is stamped with `stamp`, or with the epoch
    /// if `stamp` cannot be recorded.
    pub fn start_at(request: Request, stamp: Timestamp) -> (r: Archiver)
        ensures
            r@ == Run::fresh(request@, stamp),
    {
        Archiver { request, stamp: stamp.normalize(), stage: Stage::AwaitingSource }
    }

    /// Begins a run whose entry is stamped with the current time. Which
    /// time that is, is the clock's business: the run is fresh and its stamp
    /// can be recorded.
    pub fn start(request: Request) -> (r: Archiver)
        ensures
            r@.stamp.valid(),
            r@ == Run::fresh(request@, r@.stamp),
    {
        Archiver::start_at(request, clock_reading())
    }

    /// What was asked for.
    pub fn request(&self) -> (r: &Request)
        ensures
            r@ == self@.request,
    {
        &self.request
    }

    /// The time the entry is stamped with.
    pub fn stamp(&self) -> (r: Timestamp)
        ensures
            r == self@.stamp,
    {
        self.stamp
    }

    /// What the driver is to do next.
    pub fn pending(&self) -> (action: Action)
        ensures
            action == self@.pending(),
    {
        match &self.stage {
            Stage::AwaitingSource => Action::ReadSource,
            Stage::AwaitingDestination { .. } => Action::CreateDestination,
            Stage::AwaitingWrite { .. } => Action::WriteContainer,
            Stage::Finished { outcome } => Action::Report(*outcome),
        }
    }

    /// The bytes to write, while the run waits for them to be written.
    pub fn container(&self) -> (r: Option<&[u8]>)
        ensures
            r matches Some(bytes) ==> self@.progress == (Progress::AwaitingWrite { image: bytes@ }),
            r is None ==> !(self@.progress is AwaitingWrite),
    {
        match &self.stage {
            Stage::AwaitingWrite { image } => Some(image.as_slice()),
            _ => None,
        }
    }

    /// How the run ended, once it has.
    pub fn outcome(&self) -> (r: Option<Result<(), ArchiveError>>)
        ensures
            r matches Some(outcome) ==> self@.progress == (Progress::Finished { outcome }),
            r is None ==> !(self@.progress is Finished),
    {
        match &self.stage {
            Stage::Finished { outcome } => Some(*outcome),
            _ => None,
        }
    }

    /// Continues a run whose destination exists with what the writer
    /// produced: the container bytes, or `None` for a failure.
    pub fn accept_container(&mut self, image: Option<Vec<u8>>) -> (action: Action)
        ensures
            final(self)@ == old(self)@.with_container(
                match image {
                    Some(bytes) => Some(bytes@),
                    None => None,
                },
            ),
            action == final(self)@.pending(),
    {
        if let Stage::AwaitingDestination { .. } = &self.stage {
            match image {
                Some(bytes) => {
                    self.stage = Stage::AwaitingWrite { image: bytes };
                },
                None => {
                    self.stage = Stage::Finished { outcome: Err(ArchiveError::WriteFailed) };
                },
            }
        }
        self.pending()
    }

    /// Takes one event and says what to do next. When the destination has
    /// been created, the container is built here, from the source bytes
    /// that the run holds.
    pub fn advance(&mut self, event: Event) -> (action: Action)
        ensures
            final(self)@ == old(self)@.next(event@),
            action == final(self)@.pending(),
    {
        match &self.stage {
            Stage::AwaitingSource => match event {
                Event::SourceRead(data) => {
                    self.stage = Stage::AwaitingDestination { data };
                },
                Event::SourceFailed => {
                    self.stage = Stage::Finished { outcome: Err(ArchiveError::SourceUnavailable) };
                },
                _ => {},
            },
            Stage::AwaitingDestination { data } => match event {
                Event::DestinationCreated => {
                    let built = build_container(
                        self.request.source.as_str(),
                        data.as_slice(),
                        self.request.method,
                        self.stamp,
                    );
                    let image = match built {
                        Ok(bytes) => Some(bytes),
                        Err(_) => None,
                    };
                    return self.accept_container(image);
                },
                Event::DestinationFailed => {
                    self.stage = Stage::Finished {
                        outcome: Err(ArchiveError::DestinationUnavailable),
                    };
                },
                _ => {},
            },
            Stage::AwaitingWrite { .. } => match event {
                Event::ContainerWritten => {
                    self.stage = Stage::Finished { outcome: Ok(()) };
                },
                Event::ContainerFailed => {
                    self.stage = Stage::Finished { outcome: Err(ArchiveError::WriteFailed) };
                },
                _ => {},
            },
            Stage::Finished { .. } => {},
        }
        self.pending()
    }
}

} // verus!
