//! The load orchestrator, as a machine that the host drives.
//!
//! Reading the stream and writing to the store are the host's work. The
//! loader decides what is to be done next: the host does it, reports what
//! came of it, and is told the next thing to do. A run begins with the host
//! decoding a record.

use crate::entity::Entity;
use crate::rows::{
    build_rows, rows_of, tags_view, PointRecord, PointRecordView, ResidualTag, ResidualTagView,
    Rows,
};
use std::collections::VecDeque;
use vstd::prelude::*;

verus! {

/// How a run ended.
#[derive(Debug, PartialEq, Eq)]
pub enum Outcome {
    /// The stream was read to its end and every row was written.
    Completed,
    /// The decoder failed on a record; its message.
    DecodeFailed(String),
    /// The store refused a write; its message.
    WriteFailed(String),
    /// The host reported something that the loader had not asked for.
    OutOfTurn,
}

/// An outcome as specifications see it.
pub enum OutcomeView {
    Completed,
    DecodeFailed(Seq<char>),
    WriteFailed(Seq<char>),
    OutOfTurn,
}

impl View for Outcome {
    type V = OutcomeView;

    open spec fn view(&self) -> OutcomeView {
        match self {
            Outcome::Completed => OutcomeView::Completed,
            Outcome::DecodeFailed(message) => OutcomeView::DecodeFailed(message@),
            Outcome::WriteFailed(message) => OutcomeView::WriteFailed(message@),
            Outcome::OutOfTurn => OutcomeView::OutOfTurn,
        }
    }
}

impl Outcome {
    /// The exit code of the process: zero for a run that completed, one for
    /// any failure.
    pub fn exit_code(&self) -> (code: i32)
        ensures
            code == if self@ is Completed { 0i32 } else { 1i32 },
    {
        match self {
            Outcome::Completed => 0,
            _ => 1,
        }
    }

    fn duplicate(&self) -> (copy: Outcome)
        ensures
            copy@ == self@,
    {
        match self {
            Outcome::Completed => Outcome::Completed,
            Outcome::DecodeFailed(message) => Outcome::DecodeFailed(message.clone()),
            Outcome::WriteFailed(message) => Outcome::WriteFailed(message.clone()),
            Outcome::OutOfTurn => Outcome::OutOfTurn,
        }
    }
}

/// What the host reports.
#[derive(Debug)]
pub enum Event<C> {
    /// The decoder gave the next record.
    Decoded(Entity<C>),
    /// The decoder reached the end of the stream.
    EndOfStream,
    /// The decoder failed; its message.
    DecodeFailed(String),
    /// The store took the row.
    Written,
    /// The store refused the row; its message.
    WriteFailed(String),
}

/// What the host is to do next.
#[derive(Debug, PartialEq)]
pub enum Action<C> {
    /// Decode the next record.
    Decode,
    /// Insert this row into the table of points.
    InsertPoint(PointRecord<C>),
    /// Insert this row into the table of tags.
    InsertTag(ResidualTag),
    /// Stop: the run is over.
    Exit(Outcome),
}

/// An action as specifications see it.
pub enum ActionView<C> {
    Decode,
    InsertPoint(PointRecordView<C>),
    InsertTag(ResidualTagView),
    Exit(OutcomeView),
}

impl<C> View for Action<C> {
    type V = ActionView<C>;

    open spec fn view(&self) -> ActionView<C> {
        match self {
            Action::Decode => ActionView::Decode,
            Action::InsertPoint(point) => ActionView::InsertPoint(point@),
            Action::InsertTag(tag) => ActionView::InsertTag(tag@),
            Action::Exit(outcome) => ActionView::Exit(outcome@),
        }
    }
}

/// Where a run stands.
pub enum Phase {
    /// The host is decoding a record.
    Decoding,
    /// The host is writing a row.
    Writing,
    /// The run is over.
    Finished(OutcomeView),
}

/// The state of a loader: where the run stands, and the tag rows of the
/// current point that are still to be written.
pub struct LoaderState {
    pub phase: Phase,
    pub pending: Seq<ResidualTagView>,
}

/// The state in which every run begins.
pub open spec fn initial() -> LoaderState {
    LoaderState { phase: Phase::Decoding, pending: Seq::empty() }
}

/// The end of a run: nothing is pending any more, and the host is told to
/// stop.
pub open spec fn stop<C>(outcome: OutcomeView) -> (LoaderState, ActionView<C>) {
    (
        LoaderState { phase: Phase::Finished(outcome), pending: Seq::empty() },
        ActionView::Exit(outcome),
    )
}

/// The transition of the loader: the state after `event`, and the action
/// that answers it.
///
/// While decoding, a record that the classifier rejects is passed over; an
/// accepted one has its point row written at once and its tag rows queued.
/// While writing, each acknowledgement releases the next queued tag row, and
/// the last one sends the host back to the decoder. A failure of the decoder
/// or of the store ends the run on the spot, and so does a report that does
/// not answer what was asked. A run that is over stays over.
pub open spec fn next<C>(state: LoaderState, event: Event<C>) -> (LoaderState, ActionView<C>) {
    match state.phase {
        Phase::Finished(outcome) => (state, ActionView::Exit(outcome)),
        Phase::Decoding => match event {
            Event::Decoded(entity) => match rows_of(entity) {
                Some(rows) => (
                    LoaderState { phase: Phase::Writing, pending: rows.tags },
                    ActionView::InsertPoint(rows.point),
                ),
                None => (state, ActionView::Decode),
            },
            Event::EndOfStream => stop(OutcomeView::Completed),
            Event::DecodeFailed(message) => stop(OutcomeView::DecodeFailed(message@)),
            _ => stop(OutcomeView::OutOfTurn),
        },
        Phase::Writing => match event {
            Event::Written => if state.pending.len() > 0 {
                (
                    LoaderState { phase: Phase::Writing, pending: state.pending.drop_first() },
                    ActionView::InsertTag(state.pending.first()),
                )
            } else {
                (LoaderState { phase: Phase::Decoding, pending: state.pending }, ActionView::Decode)
            },
            Event::WriteFailed(message) => stop(OutcomeView::WriteFailed(message@)),
            _ => stop(OutcomeView::OutOfTurn),
        },
    }
}

enum Progress {
    Decoding,
    Writing,
    Finished(Outcome),
}

/// The orchestrator of one run.
pub struct Loader {
    progress: Progress,
    pending: VecDeque<ResidualTag>,
}

impl View for Loader {
    type V = LoaderState;

    closed spec fn view(&self) -> LoaderState {
        LoaderState {
            phase: match self.progress {
                Progress::Decoding => Phase::Decoding,
                Progress::Writing => Phase::Writing,
                Progress::Finished(outcome) => Phase::Finished(outcome@),
            },
            pending: tags_view(self.pending@),
        }
    }
}

/// Moves tag rows into a queue, keeping their order.
fn queue_of(tags: Vec<ResidualTag>) -> (queue: VecDeque<ResidualTag>)
    ensures
        queue@ == tags@,
{
    let mut queue: VecDeque<ResidualTag> = VecDeque::new();
    for tag in it: tags
        invariant
            queue@ == tags@.take(it.index() as int),
    {
        queue.push_back(tag);
    }
    queue
}

impl Loader {
    /// A loader at the start of a run.
    pub fn new() -> (loader: Loader)
        ensures
            loader@ == initial(),
    {
        let loader = Loader { progress: Progress::Decoding, pending: VecDeque::new() };
        assert(loader@.pending =~= Seq::empty());
        loader
    }

    /// Ends the run with `outcome`.
    fn finish<C>(&mut self, outcome: Outcome) -> (action: Action<C>)
        ensures
            (final(self)@, action@) == stop::<C>(outcome@),
    {
        self.pending = VecDeque::new();
        self.progress = Progress::Finished(outcome.duplicate());
        assert(self@.pending =~= Seq::empty());
        Action::Exit(outcome)
    }

    /// Takes in what the host reports and says what it is to do next.
    pub fn step<C: Copy>(&mut self, event: Event<C>) -> (action: Action<C>)
        ensures
            (final(self)@, action@) == next(old(self)@, event),
    {
        match &self.progress {
            Progress::Finished(outcome) => Action::Exit(outcome.duplicate()),
            Progress::Decoding => match event {
                Event::Decoded(entity) => match build_rows(&entity) {
                    Some(Rows { point, tags }) => {
                        self.pending = queue_of(tags);
                        self.progress = Progress::Writing;
                        Action::InsertPoint(point)
                    },
                    None => Action::Decode,
                },
                Event::EndOfStream => self.finish(Outcome::Completed),
                Event::DecodeFailed(message) => self.finish(Outcome::DecodeFailed(message)),
                _ => self.finish(Outcome::OutOfTurn),
            },
            Progress::Writing => match event {
                Event::Written => match self.pending.pop_front() {
                    Some(tag) => {
                        assert(self@.pending =~= old(self)@.pending.drop_first());
                        Action::InsertTag(tag)
                    },
                    None => {
                        self.progress = Progress::Decoding;
                        Action::Decode
                    },
                },
                Event::WriteFailed(message) => self.finish(Outcome::WriteFailed(message)),
                _ => self.finish(Outcome::OutOfTurn),
            },
        }
    }
}

} // verus!
