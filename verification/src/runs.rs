//! Runs of the loader: what it answers to a whole sequence of reports, and
//! what holds of every run.

use crate::entity::{Entity, Kind};
use crate::loader::{initial, next, stop, ActionView, Event, LoaderState, OutcomeView, Phase};
use crate::rows::{rows_of, ResidualTagView};
use vstd::prelude::*;

verus! {

/// The state that a loader reaches from `state` through `events`.
pub open spec fn after<C>(state: LoaderState, events: Seq<Event<C>>) -> LoaderState
    decreases events.len(),
{
    if events.len() == 0 {
        state
    } else {
        next(after(state, events.drop_last()), events.last()).0
    }
}

/// The actions with which a loader in `state` answers `events`, one for each
/// event.
pub open spec fn replies<C>(state: LoaderState, events: Seq<Event<C>>) -> Seq<ActionView<C>>
    decreases events.len(),
{
    if events.len() == 0 {
        Seq::empty()
    } else {
        replies(state, events.drop_last()).push(
            next(after(state, events.drop_last()), events.last()).1,
        )
    }
}

/// Every event has its answer.
pub proof fn lemma_replies_len<C>(state: LoaderState, events: Seq<Event<C>>)
    ensures
        replies(state, events).len() == events.len(),
    decreases events.len(),
{
    if events.len() > 0 {
        lemma_replies_len(state, events.drop_last());
    }
}

/// The answer to the event at `at` is what the loader says in the state that
/// the events before it lead to.
pub proof fn lemma_reply_at<C>(state: LoaderState, events: Seq<Event<C>>, at: int)
    requires
        0 <= at < events.len(),
    ensures
        replies(state, events).len() == events.len(),
        replies(state, events)[at] == next(after(state, events.take(at)), events[at]).1,
    decreases events.len(),
{
    lemma_replies_len(state, events);
    lemma_replies_len(state, events.drop_last());
    if at == events.len() - 1 {
        assert(events.take(at) =~= events.drop_last());
    } else {
        lemma_reply_at(state, events.drop_last(), at);
        assert(events.drop_last().take(at) =~= events.take(at));
    }
}

/// A run in two parts: the second part starts where the first one ends.
pub proof fn lemma_run_in_two_parts<C>(
    state: LoaderState,
    first: Seq<Event<C>>,
    second: Seq<Event<C>>,
)
    ensures
        after(state, first + second) == after(after(state, first), second),
        replies(state, first + second) == replies(state, first) + replies(
            after(state, first),
            second,
        ),
    decreases second.len(),
{
    if second.len() == 0 {
        assert(first + second =~= first);
        assert(replies(state, first) + Seq::<ActionView<C>>::empty() =~= replies(state, first));
    } else {
        lemma_run_in_two_parts(state, first, second.drop_last());
        assert((first + second).drop_last() =~= first + second.drop_last());
        assert((first + second).last() == second.last());
        assert(replies(state, first + second) =~= replies(state, first) + replies(
            after(state, first),
            second,
        ));
    }
}

/// A record that the classifier rejects leaves the loader as it was and is
/// answered by a request for the next record: nothing is written for it.
pub proof fn law_rejected_records_write_nothing<C>(state: LoaderState, entity: Entity<C>)
    requires
        state.phase is Decoding,
        rows_of(entity) is None,
    ensures
        next(state, Event::Decoded(entity)) == (state, ActionView::<C>::Decode),
{
}

/// A failure of the decoder or of the store ends the run at once, with the
/// message that came with it, and what was still queued is dropped.
pub proof fn law_failures_end_the_run<C>(state: LoaderState, message: String)
    ensures
        state.phase is Decoding ==> next(state, Event::<C>::DecodeFailed(message)) == stop::<C>(
            OutcomeView::DecodeFailed(message@),
        ),
        state.phase is Writing ==> next(state, Event::<C>::WriteFailed(message)) == stop::<C>(
            OutcomeView::WriteFailed(message@),
        ),
{
}

/// A run that is over stays over: whatever the host reports afterwards, the
/// loader keeps its state and answers with the same outcome. In particular
/// nothing is written after a failure.
pub proof fn law_finished_runs_stay_finished<C>(state: LoaderState, events: Seq<Event<C>>)
    requires
        state.phase is Finished,
    ensures
        after(state, events) == state,
        replies(state, events).len() == events.len(),
        forall|i: int|
            0 <= i < events.len() ==> #[trigger] replies(state, events)[i]
                == ActionView::<C>::Exit(state.phase->Finished_0),
    decreases events.len(),
{
    if events.len() > 0 {
        law_finished_runs_stay_finished(state, events.drop_last());
    }
}

/// Whatever the host reports: once the loader has said that the run is over,
/// it says nothing else. After a failure no row is asked for any more, and no
/// record either.
pub proof fn law_exit_is_final<C>(events: Seq<Event<C>>, i: int, j: int)
    requires
        0 <= i <= j < events.len(),
        replies(initial(), events)[i] is Exit,
    ensures
        replies(initial(), events)[j] == replies(initial(), events)[i],
{
    if i < j {
        let first = events.take(i + 1);
        let second = events.skip(i + 1);
        let finished = after(initial(), first);
        lemma_reply_at(initial(), events, i);
        assert(first.drop_last() =~= events.take(i));
        assert(first.last() == events[i]);
        assert(finished.phase is Finished);
        assert(events =~= first + second);
        lemma_run_in_two_parts(initial(), first, second);
        lemma_replies_len(initial(), first);
        law_finished_runs_stay_finished(finished, second);
        assert(replies(initial(), events)[j] == replies(finished, second)[j - (i + 1)]);
    }
}

/// The tag rows that wait in the queue belong to a point row that has been
/// asked for already.
spec fn queue_has_its_point<C>(state: LoaderState, sent: Seq<ActionView<C>>) -> bool {
    state.pending.len() > 0 ==> exists|i: int|
        0 <= i < sent.len() && (#[trigger] sent[i]) is InsertPoint && forall|k: int|
            0 <= k < state.pending.len() ==> (#[trigger] state.pending[k]).point_id
                == sent[i]->InsertPoint_0.id
}

proof fn lemma_queue_has_its_point<C>(events: Seq<Event<C>>)
    ensures
        queue_has_its_point(after(initial(), events), replies(initial(), events)),
    decreases events.len(),
{
    if events.len() > 0 {
        let before = events.drop_last();
        let state = after(initial(), before);
        let sent = replies(initial(), before);
        let now = after(initial(), events);
        lemma_queue_has_its_point(before);
        lemma_replies_len(initial(), before);
        if now.pending.len() > 0 {
            if state.phase is Decoding && events.last() is Decoded && rows_of(
                events.last()->Decoded_0,
            ) is Some {
                assert(replies(initial(), events)[sent.len() as int] is InsertPoint);
            } else {
                let i = choose|i: int|
                    0 <= i < sent.len() && (#[trigger] sent[i]) is InsertPoint && forall|k: int|
                        0 <= k < state.pending.len() ==> (#[trigger] state.pending[k]).point_id
                            == sent[i]->InsertPoint_0.id;
                assert(replies(initial(), events)[i] == sent[i]);
                assert forall|k: int| 0 <= k < now.pending.len() implies (
                #[trigger] now.pending[k]).point_id == sent[i]->InsertPoint_0.id by {
                    if now.pending != state.pending {
                        assert(now.pending[k] == state.pending[k + 1]);
                    }
                }
            }
        }
    }
}

/// Whatever the host reports, and however the run goes, the loader asks for
/// a tag row only after it has asked for the point row whose identifier the
/// tag row carries.
pub proof fn law_no_tag_row_before_its_point_row<C>(events: Seq<Event<C>>, j: int)
    requires
        0 <= j < events.len(),
        replies(initial(), events)[j] is InsertTag,
    ensures
        exists|i: int|
            0 <= i < j && (#[trigger] replies(initial(), events)[i]) is InsertPoint
                && replies(initial(), events)[i]->InsertPoint_0.id
                == replies(initial(), events)[j]->InsertTag_0.point_id,
{
    let before = events.take(j);
    let state = after(initial(), before);
    let sent = replies(initial(), before);
    lemma_reply_at(initial(), events, j);
    lemma_queue_has_its_point(before);
    lemma_replies_len(initial(), before);
    let i = choose|i: int|
        0 <= i < sent.len() && (#[trigger] sent[i]) is InsertPoint && forall|k: int|
            0 <= k < state.pending.len() ==> (#[trigger] state.pending[k]).point_id
                == sent[i]->InsertPoint_0.id;
    assert(state.pending[0].point_id == sent[i]->InsertPoint_0.id);
    lemma_reply_at(initial(), events, i);
    lemma_reply_at(initial(), before, i);
    assert(before.take(i) =~= events.take(i));
}

/// What a host reports while it serves one record and the store takes every
/// row: the record, and an acknowledgement for each of its rows.
pub open spec fn served<C>(entity: Entity<C>) -> Seq<Event<C>> {
    match rows_of(entity) {
        Some(rows) => seq![Event::Decoded(entity)] + Seq::new(
            rows.tags.len() + 1,
            |i: int| Event::Written,
        ),
        None => seq![Event::Decoded(entity)],
    }
}

/// What an object asks of the host: nothing but the next record where it is
/// rejected, else its point row, then its tag rows in their order, then the
/// next record.
pub open spec fn asked<C>(entity: Entity<C>) -> Seq<ActionView<C>> {
    match rows_of(entity) {
        Some(rows) => seq![ActionView::InsertPoint(rows.point)] + Seq::new(
            rows.tags.len(),
            |i: int| ActionView::InsertTag(rows.tags[i]),
        ) + seq![ActionView::Decode],
        None => seq![ActionView::Decode],
    }
}

/// What a host reports over a whole stream that decodes without error into
/// `entities`, while the store takes every row.
pub open spec fn stream_served<C>(entities: Seq<Entity<C>>) -> Seq<Event<C>>
    decreases entities.len(),
{
    if entities.len() == 0 {
        Seq::empty()
    } else {
        stream_served(entities.drop_last()) + served(entities.last())
    }
}

/// What the objects of a stream ask of the host, in the order of the stream.
pub open spec fn stream_asked<C>(entities: Seq<Entity<C>>) -> Seq<ActionView<C>>
    decreases entities.len(),
{
    if entities.len() == 0 {
        Seq::empty()
    } else {
        stream_asked(entities.drop_last()) + asked(entities.last())
    }
}

/// While the store takes every row, the queued tag rows are asked for one by
/// one from the front, and after the last of them the next record.
proof fn lemma_queue_is_written_in_order<C>(tags: Seq<ResidualTagView>, count: nat)
    requires
        count <= tags.len() + 1,
    ensures
        ({
            let writing = LoaderState { phase: Phase::Writing, pending: tags };
            let events = Seq::new(tags.len() + 1, |i: int| Event::<C>::Written).take(count as int);
            &&& replies(writing, events).len() == count
            &&& forall|i: int|
                0 <= i < count ==> #[trigger] replies(writing, events)[i] == if i < tags.len() {
                    ActionView::<C>::InsertTag(tags[i])
                } else {
                    ActionView::<C>::Decode
                }
            &&& after(writing, events) == if count <= tags.len() {
                LoaderState { phase: Phase::Writing, pending: tags.skip(count as int) }
            } else {
                LoaderState { phase: Phase::Decoding, pending: tags.skip(tags.len() as int) }
            }
        }),
    decreases count,
{
    let all = Seq::new(tags.len() + 1, |i: int| Event::<C>::Written);
    let events = all.take(count as int);
    if count == 0 {
        assert(tags.skip(0) =~= tags);
    } else {
        lemma_queue_is_written_in_order::<C>(tags, (count - 1) as nat);
        assert(events.drop_last() =~= all.take(count - 1));
        assert(events.last() == Event::<C>::Written);
        if count <= tags.len() {
            assert(tags.skip(count - 1).drop_first() =~= tags.skip(count as int));
        } else {
            assert(tags.skip(count - 1) =~= tags.skip(tags.len() as int));
        }
    }
}

/// While an accepted record is served, the loader asks for its point row
/// first and for its tag rows after that, in their order, and only then for
/// the next record.
pub proof fn law_point_row_then_tag_rows<C>(entity: Entity<C>)
    ensures
        replies(initial(), served(entity)) == asked(entity),
        after(initial(), served(entity)) == initial(),
{
    let decoded = seq![Event::Decoded(entity)];
    assert(decoded.drop_last() =~= Seq::<Event<C>>::empty());
    assert(after(initial(), decoded.drop_last()) == initial());
    assert(replies(initial(), decoded.drop_last()) =~= Seq::<ActionView<C>>::empty());
    match rows_of(entity) {
        Some(rows) => {
            let written = Seq::new(rows.tags.len() + 1, |i: int| Event::<C>::Written);
            let writing = LoaderState { phase: Phase::Writing, pending: rows.tags };
            assert(after(initial(), decoded) == writing);
            assert(replies(initial(), decoded) =~= seq![ActionView::InsertPoint(rows.point)]);
            lemma_run_in_two_parts(initial(), decoded, written);
            lemma_queue_is_written_in_order::<C>(rows.tags, rows.tags.len() + 1);
            assert(written.take(written.len() as int) =~= written);
            assert(rows.tags.skip(rows.tags.len() as int) =~= Seq::empty());
            assert(asked(entity) =~= replies(initial(), decoded) + replies(writing, written));
        },
        None => {
            assert(replies(initial(), decoded) =~= seq![ActionView::<C>::Decode]);
        },
    }
}

/// A run over a stream that decodes without error, against a store that
/// takes every row: the loader asks for the rows of each accepted object in
/// the order of the stream, each object's point row before its tag rows and
/// all of them before anything of the next object, and for nothing else. At
/// the end of the stream the run completes.
pub proof fn law_rows_follow_the_stream<C>(entities: Seq<Entity<C>>)
    ensures
        replies(initial(), stream_served(entities)) == stream_asked(entities),
        after(initial(), stream_served(entities)) == initial(),
        next(after(initial(), stream_served(entities)), Event::<C>::EndOfStream) == stop::<C>(
            OutcomeView::Completed,
        ),
    decreases entities.len(),
{
    if entities.len() > 0 {
        law_rows_follow_the_stream(entities.drop_last());
        law_point_row_then_tag_rows(entities.last());
        lemma_run_in_two_parts(
            initial(),
            stream_served(entities.drop_last()),
            served(entities.last()),
        );
    }
}

/// Every point row that a stream asks for carries the identifier of one of
/// its points.
pub proof fn law_point_rows_come_from_points<C>(entities: Seq<Entity<C>>, j: int)
    requires
        0 <= j < stream_asked(entities).len(),
        stream_asked(entities)[j] is InsertPoint,
    ensures
        exists|k: int|
            0 <= k < entities.len() && (#[trigger] entities[k]).kind() == Kind::Point
                && entities[k].id() == stream_asked(entities)[j]->InsertPoint_0.id,
    decreases entities.len(),
{
    let rest = entities.drop_last();
    let before = stream_asked(rest);
    if j < before.len() {
        law_point_rows_come_from_points(rest, j);
        let k = choose|k: int|
            0 <= k < rest.len() && (#[trigger] rest[k]).kind() == Kind::Point && rest[k].id()
                == before[j]->InsertPoint_0.id;
        assert(entities[k] == rest[k]);
    } else {
        assert(entities[entities.len() - 1].kind() == Kind::Point);
    }
}

/// Where the points of a stream have identifiers of their own, so have the
/// point rows that it asks for: no identifier is written twice in one run.
/// Ways and relations may share identifiers with points and with each other.
pub proof fn law_point_rows_have_ids_of_their_own<C>(entities: Seq<Entity<C>>, i: int, j: int)
    requires
        forall|a: int, b: int|
            0 <= a < b < entities.len() && (#[trigger] entities[a]).kind() == Kind::Point
                && (#[trigger] entities[b]).kind() == Kind::Point
                ==> entities[a].id() != entities[b].id(),
        0 <= i < j < stream_asked(entities).len(),
        stream_asked(entities)[i] is InsertPoint,
        stream_asked(entities)[j] is InsertPoint,
    ensures
        stream_asked(entities)[i]->InsertPoint_0.id != stream_asked(entities)[j]->InsertPoint_0.id,
    decreases entities.len(),
{
    let rest = entities.drop_last();
    let before = stream_asked(rest);
    assert forall|a: int, b: int|
        0 <= a < b < rest.len() && (#[trigger] rest[a]).kind() == Kind::Point
            && (#[trigger] rest[b]).kind() == Kind::Point implies rest[a].id() != rest[b].id() by {
        assert(rest[a] == entities[a] && rest[b] == entities[b]);
    }
    if j < before.len() {
        law_point_rows_have_ids_of_their_own(rest, i, j);
    } else if i < before.len() {
        law_point_rows_come_from_points(rest, i);
        let k = choose|k: int|
            0 <= k < rest.len() && (#[trigger] rest[k]).kind() == Kind::Point && rest[k].id()
                == before[i]->InsertPoint_0.id;
        assert(rest[k] == entities[k]);
        assert(entities[entities.len() - 1].kind() == Kind::Point);
    }
}

} // verus!
