//! What holds of every run of the import operation, whatever the caller
//! reports and in whatever order.

use crate::importer::{
    Collection, ImportAction, ImportEvent, ImportStatus, ImporterModel, LaneModel, Task, TaskState,
};
use crate::relationship::{asserted, LocalRelationship, ObjectKind};
use vstd::prelude::*;

verus! {

/// The table of relationships after the caller has carried out `actions`, in
/// order, and every write has succeeded.
pub open spec fn applied(
    table: Set<LocalRelationship>,
    actions: Seq<ImportAction>,
) -> Set<LocalRelationship>
    decreases actions.len(),
{
    if actions.len() == 0 {
        table
    } else {
        let before = applied(table, actions.drop_last());
        match actions.last() {
            ImportAction::Write { row, .. } => asserted(before, row),
            _ => before,
        }
    }
}

/// An event leaves the importing person and the references as they are, and
/// a well-formed state well-formed.
pub proof fn lemma_step_keeps_shape(s: ImporterModel, event: ImportEvent)
    requires
        s.wf(),
    ensures
        s.after(event).wf(),
        s.after(event).subject == s.subject,
        s.after(event).started == s.started,
        forall|c: Collection| #[trigger] s.after(event).lane(c).refs == s.lane(c).refs,
{
    let c = event.spec_task().collection;
    if s.accepts(event) {
        let lane = s.lane(c).after(event, c.spec_may_fetch());
        assert(lane.refs == s.lane(c).refs);
        assert(lane.wf());
    }
}

/// Any number of events leaves the importing person and the references as
/// they are, and a well-formed state well-formed.
pub proof fn lemma_run_keeps_shape(s: ImporterModel, events: Seq<ImportEvent>)
    requires
        s.wf(),
    ensures
        s.after_all(events).wf(),
        s.after_all(events).subject == s.subject,
        s.after_all(events).started == s.started,
        forall|c: Collection| #[trigger] s.after_all(events).lane(c).refs == s.lane(c).refs,
    decreases events.len(),
{
    if events.len() > 0 {
        lemma_run_keeps_shape(s, events.drop_last());
        lemma_step_keeps_shape(s.after_all(events.drop_last()), events.last());
    }
}

/// A blocked community or a blocked person is never fetched: every request
/// that the start hands out for one of the two block lists is a local
/// lookup, and a fetch is requested only for a followed community or a saved
/// post.
pub proof fn lemma_blocks_are_never_fetched(s: ImporterModel, k: int)
    requires
        0 <= k < s.resolutions().len(),
    ensures
        match s.resolutions()[k] {
            ImportAction::Fetch(t) => t.collection is FollowedCommunities
                || t.collection is SavedPosts,
            ImportAction::LookUpLocally(t) => t.collection is BlockedCommunities
                || t.collection is BlockedUsers,
            ImportAction::Write { .. } => false,
        },
{
}

/// Nothing but a write is ever asked for in answer to an event, so no event
/// can make the operation fetch anything.
pub proof fn lemma_answers_are_writes(s: ImporterModel, events: Seq<ImportEvent>, k: int)
    requires
        0 <= k < s.writes(events).len(),
    ensures
        s.writes(events)[k] is Write,
    decreases events.len(),
{
    if events.len() > 0 {
        let before = events.drop_last();
        if k < s.writes(before).len() {
            lemma_answers_are_writes(s, before, k);
        }
    }
}

/// A reference of a block list that names nothing known locally is passed
/// over: nothing is written for it, no collection fails, and no failure
/// goes on record.
pub proof fn lemma_unknown_reference_is_skipped(s: ImporterModel, task: Task)
    ensures
        s.answer(ImportEvent::UnknownLocally(task)) is None,
        s.after(ImportEvent::UnknownLocally(task)).first_error == s.first_error,
        forall|c: Collection| #[trigger]
            s.after(ImportEvent::UnknownLocally(task)).lane(c).aborted == s.lane(c).aborted,
{
}

/// Only a failed fetch or a failed write makes an import fail: as long as no
/// event reports a failure, no failure is on record, however many
/// references are unknown locally.
pub proof fn lemma_only_failures_fail(s: ImporterModel, events: Seq<ImportEvent>)
    requires
        forall|j: int| 0 <= j < events.len() ==> (#[trigger] events[j]).spec_failure() is None,
    ensures
        s.after_all(events).first_error == s.first_error,
        !(s.first_error is Some) ==> !(s.after_all(events).status() is Failed),
    decreases events.len(),
{
    if events.len() > 0 {
        let before = events.drop_last();
        assert forall|j: int| 0 <= j < before.len() implies (#[trigger] before[j]).spec_failure()
            is None by {
            assert(before[j] == events[j]);
        }
        lemma_only_failures_fail(s, before);
        assert(events.last() == events[events.len() - 1]);
    }
}

/// Before its start the operation takes nothing up: it stays pending, and
/// no write is asked for.
pub proof fn lemma_pending_until_started(s: ImporterModel, events: Seq<ImportEvent>)
    requires
        !s.started,
    ensures
        s.after_all(events) == s,
        s.writes(events).len() == 0,
        s.status() is Pending,
    decreases events.len(),
{
    if events.len() > 0 {
        lemma_pending_until_started(s, events.drop_last());
    }
}

/// Once the operation has completed or failed, no event changes it or asks
/// for anything.
pub proof fn lemma_finished_is_final(s: ImporterModel, event: ImportEvent)
    requires
        s.wf(),
        s.status() is Completed || s.status() is Failed,
    ensures
        s.after(event) == s,
        s.answer(event) is None,
{
    let c = event.spec_task().collection;
    assert(s.lane(c).settled());
}

/// An event touches no collection but its own: a failure in one collection
/// leaves the work on the other three as it is.
pub proof fn lemma_collections_are_independent(
    s: ImporterModel,
    event: ImportEvent,
    other: Collection,
)
    requires
        other != event.spec_task().collection,
    ensures
        s.after(event).lane(other) == s.lane(other),
{
}

/// The first failure stays on record: no later event replaces it.
pub proof fn lemma_first_failure_is_kept(s: ImporterModel, events: Seq<ImportEvent>)
    requires
        s.first_error is Some,
    ensures
        s.after_all(events).first_error == s.first_error,
    decreases events.len(),
{
    if events.len() > 0 {
        lemma_first_failure_is_kept(s, events.drop_last());
    }
}

/// A failure that is taken up ends its collection at once, and is the
/// operation's failure unless an earlier one is on record.
pub proof fn lemma_failure_ends_its_collection(s: ImporterModel, event: ImportEvent)
    requires
        s.accepts(event),
        event.spec_failure() is Some,
    ensures
        s.after(event).lane(event.spec_task().collection).settled(),
        s.after(event).first_error == if s.first_error is Some {
            s.first_error
        } else {
            event.spec_failure()
        },
        s.answer(event) is None,
{
}

/// The task of a write.
pub open spec fn task_of(action: ImportAction) -> Task {
    match action {
        ImportAction::Fetch(t) => t,
        ImportAction::LookUpLocally(t) => t,
        ImportAction::Write { task, .. } => task,
    }
}

/// A task that has left the resolving state never returns to it.
proof fn lemma_resolved_stays_resolved(s: ImporterModel, event: ImportEvent, task: Task)
    requires
        task.index < s.lane(task.collection).states.len(),
        !(s.lane(task.collection).states[task.index as int] is Resolving),
    ensures
        task.index < s.after(event).lane(task.collection).states.len(),
        !(s.after(event).lane(task.collection).states[task.index as int] is Resolving),
{
}

/// Every task for which a write was asked has left the resolving state.
proof fn lemma_written_tasks_are_resolved(s: ImporterModel, events: Seq<ImportEvent>, k: int)
    requires
        0 <= k < s.writes(events).len(),
    ensures
        ({
            let t = task_of(s.writes(events)[k]);
            &&& t.index < s.after_all(events).lane(t.collection).states.len()
            &&& !(s.after_all(events).lane(t.collection).states[t.index as int] is Resolving)
        }),
    decreases events.len(),
{
    if events.len() > 0 {
        let before = events.drop_last();
        let mid = s.after_all(before);
        if k < s.writes(before).len() {
            lemma_written_tasks_are_resolved(s, before, k);
            assert(s.writes(events)[k] == s.writes(before)[k]);
            lemma_resolved_stays_resolved(mid, events.last(), task_of(s.writes(before)[k]));
        }
    }
}

/// No relationship is written twice: in the course of any events, at most
/// one write is asked for each reference.
pub proof fn lemma_one_write_per_task(
    s: ImporterModel,
    events: Seq<ImportEvent>,
    j: int,
    k: int,
)
    requires
        0 <= j < k < s.writes(events).len(),
    ensures
        task_of(s.writes(events)[j]) != task_of(s.writes(events)[k]),
    decreases events.len(),
{
    if events.len() > 0 {
        let before = events.drop_last();
        let mid = s.after_all(before);
        if k < s.writes(before).len() {
            lemma_one_write_per_task(s, before, j, k);
        } else {
            // The write at `k` answers the last event, whose task was still
            // resolving; the task of the write at `j` was not.
            lemma_written_tasks_are_resolved(s, before, j);
            assert(s.writes(events)[j] == s.writes(before)[j]);
        }
    }
}

/// Every write is for the importing person, stands for the relationship of
/// its collection, and is pending exactly when it is a follow.
pub proof fn lemma_writes_are_for_the_subject(s: ImporterModel, events: Seq<ImportEvent>, k: int)
    requires
        s.wf(),
        0 <= k < s.writes(events).len(),
    ensures
        match s.writes(events)[k] {
            ImportAction::Write { task, row, pending } => {
                &&& row.subject == s.subject
                &&& row.kind == task.collection.spec_relation()
                &&& pending == (task.collection is FollowedCommunities)
                &&& task.index < s.lane(task.collection).refs.len()
            },
            _ => false,
        },
    decreases events.len(),
{
    if events.len() > 0 {
        let before = events.drop_last();
        if k < s.writes(before).len() {
            lemma_writes_are_for_the_subject(s, before, k);
        } else {
            lemma_run_keeps_shape(s, before);
            let mid = s.after_all(before);
            let c = events.last().spec_task().collection;
            assert(mid.lane(c).refs == s.lane(c).refs);
            assert(mid.lane(c).wf());
        }
    }
}

/// The place in the requests of the start at which the request for a task
/// stands.
pub open spec fn place(s: ImporterModel, task: Task) -> nat {
    let before: nat = match task.collection {
        Collection::FollowedCommunities => 0,
        Collection::BlockedCommunities => s.followed_communities.refs.len(),
        Collection::BlockedUsers => s.followed_communities.refs.len()
            + s.blocked_communities.refs.len(),
        Collection::SavedPosts => s.followed_communities.refs.len()
            + s.blocked_communities.refs.len() + s.blocked_users.refs.len(),
    };
    before + task.index as nat
}

/// The start asks for the resolution of every reference: the request for
/// each task stands at the task's place.
pub proof fn lemma_every_reference_is_requested(s: ImporterModel, task: Task)
    requires
        s.wf(),
        task.index < s.lane(task.collection).refs.len(),
    ensures
        place(s, task) < s.resolutions().len(),
        s.resolutions()[place(s, task) as int] == ImporterModel::resolution(task),
{
}

/// The start asks for the resolution of each reference once: there are as
/// many requests as references, and no two requests are for the same task.
pub proof fn lemma_each_reference_is_requested_once(s: ImporterModel, j: int, k: int)
    requires
        s.wf(),
        0 <= j < k < s.resolutions().len(),
    ensures
        s.resolutions().len() == s.followed_communities.refs.len()
            + s.blocked_communities.refs.len() + s.blocked_users.refs.len()
            + s.saved_posts.refs.len(),
        task_of(s.resolutions()[j]) != task_of(s.resolutions()[k]),
{
    lemma_request_at(s, j);
    lemma_request_at(s, k);
}

/// The request at place `k` is for the task whose place is `k`.
proof fn lemma_request_at(s: ImporterModel, k: int)
    requires
        s.wf(),
        0 <= k < s.resolutions().len(),
    ensures
        place(s, task_of(s.resolutions()[k])) == k,
        task_of(s.resolutions()[k]).index < s.lane(
            task_of(s.resolutions()[k]).collection,
        ).refs.len(),
{
}

/// The relationship that an import writes for `task` once its reference has
/// resolved to the local object with key `object`.
pub open spec fn row_for(s: ImporterModel, task: Task, object: i32) -> LocalRelationship {
    LocalRelationship { subject: s.subject, object, kind: task.collection.spec_relation() }
}

/// Whether the event, where it delivers a local object for a task of the
/// import, delivers one to which the person already stands in the
/// relationship of the task's collection.
pub open spec fn delivers_held_row(
    s: ImporterModel,
    event: ImportEvent,
    table: Set<LocalRelationship>,
) -> bool {
    let task = event.spec_task();
    match event.spec_resolved() {
        Some(object) => task.index < s.lane(task.collection).refs.len() ==> table.contains(
            row_for(s, task, object),
        ),
        None => true,
    }
}

/// Whether the event, where it delivers a local object for a task of the
/// import, delivers the one that has the address of the task's reference.
pub open spec fn resolves_by_address(
    s: ImporterModel,
    event: ImportEvent,
    address: spec_fn(ObjectKind, i32) -> Seq<char>,
) -> bool {
    let task = event.spec_task();
    match event.spec_resolved() {
        Some(object) => task.index < s.lane(task.collection).refs.len() ==> address(
            task.collection.spec_relation().spec_object_kind(),
            object,
        ) == s.lane(task.collection).refs[task.index as int],
        None => true,
    }
}

/// Importing what the person already has changes nothing: if every local
/// object that a resolution delivers is one to which the person already
/// stands in the relationship of the reference's collection, then after all
/// the writes the table is what it was. No row is added, so none is there
/// twice.
pub proof fn lemma_import_of_held_rows_changes_nothing(
    s: ImporterModel,
    events: Seq<ImportEvent>,
    table: Set<LocalRelationship>,
)
    requires
        s.wf(),
        forall|j: int| 0 <= j < events.len() ==> delivers_held_row(s, #[trigger] events[j], table),
    ensures
        applied(table, s.writes(events)) == table,
    decreases events.len(),
{
    if events.len() > 0 {
        let before = events.drop_last();
        let last = events.last();
        assert forall|j: int| 0 <= j < before.len() implies delivers_held_row(
            s,
            #[trigger] before[j],
            table,
        ) by {
            assert(before[j] == events[j]);
        }
        lemma_import_of_held_rows_changes_nothing(s, before, table);
        lemma_run_keeps_shape(s, before);
        let mid = s.after_all(before);
        match mid.answer(last) {
            Some(action) => {
                let t = last.spec_task();
                assert(last == events[events.len() - 1]);
                assert(delivers_held_row(s, last, table));
                assert(mid.lane(t.collection).refs == s.lane(t.collection).refs);
                assert(mid.lane(t.collection).wf());
                let w = s.writes(before).push(action);
                assert(w.drop_last() =~= s.writes(before));
                assert(w.last() == action);
                assert(table.insert(action->row) =~= table);
            },
            None => {},
        }
    }
}

/// Whether the reference at place `i` of a collection is the address of a
/// local object to which the person stands in the collection's relationship.
pub open spec fn exported_from(
    s: ImporterModel,
    table: Set<LocalRelationship>,
    address: spec_fn(ObjectKind, i32) -> Seq<char>,
    collection: Collection,
    i: int,
) -> bool {
    exists|object: i32|
        table.contains(
            LocalRelationship { subject: s.subject, object, kind: collection.spec_relation() },
        ) && address(collection.spec_relation().spec_object_kind(), object) == s.lane(
            collection,
        ).refs[i]
}

/// Whether the backup under import is an export of `table`: each of its
/// references is the address of a local object to which the person stands
/// in the relationship of the reference's collection.
pub open spec fn is_export_of(
    s: ImporterModel,
    table: Set<LocalRelationship>,
    address: spec_fn(ObjectKind, i32) -> Seq<char>,
) -> bool {
    forall|collection: Collection, i: int|
        0 <= i < s.lane(collection).refs.len() ==> #[trigger] exported_from(
            s,
            table,
            address,
            collection,
            i,
        )
}

/// Whether no two local objects of one kind share an address.
pub open spec fn addresses_are_distinct(address: spec_fn(ObjectKind, i32) -> Seq<char>) -> bool {
    forall|kind: ObjectKind, a: i32, b: i32|
        #[trigger] address(kind, a) == #[trigger] address(kind, b) ==> a == b
}

/// Export, then import onto the same person, is idempotent. Let the backup
/// be an export of `table`: each of its references is the address of a local
/// object to which the person stands in the relationship of the reference's
/// collection. Let no two local objects of one kind share an address, and
/// let each resolution deliver the local object that has the reference's
/// address. Then after all the writes of the import the table is what it
/// was: no row is added, and none is there twice.
pub proof fn lemma_export_then_import_is_idempotent(
    s: ImporterModel,
    events: Seq<ImportEvent>,
    table: Set<LocalRelationship>,
    address: spec_fn(ObjectKind, i32) -> Seq<char>,
)
    requires
        s.wf(),
        is_export_of(s, table, address),
        addresses_are_distinct(address),
        forall|j: int|
            0 <= j < events.len() ==> resolves_by_address(s, #[trigger] events[j], address),
    ensures
        applied(table, s.writes(events)) == table,
{
    assert forall|j: int| 0 <= j < events.len() implies delivers_held_row(
        s,
        #[trigger] events[j],
        table,
    ) by {
        assert(resolves_by_address(s, events[j], address));
        match events[j].spec_resolved() {
            Some(object) => {
                let t = events[j].spec_task();
                let c = t.collection;
                let kind = c.spec_relation().spec_object_kind();
                if t.index < s.lane(c).refs.len() {
                    assert(exported_from(s, table, address, c, t.index as int));
                    let held = choose|held: i32|
                        table.contains(
                            LocalRelationship {
                                subject: s.subject,
                                object: held,
                                kind: c.spec_relation(),
                            },
                        ) && address(kind, held) == s.lane(c).refs[t.index as int];
                    assert(address(kind, held) == address(kind, object));
                    assert(held == object);
                }
            },
            None => {},
        }
    }
    lemma_import_of_held_rows_changes_nothing(s, events, table);
}

} // verus!
