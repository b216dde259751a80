//! The background operation that turns the references of a backup into
//! relationships of the importing person.
//!
//! The operation decides; the caller acts. [`BackupImporter::start`] hands out
//! one resolution request per reference. The caller carries the requests out,
//! in any order and as many at a time as it likes, and reports each outcome
//! to [`BackupImporter::step`], which says what to write, if anything. What
//! the operation does is given by [`ImporterModel`].

use crate::error::Error;
use crate::newtypes::{DbUrl, PersonId};
use crate::relationship::{GlobalObjectRef, LocalRelationship, RelationKind};
use vstd::prelude::*;

verus! {

/// The four collections of references in a backup.
#[derive(Clone, Copy, PartialEq, Eq, Structural, Debug, Hash)]
pub enum Collection {
    FollowedCommunities,
    BlockedCommunities,
    BlockedUsers,
    SavedPosts,
}

impl Collection {
    /// Whether a reference of the collection may be fetched from its home
    /// server: what the person follows or saved, yes; what the person
    /// blocks, never.
    pub open spec fn spec_may_fetch(self) -> bool {
        self is FollowedCommunities || self is SavedPosts
    }

    /// Whether a reference of this collection may be fetched from its home
    /// server.
    #[verifier::when_used_as_spec(spec_may_fetch)]
    pub fn may_fetch(self) -> (b: bool)
        ensures
            b == self.spec_may_fetch(),
    {
        match self {
            Collection::FollowedCommunities | Collection::SavedPosts => true,
            Collection::BlockedCommunities | Collection::BlockedUsers => false,
        }
    }

    /// The relationship that each collection stands for.
    pub open spec fn spec_relation(self) -> RelationKind {
        match self {
            Collection::FollowedCommunities => RelationKind::Follow,
            Collection::BlockedCommunities => RelationKind::BlockCommunity,
            Collection::BlockedUsers => RelationKind::BlockPerson,
            Collection::SavedPosts => RelationKind::SavePost,
        }
    }

    /// The relationship that this collection stands for.
    #[verifier::when_used_as_spec(spec_relation)]
    pub fn relation(self) -> (kind: RelationKind)
        ensures
            kind == self.spec_relation(),
    {
        match self {
            Collection::FollowedCommunities => RelationKind::Follow,
            Collection::BlockedCommunities => RelationKind::BlockCommunity,
            Collection::BlockedUsers => RelationKind::BlockPerson,
            Collection::SavedPosts => RelationKind::SavePost,
        }
    }
}

/// One reference of a backup and the work on it: the collection it stands in
/// and its place there.
#[derive(Clone, Copy, PartialEq, Eq, Structural, Debug, Hash)]
pub struct Task {
    pub collection: Collection,
    pub index: usize,
}

/// What the caller is asked to do.
#[derive(Clone, Copy, PartialEq, Eq, Structural, Debug, Hash)]
pub enum ImportAction {
    /// Resolve the task's reference; fetch the object from its home server
    /// if it is not known locally.
    Fetch(Task),
    /// Resolve the task's reference among the objects known locally, without
    /// any request to another server.
    LookUpLocally(Task),
    /// Assert the relationship `row`. A follow that an import writes is
    /// `pending`: it waits for the community to accept it.
    Write { task: Task, row: LocalRelationship, pending: bool },
}

/// What the caller reports back.
#[derive(Clone, Copy, PartialEq, Eq, Structural, Debug, Hash)]
pub enum ImportEvent {
    /// A `Fetch` gave the local object with this key.
    Fetched(Task, i32),
    /// A `Fetch` failed.
    FetchFailed(Task, Error),
    /// A `LookUpLocally` found the local object with this key.
    FoundLocally(Task, i32),
    /// A `LookUpLocally` found nothing.
    UnknownLocally(Task),
    /// A `Write` was done.
    Written(Task),
    /// A `Write` failed.
    WriteFailed(Task, Error),
}

/// How far the work on one reference has come.
#[derive(Clone, Copy, PartialEq, Eq, Structural, Debug, Hash)]
pub enum TaskState {
    /// The reference is being resolved.
    Resolving,
    /// The relationship is being written.
    Writing,
    /// Nothing is left to do: the relationship was written, or the reference
    /// names nothing that is known here.
    Done,
}

/// Where the operation stands.
#[derive(Clone, Copy, PartialEq, Eq, Structural, Debug, Hash)]
pub enum ImportStatus {
    /// Not started.
    Pending,
    /// Started, and some collection still has work under way.
    Running,
    /// Every reference was dealt with and nothing failed.
    Completed,
    /// Every collection has come to its end, and this was the first failure.
    Failed(Error),
}

impl ImportEvent {
    /// The task that the event speaks of.
    pub open spec fn spec_task(self) -> Task {
        match self {
            ImportEvent::Fetched(t, _) => t,
            ImportEvent::FetchFailed(t, _) => t,
            ImportEvent::FoundLocally(t, _) => t,
            ImportEvent::UnknownLocally(t) => t,
            ImportEvent::Written(t) => t,
            ImportEvent::WriteFailed(t, _) => t,
        }
    }

    /// The task that this event speaks of.
    #[verifier::when_used_as_spec(spec_task)]
    pub fn task(self) -> (task: Task)
        ensures
            task == self.spec_task(),
    {
        match self {
            ImportEvent::Fetched(t, _) => t,
            ImportEvent::FetchFailed(t, _) => t,
            ImportEvent::FoundLocally(t, _) => t,
            ImportEvent::UnknownLocally(t) => t,
            ImportEvent::Written(t) => t,
            ImportEvent::WriteFailed(t, _) => t,
        }
    }

    /// Whether the event answers what a task in state `state` waits for, in
    /// a collection whose references may or may not be fetched.
    pub open spec fn spec_answers(self, state: TaskState, may_fetch: bool) -> bool {
        match self {
            ImportEvent::Fetched(_, _) | ImportEvent::FetchFailed(_, _) => may_fetch
                && state is Resolving,
            ImportEvent::FoundLocally(_, _) | ImportEvent::UnknownLocally(_) => !may_fetch
                && state is Resolving,
            ImportEvent::Written(_) | ImportEvent::WriteFailed(_, _) => state is Writing,
        }
    }

    #[verifier::when_used_as_spec(spec_answers)]
    fn answers(self, state: TaskState, may_fetch: bool) -> (b: bool)
        ensures
            b == self.spec_answers(state, may_fetch),
    {
        match self {
            ImportEvent::Fetched(_, _) | ImportEvent::FetchFailed(_, _) => may_fetch && matches!(
                state,
                TaskState::Resolving
            ),
            ImportEvent::FoundLocally(_, _) | ImportEvent::UnknownLocally(_) => !may_fetch
                && matches!(state, TaskState::Resolving),
            ImportEvent::Written(_) | ImportEvent::WriteFailed(_, _) => matches!(
                state,
                TaskState::Writing
            ),
        }
    }

    /// The failure that the event reports, if it reports one.
    pub open spec fn spec_failure(self) -> Option<Error> {
        match self {
            ImportEvent::FetchFailed(_, e) => Some(e),
            ImportEvent::WriteFailed(_, e) => Some(e),
            _ => None,
        }
    }

    /// The failure that this event reports, if it reports one.
    #[verifier::when_used_as_spec(spec_failure)]
    pub fn failure(self) -> (failure: Option<Error>)
        ensures
            failure == self.spec_failure(),
    {
        match self {
            ImportEvent::FetchFailed(_, e) => Some(e),
            ImportEvent::WriteFailed(_, e) => Some(e),
            _ => None,
        }
    }

    /// The key of the local object that the event delivers, if it delivers
    /// one.
    pub open spec fn spec_resolved(self) -> Option<i32> {
        match self {
            ImportEvent::Fetched(_, id) => Some(id),
            ImportEvent::FoundLocally(_, id) => Some(id),
            _ => None,
        }
    }

    /// The key of the local object that this event delivers, if it delivers
    /// one.
    #[verifier::when_used_as_spec(spec_resolved)]
    pub fn resolved(self) -> (id: Option<i32>)
        ensures
            id == self.spec_resolved(),
    {
        match self {
            ImportEvent::Fetched(_, id) => Some(id),
            ImportEvent::FoundLocally(_, id) => Some(id),
            _ => None,
        }
    }

    /// The state in which an accepted event that reports no failure leaves
    /// its task: a resolution leads to the write, anything else ends the
    /// task.
    pub open spec fn spec_leaves(self) -> TaskState {
        if self.spec_resolved() is Some {
            TaskState::Writing
        } else {
            TaskState::Done
        }
    }
}

/// The number of tasks that are not done.
pub open spec fn count_open(states: Seq<TaskState>) -> nat
    decreases states.len(),
{
    if states.len() == 0 {
        0
    } else {
        count_open(states.drop_last()) + if states.last() is Done {
            0nat
        } else {
            1nat
        }
    }
}

/// One collection under import: its references, the state of the task of
/// each, and whether a failure has ended the work on the collection.
pub struct LaneModel {
    pub refs: Seq<Seq<char>>,
    pub states: Seq<TaskState>,
    pub aborted: bool,
}

impl LaneModel {
    /// One state per reference, and no more references than a machine word
    /// can count.
    pub open spec fn wf(self) -> bool {
        self.refs.len() == self.states.len() && self.refs.len() <= usize::MAX
    }

    /// The collection before any work: every reference is to be resolved.
    pub open spec fn fresh(refs: Seq<Seq<char>>) -> LaneModel {
        LaneModel {
            refs,
            states: Seq::new(refs.len(), |i: int| TaskState::Resolving),
            aborted: false,
        }
    }

    /// No work on the collection will be taken up any more: a failure ended
    /// it, or every task is done.
    pub open spec fn settled(self) -> bool {
        self.aborted || forall|i: int| 0 <= i < self.states.len() ==> self.states[i] is Done
    }

    /// Whether the event is taken up: the task exists, the collection has
    /// not failed, and the event answers what the task waits for.
    pub open spec fn accepts(self, event: ImportEvent, may_fetch: bool) -> bool {
        let i = event.spec_task().index as int;
        &&& i < self.states.len()
        &&& !self.aborted
        &&& event.spec_answers(self.states[i], may_fetch)
    }

    /// The collection after the event. An event that is not taken up changes
    /// nothing. A failure ends the work on the collection: what its other
    /// tasks report from then on is not taken up. Any other event moves its
    /// task on.
    pub open spec fn after(self, event: ImportEvent, may_fetch: bool) -> LaneModel {
        if !self.accepts(event, may_fetch) {
            self
        } else if event.spec_failure() is Some {
            LaneModel { aborted: true, ..self }
        } else {
            LaneModel {
                states: self.states.update(event.spec_task().index as int, event.spec_leaves()),
                ..self
            }
        }
    }
}

/// The state of the operation.
pub struct ImporterModel {
    /// The person who imports.
    pub subject: PersonId,
    pub started: bool,
    pub followed_communities: LaneModel,
    pub blocked_communities: LaneModel,
    pub blocked_users: LaneModel,
    pub saved_posts: LaneModel,
    /// The first failure that was reported, if any.
    pub first_error: Option<Error>,
}

impl ImporterModel {
    /// The state of one collection.
    pub open spec fn lane(self, collection: Collection) -> LaneModel {
        match collection {
            Collection::FollowedCommunities => self.followed_communities,
            Collection::BlockedCommunities => self.blocked_communities,
            Collection::BlockedUsers => self.blocked_users,
            Collection::SavedPosts => self.saved_posts,
        }
    }

    /// This state with one collection replaced.
    pub open spec fn with_lane(self, collection: Collection, lane: LaneModel) -> ImporterModel {
        match collection {
            Collection::FollowedCommunities => ImporterModel { followed_communities: lane, ..self },
            Collection::BlockedCommunities => ImporterModel { blocked_communities: lane, ..self },
            Collection::BlockedUsers => ImporterModel { blocked_users: lane, ..self },
            Collection::SavedPosts => ImporterModel { saved_posts: lane, ..self },
        }
    }

    /// Each collection has one state per reference; a failure is on record
    /// exactly when some collection has failed; and before the start nothing
    /// has happened.
    pub open spec fn wf(self) -> bool {
        &&& self.followed_communities.wf()
        &&& self.blocked_communities.wf()
        &&& self.blocked_users.wf()
        &&& self.saved_posts.wf()
        &&& self.first_error is Some <==> (self.followed_communities.aborted
            || self.blocked_communities.aborted || self.blocked_users.aborted
            || self.saved_posts.aborted)
        &&& !self.started ==> {
            &&& self.followed_communities == LaneModel::fresh(self.followed_communities.refs)
            &&& self.blocked_communities == LaneModel::fresh(self.blocked_communities.refs)
            &&& self.blocked_users == LaneModel::fresh(self.blocked_users.refs)
            &&& self.saved_posts == LaneModel::fresh(self.saved_posts.refs)
        }
    }

    /// The operation for `subject` and the four collections, before its
    /// start.
    pub open spec fn fresh(
        subject: PersonId,
        followed_communities: Seq<Seq<char>>,
        blocked_communities: Seq<Seq<char>>,
        blocked_users: Seq<Seq<char>>,
        saved_posts: Seq<Seq<char>>,
    ) -> ImporterModel {
        ImporterModel {
            subject,
            started: false,
            followed_communities: LaneModel::fresh(followed_communities),
            blocked_communities: LaneModel::fresh(blocked_communities),
            blocked_users: LaneModel::fresh(blocked_users),
            saved_posts: LaneModel::fresh(saved_posts),
            first_error: None,
        }
    }

    /// Where the operation stands. It runs until each of the four
    /// collections has come to its end, by itself: a failure in one does not
    /// end the others.
    pub open spec fn status(self) -> ImportStatus {
        if !self.started {
            ImportStatus::Pending
        } else if self.followed_communities.settled() && self.blocked_communities.settled()
            && self.blocked_users.settled() && self.saved_posts.settled() {
            match self.first_error {
                Some(e) => ImportStatus::Failed(e),
                None => ImportStatus::Completed,
            }
        } else {
            ImportStatus::Running
        }
    }

    /// The request that resolves the reference of `task`: a fetch where the
    /// collection allows one, a local lookup where it does not.
    pub open spec fn resolution(task: Task) -> ImportAction {
        if task.collection.spec_may_fetch() {
            ImportAction::Fetch(task)
        } else {
            ImportAction::LookUpLocally(task)
        }
    }

    /// The requests for the `n` references of one collection, in order.
    pub open spec fn lane_resolutions(collection: Collection, n: nat) -> Seq<ImportAction> {
        Seq::new(n, |i: int| Self::resolution(Task { collection, index: i as usize }))
    }

    /// What is handed out at the start: one request for each reference,
    /// collection by collection.
    pub open spec fn resolutions(self) -> Seq<ImportAction> {
        let followed = self.followed_communities.refs.len();
        Self::lane_resolutions(Collection::FollowedCommunities, followed)
            + Self::lane_resolutions(
            Collection::BlockedCommunities,
            self.blocked_communities.refs.len(),
        ) + Self::lane_resolutions(Collection::BlockedUsers, self.blocked_users.refs.len())
            + Self::lane_resolutions(Collection::SavedPosts, self.saved_posts.refs.len())
    }

    /// Whether the event is taken up.
    pub open spec fn accepts(self, event: ImportEvent) -> bool {
        let c = event.spec_task().collection;
        self.started && self.lane(c).accepts(event, c.spec_may_fetch())
    }

    /// The state after the event. The first failure that is taken up stays
    /// on record.
    pub open spec fn after(self, event: ImportEvent) -> ImporterModel {
        let c = event.spec_task().collection;
        if !self.accepts(event) {
            self
        } else {
            let moved = self.with_lane(c, self.lane(c).after(event, c.spec_may_fetch()));
            match (event.spec_failure(), self.first_error) {
                (Some(e), None) => ImporterModel { first_error: Some(e), ..moved },
                _ => moved,
            }
        }
    }

    /// The relationship that is written for `task` once its reference has
    /// resolved to the local object with key `object`.
    pub open spec fn write(self, task: Task, object: i32) -> ImportAction {
        ImportAction::Write {
            task,
            row: LocalRelationship {
                subject: self.subject,
                object,
                kind: task.collection.spec_relation(),
            },
            pending: task.collection is FollowedCommunities,
        }
    }

    /// What the caller is asked to do in answer to the event: to write the
    /// relationship, when the event is taken up and delivers a local object;
    /// otherwise nothing.
    pub open spec fn answer(self, event: ImportEvent) -> Option<ImportAction> {
        match event.spec_resolved() {
            Some(object) if self.accepts(event) => Some(self.write(event.spec_task(), object)),
            _ => None,
        }
    }

    /// The state after the events, one after the other.
    pub open spec fn after_all(self, events: Seq<ImportEvent>) -> ImporterModel
        decreases events.len(),
    {
        if events.len() == 0 {
            self
        } else {
            self.after_all(events.drop_last()).after(events.last())
        }
    }

    /// The writes that the caller is asked for in the course of the events,
    /// in order.
    pub open spec fn writes(self, events: Seq<ImportEvent>) -> Seq<ImportAction>
        decreases events.len(),
    {
        if events.len() == 0 {
            Seq::empty()
        } else {
            let before = events.drop_last();
            match self.after_all(before).answer(events.last()) {
                Some(action) => self.writes(before).push(action),
                None => self.writes(before),
            }
        }
    }
}

/// Replacing the state of a task changes the number of open tasks by what
/// the two states count.
pub proof fn lemma_count_open_update(states: Seq<TaskState>, i: int, state: TaskState)
    requires
        0 <= i < states.len(),
    ensures
        count_open(states.update(i, state)) + (if states[i] is Done {
            0nat
        } else {
            1nat
        }) == count_open(states) + (if state is Done {
            0nat
        } else {
            1nat
        }),
    decreases states.len(),
{
    let updated = states.update(i, state);
    if i == states.len() - 1 {
        assert(updated.drop_last() =~= states.drop_last());
    } else {
        assert(updated.drop_last() =~= states.drop_last().update(i, state));
        lemma_count_open_update(states.drop_last(), i, state);
    }
}

/// No task is open exactly when every task is done.
pub proof fn lemma_count_open_zero(states: Seq<TaskState>)
    ensures
        count_open(states) == 0 <==> (forall|i: int| 0 <= i < states.len() ==> states[i] is Done),
    decreases states.len(),
{
    if states.len() > 0 {
        let front = states.drop_last();
        lemma_count_open_zero(front);
        if count_open(states) == 0 {
            assert forall|i: int| 0 <= i < states.len() implies states[i] is Done by {
                if i < states.len() - 1 {
                    assert(front[i] == states[i]);
                }
            }
        }
        if forall|i: int| 0 <= i < states.len() ==> states[i] is Done {
            assert forall|i: int| 0 <= i < front.len() implies front[i] is Done by {
                assert(front[i] == states[i]);
            }
        }
    }
}

/// Before any work, every task is open.
pub proof fn lemma_count_open_fresh(n: nat)
    ensures
        count_open(Seq::new(n, |i: int| TaskState::Resolving)) == n,
    decreases n,
{
    if n > 0 {
        let all = Seq::new(n, |i: int| TaskState::Resolving);
        assert(all.drop_last() =~= Seq::new((n - 1) as nat, |i: int| TaskState::Resolving));
        lemma_count_open_fresh((n - 1) as nat);
    }
}

/// One collection under import.
#[derive(Debug)]
struct Lane {
    refs: Vec<DbUrl>,
    states: Vec<TaskState>,
    /// The number of tasks that are not done.
    open: usize,
    aborted: bool,
}

impl Lane {
    spec fn model(&self) -> LaneModel {
        LaneModel { refs: self.refs.deep_view(), states: self.states@, aborted: self.aborted }
    }

    spec fn wf(&self) -> bool {
        &&& self.refs.len() == self.states.len()
        &&& self.open == count_open(self.states@)
    }

    fn new(refs: Vec<DbUrl>) -> (lane: Lane)
        ensures
            lane.wf(),
            lane.model() == LaneModel::fresh(refs.deep_view()),
    {
        let n = refs.len();
        let mut states: Vec<TaskState> = Vec::new();
        let mut i: usize = 0;
        while i < n
            invariant
                i <= n,
                states@ =~= Seq::new(i as nat, |j: int| TaskState::Resolving),
            decreases n - i,
        {
            states.push(TaskState::Resolving);
            i += 1;
        }
        proof {
            lemma_count_open_fresh(n as nat);
        }
        Lane { refs, states, open: n, aborted: false }
    }

    fn settled(&self) -> (b: bool)
        requires
            self.wf(),
        ensures
            b == self.model().settled(),
    {
        proof {
            lemma_count_open_zero(self.states@);
        }
        self.aborted || self.open == 0
    }

    /// Takes the event up, if the collection accepts it.
    fn step(&mut self, event: ImportEvent, may_fetch: bool) -> (accepted: bool)
        requires
            old(self).wf(),
        ensures
            final(self).wf(),
            accepted == old(self).model().accepts(event, may_fetch),
            final(self).model() == old(self).model().after(event, may_fetch),
    {
        let i = event.task().index;
        if i >= self.states.len() || self.aborted {
            return false;
        }
        if !event.answers(self.states[i], may_fetch) {
            return false;
        }
        if event.failure().is_some() {
            self.aborted = true;
        } else if event.resolved().is_some() {
            proof {
                lemma_count_open_update(self.states@, i as int, TaskState::Writing);
            }
            self.states[i] = TaskState::Writing;
        } else {
            proof {
                lemma_count_open_update(self.states@, i as int, TaskState::Done);
            }
            self.states[i] = TaskState::Done;
            self.open = self.open - 1;
        }
        true
    }

    /// Adds the request for each reference of the collection to `out`.
    fn request_all(&self, collection: Collection, out: &mut Vec<ImportAction>)
        requires
            self.wf(),
        ensures
            final(out)@ == old(out)@ + ImporterModel::lane_resolutions(
                collection,
                self.refs.len() as nat,
            ),
    {
        let n = self.refs.len();
        let mut i: usize = 0;
        while i < n
            invariant
                i <= n,
                n == self.refs.len(),
                out@ =~= old(out)@ + ImporterModel::lane_resolutions(collection, i as nat),
            decreases n - i,
        {
            let task = Task { collection, index: i };
            if collection.may_fetch() {
                out.push(ImportAction::Fetch(task));
            } else {
                out.push(ImportAction::LookUpLocally(task));
            }
            i += 1;
        }
    }
}

/// The background operation of one import.
#[derive(Debug)]
pub struct BackupImporter {
    subject: PersonId,
    started: bool,
    followed_communities: Lane,
    blocked_communities: Lane,
    blocked_users: Lane,
    saved_posts: Lane,
    first_error: Option<Error>,
}

impl View for BackupImporter {
    type V = ImporterModel;

    /// The state of the operation. The count of open tasks that each
    /// collection keeps beside its states is no part of it: it is the number
    /// of states that are not done, and `wf` holds it to that.
    closed spec fn view(&self) -> ImporterModel {
        ImporterModel {
            subject: self.subject,
            started: self.started,
            followed_communities: self.followed_communities.model(),
            blocked_communities: self.blocked_communities.model(),
            blocked_users: self.blocked_users.model(),
            saved_posts: self.saved_posts.model(),
            first_error: self.first_error,
        }
    }
}

impl BackupImporter {
    /// What holds of every importer that this module hands out: its state is
    /// well-formed, and each collection's count of open tasks is the number
    /// of its tasks that are not done.
    pub closed spec fn wf(&self) -> bool {
        &&& self@.wf()
        &&& self.followed_communities.wf()
        &&& self.blocked_communities.wf()
        &&& self.blocked_users.wf()
        &&& self.saved_posts.wf()
    }

    /// The state of a well-formed importer is a well-formed state.
    pub proof fn lemma_wf(&self)
        requires
            self.wf(),
        ensures
            self@.wf(),
    {
    }

    /// The operation that imports the four collections for `subject`, not
    /// yet started.
    pub fn new(
        subject: PersonId,
        followed_communities: Vec<DbUrl>,
        blocked_communities: Vec<DbUrl>,
        blocked_users: Vec<DbUrl>,
        saved_posts: Vec<DbUrl>,
    ) -> (importer: BackupImporter)
        ensures
            importer.wf(),
            importer@ == ImporterModel::fresh(
                subject,
                followed_communities.deep_view(),
                blocked_communities.deep_view(),
                blocked_users.deep_view(),
                saved_posts.deep_view(),
            ),
    {
        BackupImporter {
            subject,
            started: false,
            followed_communities: Lane::new(followed_communities),
            blocked_communities: Lane::new(blocked_communities),
            blocked_users: Lane::new(blocked_users),
            saved_posts: Lane::new(saved_posts),
            first_error: None,
        }
    }

    /// The person who imports.
    pub fn subject(&self) -> (subject: PersonId)
        ensures
            subject == self@.subject,
    {
        self.subject
    }

    /// Where the operation stands.
    pub fn status(&self) -> (status: ImportStatus)
        requires
            self.wf(),
        ensures
            status == self@.status(),
    {
        if !self.started {
            ImportStatus::Pending
        } else if self.followed_communities.settled() && self.blocked_communities.settled()
            && self.blocked_users.settled() && self.saved_posts.settled() {
            match self.first_error {
                Some(e) => ImportStatus::Failed(e),
                None => ImportStatus::Completed,
            }
        } else {
            ImportStatus::Running
        }
    }

    /// The reference that `task` is about, or `None` if there is no such
    /// task. The kind of object that it names is the one that the task's
    /// collection holds.
    pub fn reference(&self, task: Task) -> (reference: Option<GlobalObjectRef>)
        requires
            self.wf(),
        ensures
            match reference {
                Some(r) => task.index < self@.lane(task.collection).refs.len() && r@ == (
                    task.collection.spec_relation().spec_object_kind(),
                    self@.lane(task.collection).refs[task.index as int],
                ),
                None => task.index >= self@.lane(task.collection).refs.len(),
            },
    {
        let lane = match task.collection {
            Collection::FollowedCommunities => &self.followed_communities,
            Collection::BlockedCommunities => &self.blocked_communities,
            Collection::BlockedUsers => &self.blocked_users,
            Collection::SavedPosts => &self.saved_posts,
        };
        if task.index < lane.refs.len() {
            Some(
                GlobalObjectRef {
                    kind: task.collection.relation().object_kind(),
                    id: lane.refs[task.index].clone(),
                },
            )
        } else {
            None
        }
    }

    /// Starts the operation and hands out one resolution request for each
    /// reference. A second call changes nothing and hands out nothing.
    pub fn start(&mut self) -> (requests: Vec<ImportAction>)
        requires
            old(self).wf(),
        ensures
            final(self).wf(),
            final(self)@ == (ImporterModel { started: true, ..old(self)@ }),
            requests@ == if old(self)@.started {
                Seq::<ImportAction>::empty()
            } else {
                old(self)@.resolutions()
            },
    {
        let mut requests: Vec<ImportAction> = Vec::new();
        if self.started {
            return requests;
        }
        self.started = true;
        self.followed_communities.request_all(Collection::FollowedCommunities, &mut requests);
        self.blocked_communities.request_all(Collection::BlockedCommunities, &mut requests);
        self.blocked_users.request_all(Collection::BlockedUsers, &mut requests);
        self.saved_posts.request_all(Collection::SavedPosts, &mut requests);
        requests
    }

    /// Takes up the outcome of a request and says what to write in answer,
    /// if anything. An event that no task waits for changes nothing.
    pub fn step(&mut self, event: ImportEvent) -> (action: Option<ImportAction>)
        requires
            old(self).wf(),
        ensures
            final(self).wf(),
            final(self)@ == old(self)@.after(event),
            action == old(self)@.answer(event),
    {
        if !self.started {
            return None;
        }
        let task = event.task();
        let may_fetch = task.collection.may_fetch();
        let accepted = match task.collection {
            Collection::FollowedCommunities => self.followed_communities.step(event, may_fetch),
            Collection::BlockedCommunities => self.blocked_communities.step(event, may_fetch),
            Collection::BlockedUsers => self.blocked_users.step(event, may_fetch),
            Collection::SavedPosts => self.saved_posts.step(event, may_fetch),
        };
        if !accepted {
            return None;
        }
        if let Some(e) = event.failure() {
            if self.first_error.is_none() {
                self.first_error = Some(e);
            }
        }
        match event.resolved() {
            Some(object) => Some(
                ImportAction::Write {
                    task,
                    row: LocalRelationship {
                        subject: self.subject,
                        object,
                        kind: task.collection.relation(),
                    },
                    pending: matches!(task.collection, Collection::FollowedCommunities),
                },
            ),
            None => None,
        }
    }
}

} // verus!
