//! Propagation of a site ban against a person from another server into the
//! local communities that the person took part in.
//!
//! The propagation decides; the caller acts. [`propagate_ban`] sets it up,
//! [`BanPropagation::pending`] says what is to be done now, and the caller
//! reports how that went to [`BanPropagation::listed`] or
//! [`BanPropagation::advance`]. What the propagation does is given by
//! [`BanModel`].
//!
//! The communities are worked on one after the other, each by itself. Within
//! a community the ban or unban and the unfollow are best effort: a failure
//! is passed over. The entry in the moderation log is strict: when it cannot
//! be written, the rest of that community's work is dropped. No failure in
//! one community keeps the next from its turn.

use crate::error::Error;
use crate::newtypes::{CommunityId, PersonId};
use crate::person::Person;
use vstd::prelude::*;

verus! {

/// The ban of a person from a community: written when a ban is propagated,
/// cleared when an unban is.
#[derive(Clone, Debug, PartialEq, Eq)]
pub struct BanRecord {
    pub target: PersonId,
    pub community: CommunityId,
    pub banned: bool,
    /// When the ban ends, in seconds since the epoch; `None` for a ban
    /// without end.
    pub expires: Option<i64>,
    pub reason: Option<String>,
    pub moderator: PersonId,
}

/// One entry of the moderation log: `moderator` banned `target` from
/// `community`, or lifted the ban.
#[derive(Clone, Debug, PartialEq, Eq)]
pub struct ModerationLogEntry {
    pub moderator: PersonId,
    pub target: PersonId,
    pub community: CommunityId,
    pub banned: bool,
    pub reason: Option<String>,
    pub expires: Option<i64>,
}

/// The announcement of a ban or unban from one community to other servers.
#[derive(Clone, Debug, PartialEq, Eq)]
pub struct BanActivity {
    pub moderator: PersonId,
    pub community: CommunityId,
    pub target: PersonId,
    pub ban: bool,
    pub reason: Option<String>,
    pub remove_or_restore_data: Option<bool>,
    pub expires: Option<i64>,
}

/// Whether a time of expiry lies before `now`, both in seconds since the
/// epoch. No expiry is never in the past.
pub open spec fn in_past(expires: Option<i64>, now: i64) -> bool {
    match expires {
        Some(e) => e < now,
        None => false,
    }
}

/// Accepts a time of expiry that has not passed, and hands it back; fails
/// with [`Error::BanExpirationInPast`] exactly when it lies before `now`.
pub fn check_expire_time(expires: Option<i64>, now: i64) -> (checked: Result<Option<i64>, Error>)
    ensures
        checked == if in_past(expires, now) {
            Err::<Option<i64>, Error>(Error::BanExpirationInPast)
        } else {
            Ok::<Option<i64>, Error>(expires)
        },
{
    match expires {
        Some(e) if e < now => Err(Error::BanExpirationInPast),
        _ => Ok(expires),
    }
}

/// What the caller is asked to do.
#[derive(Clone, Copy, PartialEq, Eq, Structural, Debug, Hash)]
pub enum BanAction {
    /// Read the local communities in which this person took part.
    ListCommunities(PersonId),
    /// Put on record that the community is passed over for this reason.
    /// Nothing is written for it and nothing is announced.
    Reject(CommunityId, Error),
    /// Write the ban from this community. Best effort.
    WriteBan(CommunityId),
    /// Clear the ban from this community. Best effort.
    ClearBan(CommunityId),
    /// End the person's subscription to this community, if there is one.
    /// Best effort.
    Unfollow(CommunityId),
    /// Add the entry for this community to the moderation log. Strict.
    WriteModLog(CommunityId),
    /// Announce the ban or unban from this community to other servers.
    Emit(CommunityId),
    /// Nothing is left to do: every community has had its turn.
    Complete,
    /// Nothing can be done: the communities could not be read.
    Abort(Error),
}

impl BanAction {
    /// A ban or unban of the person from a community.
    pub open spec fn is_mutation(self) -> bool {
        self is WriteBan || self is ClearBan
    }
}

/// Which step of the work is under way.
#[derive(Clone, Copy, PartialEq, Eq, Structural, Debug, Hash)]
pub enum BanStage {
    Listing,
    Rejecting,
    Banning,
    Unfollowing,
    Logging,
    Emitting,
    Completed,
    Aborted(Error),
}

/// How the failure of a step is dealt with.
#[derive(Clone, Copy, PartialEq, Eq, Structural, Debug, Hash)]
pub enum Strategy {
    /// Best effort: the failure is passed over, and the work goes on as if
    /// the step had succeeded. A ban that is only partly in place is better
    /// than none.
    Tolerant,
    /// The failure ends the unit of work that the step belongs to: what is
    /// left of it is dropped.
    Strict,
}

impl BanStage {
    /// The strategy under which the step of each stage runs. The ban or
    /// unban, the unfollow and the record of a rejection are tolerant. The
    /// log entry and the announcement are strict within their community, the
    /// reading of the communities is strict for the whole propagation.
    pub open spec fn spec_strategy(self) -> Strategy {
        match self {
            BanStage::Listing | BanStage::Logging | BanStage::Emitting => Strategy::Strict,
            _ => Strategy::Tolerant,
        }
    }

    /// The strategy under which the step of this stage runs.
    #[verifier::when_used_as_spec(spec_strategy)]
    pub fn strategy(self) -> (strategy: Strategy)
        ensures
            strategy == self.spec_strategy(),
    {
        match self {
            BanStage::Listing | BanStage::Logging | BanStage::Emitting => Strategy::Strict,
            _ => Strategy::Tolerant,
        }
    }

    /// The stage that follows within the same community, for a ban (`ban`)
    /// or an unban; `None` after the last step of a community. A ban is
    /// written, the person unfollowed, the log entry written and the ban
    /// announced; an unban has no unfollow.
    pub open spec fn spec_next_step(self, ban: bool) -> Option<BanStage> {
        match self {
            BanStage::Banning => Some(
                if ban {
                    BanStage::Unfollowing
                } else {
                    BanStage::Logging
                },
            ),
            BanStage::Unfollowing => Some(BanStage::Logging),
            BanStage::Logging => Some(BanStage::Emitting),
            _ => None,
        }
    }

    /// The stage that follows this one within the same community.
    #[verifier::when_used_as_spec(spec_next_step)]
    pub fn next_step(self, ban: bool) -> (next: Option<BanStage>)
        ensures
            next == self.spec_next_step(ban),
    {
        match self {
            BanStage::Banning => Some(
                if ban {
                    BanStage::Unfollowing
                } else {
                    BanStage::Logging
                },
            ),
            BanStage::Unfollowing => Some(BanStage::Logging),
            BanStage::Logging => Some(BanStage::Emitting),
            _ => None,
        }
    }
}

/// What the caller reports back.
pub enum BanInput {
    /// The local communities in which the person took part.
    Listed(Seq<CommunityId>),
    /// How the pending action went.
    Outcome(Result<(), Error>),
}

/// A report together with the time at which it arrives, in seconds since
/// the epoch.
pub struct BanReport {
    pub input: BanInput,
    pub now: i64,
}

/// The state of a propagation.
pub struct BanModel {
    pub target: PersonId,
    pub moderator: PersonId,
    pub ban: bool,
    pub reason: Option<Seq<char>>,
    pub remove_or_restore_data: Option<bool>,
    pub expires: Option<i64>,
    /// The communities to work on, once they are known.
    pub communities: Seq<CommunityId>,
    /// The place of the community under work.
    pub position: nat,
    pub stage: BanStage,
}

impl BanModel {
    /// The propagation before anything is done. For a person whose home is
    /// this server there is nothing to do: their own server enforces the
    /// ban.
    pub open spec fn initial(
        target: PersonId,
        target_is_local: bool,
        moderator: PersonId,
        ban: bool,
        reason: Option<Seq<char>>,
        remove_or_restore_data: Option<bool>,
        expires: Option<i64>,
    ) -> BanModel {
        BanModel {
            target,
            moderator,
            ban,
            reason,
            remove_or_restore_data,
            expires,
            communities: Seq::empty(),
            position: 0,
            stage: if target_is_local {
                BanStage::Completed
            } else {
                BanStage::Listing
            },
        }
    }

    /// While a community is under work, it is one of the list; before and
    /// after, the place is at the list's start and end.
    pub open spec fn wf(self) -> bool {
        match self.stage {
            BanStage::Listing => self.communities.len() == 0 && self.position == 0,
            BanStage::Aborted(_) => self.communities.len() == 0 && self.position == 0,
            BanStage::Completed => self.position == self.communities.len(),
            BanStage::Rejecting => self.position < self.communities.len() && self.ban,
            BanStage::Unfollowing => self.position < self.communities.len() && self.ban,
            _ => self.position < self.communities.len(),
        }
    }

    /// Whether the work is over.
    pub open spec fn finished(self) -> bool {
        self.stage is Completed || self.stage is Aborted
    }

    /// Whether a community that is taken up at time `now` is passed over: a
    /// ban must not expire in the past. An unban does not look at the
    /// expiry.
    pub open spec fn rejects_at(self, now: i64) -> bool {
        self.ban && in_past(self.expires, now)
    }

    /// What the caller is to do now.
    pub open spec fn pending(self) -> BanAction {
        match self.stage {
            BanStage::Listing => BanAction::ListCommunities(self.target),
            BanStage::Rejecting => BanAction::Reject(
                self.communities[self.position as int],
                Error::BanExpirationInPast,
            ),
            BanStage::Banning => if self.ban {
                BanAction::WriteBan(self.communities[self.position as int])
            } else {
                BanAction::ClearBan(self.communities[self.position as int])
            },
            BanStage::Unfollowing => BanAction::Unfollow(self.communities[self.position as int]),
            BanStage::Logging => BanAction::WriteModLog(self.communities[self.position as int]),
            BanStage::Emitting => BanAction::Emit(self.communities[self.position as int]),
            BanStage::Completed => BanAction::Complete,
            BanStage::Aborted(e) => BanAction::Abort(e),
        }
    }

    /// The state in which the community at `position` is taken up at time
    /// `now`, or the work completed when there is no such community.
    pub open spec fn taking_up(self, position: nat, now: i64) -> BanModel {
        if position >= self.communities.len() {
            BanModel { position: self.communities.len(), stage: BanStage::Completed, ..self }
        } else if self.rejects_at(now) {
            BanModel { position, stage: BanStage::Rejecting, ..self }
        } else {
            BanModel { position, stage: BanStage::Banning, ..self }
        }
    }

    /// Whether the report answers what is pending. The list of communities
    /// answers the request for it; an outcome answers any other request,
    /// and a failure also the request for the list. Once the work is over,
    /// nothing is taken up.
    pub open spec fn accepts(self, input: BanInput) -> bool {
        match (self.stage, input) {
            (BanStage::Completed, _) => false,
            (BanStage::Aborted(_), _) => false,
            (BanStage::Listing, BanInput::Listed(_)) => true,
            (BanStage::Listing, BanInput::Outcome(Err(_))) => true,
            (BanStage::Listing, BanInput::Outcome(Ok(_))) => false,
            (_, BanInput::Listed(_)) => false,
            (_, BanInput::Outcome(_)) => true,
        }
    }

    /// The state after a report that arrives at time `now`. A report that
    /// is not taken up changes nothing.
    ///
    /// A failure of a strict step drops what is left of its unit of work:
    /// the rest of the community, or all of the propagation where the
    /// communities could not be read. A failure of a tolerant step is passed
    /// over. Otherwise the next step of the community follows, and after the
    /// last one the next community is taken up.
    pub open spec fn after(self, input: BanInput, now: i64) -> BanModel {
        if !self.accepts(input) {
            self
        } else {
            match input {
                BanInput::Listed(communities) => (BanModel { communities, ..self }).taking_up(
                    0,
                    now,
                ),
                BanInput::Outcome(outcome) => {
                    if outcome is Err && self.stage.spec_strategy() is Strict {
                        if self.stage is Listing {
                            BanModel { stage: BanStage::Aborted(outcome->Err_0), ..self }
                        } else {
                            self.taking_up(self.position + 1, now)
                        }
                    } else {
                        match self.stage.spec_next_step(self.ban) {
                            Some(stage) => BanModel { stage, ..self },
                            None => self.taking_up(self.position + 1, now),
                        }
                    }
                },
            }
        }
    }

    /// What the caller is asked to do in answer to a report: the action that
    /// is pending afterwards, when the report is taken up; otherwise
    /// nothing.
    pub open spec fn answer(self, input: BanInput, now: i64) -> Option<BanAction> {
        if self.accepts(input) {
            Some(self.after(input, now).pending())
        } else {
            None
        }
    }

    /// The state after the reports, one after the other.
    pub open spec fn after_all(self, reports: Seq<BanReport>) -> BanModel
        decreases reports.len(),
    {
        if reports.len() == 0 {
            self
        } else {
            self.after_all(reports.drop_last()).after(reports.last().input, reports.last().now)
        }
    }

    /// The actions that the caller is asked for in the course of the
    /// reports, in order. The action that is pending before the first
    /// report is not among them.
    pub open spec fn asked(self, reports: Seq<BanReport>) -> Seq<BanAction>
        decreases reports.len(),
    {
        if reports.len() == 0 {
            Seq::empty()
        } else {
            let before = reports.drop_last();
            match self.after_all(before).answer(reports.last().input, reports.last().now) {
                Some(action) => self.asked(before).push(action),
                None => self.asked(before),
            }
        }
    }
}

/// The propagation of one ban or unban.
#[derive(Debug)]
pub struct BanPropagation {
    target: PersonId,
    moderator: PersonId,
    ban: bool,
    reason: Option<String>,
    remove_or_restore_data: Option<bool>,
    expires: Option<i64>,
    communities: Vec<CommunityId>,
    position: usize,
    stage: BanStage,
}

impl View for BanPropagation {
    type V = BanModel;

    closed spec fn view(&self) -> BanModel {
        BanModel {
            target: self.target,
            moderator: self.moderator,
            ban: self.ban,
            reason: self.reason.deep_view(),
            remove_or_restore_data: self.remove_or_restore_data,
            expires: self.expires,
            communities: self.communities@,
            position: self.position as nat,
            stage: self.stage,
        }
    }
}

/// Sets up the propagation of a site ban (`ban`) or of its lifting against
/// `target`, decided by `moderator`. `expires` is the end of the ban in
/// seconds since the epoch.
///
/// For a `target` whose home is this server the propagation is complete from
/// the start. Otherwise the first thing to do is to list the local
/// communities in which the target took part.
pub fn propagate_ban(
    target: &Person,
    moderator: &Person,
    ban: bool,
    reason: Option<String>,
    remove_or_restore_data: Option<bool>,
    expires: Option<i64>,
) -> (propagation: BanPropagation)
    ensures
        propagation.wf(),
        propagation@ == BanModel::initial(
            target.id,
            target.local,
            moderator.id,
            ban,
            reason.deep_view(),
            remove_or_restore_data,
            expires,
        ),
{
    BanPropagation {
        target: target.id,
        moderator: moderator.id,
        ban,
        reason,
        remove_or_restore_data,
        expires,
        communities: Vec::new(),
        position: 0,
        stage: if target.local {
            BanStage::Completed
        } else {
            BanStage::Listing
        },
    }
}

impl BanPropagation {
    /// What holds of every propagation that this module hands out.
    pub open spec fn wf(&self) -> bool {
        self@.wf()
    }

    /// What the caller is to do now.
    pub fn pending(&self) -> (action: BanAction)
        requires
            self.wf(),
        ensures
            action == self@.pending(),
    {
        match self.stage {
            BanStage::Listing => BanAction::ListCommunities(self.target),
            BanStage::Rejecting => BanAction::Reject(
                self.communities[self.position],
                Error::BanExpirationInPast,
            ),
            BanStage::Banning => if self.ban {
                BanAction::WriteBan(self.communities[self.position])
            } else {
                BanAction::ClearBan(self.communities[self.position])
            },
            BanStage::Unfollowing => BanAction::Unfollow(self.communities[self.position]),
            BanStage::Logging => BanAction::WriteModLog(self.communities[self.position]),
            BanStage::Emitting => BanAction::Emit(self.communities[self.position]),
            BanStage::Completed => BanAction::Complete,
            BanStage::Aborted(e) => BanAction::Abort(e),
        }
    }

    /// What the call that set the propagation going returns, once the work
    /// is over: success when every community has had its turn, whatever
    /// failed on the way; the failure when the communities could not be
    /// read. `None` while work is left.
    pub fn result(&self) -> (result: Option<Result<(), Error>>)
        ensures
            result == match self@.stage {
                BanStage::Completed => Some(Ok::<(), Error>(())),
                BanStage::Aborted(e) => Some(Err::<(), Error>(e)),
                _ => None,
            },
    {
        match self.stage {
            BanStage::Completed => Some(Ok(())),
            BanStage::Aborted(e) => Some(Err(e)),
            _ => None,
        }
    }

    /// Takes up the community at `position`.
    fn take_up(&mut self, position: usize, now: i64)
        requires
            position <= old(self).communities.len(),
        ensures
            final(self)@ == old(self)@.taking_up(position as nat, now),
            final(self)@.wf(),
    {
        if position >= self.communities.len() {
            self.position = self.communities.len();
            self.stage = BanStage::Completed;
        } else if self.ban && check_expire_time(self.expires, now).is_err() {
            self.position = position;
            self.stage = BanStage::Rejecting;
        } else {
            self.position = position;
            self.stage = BanStage::Banning;
        }
    }

    /// Takes up the list of the local communities in which the target took
    /// part, read at time `now`, and says what to do next. Hands back `None`
    /// and changes nothing when no list was asked for.
    pub fn listed(&mut self, communities: Vec<CommunityId>, now: i64) -> (action: Option<
        BanAction,
    >)
        requires
            old(self).wf(),
        ensures
            final(self).wf(),
            final(self)@ == old(self)@.after(BanInput::Listed(communities@), now),
            action == old(self)@.answer(BanInput::Listed(communities@), now),
    {
        match self.stage {
            BanStage::Listing => {
                self.communities = communities;
                self.take_up(0, now);
                Some(self.pending())
            },
            _ => None,
        }
    }

    /// Takes up the outcome of the pending action, reported at time `now`,
    /// and says what to do next. Hands back `None` and changes nothing when
    /// the outcome answers nothing: once the work is over, or on a success
    /// while the list of communities is awaited.
    pub fn advance(&mut self, outcome: Result<(), Error>, now: i64) -> (action: Option<BanAction>)
        requires
            old(self).wf(),
        ensures
            final(self).wf(),
            final(self)@ == old(self)@.after(BanInput::Outcome(outcome), now),
            action == old(self)@.answer(BanInput::Outcome(outcome), now),
    {
        match self.stage {
            BanStage::Completed | BanStage::Aborted(_) => {
                return None;
            },
            BanStage::Listing => {
                match outcome {
                    Err(e) => {
                        self.stage = BanStage::Aborted(e);
                    },
                    Ok(_) => {
                        return None;
                    },
                }
            },
            stage => {
                assert(self.position < self.communities.len());
                let dropped = outcome.is_err() && matches!(stage.strategy(), Strategy::Strict);
                match stage.next_step(self.ban) {
                    Some(next) if !dropped => {
                        self.stage = next;
                    },
                    _ => {
                        self.take_up(self.position + 1, now);
                    },
                }
            },
        }
        Some(self.pending())
    }

    /// The ban to write for `community`, or to clear.
    pub fn ban_record(&self, community: CommunityId) -> (record: BanRecord)
        ensures
            record.target == self@.target,
            record.community == community,
            record.banned == self@.ban,
            record.expires == self@.expires,
            record.reason.deep_view() == self@.reason,
            record.moderator == self@.moderator,
    {
        BanRecord {
            target: self.target,
            community,
            banned: self.ban,
            expires: self.expires,
            reason: self.reason.clone(),
            moderator: self.moderator,
        }
    }

    /// The entry to add to the moderation log for `community`.
    pub fn log_entry(&self, community: CommunityId) -> (entry: ModerationLogEntry)
        ensures
            entry.moderator == self@.moderator,
            entry.target == self@.target,
            entry.community == community,
            entry.banned == self@.ban,
            entry.reason.deep_view() == self@.reason,
            entry.expires == self@.expires,
    {
        ModerationLogEntry {
            moderator: self.moderator,
            target: self.target,
            community,
            banned: self.ban,
            reason: self.reason.clone(),
            expires: self.expires,
        }
    }

    /// The announcement to send out for `community`. It carries the ban
    /// flag, the reason, the flag for the removal of data and the expiry
    /// with which the propagation was set up.
    pub fn activity(&self, community: CommunityId) -> (activity: BanActivity)
        ensures
            activity.moderator == self@.moderator,
            activity.community == community,
            activity.target == self@.target,
            activity.ban == self@.ban,
            activity.reason.deep_view() == self@.reason,
            activity.remove_or_restore_data == self@.remove_or_restore_data,
            activity.expires == self@.expires,
    {
        BanActivity {
            moderator: self.moderator,
            community,
            target: self.target,
            ban: self.ban,
            reason: self.reason.clone(),
            remove_or_restore_data: self.remove_or_restore_data,
            expires: self.expires,
        }
    }
}

} // verus!
