//! What holds of every run of a ban propagation, whatever the caller reports.

use crate::ban::{BanAction, BanModel, BanReport, BanStage};
use crate::newtypes::CommunityId;
use vstd::prelude::*;

verus! {

/// The number of bans and unbans among the actions.
pub open spec fn mutations(actions: Seq<BanAction>) -> nat
    decreases actions.len(),
{
    if actions.len() == 0 {
        0
    } else {
        mutations(actions.drop_last()) + if actions.last().is_mutation() {
            1nat
        } else {
            0nat
        }
    }
}

/// The number of announcements among the actions.
pub open spec fn emissions(actions: Seq<BanAction>) -> nat
    decreases actions.len(),
{
    if actions.len() == 0 {
        0
    } else {
        emissions(actions.drop_last()) + if actions.last() is Emit {
            1nat
        } else {
            0nat
        }
    }
}

/// The number of communities that the actions pass over.
pub open spec fn rejections(actions: Seq<BanAction>) -> nat
    decreases actions.len(),
{
    if actions.len() == 0 {
        0
    } else {
        rejections(actions.drop_last()) + if actions.last() is Reject {
            1nat
        } else {
            0nat
        }
    }
}

/// The number of communities that have been taken up so far.
pub open spec fn taken_up(s: BanModel) -> nat {
    match s.stage {
        BanStage::Listing => 0,
        BanStage::Aborted(_) => 0,
        BanStage::Completed => s.communities.len(),
        _ => s.position + 1,
    }
}

/// The number of communities whose turn is over, or whose announcement is
/// under way.
pub open spec fn closed(s: BanModel) -> nat {
    match s.stage {
        BanStage::Listing => 0,
        BanStage::Aborted(_) => 0,
        BanStage::Completed => s.communities.len(),
        BanStage::Emitting => s.position + 1,
        _ => s.position,
    }
}

/// A report leaves a well-formed state well-formed, and the command as it
/// was given.
pub proof fn lemma_step_keeps_shape(s: BanModel, report: BanReport)
    requires
        s.wf(),
    ensures
        s.after(report.input, report.now).wf(),
        s.after(report.input, report.now).ban == s.ban,
        s.after(report.input, report.now).expires == s.expires,
        s.after(report.input, report.now).target == s.target,
        s.after(report.input, report.now).moderator == s.moderator,
        s.after(report.input, report.now).reason == s.reason,
        s.after(report.input, report.now).remove_or_restore_data == s.remove_or_restore_data,
        !(s.stage is Listing) ==> s.after(report.input, report.now).communities == s.communities,
{
}

/// Any number of reports leaves a well-formed state well-formed, and the
/// command as it was given.
pub proof fn lemma_run_keeps_shape(s: BanModel, reports: Seq<BanReport>)
    requires
        s.wf(),
    ensures
        s.after_all(reports).wf(),
        s.after_all(reports).ban == s.ban,
        s.after_all(reports).expires == s.expires,
        s.after_all(reports).target == s.target,
        s.after_all(reports).moderator == s.moderator,
        s.after_all(reports).reason == s.reason,
        s.after_all(reports).remove_or_restore_data == s.remove_or_restore_data,
    decreases reports.len(),
{
    if reports.len() > 0 {
        lemma_run_keeps_shape(s, reports.drop_last());
        lemma_step_keeps_shape(s.after_all(reports.drop_last()), reports.last());
    }
}

/// Once the work is over, no report changes anything or asks for anything.
pub proof fn lemma_finished_is_final(s: BanModel, reports: Seq<BanReport>)
    requires
        s.finished(),
    ensures
        s.after_all(reports) == s,
        s.asked(reports) == Seq::<BanAction>::empty(),
    decreases reports.len(),
{
    if reports.len() > 0 {
        lemma_finished_is_final(s, reports.drop_last());
    }
}

/// A site ban of a person whose home is this server touches nothing: the
/// propagation is complete from the start, and whatever is reported to it,
/// it asks for no ban, no unban and no announcement.
pub proof fn lemma_local_target_is_untouched(s: BanModel, reports: Seq<BanReport>)
    requires
        s == BanModel::initial(
            s.target,
            true,
            s.moderator,
            s.ban,
            s.reason,
            s.remove_or_restore_data,
            s.expires,
        ),
    ensures
        s.pending() == BanAction::Complete,
        s.after_all(reports) == s,
        s.asked(reports).len() == 0,
        mutations(s.asked(reports)) == 0,
        emissions(s.asked(reports)) == 0,
{
    lemma_finished_is_final(s, reports);
}

/// At every moment of a run, each community that has been taken up was
/// either passed over or had one ban or unban asked for, and no community
/// had more than one announcement.
pub proof fn lemma_progress(s: BanModel, reports: Seq<BanReport>)
    requires
        s.wf(),
        s.stage is Listing,
    ensures
        s.after_all(reports).wf(),
        mutations(s.asked(reports)) + rejections(s.asked(reports)) == taken_up(
            s.after_all(reports),
        ),
        emissions(s.asked(reports)) <= closed(s.after_all(reports)),
    decreases reports.len(),
{
    if reports.len() > 0 {
        let before = reports.drop_last();
        let last = reports.last();
        lemma_progress(s, before);
        let mid = s.after_all(before);
        lemma_step_keeps_shape(mid, last);
        match mid.answer(last.input, last.now) {
            Some(action) => {
                let asked = s.asked(before).push(action);
                assert(asked.drop_last() =~= s.asked(before));
                assert(asked.last() == action);
            },
            None => {},
        }
    }
}

/// The communities that the actions ban from, unban from or pass over, in
/// the order of the actions.
pub open spec fn touched(actions: Seq<BanAction>) -> Seq<CommunityId>
    decreases actions.len(),
{
    if actions.len() == 0 {
        Seq::empty()
    } else {
        let before = touched(actions.drop_last());
        match actions.last() {
            BanAction::WriteBan(c) => before.push(c),
            BanAction::ClearBan(c) => before.push(c),
            BanAction::Reject(c, _) => before.push(c),
            _ => before,
        }
    }
}

/// The communities are taken up in the order of the list, each once: at
/// every moment of a run, the communities that were banned from, unbanned
/// from or passed over are the first ones of the list, in order.
pub proof fn lemma_communities_are_taken_up_in_order(s: BanModel, reports: Seq<BanReport>)
    requires
        s.wf(),
        s.stage is Listing,
    ensures
        taken_up(s.after_all(reports)) <= s.after_all(reports).communities.len(),
        touched(s.asked(reports)) == s.after_all(reports).communities.take(
            taken_up(s.after_all(reports)) as int,
        ),
    decreases reports.len(),
{
    if reports.len() > 0 {
        let before = reports.drop_last();
        let last = reports.last();
        lemma_communities_are_taken_up_in_order(s, before);
        lemma_run_keeps_shape(s, before);
        let mid = s.after_all(before);
        let end = mid.after(last.input, last.now);
        lemma_step_keeps_shape(mid, last);
        match mid.answer(last.input, last.now) {
            Some(action) => {
                let asked = s.asked(before).push(action);
                assert(asked.drop_last() =~= s.asked(before));
                assert(asked.last() == action);
                if mid.stage is Listing {
                    assert(touched(s.asked(before)) =~= Seq::<CommunityId>::empty());
                }
                assert(touched(asked) =~= end.communities.take(taken_up(end) as int));
            },
            None => {},
        }
    } else {
        assert(touched(s.asked(reports)) =~= s.communities.take(0));
    }
}

/// When the propagation for a person from another server has completed,
/// every community of the list was banned from, unbanned from or passed
/// over, once and in the order of the list.
pub proof fn lemma_every_community_is_dealt_with(s: BanModel, reports: Seq<BanReport>)
    requires
        s.wf(),
        s.stage is Listing,
        s.after_all(reports).stage is Completed,
    ensures
        touched(s.asked(reports)) == s.after_all(reports).communities,
{
    lemma_communities_are_taken_up_in_order(s, reports);
    let end = s.after_all(reports);
    assert(end.communities.take(end.communities.len() as int) =~= end.communities);
}

/// The action that was asked for last is the one that is pending.
pub proof fn lemma_last_asked_is_pending(s: BanModel, reports: Seq<BanReport>)
    ensures
        s.asked(reports).len() > 0 ==> s.asked(reports).last() == s.after_all(reports).pending(),
    decreases reports.len(),
{
    if reports.len() > 0 {
        lemma_last_asked_is_pending(s, reports.drop_last());
    }
}

/// The moderation log is strict: an announcement is asked for only right
/// after the log entry for the same community, and only when that entry was
/// written. No community is announced whose log entry failed.
pub proof fn lemma_announcement_follows_log_entry(s: BanModel, reports: Seq<BanReport>, k: int)
    requires
        s.wf(),
        s.stage is Listing,
        0 <= k < s.asked(reports).len(),
        s.asked(reports)[k] is Emit,
    ensures
        k > 0,
        s.asked(reports)[k - 1] == BanAction::WriteModLog(s.asked(reports)[k]->Emit_0),
    decreases reports.len(),
{
    if reports.len() > 0 {
        let before = reports.drop_last();
        let last = reports.last();
        if k < s.asked(before).len() {
            lemma_announcement_follows_log_entry(s, before, k);
        } else {
            let mid = s.after_all(before);
            lemma_run_keeps_shape(s, before);
            lemma_last_asked_is_pending(s, before);
            if s.asked(before).len() == 0 {
                lemma_nothing_asked_nothing_changed(s, before);
            }
            assert(mid.stage is Logging);
        }
    }
}

/// As long as nothing has been asked for, nothing has changed.
pub proof fn lemma_nothing_asked_nothing_changed(s: BanModel, reports: Seq<BanReport>)
    requires
        s.asked(reports).len() == 0,
    ensures
        s.after_all(reports) == s,
    decreases reports.len(),
{
    if reports.len() > 0 {
        lemma_nothing_asked_nothing_changed(s, reports.drop_last());
    }
}

/// A community is passed over only when the ban has expired by the time the
/// community is taken up: if the propagation is an unban, or the ban has
/// no end, or its end lies before none of the times at which a report
/// arrives, no community is passed over.
pub proof fn lemma_no_rejection_without_expiry(s: BanModel, reports: Seq<BanReport>)
    requires
        s.wf(),
        s.stage is Listing,
        forall|j: int| 0 <= j < reports.len() ==> !s.rejects_at((#[trigger] reports[j]).now),
    ensures
        rejections(s.asked(reports)) == 0,
        !(s.after_all(reports).stage is Rejecting),
    decreases reports.len(),
{
    if reports.len() > 0 {
        let before = reports.drop_last();
        let last = reports.last();
        assert forall|j: int| 0 <= j < before.len() implies !s.rejects_at(
            (#[trigger] before[j]).now,
        ) by {
            assert(before[j] == reports[j]);
        }
        lemma_no_rejection_without_expiry(s, before);
        lemma_run_keeps_shape(s, before);
        let mid = s.after_all(before);
        assert(last == reports[reports.len() - 1]);
        assert(!mid.rejects_at(last.now));
        match mid.answer(last.input, last.now) {
            Some(action) => {
                let asked = s.asked(before).push(action);
                assert(asked.drop_last() =~= s.asked(before));
                assert(asked.last() == action);
            },
            None => {},
        }
    }
}

/// When the propagation for a person from another server has completed
/// over `n` communities, each of them was either passed over, because the
/// ban had expired, or had exactly one ban or unban asked for; and at most
/// `n` announcements were asked for. This holds whatever failed on the way.
pub proof fn lemma_every_community_has_its_turn(s: BanModel, reports: Seq<BanReport>)
    requires
        s.wf(),
        s.stage is Listing,
        s.after_all(reports).stage is Completed,
    ensures
        mutations(s.asked(reports)) + rejections(s.asked(reports)) == s.after_all(
            reports,
        ).communities.len(),
        emissions(s.asked(reports)) <= s.after_all(reports).communities.len(),
{
    lemma_progress(s, reports);
}

/// When the propagation for a person from another server has completed over
/// `n` communities, none of which was passed over, then exactly `n` bans or
/// unbans were asked for, and at most `n` announcements, whatever failed on
/// the way.
pub proof fn lemma_one_mutation_per_community(s: BanModel, reports: Seq<BanReport>)
    requires
        s.wf(),
        s.stage is Listing,
        s.after_all(reports).stage is Completed,
        rejections(s.asked(reports)) == 0,
    ensures
        mutations(s.asked(reports)) == s.after_all(reports).communities.len(),
        emissions(s.asked(reports)) <= s.after_all(reports).communities.len(),
{
    lemma_progress(s, reports);
}

/// No community is passed over, and so each has its ban or unban asked for,
/// when the propagation is an unban, or the ban has no end, or its end lies
/// before none of the times at which a report arrives.
pub proof fn lemma_one_mutation_per_community_while_unexpired(
    s: BanModel,
    reports: Seq<BanReport>,
)
    requires
        s.wf(),
        s.stage is Listing,
        s.after_all(reports).stage is Completed,
        !s.ban || s.expires is None || forall|j: int|
            0 <= j < reports.len() ==> !s.rejects_at((#[trigger] reports[j]).now),
    ensures
        mutations(s.asked(reports)) == s.after_all(reports).communities.len(),
        emissions(s.asked(reports)) <= s.after_all(reports).communities.len(),
{
    assert forall|j: int| 0 <= j < reports.len() implies !s.rejects_at(
        (#[trigger] reports[j]).now,
    ) by {}
    lemma_no_rejection_without_expiry(s, reports);
    lemma_one_mutation_per_community(s, reports);
}

} // verus!
