//! What holds of every run of the persisting of a record.

use crate::error::ErrorModel;
use crate::serialize::machine::{step, ActionModel, Phase, ReplyModel, SerializerModel};
use vstd::prelude::*;

verus! {

/// The state after a list of answers was taken in order.
pub open spec fn run(m: SerializerModel, replies: Seq<ReplyModel>) -> SerializerModel
    decreases replies.len(),
{
    if replies.len() == 0 {
        m
    } else {
        run(step(m, replies[0]).0, replies.drop_first())
    }
}

/// The actions that a list of answers, taken in order, led to.
pub open spec fn actions(m: SerializerModel, replies: Seq<ReplyModel>) -> Seq<ActionModel>
    decreases replies.len(),
{
    if replies.len() == 0 {
        Seq::<ActionModel>::empty()
    } else {
        seq![step(m, replies[0]).1] + actions(step(m, replies[0]).0, replies.drop_first())
    }
}

/// Whether no answer of a list is a failure.
pub open spec fn unfailing(replies: Seq<ReplyModel>) -> bool {
    forall|i: int| 0 <= i < replies.len() ==> !(#[trigger] replies[i] is Failed)
}

/// Whether the person's row has been accepted and the record is still on
/// its way to the commit.
pub open spec fn row_accepted(phase: Phase) -> bool {
    match phase {
        Phase::Beginning | Phase::InsertingInmate | Phase::RollingBack | Phase::Finished => false,
        _ => true,
    }
}

/// Whether an action writes the photo address of the person's row, or
/// stores the photo.
pub open spec fn touches_photo(action: ActionModel) -> bool {
    action is InsertInmate || action is UploadImage || action is ClearImageUrl
}

/// How many of `len` items are left from the `next`-th on.
pub open spec fn left(len: nat, next: nat) -> nat {
    if next < len {
        (len - next) as nat
    } else {
        0
    }
}

/// An upper bound on the number of answers that are still needed before the
/// outcome is known.
pub open spec fn rank(m: SerializerModel) -> nat {
    let a = m.aliases.len();
    let b = m.record.bond.len();
    let c = m.record.charges.len();
    match m.phase {
        Phase::Finished => 0,
        Phase::RollingBack => 1,
        Phase::Committing => 1,
        Phase::InsertingCharge => 2 + left(c, m.next),
        Phase::InsertingBond => 3 + c + left(b, m.next),
        Phase::InsertingImage => 4 + c + b,
        Phase::LinkingAlias => 5 + c + b + 2 * left(a, m.next),
        Phase::UpsertingAlias => 6 + c + b + 2 * left(a, m.next),
        Phase::ClearingImageUrl => 7 + c + b + 2 * a,
        Phase::Uploading => 8 + c + b + 2 * a,
        Phase::InsertingInmate => 9 + c + b + 2 * a,
        Phase::Beginning => 10 + c + b + 2 * a,
    }
}

/// No answer changes the record, the aliases to write, or whether there is
/// an object storage.
pub proof fn lemma_step_keeps_record(m: SerializerModel, reply: ReplyModel)
    ensures
        step(m, reply).0.record == m.record,
        step(m, reply).0.aliases == m.aliases,
        step(m, reply).0.storage_available == m.storage_available,
{
}

/// Once the outcome is known, nothing more happens.
pub proof fn lemma_finished_stays(m: SerializerModel, replies: Seq<ReplyModel>)
    requires
        m.phase == Phase::Finished,
    ensures
        run(m, replies) == m,
        actions(m, replies).len() == replies.len(),
        forall|i: int|
            0 <= i < replies.len() ==> #[trigger] actions(m, replies)[i] == ActionModel::Finish,
    decreases replies.len(),
{
    if replies.len() > 0 {
        lemma_finished_stays(m, replies.drop_first());
    }
}

/// After the person's row was accepted, an answer that is no failure brings
/// the record closer to its commit: it keeps the identity of the row, it is
/// never answered with a rollback, and it leaves the photo address alone.
pub proof fn lemma_unfailing_step(m: SerializerModel, reply: ReplyModel)
    requires
        row_accepted(m.phase),
        !(reply is Failed),
    ensures
        rank(step(m, reply).0) < rank(m),
        step(m, reply).0.inmate_id == m.inmate_id,
        step(m, reply).0.phase == Phase::Finished ==> step(m, reply).0.outcome == Some(
            Ok::<i32, ErrorModel>(m.inmate_id),
        ),
        step(m, reply).0.phase != Phase::Finished ==> row_accepted(step(m, reply).0.phase),
        !touches_photo(step(m, reply).1),
        !(step(m, reply).1 is Rollback),
{
}

/// After the person's row was accepted, a run of answers without a failure
/// ends in a commit: the outcome is the identity of the row, no action of
/// the run is a rollback, and none touches the photo address.
pub proof fn lemma_unfailing_run_commits(m: SerializerModel, replies: Seq<ReplyModel>)
    requires
        row_accepted(m.phase),
        unfailing(replies),
        replies.len() >= rank(m),
    ensures
        run(m, replies).phase == Phase::Finished,
        run(m, replies).outcome == Some(Ok::<i32, ErrorModel>(m.inmate_id)),
        actions(m, replies).len() == replies.len(),
        forall|i: int|
            0 <= i < replies.len() ==> !touches_photo(#[trigger] actions(m, replies)[i]) && !(
            actions(m, replies)[i] is Rollback),
    decreases replies.len(),
{
    assert(replies.len() > 0);
    let first = replies[0];
    let rest = replies.drop_first();
    let after = step(m, first).0;
    lemma_unfailing_step(m, first);
    assert(unfailing(rest)) by {
        assert forall|i: int| 0 <= i < rest.len() implies !(#[trigger] rest[i] is Failed) by {
            assert(rest[i] == replies[i + 1]);
        }
    }
    if after.phase == Phase::Finished {
        lemma_finished_stays(after, rest);
    } else {
        lemma_unfailing_run_commits(after, rest);
    }
    assert forall|i: int| 0 <= i < replies.len() implies !touches_photo(
        #[trigger] actions(m, replies)[i],
    ) && !(actions(m, replies)[i] is Rollback) by {
        if i > 0 {
            assert(actions(m, replies)[i] == actions(after, rest)[i - 1]);
        }
    }
}

/// A person whom the store refuses, as it does one that it already holds,
/// leaves nothing behind: the transaction is rolled back, no alias, photo,
/// bond or charge is written, and the outcome is the store's error.
pub proof fn lemma_refused_person_writes_nothing(
    m: SerializerModel,
    e: ErrorModel,
    later: Seq<ReplyModel>,
)
    requires
        m.phase == Phase::InsertingInmate,
        later.len() > 0,
    ensures
        run(m, seq![ReplyModel::Failed(e)] + later).phase == Phase::Finished,
        run(m, seq![ReplyModel::Failed(e)] + later).outcome == Some(Err::<i32, ErrorModel>(e)),
        actions(m, seq![ReplyModel::Failed(e)] + later).len() == later.len() + 1,
        actions(m, seq![ReplyModel::Failed(e)] + later)[0] == ActionModel::Rollback,
        forall|i: int|
            1 <= i <= later.len() ==> #[trigger] actions(m, seq![ReplyModel::Failed(e)] + later)[i]
                == ActionModel::Finish,
{
    let replies = seq![ReplyModel::Failed(e)] + later;
    assert(replies.drop_first() =~= later);
    let rolling = step(m, replies[0]).0;
    assert(rolling.phase == Phase::RollingBack && rolling.failure == Some(e));
    assert(later.drop_first() =~= later.subrange(1, later.len() as int));
    let done = step(rolling, later[0]).0;
    lemma_finished_stays(done, later.drop_first());
    assert(run(rolling, later) == run(done, later.drop_first()));
    assert(actions(rolling, later) == seq![ActionModel::Finish] + actions(
        done,
        later.drop_first(),
    ));
    assert forall|i: int| 1 <= i <= later.len() implies #[trigger] actions(m, replies)[i]
        == ActionModel::Finish by {
        assert(actions(m, replies)[i] == actions(rolling, later)[i - 1]);
        if i > 1 {
            assert(actions(rolling, later)[i - 1] == actions(done, later.drop_first())[i - 2]);
        }
    }
}

/// A photo that cannot be stored does not cost the record: the photo
/// address of the row is emptied, and if nothing else fails the record is
/// committed under the identity of its row, with no later action touching
/// the photo address again.
pub proof fn lemma_failed_upload_is_compensated(
    m: SerializerModel,
    e: ErrorModel,
    later: Seq<ReplyModel>,
)
    requires
        m.phase == Phase::Uploading,
        unfailing(later),
        later.len() >= rank(m),
    ensures
        step(m, ReplyModel::Failed(e)).1 == (ActionModel::ClearImageUrl { inmate_id: m.inmate_id }),
        run(m, seq![ReplyModel::Failed(e)] + later).phase == Phase::Finished,
        run(m, seq![ReplyModel::Failed(e)] + later).outcome == Some(
            Ok::<i32, ErrorModel>(m.inmate_id),
        ),
        actions(m, seq![ReplyModel::Failed(e)] + later).len() == later.len() + 1,
        forall|i: int|
            1 <= i <= later.len() ==> !touches_photo(
                #[trigger] actions(m, seq![ReplyModel::Failed(e)] + later)[i],
            ) && !(actions(m, seq![ReplyModel::Failed(e)] + later)[i] is Rollback),
{
    let replies = seq![ReplyModel::Failed(e)] + later;
    assert(replies.drop_first() =~= later);
    let clearing = step(m, replies[0]).0;
    assert(clearing.phase == Phase::ClearingImageUrl);
    lemma_unfailing_run_commits(clearing, later);
    assert forall|i: int| 1 <= i <= later.len() implies !touches_photo(
        #[trigger] actions(m, replies)[i],
    ) && !(actions(m, replies)[i] is Rollback) by {
        assert(actions(m, replies)[i] == actions(clearing, later)[i - 1]);
    }
}

} // verus!
