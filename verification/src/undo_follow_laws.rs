//! What holds of undoing a follow, whatever the replies are.

use vstd::prelude::*;

use crate::error::LemmyError;
use crate::schema::{CommunityFollowerForm, CommunityId, PersonId};
use crate::undo_follow::{
    begin_receive, begin_send, begin_verify, next_receive, next_send, next_verify, outcome,
    undo_of, ActivityKind, CommunityActor, ReceiveUndoAction, ReceiveUndoEvent, ReceiveUndoState,
    SendUndoActionView, SendUndoEvent, SendUndoState, UndoFollowCommunity,
    UndoFollowCommunityView, VerifyUndoAction, VerifyUndoState,
};
use url::Url;

verus! {

/// One round of the sending of an activity.
pub struct SendUndoStep<E> {
    pub state: SendUndoState,
    pub action: SendUndoActionView<E>,
    pub event: SendUndoEvent<E>,
}

/// Whether the round after round `i` is the one that its reply leads to.
pub open spec fn send_goes_on<E>(
    actor: Url,
    community: CommunityActor,
    context: Seq<char>,
    run: Seq<SendUndoStep<E>>,
    i: int,
) -> bool {
    &&& run[i].state.expects(run[i].event)
    &&& (run[i + 1].state, run[i + 1].action) == next_send(
        actor,
        community,
        context,
        run[i].state,
        run[i].event,
    )
}

/// Whether `run` is how the sending of an activity can go.
pub open spec fn is_send_run<E>(
    actor: Url,
    community: CommunityActor,
    context: Seq<char>,
    run: Seq<SendUndoStep<E>>,
) -> bool {
    &&& run.len() > 0
    &&& (run[0].state, run[0].action) == begin_send::<E>()
    &&& forall|i: int|
        0 <= i < run.len() - 1 ==> #[trigger] send_goes_on(actor, community, context, run, i)
}

/// The sending of an activity ends after four rounds at most. The activity is sent
/// once it and the one that it undoes have their addresses, from the person that it comes
/// from to one inbox, and the queue's word is the last.
pub proof fn activities_go_to_one_inbox<E>(
    actor: Url,
    community: CommunityActor,
    context: Seq<char>,
    run: Seq<SendUndoStep<E>>,
    end: int,
    result: Result<(), LemmyError<E>>,
)
    requires
        is_send_run(actor, community, context, run),
        0 <= end < run.len(),
        run[end].action == (SendUndoActionView::<E>::Finish { result }),
    ensures
        run.len() == end + 1,
        end <= 3,
        run[0].action == (SendUndoActionView::<E>::GenerateActivityId {
            kind: ActivityKind::Undo,
        }),
        run[0].event matches SendUndoEvent::ActivityId(undo_reply) && match undo_reply {
            Err(error) => result == Err::<(), _>(LemmyError::of_cause(error)),
            Ok(id) => {
                &&& run[1].action == (SendUndoActionView::<E>::GenerateActivityId {
                    kind: ActivityKind::Follow,
                })
                &&& run[1].event matches SendUndoEvent::ActivityId(follow_reply)
                &&& match follow_reply {
                    Err(error) => result == Err::<(), _>(LemmyError::of_cause(error)),
                    Ok(follow_id) => {
                        &&& run[2].action == (SendUndoActionView::<E>::SendActivity {
                            activity: undo_of(actor, community.actor_id, context, id, follow_id),
                            activity_id: id,
                            actor,
                            inboxes: seq![community.shared_inbox_or_inbox_url],
                            sensitive: true,
                        })
                        &&& run[2].event matches SendUndoEvent::Sent(reply)
                        &&& result == outcome(reply)
                    },
                }
            },
        },
{
    assert(end > 0);
    assert(send_goes_on(actor, community, context, run, end - 1));
    assert(run[end].state is Finished);
    if end < run.len() - 1 {
        assert(send_goes_on(actor, community, context, run, end));
    }
    assert(send_goes_on(actor, community, context, run, 0));
    if end > 1 {
        assert(send_goes_on(actor, community, context, run, 1));
    }
    if end > 2 {
        assert(send_goes_on(actor, community, context, run, 2));
    }
    if end > 3 {
        assert(send_goes_on(actor, community, context, run, 3));
    }
}

/// One round of the check of an activity. The reply says whether the check passed.
pub struct VerifyUndoStep<'a, E> {
    pub state: VerifyUndoState,
    pub action: VerifyUndoAction<'a, E>,
    pub reply: Result<(), E>,
}

/// Whether the round after round `i` is the one that its reply leads to.
pub open spec fn verify_goes_on<'a, E>(
    activity: &'a UndoFollowCommunity,
    run: Seq<VerifyUndoStep<'a, E>>,
    i: int,
) -> bool {
    &&& !(run[i].state is Finished)
    &&& (run[i + 1].state, run[i + 1].action) == next_verify(
        activity,
        run[i].state,
        run[i].reply,
    )
}

/// Whether `run` is how the check of an activity can go.
pub open spec fn is_verify_run<'a, E>(
    activity: &'a UndoFollowCommunity,
    run: Seq<VerifyUndoStep<'a, E>>,
) -> bool {
    &&& run.len() > 0
    &&& (run[0].state, run[0].action) == begin_verify::<E>(activity)
    &&& forall|i: int| 0 <= i < run.len() - 1 ==> #[trigger] verify_goes_on(activity, run, i)
}

/// An activity is accepted exactly if every check passes, in this order: the activity
/// itself, that it goes to the community that was followed, that it comes from
/// the person that followed, that person, and the activity that it undoes. Otherwise
/// the first check that fails gives the error.
pub proof fn accepted_activities_pass_every_check<'a, E>(
    activity: &'a UndoFollowCommunity,
    run: Seq<VerifyUndoStep<'a, E>>,
    end: int,
    result: Result<(), LemmyError<E>>,
)
    requires
        is_verify_run(activity, run),
        0 <= end < run.len(),
        run[end].action matches VerifyUndoAction::Finish { result: given } && given == result,
    ensures
        run.len() == end + 1,
        end <= 5,
        result is Ok <==> {
            &&& end == 5
            &&& forall|i: int| 0 <= i < 5 ==> (#[trigger] run[i]).reply is Ok
        },
        result matches Err(error) ==> (run[end - 1].reply matches Err(cause) && error
            == LemmyError::of_cause(cause)),
        run[0].action matches VerifyUndoAction::VerifyActivity { common } && common
            == &activity.common,
        end > 1 ==> (run[1].action matches VerifyUndoAction::VerifyUrlsMatch { a, b } && a
            == &activity.to && b == &activity.object.object),
        end > 2 ==> (run[2].action matches VerifyUndoAction::VerifyUrlsMatch { a, b } && a
            == &activity.common.actor && b == &activity.object.common.actor),
        end > 3 ==> (run[3].action matches VerifyUndoAction::VerifyPerson { actor } && actor
            == &activity.common.actor),
        end > 4 ==> (run[4].action matches VerifyUndoAction::VerifyFollow { object } && object
            == &activity.object),
{
    assert(end > 0);
    assert(verify_goes_on(activity, run, end - 1));
    assert(run[end].state is Finished);
    if end < run.len() - 1 {
        assert(verify_goes_on(activity, run, end));
    }
    assert(verify_goes_on(activity, run, 0));
    if end > 1 {
        assert(verify_goes_on(activity, run, 1));
    }
    if end > 2 {
        assert(verify_goes_on(activity, run, 2));
    }
    if end > 3 {
        assert(verify_goes_on(activity, run, 3));
    }
    if end > 4 {
        assert(verify_goes_on(activity, run, 4));
    }
    if end > 5 {
        assert(verify_goes_on(activity, run, 5));
    }
}

/// An activity that this server sends matches itself as its receiver will check it: it goes
/// to the community that was followed, and comes from the person that followed it.
pub proof fn sent_activities_match_themselves<E>(
    actor: Url,
    community: Url,
    context: Seq<char>,
    id: Url,
    follow_id: Url,
    activity: &UndoFollowCommunity,
)
    requires
        activity@ == undo_of(actor, community, context, id, follow_id),
    ensures
        VerifyUndoState::Activity.after::<E>(activity).1 matches VerifyUndoAction::VerifyUrlsMatch {
            a,
            b,
        } && a == b && a == &community,
        VerifyUndoState::Community.after::<E>(activity).1 matches VerifyUndoAction::VerifyUrlsMatch {
            a,
            b,
        } && a == b && a == &actor,
{
    assert(activity@.to == activity.to);
    assert(activity@.object.object == activity.object.object);
    assert(activity@.object.common.actor == activity.object.common.actor);
}

/// One round of the carrying out of an activity.
pub struct ReceiveUndoStep<E> {
    pub state: ReceiveUndoState,
    pub action: ReceiveUndoAction<E>,
    pub event: ReceiveUndoEvent<E>,
}

/// Whether the round after round `i` is the one that its reply leads to.
pub open spec fn receive_goes_on<E>(
    activity: UndoFollowCommunityView,
    run: Seq<ReceiveUndoStep<E>>,
    i: int,
) -> bool {
    &&& run[i].state.expects(run[i].event)
    &&& (run[i + 1].state, run[i + 1].action) == next_receive(
        activity,
        run[i].state,
        run[i].event,
    )
}

/// Whether `run` is how the carrying out of an activity can go.
pub open spec fn is_receive_run<E>(
    activity: UndoFollowCommunityView,
    run: Seq<ReceiveUndoStep<E>>,
) -> bool {
    &&& run.len() > 0
    &&& (run[0].state, run[0].action) == begin_receive::<E>(activity)
    &&& forall|i: int| 0 <= i < run.len() - 1 ==> #[trigger] receive_goes_on(activity, run, i)
}

/// The carrying out of an activity succeeds exactly if the person and the community can
/// be found and the pool takes the query that removes the one from the other's
/// followers. It is no error if that query fails because nothing was there to remove.
pub proof fn undoing_nothing_is_no_error<E>(
    activity: UndoFollowCommunityView,
    run: Seq<ReceiveUndoStep<E>>,
    end: int,
    result: Result<(), LemmyError<E>>,
)
    requires
        is_receive_run(activity, run),
        0 <= end < run.len(),
        run[end].action == (ReceiveUndoAction::<E>::Finish { result }),
    ensures
        run.len() == end + 1,
        end <= 3,
        run[0].action == (ReceiveUndoAction::<E>::GetOrFetchPerson {
            actor: activity.common.actor,
        }),
        run[0].event matches ReceiveUndoEvent::Person(person_reply) && match person_reply {
            Err(error) => result == Err::<(), _>(LemmyError::of_cause(error)),
            Ok(person_id) => {
                &&& run[1].action == (ReceiveUndoAction::<E>::GetOrFetchCommunity {
                    community: activity.to,
                })
                &&& run[1].event matches ReceiveUndoEvent::Community(community_reply)
                &&& match community_reply {
                    Err(error) => result == Err::<(), _>(LemmyError::of_cause(error)),
                    Ok(community_id) => {
                        &&& run[2].action == (ReceiveUndoAction::<E>::Unfollow {
                            form: CommunityFollowerForm { community_id, person_id, pending: false },
                        })
                        &&& run[2].event matches ReceiveUndoEvent::Unfollowed(reply)
                        &&& match reply {
                            Err(error) => result == Err::<(), _>(LemmyError::of_cause(error)),
                            Ok(_) => result is Ok,
                        }
                    },
                }
            },
        },
{
    assert(end > 0);
    assert(receive_goes_on(activity, run, end - 1));
    assert(run[end].state is Finished);
    if end < run.len() - 1 {
        assert(receive_goes_on(activity, run, end));
    }
    assert(receive_goes_on(activity, run, 0));
    if end > 1 {
        assert(receive_goes_on(activity, run, 1));
    }
    if end > 2 {
        assert(receive_goes_on(activity, run, 2));
    }
    if end > 3 {
        assert(receive_goes_on(activity, run, 3));
    }
}

/// Whether a check compared two addresses, and the comparison passed.
pub open spec fn compared<'a, E>(run: Seq<VerifyUndoStep<'a, E>>, a: Url, b: Url) -> bool {
    exists|i: int|
        0 <= i < run.len() && (#[trigger] run[i]).reply is Ok && (
        run[i].action matches VerifyUndoAction::VerifyUrlsMatch { a: left, b: right } && *left == a
            && *right == b)
}

/// An activity that was accepted undoes nothing but a follow whose person and community
/// passed the comparison with those that it names: these are looked up, once each, and what is
/// removed is the follow of the one that was found in the other.
///
/// `checks` is the check of the activity, `received` the carrying out.
pub proof fn what_is_undone_was_compared<'a, E>(
    activity: &'a UndoFollowCommunity,
    checks: Seq<VerifyUndoStep<'a, E>>,
    end: int,
    received: Seq<ReceiveUndoStep<E>>,
    i: int,
)
    requires
        is_verify_run(activity, checks),
        0 <= end < checks.len(),
        checks[end].action matches VerifyUndoAction::Finish { result } && result is Ok,
        is_receive_run(activity@, received),
        0 <= i < received.len(),
    ensures
        compared(checks, activity.common.actor, activity.object.common.actor),
        compared(checks, activity.to, activity.object.object),
        checks[3].action matches VerifyUndoAction::VerifyPerson { actor } && *actor
            == activity.common.actor && checks[3].reply is Ok,
        match received[i].action {
            ReceiveUndoAction::GetOrFetchPerson { actor } => i == 0 && actor
                == activity.common.actor,
            ReceiveUndoAction::GetOrFetchCommunity { community } => i == 1 && community
                == activity.to,
            ReceiveUndoAction::Unfollow { form } => {
                &&& i == 2
                &&& received[0].action == (ReceiveUndoAction::<E>::GetOrFetchPerson {
                    actor: activity.common.actor,
                })
                &&& received[0].event == ReceiveUndoEvent::<E>::Person(Ok(form.person_id))
                &&& received[1].action == (ReceiveUndoAction::<E>::GetOrFetchCommunity {
                    community: activity.to,
                })
                &&& received[1].event == ReceiveUndoEvent::<E>::Community(Ok(form.community_id))
                &&& !form.pending
            },
            ReceiveUndoAction::Finish { .. } => i > 0,
        },
{
    let result = checks[end].action->result;
    accepted_activities_pass_every_check(activity, checks, end, result);
    assert(checks[1].reply is Ok && checks[2].reply is Ok && checks[3].reply is Ok);
    if i > 0 {
        assert(receive_goes_on(activity@, received, 0));
    }
    if i > 1 {
        assert(receive_goes_on(activity@, received, 1));
    }
    if i > 2 {
        assert(receive_goes_on(activity@, received, 2));
    }
    if i > 3 {
        assert(receive_goes_on(activity@, received, 3));
    }
}

/// Whether every comparison of addresses that passed in a check was of equal ones.
pub open spec fn comparisons_are_true<'a, E>(run: Seq<VerifyUndoStep<'a, E>>) -> bool {
    forall|i: int|
        0 <= i < run.len() && (#[trigger] run[i]).reply is Ok ==> match run[i].action {
            VerifyUndoAction::VerifyUrlsMatch { a, b } => *a == *b,
            _ => true,
        }
}

/// An activity that was accepted undoes nothing but the follow that it names, at the request of
/// the person that followed: the person and the community that are looked up are those of
/// the undone activity, and what is removed is the follow of the one that was found in the
/// other.
///
/// `checks` is the check of the activity, `received` the carrying out.
pub proof fn only_the_named_follow_is_undone<'a, E>(
    activity: &'a UndoFollowCommunity,
    checks: Seq<VerifyUndoStep<'a, E>>,
    end: int,
    received: Seq<ReceiveUndoStep<E>>,
    i: int,
)
    requires
        is_verify_run(activity, checks),
        comparisons_are_true(checks),
        0 <= end < checks.len(),
        checks[end].action matches VerifyUndoAction::Finish { result } && result is Ok,
        is_receive_run(activity@, received),
        0 <= i < received.len(),
    ensures
        activity.common.actor == activity.object.common.actor,
        checks[3].action matches VerifyUndoAction::VerifyPerson { actor } && *actor
            == activity.object.common.actor && checks[3].reply is Ok,
        match received[i].action {
            ReceiveUndoAction::GetOrFetchPerson { actor } => i == 0 && actor
                == activity.object.common.actor,
            ReceiveUndoAction::GetOrFetchCommunity { community } => i == 1 && community
                == activity.object.object,
            ReceiveUndoAction::Unfollow { form } => {
                &&& i == 2
                &&& received[0].action == (ReceiveUndoAction::<E>::GetOrFetchPerson {
                    actor: activity.object.common.actor,
                })
                &&& received[0].event == ReceiveUndoEvent::<E>::Person(Ok(form.person_id))
                &&& received[1].action == (ReceiveUndoAction::<E>::GetOrFetchCommunity {
                    community: activity.object.object,
                })
                &&& received[1].event == ReceiveUndoEvent::<E>::Community(Ok(form.community_id))
                &&& !form.pending
            },
            ReceiveUndoAction::Finish { .. } => i > 0,
        },
{
    what_is_undone_was_compared(activity, checks, end, received, i);
}

/// What is left of the follows of the server once an activity was carried out, if each query
/// removes the follow that its form names.
pub open spec fn follows_after<E>(
    follows: Set<(PersonId, CommunityId)>,
    run: Seq<ReceiveUndoStep<E>>,
) -> Set<(PersonId, CommunityId)> {
    follows.filter(|follow: (PersonId, CommunityId)| !is_undone(run, follow))
}

/// Whether a run asks for the removal of a follow.
pub open spec fn is_undone<E>(
    run: Seq<ReceiveUndoStep<E>>,
    follow: (PersonId, CommunityId),
) -> bool {
    exists|i: int|
        0 <= i < run.len() && ((#[trigger] run[i]).action matches ReceiveUndoAction::Unfollow {
            form,
        } && (form.person_id, form.community_id) == follow)
}

/// The follows of every person but the one that was found, and those in every community but
/// the one that was found, are as before.
pub proof fn other_follows_stay<E>(
    activity: UndoFollowCommunityView,
    run: Seq<ReceiveUndoStep<E>>,
    follows: Set<(PersonId, CommunityId)>,
    follow: (PersonId, CommunityId),
)
    requires
        is_receive_run(activity, run),
        run.len() > 2 && run[0].event == ReceiveUndoEvent::<E>::Person(Ok(follow.0)) ==> run[1].event
            != ReceiveUndoEvent::<E>::Community(Ok(follow.1)),
    ensures
        follows_after(follows, run).contains(follow) <==> follows.contains(follow),
{
    if is_undone(run, follow) {
        let i = choose|i: int|
            0 <= i < run.len() && ((#[trigger] run[i]).action matches ReceiveUndoAction::Unfollow {
                form,
            } && (form.person_id, form.community_id) == follow);
        assert(run[i].action is Unfollow);
        if i > 0 {
            assert(receive_goes_on(activity, run, 0));
        }
        if i > 1 {
            assert(receive_goes_on(activity, run, 1));
        }
        if i > 2 {
            assert(receive_goes_on(activity, run, 2));
        }
        if i > 3 {
            assert(receive_goes_on(activity, run, 3));
        }
    }
}

/// Whether `event` is how the program answers `action`.
pub open spec fn answers_send<E>(action: SendUndoActionView<E>, event: SendUndoEvent<E>) -> bool {
    match action {
        SendUndoActionView::GenerateActivityId { .. } => event is ActivityId,
        SendUndoActionView::SendActivity { .. } => event is Sent,
        SendUndoActionView::Finish { .. } => false,
    }
}

/// A program that answers each action of this flow in its own kind never gives a reply that
/// is not waited for.
pub proof fn answers_send_are_awaited<E>(
    actor: Url,
    community: CommunityActor,
    context: Seq<char>,
    run: Seq<SendUndoStep<E>>,
    i: int,
    event: SendUndoEvent<E>,
)
    requires
        is_send_run(actor, community, context, run),
        0 <= i < run.len(),
    ensures
        answers_send(run[i].action, event) <==> run[i].state.expects(event),
        run[i].state.expects(event) <==> (match run[i].action {
                SendUndoActionView::GenerateActivityId { .. } => event is ActivityId,
                SendUndoActionView::SendActivity { .. } => event is Sent,
                SendUndoActionView::Finish { .. } => false,
            }),
{
    if i > 0 {
        assert(send_goes_on(actor, community, context, run, i - 1));
    }
}

/// Whether `event` is how the program answers `action`.
pub open spec fn answers_receive<E>(action: ReceiveUndoAction<E>, event: ReceiveUndoEvent<E>) -> bool {
    match action {
        ReceiveUndoAction::GetOrFetchPerson { .. } => event is Person,
        ReceiveUndoAction::GetOrFetchCommunity { .. } => event is Community,
        ReceiveUndoAction::Unfollow { .. } => event is Unfollowed,
        ReceiveUndoAction::Finish { .. } => false,
    }
}

/// A program that answers each action of this flow in its own kind never gives a reply that
/// is not waited for.
pub proof fn answers_receive_are_awaited<E>(
    activity: UndoFollowCommunityView,
    run: Seq<ReceiveUndoStep<E>>,
    i: int,
    event: ReceiveUndoEvent<E>,
)
    requires
        is_receive_run(activity, run),
        0 <= i < run.len(),
    ensures
        answers_receive(run[i].action, event) <==> run[i].state.expects(event),
        run[i].state.expects(event) <==> (match run[i].action {
                ReceiveUndoAction::GetOrFetchPerson { .. } => event is Person,
                ReceiveUndoAction::GetOrFetchCommunity { .. } => event is Community,
                ReceiveUndoAction::Unfollow { .. } => event is Unfollowed,
                ReceiveUndoAction::Finish { .. } => false,
            }),
{
    if i > 0 {
        assert(receive_goes_on(activity, run, i - 1));
    }
}

/// The check of an activity is over exactly when it has a result.
pub proof fn checks_end_with_a_result<'a, E>(
    activity: &'a UndoFollowCommunity,
    run: Seq<VerifyUndoStep<'a, E>>,
    i: int,
)
    requires
        is_verify_run(activity, run),
        0 <= i < run.len(),
    ensures
        run[i].state is Finished <==> run[i].action is Finish,
{
    if i > 0 {
        assert(verify_goes_on(activity, run, i - 1));
    }
}

/// The activity that is sent says what is undone: it comes from the person, goes to the
/// community, and holds the follow of that community by that person. Both have the addresses that
/// were made for them, and nothing that has no field.
pub proof fn activities_say_what_is_undone<E>(
    actor: Url,
    community: CommunityActor,
    context: Seq<char>,
    run: Seq<SendUndoStep<E>>,
    i: int,
    activity: UndoFollowCommunityView,
    activity_id: Url,
    sender: Url,
    inboxes: Seq<Url>,
    sensitive: bool,
)
    requires
        is_send_run(actor, community, context, run),
        0 <= i < run.len(),
        run[i].action == (SendUndoActionView::<E>::SendActivity {
            activity,
            activity_id,
            actor: sender,
            inboxes,
            sensitive,
        }),
    ensures
        i == 2,
        run[0].action == (SendUndoActionView::<E>::GenerateActivityId { kind: ActivityKind::Undo }),
        run[0].event == SendUndoEvent::<E>::ActivityId(Ok(activity.common.id)),
        run[1].action == (SendUndoActionView::<E>::GenerateActivityId {
            kind: ActivityKind::Follow,
        }),
        run[1].event == SendUndoEvent::<E>::ActivityId(Ok(activity.object.common.id)),
        activity_id == activity.common.id,
        sender == actor,
        inboxes.len() == 1,
        inboxes[0] == community.shared_inbox_or_inbox_url,
        sensitive,
        activity.kind is Undo,
        activity.to == community.actor_id,
        activity.common.actor == actor,
        activity.common.context == context,
        activity.common.unparsed.len() == 0,
        activity.object.kind is Follow,
        activity.object.to == community.actor_id,
        activity.object.object == community.actor_id,
        activity.object.common.actor == actor,
        activity.object.common.context == context,
        activity.object.common.unparsed.len() == 0,
{
    assert(i > 0);
    assert(send_goes_on(actor, community, context, run, 0));
    if i > 1 {
        assert(send_goes_on(actor, community, context, run, 1));
    }
    if i > 2 {
        assert(send_goes_on(actor, community, context, run, 2));
    }
    if i > 3 {
        assert(send_goes_on(actor, community, context, run, 3));
    }
}

/// The sending of an activity takes its three calls in one order, and the first that fails
/// decides.
pub proof fn activities_are_sent_in_order<E>(
    actor: Url,
    community: CommunityActor,
    context: Seq<char>,
    run: Seq<SendUndoStep<E>>,
    i: int,
)
    requires
        is_send_run(actor, community, context, run),
        0 <= i < run.len() - 1,
    ensures
        i <= 2,
        run[0].action == (SendUndoActionView::<E>::GenerateActivityId { kind: ActivityKind::Undo }),
        ({
            let next = run[i + 1].action;
            match run[i].event {
                SendUndoEvent::ActivityId(Err(error)) => i < 2 && next == (
                SendUndoActionView::<E>::Finish {
                    result: Err(LemmyError { message: None, cause: Some(error) }),
                }),
                SendUndoEvent::ActivityId(Ok(_)) => if i == 0 {
                    next == (SendUndoActionView::<E>::GenerateActivityId {
                        kind: ActivityKind::Follow,
                    })
                } else {
                    i == 1 && next is SendActivity
                },
                SendUndoEvent::Sent(Err(error)) => i == 2 && next == (
                SendUndoActionView::<E>::Finish {
                    result: Err(LemmyError { message: None, cause: Some(error) }),
                }),
                SendUndoEvent::Sent(Ok(_)) => {
                    &&& i == 2
                    &&& next matches SendUndoActionView::Finish { result }
                    &&& result is Ok
                },
            }
        }),
{
    assert(send_goes_on(actor, community, context, run, 0));
    if i > 0 {
        assert(send_goes_on(actor, community, context, run, 1));
    }
    if i > 1 {
        assert(send_goes_on(actor, community, context, run, 2));
    }
    if i > 2 {
        assert(send_goes_on(actor, community, context, run, 3));
    }
}

/// The checks of an activity come in one order, each on what the activity says, and the first
/// that fails decides. No check but these is made.
pub proof fn activities_are_checked_in_order<'a, E>(
    activity: &'a UndoFollowCommunity,
    run: Seq<VerifyUndoStep<'a, E>>,
    i: int,
)
    requires
        is_verify_run(activity, run),
        0 <= i < run.len() - 1,
    ensures
        i <= 4,
        run[0].action matches VerifyUndoAction::VerifyActivity { common } && *common
            == activity.common,
        run[i].reply matches Err(error) ==> (run[i + 1].action matches VerifyUndoAction::Finish {
            result: Err(given),
        } && given == (LemmyError { message: None, cause: Some(error) })),
        run[i].reply is Ok ==> {
            &&& i == 0 ==> (run[1].action matches VerifyUndoAction::VerifyUrlsMatch { a, b } && *a
                == activity.to && *b == activity.object.object)
            &&& i == 1 ==> (run[2].action matches VerifyUndoAction::VerifyUrlsMatch { a, b } && *a
                == activity.common.actor && *b == activity.object.common.actor)
            &&& i == 2 ==> (run[3].action matches VerifyUndoAction::VerifyPerson { actor } && *actor
                == activity.common.actor)
            &&& i == 3 ==> (run[4].action matches VerifyUndoAction::VerifyFollow { object }
                && *object == activity.object)
            &&& i == 4 ==> (run[5].action matches VerifyUndoAction::Finish { result } && result
                is Ok)
        },
{
    assert(verify_goes_on(activity, run, 0));
    if i > 0 {
        assert(verify_goes_on(activity, run, 1));
    }
    if i > 1 {
        assert(verify_goes_on(activity, run, 2));
    }
    if i > 2 {
        assert(verify_goes_on(activity, run, 3));
    }
    if i > 3 {
        assert(verify_goes_on(activity, run, 4));
    }
    if i > 4 {
        assert(verify_goes_on(activity, run, 5));
    }
}

/// The carrying out of an activity takes its three calls in one order: the person that it
/// comes from, the community that it goes to, and the removal of the one from the followers of
/// the other. The first that fails decides, but for a removal that the database refuses.
pub proof fn activities_are_carried_out_in_order<E>(
    activity: UndoFollowCommunityView,
    run: Seq<ReceiveUndoStep<E>>,
    i: int,
)
    requires
        is_receive_run(activity, run),
        0 <= i < run.len() - 1,
    ensures
        i <= 2,
        run[0].action == (ReceiveUndoAction::<E>::GetOrFetchPerson {
            actor: activity.common.actor,
        }),
        ({
            let next = run[i + 1].action;
            match run[i].event {
                ReceiveUndoEvent::Person(Err(error)) => i == 0 && next == (
                ReceiveUndoAction::<E>::Finish {
                    result: Err(LemmyError { message: None, cause: Some(error) }),
                }),
                ReceiveUndoEvent::Person(Ok(_)) => i == 0 && next == (
                ReceiveUndoAction::<E>::GetOrFetchCommunity { community: activity.to }),
                ReceiveUndoEvent::Community(Err(error)) => i == 1 && next == (
                ReceiveUndoAction::<E>::Finish {
                    result: Err(LemmyError { message: None, cause: Some(error) }),
                }),
                ReceiveUndoEvent::Community(Ok(community_id)) => {
                    &&& i == 1
                    &&& run[0].event matches ReceiveUndoEvent::Person(Ok(person_id))
                    &&& next == (ReceiveUndoAction::<E>::Unfollow {
                        form: CommunityFollowerForm { community_id, person_id, pending: false },
                    })
                },
                ReceiveUndoEvent::Unfollowed(Err(error)) => i == 2 && next == (
                ReceiveUndoAction::<E>::Finish {
                    result: Err(LemmyError { message: None, cause: Some(error) }),
                }),
                ReceiveUndoEvent::Unfollowed(Ok(_)) => {
                    &&& i == 2
                    &&& next matches ReceiveUndoAction::Finish { result }
                    &&& result is Ok
                },
            }
        }),
{
    assert(receive_goes_on(activity, run, 0));
    if i > 0 {
        assert(receive_goes_on(activity, run, 1));
    }
    if i > 1 {
        assert(receive_goes_on(activity, run, 2));
    }
    if i > 2 {
        assert(receive_goes_on(activity, run, 3));
    }
}

} // verus!
