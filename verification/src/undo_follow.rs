//! Undoing that a person follows a community.
//!
//! Three flows send the activity, check one that came in, and carry it out. Each
//! begins with the first action that the program has to perform and goes on with
//! its reply, until the action is `Finish`.

use vstd::prelude::*;

use crate::error::{Blocking, LemmyError};
use crate::schema::{CommunityFollowerForm, CommunityId, PersonId};
use url::Url;

verus! {

#[derive(Clone, Copy, Debug, PartialEq, Eq, Structural)]
pub enum UndoType {
    Undo,
}

#[derive(Clone, Copy, Debug, PartialEq, Eq, Structural)]
pub enum FollowType {
    Follow,
}

/// What every activity has: the text of its context, its own address, and the address
/// of the actor that it comes from. `unparsed` holds the members that the library has
/// no field for, each with its text.
#[derive(Clone, Debug, PartialEq, Eq)]
pub struct ActivityCommonFields {
    pub context: String,
    pub id: Url,
    pub actor: Url,
    pub unparsed: Vec<(String, String)>,
}

pub struct ActivityCommonFieldsView {
    pub context: Seq<char>,
    pub id: Url,
    pub actor: Url,
    pub unparsed: Seq<(Seq<char>, Seq<char>)>,
}

impl View for ActivityCommonFields {
    type V = ActivityCommonFieldsView;

    open spec fn view(&self) -> ActivityCommonFieldsView {
        ActivityCommonFieldsView {
            context: self.context@,
            id: self.id,
            actor: self.actor,
            unparsed: self.unparsed.deep_view(),
        }
    }
}

/// That a person follows a community.
#[derive(Clone, Debug, PartialEq, Eq)]
pub struct FollowCommunity {
    pub to: Url,
    pub object: Url,
    pub kind: FollowType,
    pub common: ActivityCommonFields,
}

pub struct FollowCommunityView {
    pub to: Url,
    pub object: Url,
    pub kind: FollowType,
    pub common: ActivityCommonFieldsView,
}

impl View for FollowCommunity {
    type V = FollowCommunityView;

    open spec fn view(&self) -> FollowCommunityView {
        FollowCommunityView {
            to: self.to,
            object: self.object,
            kind: self.kind,
            common: self.common@,
        }
    }
}

/// That a person no longer follows a community.
#[derive(Clone, Debug, PartialEq, Eq)]
pub struct UndoFollowCommunity {
    pub to: Url,
    pub object: FollowCommunity,
    pub kind: UndoType,
    pub common: ActivityCommonFields,
}

pub struct UndoFollowCommunityView {
    pub to: Url,
    pub object: FollowCommunityView,
    pub kind: UndoType,
    pub common: ActivityCommonFieldsView,
}

impl View for UndoFollowCommunity {
    type V = UndoFollowCommunityView;

    open spec fn view(&self) -> UndoFollowCommunityView {
        UndoFollowCommunityView {
            to: self.to,
            object: self.object@,
            kind: self.kind,
            common: self.common@,
        }
    }
}

// Sending.

/// A community, as far as activities are sent to it: its address, and the inbox of its
/// server, or its own where its server has none.
#[derive(Clone, Debug, PartialEq, Eq)]
pub struct CommunityActor {
    pub actor_id: Url,
    pub shared_inbox_or_inbox_url: Url,
}

/// What an activity is about, for its address.
#[derive(Clone, Copy, Debug, PartialEq, Eq, Structural)]
pub enum ActivityKind {
    Undo,
    Follow,
}

/// Where the sending of the activity stands.
#[derive(Debug, PartialEq, Eq)]
pub enum SendUndoState {
    UndoId,
    FollowId { id: Url },
    Sending,
    Finished,
}

/// What the program has to do next.
#[derive(Debug, PartialEq, Eq)]
pub enum SendUndoAction<E> {
    /// Make a new address for an activity.
    GenerateActivityId { kind: ActivityKind },
    /// Hand the activity to the queue, from the person at `actor` to the inboxes.
    SendActivity {
        activity: UndoFollowCommunity,
        activity_id: Url,
        actor: Url,
        inboxes: Vec<Url>,
        sensitive: bool,
    },
    Finish { result: Result<(), LemmyError<E>> },
}

pub enum SendUndoActionView<E> {
    GenerateActivityId { kind: ActivityKind },
    SendActivity {
        activity: UndoFollowCommunityView,
        activity_id: Url,
        actor: Url,
        inboxes: Seq<Url>,
        sensitive: bool,
    },
    Finish { result: Result<(), LemmyError<E>> },
}

impl<E> View for SendUndoAction<E> {
    type V = SendUndoActionView<E>;

    open spec fn view(&self) -> SendUndoActionView<E> {
        match *self {
            SendUndoAction::GenerateActivityId { kind } =>
                SendUndoActionView::GenerateActivityId { kind },
            SendUndoAction::SendActivity { activity, activity_id, actor, inboxes, sensitive } =>
                SendUndoActionView::SendActivity {
                activity: activity@,
                activity_id,
                actor,
                inboxes: inboxes@,
                sensitive,
            },
            SendUndoAction::Finish { result } => SendUndoActionView::Finish { result },
        }
    }
}

/// What came of an action.
#[derive(Debug, PartialEq, Eq)]
pub enum SendUndoEvent<E> {
    ActivityId(Result<Url, E>),
    Sent(Result<(), E>),
}

impl SendUndoState {
    /// Whether `event` is a reply of the kind that the flow waits for.
    pub open spec fn expects<E>(self, event: SendUndoEvent<E>) -> bool {
        match self {
            SendUndoState::UndoId => event is ActivityId,
            SendUndoState::FollowId { .. } => event is ActivityId,
            SendUndoState::Sending => event is Sent,
            SendUndoState::Finished => false,
        }
    }

    /// Whether `event` is a reply of the kind that the flow waits for.
    pub fn awaits<E>(&self, event: &SendUndoEvent<E>) -> (res: bool)
        ensures
            res == self.expects(*event),
    {
        match self {
            SendUndoState::UndoId | SendUndoState::FollowId { .. } =>
                matches!(event, SendUndoEvent::ActivityId(_)),
            SendUndoState::Sending => matches!(event, SendUndoEvent::Sent(_)),
            SendUndoState::Finished => false,
        }
    }
}

/// The activity by which the person at `actor` undoes following the community at
/// `community`.
pub open spec fn undo_of(
    actor: Url,
    community: Url,
    context: Seq<char>,
    id: Url,
    follow_id: Url,
) -> UndoFollowCommunityView {
    UndoFollowCommunityView {
        to: community,
        object: FollowCommunityView {
            to: community,
            object: community,
            kind: FollowType::Follow,
            common: ActivityCommonFieldsView {
                context,
                id: follow_id,
                actor,
                unparsed: Seq::empty(),
            },
        },
        kind: UndoType::Undo,
        common: ActivityCommonFieldsView { context, id, actor, unparsed: Seq::empty() },
    }
}

/// The result of a call whose success says nothing more.
pub open spec fn outcome<E>(reply: Result<(), E>) -> Result<(), LemmyError<E>> {
    match reply {
        Ok(_) => Ok(()),
        Err(error) => Err(LemmyError::of_cause(error)),
    }
}

/// How the sending of the activity begins.
pub open spec fn begin_send<E>() -> (SendUndoState, SendUndoActionView<E>) {
    (
        SendUndoState::UndoId,
        SendUndoActionView::GenerateActivityId { kind: ActivityKind::Undo },
    )
}

/// How the sending of the activity goes on after the reply that it waits for.
pub open spec fn next_send<E>(
    actor: Url,
    community: CommunityActor,
    context: Seq<char>,
    state: SendUndoState,
    event: SendUndoEvent<E>,
) -> (SendUndoState, SendUndoActionView<E>)
    recommends
        state.expects(event),
{
    match (state, event) {
        (_, SendUndoEvent::ActivityId(Err(error))) => (
            SendUndoState::Finished,
            SendUndoActionView::Finish { result: Err(LemmyError::of_cause(error)) },
        ),
        (SendUndoState::UndoId, SendUndoEvent::ActivityId(Ok(id))) => (
            SendUndoState::FollowId { id },
            SendUndoActionView::GenerateActivityId { kind: ActivityKind::Follow },
        ),
        (SendUndoState::FollowId { id }, SendUndoEvent::ActivityId(Ok(follow_id))) => (
            SendUndoState::Sending,
            SendUndoActionView::SendActivity {
                activity: undo_of(actor, community.actor_id, context, id, follow_id),
                activity_id: id,
                actor,
                inboxes: seq![community.shared_inbox_or_inbox_url],
                sensitive: true,
            },
        ),
        (SendUndoState::Sending, SendUndoEvent::Sent(reply)) => (
            SendUndoState::Finished,
            SendUndoActionView::Finish { result: outcome(reply) },
        ),
        _ => arbitrary(),
    }
}

/// The result of a call whose success says nothing more.
fn outcome_of<E>(reply: Result<(), E>) -> (res: Result<(), LemmyError<E>>)
    ensures
        res == outcome(reply),
{
    match reply {
        Ok(_) => Ok(()),
        Err(error) => Err(LemmyError::from_cause(error)),
    }
}

/// The fields of a new activity.
fn common_fields(context: &String, id: Url, actor: &Url) -> (res: ActivityCommonFields)
    ensures
        res@ == (ActivityCommonFieldsView {
            context: context@,
            id,
            actor: *actor,
            unparsed: Seq::empty(),
        }),
{
    let unparsed: Vec<(String, String)> = Vec::new();
    assert(unparsed.deep_view() =~= Seq::empty());
    ActivityCommonFields { context: context.clone(), id, actor: actor.clone(), unparsed }
}

impl UndoFollowCommunity {
    /// The first action on the way to the community.
    pub fn send<E>() -> (res: (SendUndoState, SendUndoAction<E>))
        ensures
            (res.0, res.1@) == begin_send::<E>(),
    {
        (
            SendUndoState::UndoId,
            SendUndoAction::GenerateActivityId { kind: ActivityKind::Undo },
        )
    }

    /// The action that follows on the reply to the last one. The activity comes from the
    /// person at `actor`, and `context` is the text of its context.
    pub fn send_next<E>(
        actor: &Url,
        community: &CommunityActor,
        context: &String,
        state: SendUndoState,
        event: SendUndoEvent<E>,
    ) -> (res: (SendUndoState, SendUndoAction<E>))
        requires
            state.expects(event),
        ensures
            (res.0, res.1@) == next_send(*actor, *community, context@, state, event),
    {
        match (state, event) {
            (_, SendUndoEvent::ActivityId(Err(error))) => (
                SendUndoState::Finished,
                SendUndoAction::Finish { result: Err(LemmyError::from_cause(error)) },
            ),
            (SendUndoState::UndoId, SendUndoEvent::ActivityId(Ok(id))) => (
                SendUndoState::FollowId { id },
                SendUndoAction::GenerateActivityId { kind: ActivityKind::Follow },
            ),
            (SendUndoState::FollowId { id }, SendUndoEvent::ActivityId(Ok(follow_id))) => {
                let object = FollowCommunity {
                    to: community.actor_id.clone(),
                    object: community.actor_id.clone(),
                    kind: FollowType::Follow,
                    common: common_fields(context, follow_id, actor),
                };
                let activity = UndoFollowCommunity {
                    to: community.actor_id.clone(),
                    object,
                    kind: UndoType::Undo,
                    common: common_fields(context, id.clone(), actor),
                };
                let mut inboxes: Vec<Url> = Vec::new();
                inboxes.push(community.shared_inbox_or_inbox_url.clone());
                assert(inboxes@ =~= seq![community.shared_inbox_or_inbox_url]);
                (
                    SendUndoState::Sending,
                    SendUndoAction::SendActivity {
                        activity,
                        activity_id: id,
                        actor: actor.clone(),
                        inboxes,
                        sensitive: true,
                    },
                )
            },
            (SendUndoState::Sending, SendUndoEvent::Sent(reply)) => (
                SendUndoState::Finished,
                SendUndoAction::Finish { result: outcome_of(reply) },
            ),
            _ => vstd::pervasive::unreached(),
        }
    }

    /// What the activity has in common with every other.
    pub fn common(&self) -> (res: &ActivityCommonFields)
        ensures
            *res == self.common,
    {
        &self.common
    }
}

// Checking.

/// Where the check of an activity stands.
#[derive(Clone, Copy, Debug, PartialEq, Eq, Structural)]
pub enum VerifyUndoState {
    Activity,
    Community,
    Actor,
    Person,
    Follow,
    Finished,
}

/// What the program has to do next.
#[derive(Debug, PartialEq, Eq)]
pub enum VerifyUndoAction<'a, E> {
    VerifyActivity { common: &'a ActivityCommonFields },
    VerifyUrlsMatch { a: &'a Url, b: &'a Url },
    VerifyPerson { actor: &'a Url },
    VerifyFollow { object: &'a FollowCommunity },
    Finish { result: Result<(), LemmyError<E>> },
}

impl VerifyUndoState {
    /// What is checked once a check has passed: the activity, that it goes to the community
    /// that was followed, that it comes from the person that followed it, that person, and
    /// the activity that it undoes.
    pub open spec fn after<'a, E>(self, activity: &'a UndoFollowCommunity) -> (
        VerifyUndoState,
        VerifyUndoAction<'a, E>,
    ) {
        match self {
            VerifyUndoState::Activity => (
                VerifyUndoState::Community,
                VerifyUndoAction::VerifyUrlsMatch { a: &activity.to, b: &activity.object.object },
            ),
            VerifyUndoState::Community => (
                VerifyUndoState::Actor,
                VerifyUndoAction::VerifyUrlsMatch {
                    a: &activity.common.actor,
                    b: &activity.object.common.actor,
                },
            ),
            VerifyUndoState::Actor => (
                VerifyUndoState::Person,
                VerifyUndoAction::VerifyPerson { actor: &activity.common.actor },
            ),
            VerifyUndoState::Person => (
                VerifyUndoState::Follow,
                VerifyUndoAction::VerifyFollow { object: &activity.object },
            ),
            _ => (VerifyUndoState::Finished, VerifyUndoAction::Finish { result: Ok(()) }),
        }
    }
}

/// How the check of an activity begins.
pub open spec fn begin_verify<'a, E>(activity: &'a UndoFollowCommunity) -> (
    VerifyUndoState,
    VerifyUndoAction<'a, E>,
) {
    (
        VerifyUndoState::Activity,
        VerifyUndoAction::VerifyActivity { common: &activity.common },
    )
}

/// How the check of an activity goes on: the first check that fails decides.
pub open spec fn next_verify<'a, E>(
    activity: &'a UndoFollowCommunity,
    state: VerifyUndoState,
    reply: Result<(), E>,
) -> (VerifyUndoState, VerifyUndoAction<'a, E>) {
    match reply {
        Err(error) => (
            VerifyUndoState::Finished,
            VerifyUndoAction::Finish { result: Err(LemmyError::of_cause(error)) },
        ),
        Ok(_) => state.after(activity),
    }
}

impl UndoFollowCommunity {
    /// The first action of the check of the activity.
    pub fn verify<E>(&self) -> (res: (VerifyUndoState, VerifyUndoAction<'_, E>))
        ensures
            res == begin_verify::<E>(self),
    {
        (VerifyUndoState::Activity, VerifyUndoAction::VerifyActivity { common: self.common() })
    }

    /// The action that follows on the reply to the last one, which says whether the check
    /// passed.
    pub fn verify_next<E>(&self, state: VerifyUndoState, reply: Result<(), E>) -> (res: (
        VerifyUndoState,
        VerifyUndoAction<'_, E>,
    ))
        requires
            !(state is Finished),
        ensures
            res == next_verify(self, state, reply),
    {
        match reply {
            Err(error) => (
                VerifyUndoState::Finished,
                VerifyUndoAction::Finish { result: Err(LemmyError::from_cause(error)) },
            ),
            Ok(_) => match state {
                VerifyUndoState::Activity => (
                    VerifyUndoState::Community,
                    VerifyUndoAction::VerifyUrlsMatch { a: &self.to, b: &self.object.object },
                ),
                VerifyUndoState::Community => (
                    VerifyUndoState::Actor,
                    VerifyUndoAction::VerifyUrlsMatch {
                        a: &self.common.actor,
                        b: &self.object.common.actor,
                    },
                ),
                VerifyUndoState::Actor => (
                    VerifyUndoState::Person,
                    VerifyUndoAction::VerifyPerson { actor: &self.common.actor },
                ),
                VerifyUndoState::Person => (
                    VerifyUndoState::Follow,
                    VerifyUndoAction::VerifyFollow { object: &self.object },
                ),
                _ => (VerifyUndoState::Finished, VerifyUndoAction::Finish { result: Ok(()) }),
            },
        }
    }
}

// Carrying out.

/// Where the carrying out of an activity stands.
#[derive(Clone, Copy, Debug, PartialEq, Eq, Structural)]
pub enum ReceiveUndoState {
    Person,
    Community { person_id: PersonId },
    Unfollow,
    Finished,
}

/// What the program has to do next.
#[derive(Debug, PartialEq, Eq)]
pub enum ReceiveUndoAction<E> {
    /// Find the person at an address, here or at its own server.
    GetOrFetchPerson { actor: Url },
    /// Find the community at an address, here or at its own server.
    GetOrFetchCommunity { community: Url },
    Unfollow { form: CommunityFollowerForm },
    Finish { result: Result<(), LemmyError<E>> },
}

/// What came of an action.
#[derive(Debug, PartialEq, Eq)]
pub enum ReceiveUndoEvent<E> {
    Person(Result<PersonId, E>),
    Community(Result<CommunityId, E>),
    Unfollowed(Blocking<(), E>),
}

impl ReceiveUndoState {
    /// Whether `event` is a reply of the kind that the flow waits for.
    pub open spec fn expects<E>(self, event: ReceiveUndoEvent<E>) -> bool {
        match self {
            ReceiveUndoState::Person => event is Person,
            ReceiveUndoState::Community { .. } => event is Community,
            ReceiveUndoState::Unfollow => event is Unfollowed,
            ReceiveUndoState::Finished => false,
        }
    }

    /// Whether `event` is a reply of the kind that the flow waits for.
    pub fn awaits<E>(&self, event: &ReceiveUndoEvent<E>) -> (res: bool)
        ensures
            res == self.expects(*event),
    {
        match self {
            ReceiveUndoState::Person => matches!(event, ReceiveUndoEvent::Person(_)),
            ReceiveUndoState::Community { .. } => matches!(event, ReceiveUndoEvent::Community(_)),
            ReceiveUndoState::Unfollow => matches!(event, ReceiveUndoEvent::Unfollowed(_)),
            ReceiveUndoState::Finished => false,
        }
    }
}

/// The end of the carrying out of an activity that a call failed.
pub open spec fn fail_receive<E>(error: E) -> (ReceiveUndoState, ReceiveUndoAction<E>) {
    (
        ReceiveUndoState::Finished,
        ReceiveUndoAction::Finish { result: Err(LemmyError::of_cause(error)) },
    )
}

/// How the carrying out of an activity begins.
pub open spec fn begin_receive<E>(activity: UndoFollowCommunityView) -> (
    ReceiveUndoState,
    ReceiveUndoAction<E>,
) {
    (
        ReceiveUndoState::Person,
        ReceiveUndoAction::GetOrFetchPerson { actor: activity.common.actor },
    )
}

/// How the carrying out of an activity goes on after the reply that it waits for.
pub open spec fn next_receive<E>(
    activity: UndoFollowCommunityView,
    state: ReceiveUndoState,
    event: ReceiveUndoEvent<E>,
) -> (ReceiveUndoState, ReceiveUndoAction<E>)
    recommends
        state.expects(event),
{
    match (state, event) {
        (ReceiveUndoState::Person, ReceiveUndoEvent::Person(reply)) => match reply {
            Err(error) => fail_receive(error),
            Ok(person_id) => (
                ReceiveUndoState::Community { person_id },
                ReceiveUndoAction::GetOrFetchCommunity { community: activity.to },
            ),
        },
        (ReceiveUndoState::Community { person_id }, ReceiveUndoEvent::Community(reply)) =>
            match reply {
            Err(error) => fail_receive(error),
            Ok(community_id) => (
                ReceiveUndoState::Unfollow,
                ReceiveUndoAction::Unfollow {
                    form: CommunityFollowerForm { community_id, person_id, pending: false },
                },
            ),
        },
        // That the person did not follow the community is no error.
        (ReceiveUndoState::Unfollow, ReceiveUndoEvent::Unfollowed(reply)) => match reply {
            Err(error) => fail_receive(error),
            Ok(_) => (
                ReceiveUndoState::Finished,
                ReceiveUndoAction::Finish { result: Ok(()) },
            ),
        },
        _ => arbitrary(),
    }
}

fn receive_failure<E>(error: E) -> (res: (ReceiveUndoState, ReceiveUndoAction<E>))
    ensures
        res == fail_receive(error),
{
    (
        ReceiveUndoState::Finished,
        ReceiveUndoAction::Finish { result: Err(LemmyError::from_cause(error)) },
    )
}

impl UndoFollowCommunity {
    /// The first action of the carrying out of the activity.
    pub fn receive<E>(&self) -> (res: (ReceiveUndoState, ReceiveUndoAction<E>))
        ensures
            res == begin_receive::<E>(self@),
    {
        (
            ReceiveUndoState::Person,
            ReceiveUndoAction::GetOrFetchPerson { actor: self.common.actor.clone() },
        )
    }

    /// The action that follows on the reply to the last one.
    pub fn receive_next<E>(&self, state: ReceiveUndoState, event: ReceiveUndoEvent<E>) -> (res: (
        ReceiveUndoState,
        ReceiveUndoAction<E>,
    ))
        requires
            state.expects(event),
        ensures
            res == next_receive(self@, state, event),
    {
        match (state, event) {
            (ReceiveUndoState::Person, ReceiveUndoEvent::Person(reply)) => match reply {
                Err(error) => receive_failure(error),
                Ok(person_id) => (
                    ReceiveUndoState::Community { person_id },
                    ReceiveUndoAction::GetOrFetchCommunity { community: self.to.clone() },
                ),
            },
            (ReceiveUndoState::Community { person_id }, ReceiveUndoEvent::Community(reply)) =>
                match reply {
                Err(error) => receive_failure(error),
                Ok(community_id) => (
                    ReceiveUndoState::Unfollow,
                    ReceiveUndoAction::Unfollow {
                        form: CommunityFollowerForm { community_id, person_id, pending: false },
                    },
                ),
            },
            (ReceiveUndoState::Unfollow, ReceiveUndoEvent::Unfollowed(reply)) => match reply {
                Err(error) => receive_failure(error),
                Ok(_) => (
                    ReceiveUndoState::Finished,
                    ReceiveUndoAction::Finish { result: Ok(()) },
                ),
            },
            _ => vstd::pervasive::unreached(),
        }
    }
}

} // verus!
