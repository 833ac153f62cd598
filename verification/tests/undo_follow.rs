use lemmy_server::error::LemmyError;
use lemmy_server::schema::{CommunityFollowerForm, CommunityId, PersonId};
use lemmy_server::undo_follow::{
    ActivityCommonFields, ActivityKind, CommunityActor, FollowCommunity, FollowType,
    ReceiveUndoAction, ReceiveUndoEvent, ReceiveUndoState, SendUndoAction, SendUndoEvent,
    SendUndoState, UndoFollowCommunity, UndoType, VerifyUndoAction, VerifyUndoState,
};
use url::Url;

const CONTEXT: &str = "https://www.w3.org/ns/activitystreams";

fn address(text: &str) -> Url {
    Url::parse(text).unwrap()
}

fn actor() -> Url {
    address("https://enterprise.example/u/picard")
}

fn community() -> CommunityActor {
    CommunityActor {
        actor_id: address("https://ds9.example/c/main"),
        shared_inbox_or_inbox_url: address("https://ds9.example/inbox"),
    }
}

fn undo_id() -> Url {
    address("https://enterprise.example/activities/undo/1")
}

fn follow_id() -> Url {
    address("https://enterprise.example/activities/follow/2")
}

fn common(id: Url) -> ActivityCommonFields {
    ActivityCommonFields {
        context: CONTEXT.to_string(),
        id,
        actor: actor(),
        unparsed: vec![],
    }
}

fn undo() -> UndoFollowCommunity {
    UndoFollowCommunity {
        to: community().actor_id,
        object: FollowCommunity {
            to: community().actor_id,
            object: community().actor_id,
            kind: FollowType::Follow,
            common: common(follow_id()),
        },
        kind: UndoType::Undo,
        common: common(undo_id()),
    }
}

fn send_next(
    state: SendUndoState,
    event: SendUndoEvent<&'static str>,
) -> (SendUndoState, SendUndoAction<&'static str>) {
    assert!(state.awaits(&event));
    UndoFollowCommunity::send_next(&actor(), &community(), &CONTEXT.to_string(), state, event)
}

#[test]
fn the_activity_goes_to_the_community() {
    let (state, action) = UndoFollowCommunity::send::<&str>();
    assert_eq!(
        action,
        SendUndoAction::GenerateActivityId {
            kind: ActivityKind::Undo
        }
    );
    let (state, action) = send_next(state, SendUndoEvent::ActivityId(Ok(undo_id())));
    assert_eq!(
        action,
        SendUndoAction::GenerateActivityId {
            kind: ActivityKind::Follow
        }
    );
    let (state, action) = send_next(state, SendUndoEvent::ActivityId(Ok(follow_id())));
    assert_eq!(
        action,
        SendUndoAction::SendActivity {
            activity: undo(),
            activity_id: undo_id(),
            actor: actor(),
            inboxes: vec![address("https://ds9.example/inbox")],
            sensitive: true,
        }
    );
    let (state, action) = send_next(state, SendUndoEvent::Sent(Ok(())));
    assert_eq!(state, SendUndoState::Finished);
    assert_eq!(action, SendUndoAction::Finish { result: Ok(()) });
    assert!(!state.awaits::<&str>(&SendUndoEvent::Sent(Ok(()))));
}

#[test]
fn failures_of_the_sending_are_reported() {
    let failed = SendUndoAction::Finish {
        result: Err(LemmyError::from_cause("failed")),
    };
    let (state, _) = UndoFollowCommunity::send::<&str>();
    let (_, action) = send_next(state, SendUndoEvent::ActivityId(Err("failed")));
    assert_eq!(action, failed);
    let (_, action) = send_next(
        SendUndoState::FollowId { id: undo_id() },
        SendUndoEvent::ActivityId(Err("failed")),
    );
    assert_eq!(action, failed);
    let (_, action) = send_next(SendUndoState::Sending, SendUndoEvent::Sent(Err("failed")));
    assert_eq!(action, failed);
}

#[test]
fn sending_awaits_only_its_reply() {
    assert!(!SendUndoState::UndoId.awaits::<&str>(&SendUndoEvent::Sent(Ok(()))));
    assert!(!SendUndoState::Sending.awaits::<&str>(&SendUndoEvent::ActivityId(Ok(undo_id()))));
}

#[test]
fn a_sent_activity_matches_itself() {
    let activity = undo();
    let (state, _) = activity.verify::<&str>();
    let (state, action) = activity.verify_next::<&str>(state, Ok(()));
    match action {
        VerifyUndoAction::VerifyUrlsMatch { a, b } => assert_eq!(a, b),
        _ => panic!("the community is checked second"),
    }
    let (_, action) = activity.verify_next::<&str>(state, Ok(()));
    match action {
        VerifyUndoAction::VerifyUrlsMatch { a, b } => assert_eq!(a, b),
        _ => panic!("the actor is checked third"),
    }
}

/// An activity whose addresses all differ.
fn mixed() -> UndoFollowCommunity {
    UndoFollowCommunity {
        to: address("https://a.example/"),
        object: FollowCommunity {
            to: address("https://b.example/"),
            object: address("https://c.example/"),
            kind: FollowType::Follow,
            common: ActivityCommonFields {
                actor: address("https://d.example/"),
                ..common(follow_id())
            },
        },
        kind: UndoType::Undo,
        common: ActivityCommonFields {
            actor: address("https://e.example/"),
            ..common(undo_id())
        },
    }
}

#[test]
fn an_activity_passes_five_checks() {
    let activity = mixed();
    let (mut state, action) = activity.verify::<&str>();
    let mut actions = vec![action];
    while state != VerifyUndoState::Finished {
        let (next, action) = activity.verify_next(state, Ok(()));
        state = next;
        actions.push(action);
    }
    assert_eq!(
        actions,
        vec![
            VerifyUndoAction::VerifyActivity {
                common: activity.common()
            },
            VerifyUndoAction::VerifyUrlsMatch {
                a: &address("https://a.example/"),
                b: &address("https://c.example/")
            },
            VerifyUndoAction::VerifyUrlsMatch {
                a: &address("https://e.example/"),
                b: &address("https://d.example/")
            },
            VerifyUndoAction::VerifyPerson {
                actor: &address("https://e.example/")
            },
            VerifyUndoAction::VerifyFollow {
                object: &activity.object
            },
            VerifyUndoAction::Finish { result: Ok(()) },
        ]
    );
}

#[test]
fn the_first_check_of_an_activity_that_fails_decides() {
    let activity = undo();
    for passed in 0..5 {
        let (mut state, _) = activity.verify::<&str>();
        for _ in 0..passed {
            state = activity.verify_next::<&str>(state, Ok(())).0;
        }
        let (state, action) = activity.verify_next(state, Err("failed"));
        assert_eq!(state, VerifyUndoState::Finished);
        assert_eq!(
            action,
            VerifyUndoAction::Finish {
                result: Err(LemmyError::from_cause("failed"))
            }
        );
    }
}

#[test]
fn common_fields_are_the_outer_ones() {
    assert_eq!(undo().common(), &common(undo_id()));
}

fn receive_next(
    state: ReceiveUndoState,
    event: ReceiveUndoEvent<&'static str>,
) -> (ReceiveUndoState, ReceiveUndoAction<&'static str>) {
    assert!(state.awaits(&event));
    undo().receive_next(state, event)
}

#[test]
fn the_person_no_longer_follows_the_community() {
    let (state, action) = undo().receive::<&str>();
    assert_eq!(action, ReceiveUndoAction::GetOrFetchPerson { actor: actor() });
    let (state, action) = receive_next(state, ReceiveUndoEvent::Person(Ok(PersonId(3))));
    assert_eq!(
        action,
        ReceiveUndoAction::GetOrFetchCommunity {
            community: community().actor_id
        }
    );
    let (state, action) = receive_next(state, ReceiveUndoEvent::Community(Ok(CommunityId(4))));
    assert_eq!(
        action,
        ReceiveUndoAction::Unfollow {
            form: CommunityFollowerForm {
                community_id: CommunityId(4),
                person_id: PersonId(3),
                pending: false
            }
        }
    );
    let (state, action) = receive_next(state, ReceiveUndoEvent::Unfollowed(Ok(Ok(()))));
    assert_eq!(state, ReceiveUndoState::Finished);
    assert_eq!(action, ReceiveUndoAction::Finish { result: Ok(()) });
    assert!(!state.awaits::<&str>(&ReceiveUndoEvent::Unfollowed(Ok(Ok(())))));
}

#[test]
fn nothing_to_undo_is_no_error() {
    let (_, action) = receive_next(
        ReceiveUndoState::Unfollow,
        ReceiveUndoEvent::Unfollowed(Ok(Err("no such follower"))),
    );
    assert_eq!(action, ReceiveUndoAction::Finish { result: Ok(()) });
}

#[test]
fn failures_of_the_receiving_are_reported() {
    let events = [
        (ReceiveUndoState::Person, ReceiveUndoEvent::Person(Err("failed"))),
        (
            ReceiveUndoState::Community {
                person_id: PersonId(3),
            },
            ReceiveUndoEvent::Community(Err("failed")),
        ),
        (
            ReceiveUndoState::Unfollow,
            ReceiveUndoEvent::Unfollowed(Err("failed")),
        ),
    ];
    for (state, event) in events {
        let (state, action) = receive_next(state, event);
        assert_eq!(state, ReceiveUndoState::Finished);
        assert_eq!(
            action,
            ReceiveUndoAction::Finish {
                result: Err(LemmyError::from_cause("failed"))
            }
        );
    }
}

#[test]
fn an_accepted_activity_undoes_the_follow_that_it_names() {
    let activity = undo();
    let (mut state, mut action) = activity.verify::<&str>();
    while state != VerifyUndoState::Finished {
        let reply = match action {
            VerifyUndoAction::VerifyUrlsMatch { a, b } if a != b => Err("mismatch"),
            _ => Ok(()),
        };
        (state, action) = activity.verify_next(state, reply);
    }
    assert_eq!(action, VerifyUndoAction::Finish { result: Ok(()) });
    let (state, action) = activity.receive::<&str>();
    assert_eq!(
        action,
        ReceiveUndoAction::GetOrFetchPerson {
            actor: activity.object.common.actor.clone()
        }
    );
    let (_, action) = activity.receive_next(state, ReceiveUndoEvent::<&str>::Person(Ok(PersonId(3))));
    assert_eq!(
        action,
        ReceiveUndoAction::GetOrFetchCommunity {
            community: activity.object.object.clone()
        }
    );
}

#[test]
fn an_activity_for_another_community_is_not_accepted() {
    let activity = mixed();
    let (mut state, mut action) = activity.verify::<&str>();
    while state != VerifyUndoState::Finished {
        let reply = match action {
            VerifyUndoAction::VerifyUrlsMatch { a, b } if a != b => Err("mismatch"),
            _ => Ok(()),
        };
        (state, action) = activity.verify_next(state, reply);
    }
    assert_eq!(
        action,
        VerifyUndoAction::Finish {
            result: Err(LemmyError::from_cause("mismatch"))
        }
    );
}

#[test]
fn only_one_follow_is_removed() {
    let found = [
        ReceiveUndoEvent::<&str>::Person(Ok(PersonId(3))),
        ReceiveUndoEvent::Community(Ok(CommunityId(4))),
        ReceiveUndoEvent::Unfollowed(Ok(Ok(()))),
    ];
    let mut follows = vec![(3, 4), (3, 5), (6, 4)];
    let (mut state, _) = undo().receive::<&str>();
    for event in found {
        let (next, action) = receive_next(state, event);
        state = next;
        if let ReceiveUndoAction::Unfollow { form } = action {
            follows.retain(|follow| *follow != (form.person_id.0, form.community_id.0));
        }
    }
    assert_eq!(state, ReceiveUndoState::Finished);
    assert_eq!(follows, vec![(3, 5), (6, 4)]);
}
