use lemmy_server::apub_person::{
    ApubPerson, IntoApubAction, IntoApubEvent, IntoApubState, PersonQuery,
};
use lemmy_server::apub_person_intake::{
    FromApubAction, FromApubEvent, FromApubState, VerifyPersonAction, VerifyPersonEvent,
    VerifyPersonState,
};
use lemmy_server::error::{Blocking, LemmyError};
use lemmy_server::protocol::{
    Endpoints, ImageObject, MediaTypeMarkdown, Person, PublicKey, Source, UserTypes,
};
use lemmy_server::schema::{DbPerson, PersonForm, PersonId};
use lemmy_server::time::{DateTime, NaiveDateTime};
use url::Url;

const NOW: NaiveDateTime = NaiveDateTime {
    secs: 1_640_995_200,
    nanos: 5,
};

fn address(text: &str) -> Url {
    Url::parse(text).unwrap()
}

fn naive(secs: i64) -> NaiveDateTime {
    NaiveDateTime { secs, nanos: 0 }
}

fn utc(secs: i64) -> DateTime {
    DateTime::new(secs, 0, 0).unwrap()
}

fn picard() -> DbPerson {
    DbPerson {
        id: PersonId(7),
        name: "picard".to_string(),
        display_name: Some("Jean-Luc Picard".to_string()),
        avatar: Some(address("https://enterprise.lemmy.ml/avatar.png")),
        banned: false,
        banner: None,
        published: naive(1_000),
        updated: Some(naive(2_000)),
        actor_id: address("https://enterprise.lemmy.ml/u/picard"),
        bio: Some("Captain of the starship **Enterprise**.".to_string()),
        local: true,
        deleted: false,
        admin: true,
        bot_account: false,
        private_key: Some("private".to_string()),
        public_key: "public".to_string(),
        last_refreshed_at: naive(3_000),
        inbox_url: address("https://enterprise.lemmy.ml/u/picard/inbox"),
        shared_inbox_url: Some(address("https://enterprise.lemmy.ml/inbox")),
        matrix_user_id: Some("@picard:matrix.example".to_string()),
    }
}

fn public_key() -> PublicKey {
    PublicKey {
        id: "https://enterprise.lemmy.ml/u/picard#main-key".to_string(),
        owner: address("https://enterprise.lemmy.ml/u/picard"),
        public_key_pem: "public".to_string(),
    }
}

fn picard_object() -> Person {
    Person {
        kind: UserTypes::Person,
        id: address("https://enterprise.lemmy.ml/u/picard"),
        preferred_username: "picard".to_string(),
        name: Some("Jean-Luc Picard".to_string()),
        summary: Some("<p>Captain</p>".to_string()),
        source: Some(Source {
            content: "Captain of the starship **Enterprise**.".to_string(),
            media_type: MediaTypeMarkdown::Markdown,
        }),
        icon: Some(ImageObject {
            url: address("https://enterprise.lemmy.ml/avatar.png"),
        }),
        image: None,
        matrix_user_id: Some("@picard:matrix.example".to_string()),
        published: Some(utc(1_000)),
        outbox: address("https://enterprise.lemmy.ml/u/picard/outbox"),
        endpoints: Endpoints {
            shared_inbox: Some(address("https://enterprise.lemmy.ml/inbox")),
        },
        public_key: public_key(),
        updated: Some(utc(2_000)),
        unparsed: vec![],
        inbox: address("https://enterprise.lemmy.ml/u/picard/inbox"),
    }
}

fn picard_form() -> PersonForm {
    PersonForm {
        name: "picard".to_string(),
        display_name: Some(Some("Jean-Luc Picard".to_string())),
        banned: None,
        deleted: None,
        avatar: Some(Some(address("https://enterprise.lemmy.ml/avatar.png"))),
        banner: Some(None),
        published: Some(naive(1_000)),
        updated: Some(naive(2_000)),
        actor_id: Some(address("https://enterprise.lemmy.ml/u/picard")),
        bio: Some(Some("Captain of the starship **Enterprise**.".to_string())),
        local: Some(false),
        admin: Some(false),
        bot_account: Some(false),
        private_key: None,
        public_key: "public".to_string(),
        last_refreshed_at: Some(NOW),
        inbox_url: Some(address("https://enterprise.lemmy.ml/u/picard/inbox")),
        shared_inbox_url: Some(Some(address("https://enterprise.lemmy.ml/inbox"))),
        matrix_user_id: Some(Some("@picard:matrix.example".to_string())),
    }
}

/// The object of a person, with replies that depend on what is asked for.
fn into_apub(
    person: &ApubPerson,
    outbox: Result<Url, &'static str>,
    key: Result<PublicKey, &'static str>,
) -> (Vec<IntoApubAction<&'static str>>, Result<Person, LemmyError<&'static str>>) {
    let (mut state, mut action) = person.into_apub::<&'static str>();
    let mut done = Vec::new();
    loop {
        let event = match &action {
            IntoApubAction::RenderMarkdown { .. } => {
                IntoApubEvent::Html("<p>Captain</p>".to_string())
            }
            IntoApubAction::ConvertDateTime { naive } => {
                IntoApubEvent::DateTime(DateTime::new(naive.secs, naive.nanos, 0).unwrap())
            }
            IntoApubAction::GenerateOutboxUrl { .. } => IntoApubEvent::Url(outbox.clone()),
            IntoApubAction::GetPublicKey { .. } => IntoApubEvent::PublicKey(key.clone()),
            IntoApubAction::Finish { .. } => break,
        };
        assert!(state.awaits(&event));
        let (next_state, next_action) = person.into_apub_next(state, event);
        done.push(action);
        state = next_state;
        action = next_action;
    }
    assert_eq!(state, IntoApubState::Finished);
    match action {
        IntoApubAction::Finish { result } => (done, result),
        _ => panic!("the flow stops at its end"),
    }
}

fn outbox() -> Url {
    address("https://enterprise.lemmy.ml/u/picard/outbox")
}

/// The stored form and the outcome of an object, whose source is its biography if it has
/// one.
fn from_apub(
    person: &Person,
    stored: Blocking<DbPerson, &'static str>,
) -> (Option<PersonForm>, Result<ApubPerson, LemmyError<&'static str>>) {
    let (mut state, mut action) = ApubPerson::from_apub::<&'static str>(person);
    let mut upserted = None;
    loop {
        let event = match action {
            FromApubAction::GetSummary { summary, source } => {
                FromApubEvent::Summary(source.map(|source| source.content).or(summary))
            }
            FromApubAction::ReadClock => FromApubEvent::Clock(NOW),
            FromApubAction::Upsert { form } => {
                upserted = Some(form);
                FromApubEvent::Person(stored.clone())
            }
            FromApubAction::Finish { result } => {
                assert_eq!(state, FromApubState::Finished);
                return (upserted, result);
            }
        };
        assert!(state.awaits(&event));
        let (next_state, next_action) = ApubPerson::from_apub_next(person, state, event);
        state = next_state;
        action = next_action;
    }
}

#[test]
fn a_row_becomes_an_object() {
    let (actions, result) = into_apub(&ApubPerson::from(picard()), Ok(outbox()), Ok(public_key()));
    assert_eq!(result, Ok(picard_object()));
    assert_eq!(
        actions,
        vec![
            IntoApubAction::RenderMarkdown {
                text: "Captain of the starship **Enterprise**.".to_string()
            },
            IntoApubAction::ConvertDateTime { naive: naive(1_000) },
            IntoApubAction::GenerateOutboxUrl {
                actor_id: address("https://enterprise.lemmy.ml/u/picard")
            },
            IntoApubAction::GetPublicKey {
                actor_id: address("https://enterprise.lemmy.ml/u/picard"),
                public_key: "public".to_string()
            },
            IntoApubAction::ConvertDateTime { naive: naive(2_000) },
        ]
    );
}

#[test]
fn a_bare_row_becomes_a_bare_object() {
    let row = DbPerson {
        display_name: None,
        avatar: None,
        banner: Some(address("https://enterprise.lemmy.ml/banner.png")),
        updated: None,
        bio: None,
        bot_account: true,
        shared_inbox_url: None,
        matrix_user_id: None,
        ..picard()
    };
    let (actions, result) = into_apub(&ApubPerson::from(row), Ok(outbox()), Ok(public_key()));
    assert_eq!(actions.len(), 3);
    assert_eq!(
        result,
        Ok(Person {
            kind: UserTypes::Service,
            name: None,
            summary: None,
            source: None,
            icon: None,
            image: Some(ImageObject {
                url: address("https://enterprise.lemmy.ml/banner.png")
            }),
            matrix_user_id: None,
            endpoints: Endpoints { shared_inbox: None },
            updated: None,
            ..picard_object()
        })
    );
}

#[test]
fn an_object_needs_an_outbox_and_a_key() {
    let person = ApubPerson::from(picard());
    let (actions, result) = into_apub(&person, Err("no outbox"), Ok(public_key()));
    assert_eq!(actions.len(), 3);
    assert_eq!(result, Err(LemmyError::from_cause("no outbox")));
    let (actions, result) = into_apub(&person, Ok(outbox()), Err("no key"));
    assert_eq!(actions.len(), 4);
    assert_eq!(result, Err(LemmyError::from_cause("no key")));
}

#[test]
fn an_object_is_stored() {
    let stored = DbPerson {
        local: false,
        ..picard()
    };
    let (form, result) = from_apub(&picard_object(), Ok(Ok(stored.clone())));
    assert_eq!(form, Some(picard_form()));
    let person = result.unwrap();
    assert_eq!(person, ApubPerson::from(stored));
    assert_eq!(person.display_name, Some("Jean-Luc Picard".to_string()));
    assert!(!person.local);
    assert_eq!(person.bio.as_ref().unwrap().len(), 39);
}

#[test]
fn a_bare_object_clears_the_row() {
    let object = Person {
        kind: UserTypes::Service,
        name: None,
        summary: None,
        source: None,
        icon: None,
        image: Some(ImageObject::new(address("https://enterprise.lemmy.ml/banner.png"))),
        matrix_user_id: None,
        published: None,
        endpoints: Endpoints { shared_inbox: None },
        updated: None,
        ..picard_object()
    };
    let (form, _) = from_apub(&object, Ok(Ok(picard())));
    assert_eq!(
        form,
        Some(PersonForm {
            display_name: Some(None),
            avatar: Some(None),
            banner: Some(Some(address("https://enterprise.lemmy.ml/banner.png"))),
            published: None,
            updated: None,
            bio: Some(None),
            bot_account: Some(true),
            shared_inbox_url: Some(None),
            matrix_user_id: Some(None),
            ..picard_form()
        })
    );
}

#[test]
fn a_summary_without_a_source_is_the_biography() {
    let object = Person {
        source: None,
        ..picard_object()
    };
    let (form, _) = from_apub(&object, Ok(Ok(picard())));
    assert_eq!(form.unwrap().bio, Some(Some("<p>Captain</p>".to_string())));
}

#[test]
fn times_are_stored_as_their_senders_saw_them() {
    let object = Person {
        published: DateTime::new(10_000, 250, 3_600),
        updated: DateTime::new(10_000, 0, -7_200),
        ..picard_object()
    };
    let form = ApubPerson::person_form(&object, None, NOW);
    assert_eq!(
        form.published,
        Some(NaiveDateTime {
            secs: 13_600,
            nanos: 250
        })
    );
    assert_eq!(form.updated, Some(naive(2_800)));
    assert_eq!(form.bio, Some(None));
}

#[test]
fn failures_of_the_storing_are_reported() {
    for stored in [Err("failed"), Ok(Err("failed"))] {
        let (_, result) = from_apub(&picard_object(), stored);
        assert_eq!(result, Err(LemmyError::from_cause("failed")));
    }
}

#[test]
fn an_object_carries_the_person_to_another_server() {
    let (_, object) = into_apub(&ApubPerson::from(picard()), Ok(outbox()), Ok(public_key()));
    let (form, _) = from_apub(&object.unwrap(), Ok(Ok(picard())));
    assert_eq!(form, Some(picard_form()));
}

/// Every action of the check of an object, whose check number `failing` fails.
fn verify(
    person: &Person,
    failing: usize,
) -> (Vec<VerifyPersonAction<&'static str>>, Result<(), LemmyError<&'static str>>) {
    let expected = address("https://enterprise.lemmy.ml/u/picard");
    let (mut state, mut action) = ApubPerson::verify::<&'static str>(person, &expected);
    let mut done = Vec::new();
    loop {
        let event = match &action {
            VerifyPersonAction::GetSummary { source, .. } => {
                VerifyPersonEvent::Summary(source.as_ref().map(|source| source.content.clone()))
            }
            VerifyPersonAction::Finish { .. } => break,
            _ if done.len() == failing => VerifyPersonEvent::Checked(Err("failed")),
            _ => VerifyPersonEvent::Checked(Ok(())),
        };
        assert!(state.awaits(&event));
        let (next_state, next_action) = ApubPerson::verify_next(person, state, event);
        done.push(action);
        state = next_state;
        action = next_action;
    }
    assert_eq!(state, VerifyPersonState::Finished);
    match action {
        VerifyPersonAction::Finish { result } => (done, result),
        _ => panic!("the check stops at its end"),
    }
}

#[test]
fn an_object_passes_five_checks() {
    let (actions, result) = verify(&picard_object(), 6);
    assert_eq!(result, Ok(()));
    let id = address("https://enterprise.lemmy.ml/u/picard");
    assert_eq!(
        actions,
        vec![
            VerifyPersonAction::VerifyDomainsMatch {
                id: id.clone(),
                expected_domain: id.clone()
            },
            VerifyPersonAction::CheckIsApubIdValid {
                id,
                use_strict_allowlist: false
            },
            VerifyPersonAction::CheckSlurs {
                text: "picard".to_string()
            },
            VerifyPersonAction::CheckSlursOpt {
                text: Some("Jean-Luc Picard".to_string())
            },
            VerifyPersonAction::GetSummary {
                summary: Some("<p>Captain</p>".to_string()),
                source: picard_object().source
            },
            VerifyPersonAction::CheckSlursOpt {
                text: Some("Captain of the starship **Enterprise**.".to_string())
            },
        ]
    );
}

#[test]
fn the_first_check_of_an_object_that_fails_decides() {
    for failing in [0, 1, 2, 3, 5] {
        let (actions, result) = verify(&picard_object(), failing);
        assert_eq!(actions.len(), failing + 1);
        assert_eq!(result, Err(LemmyError::from_cause("failed")));
    }
}

#[test]
fn checks_await_only_their_reply() {
    let summary: VerifyPersonEvent<&str> = VerifyPersonEvent::Summary(None);
    let checked: VerifyPersonEvent<&str> = VerifyPersonEvent::Checked(Ok(()));
    assert!(VerifyPersonState::Bio.awaits(&summary));
    assert!(!VerifyPersonState::Bio.awaits(&checked));
    assert!(!VerifyPersonState::Domain.awaits(&summary));
    assert!(!VerifyPersonState::Finished.awaits(&checked));
    assert!(!FromApubState::Bio.awaits::<&str>(&FromApubEvent::Clock(NOW)));
    assert!(!IntoApubState::Summary.awaits::<&str>(&IntoApubEvent::DateTime(utc(0))));
}

#[test]
fn persons_are_found_by_their_address() {
    let id = address("https://queer.hacktivis.me/users/lanodan");
    assert_eq!(
        ApubPerson::read_from_apub_id(id.clone()),
        PersonQuery::ReadFromApubId { object_id: id }
    );
    assert_eq!(
        ApubPerson::found::<&str>(Ok(Ok(Some(picard())))),
        Ok(Some(ApubPerson::from(picard())))
    );
    assert_eq!(ApubPerson::found::<&str>(Ok(Ok(None))), Ok(None));
    for reply in [Err("failed"), Ok(Err("failed"))] {
        assert_eq!(
            ApubPerson::found(reply),
            Err(LemmyError::from_cause("failed"))
        );
    }
}

#[test]
fn deleted_persons_are_marked() {
    assert_eq!(
        ApubPerson::from(picard()).delete(),
        PersonQuery::UpdateDeleted {
            person_id: PersonId(7),
            deleted: true
        }
    );
    assert_eq!(ApubPerson::deleted::<&str>(Ok(Ok(()))), Ok(()));
    for reply in [Err("failed"), Ok(Err("failed"))] {
        assert_eq!(
            ApubPerson::deleted(reply),
            Err(LemmyError::from_cause("failed"))
        );
    }
}

#[test]
fn persons_are_actors() {
    let person = ApubPerson::from(picard());
    assert_eq!(person.actor_id(), address("https://enterprise.lemmy.ml/u/picard"));
    assert_eq!(person.public_key(), "public");
    assert_eq!(person.private_key(), Some("private".to_string()));
    assert_eq!(
        person.inbox_url(),
        address("https://enterprise.lemmy.ml/u/picard/inbox")
    );
    assert_eq!(
        person.shared_inbox_url(),
        Some(address("https://enterprise.lemmy.ml/inbox"))
    );
    assert_eq!(person.last_refreshed_at(), Some(naive(3_000)));
    assert_eq!(person.id, PersonId(7));
}

#[test]
fn an_object_of_another_kind_of_server_is_stored() {
    let id = address("https://queer.hacktivis.me/users/lanodan");
    let object = Person {
        id: id.clone(),
        preferred_username: "lanodan".to_string(),
        summary: Some("x".repeat(873)),
        source: None,
        published: None,
        updated: None,
        unparsed: vec![("tag".to_string(), "[]".to_string())],
        ..picard_object()
    };
    let (actions, result) = verify(&object, 6);
    assert_eq!(actions.len(), 6);
    assert_eq!(result, Ok(()));
    let (form, _) = from_apub(&object, Ok(Ok(picard())));
    let form = form.unwrap();
    assert_eq!(form.actor_id, Some(id));
    assert_eq!(form.name, "lanodan");
    assert_eq!(form.local, Some(false));
    assert_eq!(form.bio.unwrap().unwrap().len(), 873);
}

#[test]
fn objects_keep_private_columns_private() {
    let other = DbPerson {
        id: PersonId(8),
        private_key: None,
        local: false,
        banned: true,
        deleted: true,
        admin: false,
        last_refreshed_at: naive(4_000),
        ..picard()
    };
    assert_eq!(
        into_apub(&ApubPerson::from(picard()), Ok(outbox()), Ok(public_key())),
        into_apub(&ApubPerson::from(other), Ok(outbox()), Ok(public_key()))
    );
}

#[test]
fn checks_ignore_the_other_members() {
    let other = Person {
        kind: UserTypes::Service,
        icon: None,
        image: picard_object().icon,
        matrix_user_id: None,
        published: None,
        outbox: address("https://elsewhere.example/outbox"),
        endpoints: Endpoints { shared_inbox: None },
        updated: None,
        unparsed: vec![("tag".to_string(), "[]".to_string())],
        inbox: address("https://elsewhere.example/inbox"),
        ..picard_object()
    };
    assert_eq!(verify(&picard_object(), 6), verify(&other, 6));
    assert_eq!(verify(&picard_object(), 5), verify(&other, 5));
}
