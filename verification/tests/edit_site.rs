use lemmy_server::edit_site::{
    EditSite, EditSiteAction, EditSiteEvent, EditSiteState, SendAllMessage, SiteResponse,
    UserOperationCrud, SITE_ID,
};
use lemmy_server::error::{Blocking, ErrorMessage, LemmyError};
use lemmy_server::schema::{PersonId, Site, SiteForm};
use lemmy_server::time::NaiveDateTime;
use url::Url;

type Action = EditSiteAction<u32, u8, String>;
type Event = EditSiteEvent<u32, u8, String>;
type State = EditSiteState<u32>;
type Outcome = Result<SendAllMessage<u8>, LemmyError<String>>;

const NOW: NaiveDateTime = NaiveDateTime {
    secs: 1_640_995_200,
    nanos: 5,
};

fn request() -> EditSite {
    EditSite {
        name: Some("Enterprise".to_string()),
        sidebar: Some("Rules".to_string()),
        description: Some("A starship".to_string()),
        icon: Some("https://enterprise.example/icon.png".to_string()),
        banner: Some(String::new()),
        enable_downvotes: Some(true),
        open_registration: Some(false),
        enable_nsfw: None,
        community_creation_admin_only: Some(true),
        auth: "token".to_string(),
    }
}

/// What the database and the other services answer.
struct World {
    user: Result<u32, String>,
    slurs: [Result<(), String>; 2],
    admin: Result<(), String>,
    site: Blocking<Site, String>,
    description_length: Result<(), String>,
    update: Blocking<(), String>,
    site_view: Blocking<u8, String>,
}

fn world() -> World {
    World {
        user: Ok(42),
        slurs: [Ok(()), Ok(())],
        admin: Ok(()),
        site: Ok(Ok(Site {
            creator_id: PersonId(3),
            name: "Old name".to_string(),
        })),
        description_length: Ok(()),
        update: Ok(Ok(())),
        site_view: Ok(Ok(9)),
    }
}

fn answer(world: &World, action: &Action, slur_checks: &mut usize) -> Event {
    match action {
        EditSiteAction::ReadLocalUser { .. } => EditSiteEvent::LocalUser(world.user.clone()),
        EditSiteAction::CheckSlurs { .. } => {
            *slur_checks += 1;
            EditSiteEvent::Checked(world.slurs[*slur_checks - 1].clone())
        }
        EditSiteAction::CheckAdmin { .. } => EditSiteEvent::Checked(world.admin.clone()),
        EditSiteAction::ReadSite => EditSiteEvent::Site(world.site.clone()),
        EditSiteAction::OverwriteText { text } => EditSiteEvent::Text(match text {
            None => None,
            Some(text) if text.is_empty() => Some(None),
            Some(text) => Some(Some(text.clone())),
        }),
        EditSiteAction::OverwriteUrl { text } => EditSiteEvent::Url(match text {
            None => Ok(None),
            Some(text) if text.is_empty() => Ok(Some(None)),
            Some(text) => Url::parse(text)
                .map(|url| Some(Some(url)))
                .map_err(|_| "no url".to_string()),
        }),
        EditSiteAction::CheckDescriptionLength { .. } => {
            EditSiteEvent::Checked(world.description_length.clone())
        }
        EditSiteAction::ReadClock => EditSiteEvent::Clock(NOW),
        EditSiteAction::UpdateSite { .. } => EditSiteEvent::Updated(world.update.clone()),
        EditSiteAction::ReadSiteView => EditSiteEvent::SiteView(world.site_view.clone()),
        EditSiteAction::Finish { .. } => panic!("nothing comes after the answer"),
    }
}

fn run(request: &EditSite, websocket_id: Option<usize>, world: &World) -> (Vec<Action>, Outcome) {
    let (mut state, mut action): (State, Action) = request.begin();
    let mut done = Vec::new();
    let mut slur_checks = 0;
    loop {
        if let EditSiteAction::Finish { result } = action {
            assert_eq!(state, EditSiteState::Finished);
            assert!(done.len() <= 13);
            return (done, result);
        }
        let event = answer(world, &action, &mut slur_checks);
        assert!(state.awaits(&event));
        let (next_state, next_action) = request.next(websocket_id, state, event);
        done.push(action);
        state = next_state;
        action = next_action;
    }
}

fn form() -> SiteForm {
    SiteForm {
        creator_id: PersonId(3),
        name: "Enterprise".to_string(),
        sidebar: Some(Some("Rules".to_string())),
        description: Some(Some("A starship".to_string())),
        icon: Some(Some(Url::parse("https://enterprise.example/icon.png").unwrap())),
        banner: Some(None),
        updated: Some(NOW),
        enable_downvotes: Some(true),
        open_registration: Some(false),
        enable_nsfw: None,
        community_creation_admin_only: Some(true),
    }
}

fn caused(cause: &str) -> Outcome {
    Err(LemmyError::from_cause(cause.to_string()))
}

#[test]
fn an_admin_changes_the_site() {
    let (actions, outcome) = run(&request(), Some(5), &world());
    assert_eq!(
        actions,
        vec![
            EditSiteAction::ReadLocalUser {
                jwt: "token".to_string()
            },
            EditSiteAction::CheckSlurs {
                text: Some("Enterprise".to_string())
            },
            EditSiteAction::CheckSlurs {
                text: Some("A starship".to_string())
            },
            EditSiteAction::CheckAdmin { user: 42 },
            EditSiteAction::ReadSite,
            EditSiteAction::OverwriteText {
                text: Some("Rules".to_string())
            },
            EditSiteAction::OverwriteText {
                text: Some("A starship".to_string())
            },
            EditSiteAction::OverwriteUrl {
                text: Some("https://enterprise.example/icon.png".to_string())
            },
            EditSiteAction::OverwriteUrl {
                text: Some(String::new())
            },
            EditSiteAction::CheckDescriptionLength {
                description: "A starship".to_string()
            },
            EditSiteAction::ReadClock,
            EditSiteAction::UpdateSite {
                site_id: 1,
                form: form()
            },
            EditSiteAction::ReadSiteView,
        ]
    );
    assert_eq!(
        outcome,
        Ok(SendAllMessage {
            op: UserOperationCrud::EditSite,
            response: SiteResponse { site_view: 9 },
            websocket_id: Some(5),
        })
    );
}

#[test]
fn what_is_not_given_stays() {
    let request = EditSite {
        name: None,
        sidebar: None,
        description: None,
        icon: None,
        banner: None,
        enable_downvotes: None,
        open_registration: None,
        enable_nsfw: Some(true),
        community_creation_admin_only: None,
        auth: "token".to_string(),
    };
    let (actions, outcome) = run(&request, None, &world());
    assert_eq!(outcome.unwrap().websocket_id, None);
    // Without a description there is no length to check.
    assert_eq!(actions.len(), 12);
    assert_eq!(
        actions[10],
        EditSiteAction::UpdateSite {
            site_id: SITE_ID,
            form: SiteForm {
                creator_id: PersonId(3),
                name: "Old name".to_string(),
                sidebar: None,
                description: None,
                icon: None,
                banner: None,
                updated: Some(NOW),
                enable_downvotes: None,
                open_registration: None,
                enable_nsfw: Some(true),
                community_creation_admin_only: None,
            }
        }
    );
}

#[test]
fn a_description_that_is_cleared_has_no_length() {
    let request = EditSite {
        description: Some(String::new()),
        ..request()
    };
    let (actions, outcome) = run(&request, None, &world());
    assert!(outcome.is_ok());
    assert_eq!(actions[9], EditSiteAction::ReadClock);
    assert_eq!(
        actions[10],
        EditSiteAction::UpdateSite {
            site_id: 1,
            form: SiteForm {
                description: Some(None),
                ..form()
            }
        }
    );
}

#[test]
fn nobody_else_changes_the_site() {
    let e = || "refused".to_string();
    let worlds = vec![
        (1, World { user: Err(e()), ..world() }),
        (2, World { slurs: [Err(e()), Ok(())], ..world() }),
        (3, World { slurs: [Ok(()), Err(e())], ..world() }),
        (4, World { admin: Err(e()), ..world() }),
        (5, World { site: Err(e()), ..world() }),
        (5, World { site: Ok(Err(e())), ..world() }),
        (10, World { description_length: Err(e()), ..world() }),
    ];
    for (rounds, world) in worlds {
        let (actions, outcome) = run(&request(), None, &world);
        assert_eq!(actions.len(), rounds);
        assert_eq!(outcome, caused("refused"));
        assert!(!actions
            .iter()
            .any(|action| matches!(action, EditSiteAction::UpdateSite { .. })));
    }
}

#[test]
fn addresses_have_to_be_addresses() {
    let bad = Some("no address".to_string());
    let (actions, outcome) = run(
        &EditSite {
            icon: bad.clone(),
            ..request()
        },
        None,
        &world(),
    );
    assert_eq!(actions.len(), 8);
    assert_eq!(outcome, caused("no url"));
    let (actions, outcome) = run(
        &EditSite {
            banner: bad,
            ..request()
        },
        None,
        &world(),
    );
    assert_eq!(actions.len(), 9);
    assert_eq!(outcome, caused("no url"));
}

#[test]
fn a_failed_change_is_named() {
    let failed = World {
        update: Ok(Err("query".to_string())),
        ..world()
    };
    assert_eq!(
        run(&request(), None, &failed).1,
        Err(LemmyError::from_cause("query".to_string())
            .with_message(ErrorMessage::CouldntUpdateSite))
    );
    let failed = World {
        update: Err("pool".to_string()),
        ..world()
    };
    assert_eq!(run(&request(), None, &failed).1, caused("pool"));
}

#[test]
fn an_unreadable_site_is_reported_after_the_change() {
    for site_view in [Err("gone".to_string()), Ok(Err("gone".to_string()))] {
        let world = World {
            site_view,
            ..world()
        };
        let (actions, outcome) = run(&request(), None, &world);
        assert_eq!(actions.len(), 13);
        assert_eq!(outcome, caused("gone"));
    }
}

#[test]
fn an_edit_awaits_only_its_reply() {
    let state: State = EditSiteState::LocalUser;
    assert!(state.awaits::<u8, String>(&EditSiteEvent::LocalUser(Ok(1))));
    assert!(!state.awaits::<u8, String>(&EditSiteEvent::Checked(Ok(()))));
    let state: State = EditSiteState::Finished;
    assert!(!state.awaits::<u8, String>(&EditSiteEvent::SiteView(Ok(Ok(1)))));
}

#[test]
fn the_connection_only_reaches_the_message() {
    let (one_way, one) = run(&request(), Some(5), &world());
    let (other_way, other) = run(&request(), None, &world());
    assert_eq!(one_way, other_way);
    assert_eq!(one.unwrap().response, other.unwrap().response);
}
