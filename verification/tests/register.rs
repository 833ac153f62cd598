use lemmy_server::error::{flatten, Blocking, ErrorMessage, LemmyError, QueryError};
use lemmy_server::register::{
    Account, EndpointType, Keypair, LoginResponse, Register, RegisterAction, RegisterEvent,
    RegisterSettings, RegisterState, MAIN_COMMUNITY_ID,
};
use lemmy_server::schema::{
    CommunityFollowerForm, CommunityForm, CommunityId, CommunityModeratorForm, ListingType,
    LocalUserForm, LocalUserId, PersonForm, PersonId, SortType,
};
use url::Url;

type Action = RegisterAction<String>;
type Event = RegisterEvent<String>;
type State = RegisterState<String>;
type Outcome = Result<LoginResponse, LemmyError<String>>;

const DUPLICATE_EMAIL: &str =
    "duplicate key value violates unique constraint \"local_user_email_key\"";

fn address(text: &str) -> Url {
    Url::parse(text).unwrap()
}

fn request() -> Register {
    Register {
        username: "picard".to_string(),
        password: "make it so".to_string(),
        password_verify: "make it so".to_string(),
        show_nsfw: false,
        email: Some("picard@enterprise.example".to_string()),
        captcha_uuid: Some("uuid-1".to_string()),
        captcha_answer: Some("XKCD".to_string()),
        honeypot: None,
    }
}

fn settings() -> RegisterSettings {
    RegisterSettings {
        captcha_enabled: true,
        actor_name_max_length: 20,
        protocol_and_hostname: "https://enterprise.example".to_string(),
        hostname: "enterprise.example".to_string(),
        jwt_secret: "secret".to_string(),
    }
}

/// What the database and the other services answer.
struct World {
    site: Blocking<bool, String>,
    password_length: Result<(), String>,
    honeypot: Result<(), String>,
    admins: Blocking<usize, String>,
    captcha: Result<bool, String>,
    slurs: Result<(), String>,
    actor_keypair: Result<(), String>,
    name_valid: bool,
    actor_id: Result<(), String>,
    inbox: Result<(), String>,
    person: Blocking<PersonId, String>,
    local_user: Result<Result<LocalUserId, QueryError<String>>, String>,
    deletion: Blocking<(), String>,
    community: Blocking<CommunityId, String>,
    new_community: Blocking<CommunityId, String>,
    follow: Blocking<(), String>,
    join: Blocking<(), String>,
    jwt: Result<String, String>,
}

fn world() -> World {
    World {
        site: Ok(Ok(true)),
        password_length: Ok(()),
        honeypot: Ok(()),
        admins: Ok(Ok(1)),
        captcha: Ok(true),
        slurs: Ok(()),
        actor_keypair: Ok(()),
        name_valid: true,
        actor_id: Ok(()),
        inbox: Ok(()),
        person: Ok(Ok(PersonId(7))),
        local_user: Ok(Ok(LocalUserId(11))),
        deletion: Ok(Ok(())),
        community: Ok(Ok(CommunityId(2))),
        new_community: Ok(Ok(CommunityId(2))),
        follow: Ok(Ok(())),
        join: Ok(Ok(())),
        jwt: Ok("token".to_string()),
    }
}

fn answer(world: &World, action: &Action, keypairs: &mut usize) -> Event {
    match action {
        RegisterAction::ReadSite => RegisterEvent::Site(world.site.clone()),
        RegisterAction::CheckPasswordLength { .. } => {
            RegisterEvent::Checked(world.password_length.clone())
        }
        RegisterAction::CheckHoneypot { .. } => RegisterEvent::Checked(world.honeypot.clone()),
        RegisterAction::ReadAdmins => RegisterEvent::Admins(world.admins.clone()),
        RegisterAction::CheckCaptcha { .. } => RegisterEvent::Captcha(world.captcha.clone()),
        RegisterAction::CheckSlurs { .. } => RegisterEvent::Checked(world.slurs.clone()),
        RegisterAction::GenerateActorKeypair => {
            *keypairs += 1;
            RegisterEvent::Keypair(world.actor_keypair.clone().map(|_| Keypair {
                private_key: format!("private {}", keypairs),
                public_key: format!("public {}", keypairs),
            }))
        }
        RegisterAction::ValidateActorName { .. } => RegisterEvent::ActorName(world.name_valid),
        RegisterAction::GenerateLocalApubEndpoint {
            endpoint_type,
            name,
            protocol_and_hostname,
        } => {
            let kind = match endpoint_type {
                EndpointType::Person => "u",
                EndpointType::Community => "c",
            };
            RegisterEvent::Url(
                world
                    .actor_id
                    .clone()
                    .map(|_| address(&format!("{}/{}/{}", protocol_and_hostname, kind, name))),
            )
        }
        RegisterAction::GenerateFollowersUrl { actor_id } => {
            RegisterEvent::Url(Ok(address(&format!("{}/followers", actor_id))))
        }
        RegisterAction::GenerateInboxUrl { actor_id } => RegisterEvent::Url(
            world
                .inbox
                .clone()
                .map(|_| address(&format!("{}/inbox", actor_id))),
        ),
        RegisterAction::GenerateSharedInboxUrl { actor_id } => {
            RegisterEvent::Url(Ok(actor_id.join("/inbox").unwrap()))
        }
        RegisterAction::CreatePerson { .. } => RegisterEvent::Person(world.person.clone()),
        RegisterAction::RegisterLocalUser { .. } => {
            RegisterEvent::LocalUser(world.local_user.clone())
        }
        RegisterAction::DeletePerson { .. } => {
            RegisterEvent::PersonDeleted(world.deletion.clone())
        }
        RegisterAction::ReadCommunity { .. } => RegisterEvent::Community(world.community.clone()),
        RegisterAction::CreateCommunity { .. } => {
            RegisterEvent::Community(world.new_community.clone())
        }
        RegisterAction::FollowCommunity { .. } => RegisterEvent::Joined(world.follow.clone()),
        RegisterAction::JoinModerators { .. } => RegisterEvent::Joined(world.join.clone()),
        RegisterAction::SignJwt { .. } => RegisterEvent::Jwt(world.jwt.clone()),
        RegisterAction::Finish { .. } => panic!("nothing comes after the answer"),
    }
}

/// Every action of a registration up to its answer, and the answer.
fn run(request: &Register, settings: &RegisterSettings, world: &World) -> (Vec<Action>, Outcome) {
    let (mut state, mut action): (State, Action) = request.begin();
    let mut done = Vec::new();
    let mut keypairs = 0;
    loop {
        if let RegisterAction::Finish { result } = action {
            assert_eq!(state, RegisterState::Finished);
            assert!(done.len() <= 22);
            return (done, result);
        }
        let event = answer(world, &action, &mut keypairs);
        assert!(state.awaits(&event));
        let (next_state, next_action) = request.next(settings, state, event);
        done.push(action);
        state = next_state;
        action = next_action;
    }
}

fn caused(cause: &str) -> Outcome {
    Err(LemmyError::from_cause(cause.to_string()))
}

fn refused(message: ErrorMessage) -> Outcome {
    Err(LemmyError::from_message(message))
}

fn named(cause: &str, message: ErrorMessage) -> Outcome {
    Err(LemmyError::from_cause(cause.to_string()).with_message(message))
}

fn person_form(admin: bool) -> PersonForm {
    PersonForm {
        name: "picard".to_string(),
        actor_id: Some(address("https://enterprise.example/u/picard")),
        private_key: Some(Some("private 1".to_string())),
        public_key: "public 1".to_string(),
        inbox_url: Some(address("https://enterprise.example/u/picard/inbox")),
        shared_inbox_url: Some(Some(address("https://enterprise.example/inbox"))),
        admin: Some(admin),
        ..PersonForm::default()
    }
}

fn local_user_form() -> LocalUserForm {
    LocalUserForm {
        person_id: PersonId(7),
        email: Some(Some("picard@enterprise.example".to_string())),
        password_encrypted: "make it so".to_string(),
        show_nsfw: Some(false),
        show_bot_accounts: Some(true),
        theme: Some("browser".to_string()),
        default_sort_type: Some(SortType::Active),
        default_listing_type: Some(ListingType::Subscribed),
        lang: Some("browser".to_string()),
        show_avatars: Some(true),
        show_scores: Some(true),
        show_read_posts: Some(true),
        show_new_post_notifs: Some(false),
        send_notifications_to_email: Some(false),
    }
}

fn follow() -> Action {
    RegisterAction::FollowCommunity {
        form: CommunityFollowerForm {
            community_id: CommunityId(2),
            person_id: PersonId(7),
            pending: false,
        },
    }
}

fn sign_jwt() -> Action {
    RegisterAction::SignJwt {
        local_user_id: LocalUserId(11),
        secret: "secret".to_string(),
        hostname: "enterprise.example".to_string(),
    }
}

#[test]
fn a_visitor_gets_an_account() {
    let (actions, outcome) = run(&request(), &settings(), &world());
    assert_eq!(
        outcome,
        Ok(LoginResponse {
            jwt: "token".to_string()
        })
    );
    assert_eq!(
        actions,
        vec![
            RegisterAction::ReadSite,
            RegisterAction::CheckPasswordLength {
                password: "make it so".to_string()
            },
            RegisterAction::CheckHoneypot { honeypot: None },
            RegisterAction::ReadAdmins,
            RegisterAction::CheckCaptcha {
                uuid: "uuid-1".to_string(),
                answer: "XKCD".to_string()
            },
            RegisterAction::CheckSlurs {
                text: "picard".to_string()
            },
            RegisterAction::GenerateActorKeypair,
            RegisterAction::ValidateActorName {
                name: "picard".to_string(),
                max_length: 20
            },
            RegisterAction::GenerateLocalApubEndpoint {
                endpoint_type: EndpointType::Person,
                name: "picard".to_string(),
                protocol_and_hostname: "https://enterprise.example".to_string()
            },
            RegisterAction::GenerateInboxUrl {
                actor_id: address("https://enterprise.example/u/picard")
            },
            RegisterAction::GenerateSharedInboxUrl {
                actor_id: address("https://enterprise.example/u/picard")
            },
            RegisterAction::CreatePerson {
                form: person_form(false)
            },
            RegisterAction::RegisterLocalUser {
                form: local_user_form()
            },
            RegisterAction::GenerateActorKeypair,
            RegisterAction::ReadCommunity {
                community_id: CommunityId(2)
            },
            follow(),
            sign_jwt(),
        ]
    );
}

#[test]
fn the_first_account_is_the_admin_and_moderates_the_main_community() {
    let world = World {
        admins: Ok(Ok(0)),
        community: Ok(Err("not found".to_string())),
        ..world()
    };
    let (actions, outcome) = run(&request(), &settings(), &world);
    assert!(outcome.is_ok());
    // The first account solves no captcha.
    assert_eq!(
        actions[4],
        RegisterAction::CheckSlurs {
            text: "picard".to_string()
        }
    );
    assert_eq!(
        actions[10],
        RegisterAction::CreatePerson {
            form: person_form(true)
        }
    );
    let community = "https://enterprise.example/c/main";
    assert_eq!(
        actions[13..],
        [
            RegisterAction::ReadCommunity {
                community_id: CommunityId(2)
            },
            RegisterAction::GenerateLocalApubEndpoint {
                endpoint_type: EndpointType::Community,
                name: "main".to_string(),
                protocol_and_hostname: "https://enterprise.example".to_string()
            },
            RegisterAction::GenerateFollowersUrl {
                actor_id: address(community)
            },
            RegisterAction::GenerateInboxUrl {
                actor_id: address(community)
            },
            RegisterAction::GenerateSharedInboxUrl {
                actor_id: address(community)
            },
            RegisterAction::CreateCommunity {
                form: CommunityForm {
                    name: "main".to_string(),
                    title: "The Default Community".to_string(),
                    description: Some("The Default Community".to_string()),
                    actor_id: Some(address(community)),
                    private_key: Some(Some("private 2".to_string())),
                    public_key: "public 2".to_string(),
                    followers_url: Some(address("https://enterprise.example/c/main/followers")),
                    inbox_url: Some(address("https://enterprise.example/c/main/inbox")),
                    shared_inbox_url: Some(Some(address("https://enterprise.example/inbox"))),
                }
            },
            follow(),
            RegisterAction::JoinModerators {
                form: CommunityModeratorForm {
                    community_id: CommunityId(2),
                    person_id: PersonId(7)
                }
            },
            sign_jwt(),
        ]
    );
    assert_eq!(actions.len(), 22);
}

#[test]
fn the_captcha_can_be_switched_off() {
    let settings = RegisterSettings {
        captcha_enabled: false,
        ..settings()
    };
    let (actions, outcome) = run(&request(), &settings, &world());
    assert!(outcome.is_ok());
    assert_eq!(actions.len(), 16);
    assert!(!actions
        .iter()
        .any(|action| matches!(action, RegisterAction::CheckCaptcha { .. })));
}

#[test]
fn a_missing_captcha_is_an_empty_one() {
    let request = Register {
        captcha_uuid: None,
        captcha_answer: None,
        ..request()
    };
    let (actions, _) = run(&request, &settings(), &world());
    assert_eq!(
        actions[4],
        RegisterAction::CheckCaptcha {
            uuid: String::new(),
            answer: String::new()
        }
    );
}

#[test]
fn an_account_needs_no_email() {
    let request = Register {
        email: None,
        show_nsfw: true,
        ..request()
    };
    let (actions, _) = run(&request, &settings(), &world());
    assert_eq!(
        actions[12],
        RegisterAction::RegisterLocalUser {
            form: LocalUserForm {
                email: Some(None),
                show_nsfw: Some(true),
                ..local_user_form()
            }
        }
    );
}

#[test]
fn a_closed_site_takes_nobody() {
    let world = World {
        site: Ok(Ok(false)),
        ..world()
    };
    let (actions, outcome) = run(&request(), &settings(), &world);
    assert_eq!(actions, vec![RegisterAction::ReadSite]);
    assert_eq!(outcome, refused(ErrorMessage::RegistrationClosed));
}

#[test]
fn a_site_without_a_row_is_open() {
    let world = World {
        site: Ok(Err("no site".to_string())),
        ..world()
    };
    assert!(run(&request(), &settings(), &world).1.is_ok());
}

#[test]
fn different_passwords_store_nothing() {
    let request = Register {
        password_verify: "make it sow".to_string(),
        ..request()
    };
    let (actions, outcome) = run(&request, &settings(), &world());
    assert_eq!(actions.len(), 3);
    assert_eq!(outcome, refused(ErrorMessage::PasswordsDontMatch));
}

#[test]
fn checks_report_their_own_errors() {
    let e = || "refused".to_string();
    let worlds = vec![
        (1, World { site: Err(e()), ..world() }),
        (2, World { password_length: Err(e()), ..world() }),
        (3, World { honeypot: Err(e()), ..world() }),
        (4, World { admins: Err(e()), ..world() }),
        (4, World { admins: Ok(Err(e())), ..world() }),
        (5, World { captcha: Err(e()), ..world() }),
        (6, World { slurs: Err(e()), ..world() }),
        (7, World { actor_keypair: Err(e()), ..world() }),
        (9, World { actor_id: Err(e()), ..world() }),
        (10, World { inbox: Err(e()), ..world() }),
        (12, World { person: Err(e()), ..world() }),
        (13, World { local_user: Err(e()), ..world() }),
        (15, World { community: Err(e()), ..world() }),
        (16, World { follow: Err(e()), ..world() }),
        (17, World { jwt: Err(e()), ..world() }),
    ];
    for (rounds, world) in worlds {
        let (actions, outcome) = run(&request(), &settings(), &world);
        assert_eq!(actions.len(), rounds);
        assert_eq!(outcome, caused("refused"));
    }
}

#[test]
fn a_wrong_captcha_is_refused() {
    let world = World {
        captcha: Ok(false),
        ..world()
    };
    let (actions, outcome) = run(&request(), &settings(), &world);
    assert_eq!(actions.len(), 5);
    assert_eq!(outcome, refused(ErrorMessage::CaptchaIncorrect));
}

#[test]
fn an_invalid_name_is_refused() {
    let world = World {
        name_valid: false,
        ..world()
    };
    let (actions, outcome) = run(&request(), &settings(), &world);
    assert_eq!(actions.len(), 8);
    assert_eq!(outcome, refused(ErrorMessage::InvalidUsername));
}

#[test]
fn a_taken_name_is_named() {
    let world = World {
        person: Ok(Err("duplicate key".to_string())),
        ..world()
    };
    let (actions, outcome) = run(&request(), &settings(), &world);
    assert_eq!(actions.len(), 12);
    assert_eq!(
        outcome,
        named("duplicate key", ErrorMessage::UserAlreadyExists)
    );
}

#[test]
fn a_taken_email_takes_the_person_back() {
    let world = World {
        local_user: Ok(Err(QueryError {
            error: "database".to_string(),
            text: DUPLICATE_EMAIL.to_string(),
        })),
        ..world()
    };
    let (actions, outcome) = run(&request(), &settings(), &world);
    assert_eq!(
        actions[13..],
        [RegisterAction::DeletePerson {
            person_id: PersonId(7)
        }]
    );
    assert_eq!(outcome, named("database", ErrorMessage::EmailAlreadyExists));
}

#[test]
fn any_other_failure_of_the_account_takes_the_person_back() {
    let world = World {
        local_user: Ok(Err(QueryError {
            error: "database".to_string(),
            text: "duplicate key value violates unique constraint".to_string(),
        })),
        ..world()
    };
    let (actions, outcome) = run(&request(), &settings(), &world);
    assert_eq!(
        actions.last(),
        Some(&RegisterAction::DeletePerson {
            person_id: PersonId(7)
        })
    );
    assert_eq!(outcome, named("database", ErrorMessage::UserAlreadyExists));
}

#[test]
fn a_person_that_cannot_be_taken_back_is_reported() {
    for deletion in [Err("deletion".to_string()), Ok(Err("deletion".to_string()))] {
        let world = World {
            local_user: Ok(Err(QueryError {
                error: "database".to_string(),
                text: DUPLICATE_EMAIL.to_string(),
            })),
            deletion,
            ..world()
        };
        assert_eq!(run(&request(), &settings(), &world).1, caused("deletion"));
    }
}

#[test]
fn a_main_community_that_cannot_be_made_is_reported() {
    for new_community in [Err("pool".to_string()), Ok(Err("pool".to_string()))] {
        let world = World {
            community: Ok(Err("not found".to_string())),
            new_community,
            ..world()
        };
        let (actions, outcome) = run(&request(), &settings(), &world);
        assert!(matches!(
            actions.last(),
            Some(RegisterAction::CreateCommunity { .. })
        ));
        assert_eq!(outcome, caused("pool"));
    }
}

#[test]
fn a_follower_that_is_there_already_is_named() {
    let world = World {
        follow: Ok(Err("duplicate".to_string())),
        ..world()
    };
    assert_eq!(
        run(&request(), &settings(), &world).1,
        named("duplicate", ErrorMessage::CommunityFollowerAlreadyExists)
    );
}

#[test]
fn a_moderator_that_is_there_already_is_named() {
    let world = World {
        admins: Ok(Ok(0)),
        join: Ok(Err("duplicate".to_string())),
        ..world()
    };
    assert_eq!(
        run(&request(), &settings(), &world).1,
        named("duplicate", ErrorMessage::CommunityModeratorAlreadyExists)
    );
    // Nobody else becomes a moderator, so nothing can go wrong with it.
    let world = World {
        admins: Ok(Ok(3)),
        ..world
    };
    assert!(run(&request(), &settings(), &world).1.is_ok());
}

#[test]
fn only_the_awaited_reply_is_awaited() {
    let state: State = RegisterState::Site;
    assert!(state.awaits(&RegisterEvent::Site(Ok(Ok(true)))));
    assert!(!state.awaits(&RegisterEvent::Checked(Ok(()))));
    let account = Account {
        no_admins: false,
        person_id: PersonId(1),
        local_user_id: LocalUserId(1),
    };
    let state: State = RegisterState::Moderator { account };
    assert!(state.awaits(&RegisterEvent::Joined(Ok(Ok(())))));
    assert!(!state.awaits(&RegisterEvent::Jwt(Ok(String::new()))));
    let state: State = RegisterState::Finished;
    assert!(!state.awaits(&RegisterEvent::Jwt(Ok(String::new()))));
}

#[test]
fn the_main_community_is_the_second() {
    assert_eq!(MAIN_COMMUNITY_ID, 2);
}

#[test]
fn messages_have_their_texts() {
    let texts = [
        (ErrorMessage::RegistrationClosed, "registration_closed"),
        (ErrorMessage::PasswordsDontMatch, "passwords_dont_match"),
        (ErrorMessage::CaptchaIncorrect, "captcha_incorrect"),
        (ErrorMessage::InvalidUsername, "invalid_username"),
        (ErrorMessage::UserAlreadyExists, "user_already_exists"),
        (ErrorMessage::EmailAlreadyExists, "email_already_exists"),
        (
            ErrorMessage::CommunityFollowerAlreadyExists,
            "community_follower_already_exists",
        ),
        (
            ErrorMessage::CommunityModeratorAlreadyExists,
            "community_moderator_already_exists",
        ),
        (ErrorMessage::CouldntUpdateSite, "couldnt_update_site"),
    ];
    for (message, text) in texts {
        assert_eq!(message.as_str(), text);
    }
}

#[test]
fn replies_of_the_pool_are_flattened() {
    assert_eq!(flatten::<u8, &str>(Ok(Ok(1))), Ok(1));
    assert_eq!(flatten::<u8, &str>(Ok(Err("query"))), Err("query"));
    assert_eq!(flatten::<u8, &str>(Err("pool")), Err("pool"));
}

#[test]
fn only_the_first_person_left_behind_is_an_admin() {
    let taken = || {
        Ok(Err(QueryError {
            error: "database".to_string(),
            text: DUPLICATE_EMAIL.to_string(),
        }))
    };
    let worlds = vec![
        // A person that is taken back leaves no admin behind,
        World { local_user: taken(), ..world() },
        // one whose registration fails later does,
        World { follow: Err("pool".to_string()), ..world() },
        // and so nobody after it becomes one.
        world(),
        World { local_user: taken(), ..world() },
        world(),
    ];
    let mut admins = 0;
    let mut stored = Vec::new();
    for world in worlds {
        let world = World { admins: Ok(Ok(admins)), ..world };
        let (actions, _) = run(&request(), &settings(), &world);
        let admin = actions.iter().find_map(|action| match action {
            RegisterAction::CreatePerson { form } => form.admin,
            _ => None,
        });
        let taken_back = actions
            .iter()
            .any(|action| matches!(action, RegisterAction::DeletePerson { .. }));
        if admin == Some(true) && !taken_back {
            admins += 1;
        }
        assert!(!actions
            .iter()
            .any(|action| matches!(action, RegisterAction::JoinModerators { .. })));
        stored.push(admin);
    }
    assert_eq!(
        stored,
        vec![Some(true), Some(true), Some(false), Some(false), Some(false)]
    );
    assert_eq!(admins, 1);
}
