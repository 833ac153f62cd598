//! Registration of a new account.
//!
//! `Register::begin` gives the first action of the flow. The program performs an
//! action and hands what came of it to `Register::next`, until the action is
//! `Finish`.

use vstd::prelude::*;

use crate::error::{flat, flatten, Blocking, ErrorMessage, LemmyError, QueryError};
use crate::schema::{
    CommunityFollowerForm, CommunityForm, CommunityFormView, CommunityId, CommunityModeratorForm,
    ListingType, LocalUserForm, LocalUserFormView, LocalUserId, PersonForm, PersonFormView,
    PersonId, SortType,
};
use url::Url;

verus! {

/// The id of the community that every new account follows.
pub const MAIN_COMMUNITY_ID: i32 = 2;

/// What a visitor sends to get an account.
#[derive(Clone, Debug, PartialEq, Eq)]
pub struct Register {
    pub username: String,
    pub password: String,
    pub password_verify: String,
    pub show_nsfw: bool,
    pub email: Option<String>,
    pub captcha_uuid: Option<String>,
    pub captcha_answer: Option<String>,
    pub honeypot: Option<String>,
}

pub struct RegisterView {
    pub username: Seq<char>,
    pub password: Seq<char>,
    pub password_verify: Seq<char>,
    pub show_nsfw: bool,
    pub email: Option<Seq<char>>,
    pub captcha_uuid: Option<Seq<char>>,
    pub captcha_answer: Option<Seq<char>>,
    pub honeypot: Option<Seq<char>>,
}

impl View for Register {
    type V = RegisterView;

    open spec fn view(&self) -> RegisterView {
        RegisterView {
            username: self.username@,
            password: self.password@,
            password_verify: self.password_verify@,
            show_nsfw: self.show_nsfw,
            email: self.email.deep_view(),
            captcha_uuid: self.captcha_uuid.deep_view(),
            captcha_answer: self.captcha_answer.deep_view(),
            honeypot: self.honeypot.deep_view(),
        }
    }
}

/// The settings of the server that registration depends on.
#[derive(Clone, Debug, PartialEq, Eq)]
pub struct RegisterSettings {
    pub captcha_enabled: bool,
    pub actor_name_max_length: usize,
    pub protocol_and_hostname: String,
    pub hostname: String,
    pub jwt_secret: String,
}

pub struct RegisterSettingsView {
    pub captcha_enabled: bool,
    pub actor_name_max_length: usize,
    pub protocol_and_hostname: Seq<char>,
    pub hostname: Seq<char>,
    pub jwt_secret: Seq<char>,
}

impl View for RegisterSettings {
    type V = RegisterSettingsView;

    open spec fn view(&self) -> RegisterSettingsView {
        RegisterSettingsView {
            captcha_enabled: self.captcha_enabled,
            actor_name_max_length: self.actor_name_max_length,
            protocol_and_hostname: self.protocol_and_hostname@,
            hostname: self.hostname@,
            jwt_secret: self.jwt_secret@,
        }
    }
}

/// The keys with which an actor signs its activities.
#[derive(Clone, Debug, PartialEq, Eq)]
pub struct Keypair {
    pub private_key: String,
    pub public_key: String,
}

pub struct KeypairView {
    pub private_key: Seq<char>,
    pub public_key: Seq<char>,
}

impl View for Keypair {
    type V = KeypairView;

    open spec fn view(&self) -> KeypairView {
        KeypairView { private_key: self.private_key@, public_key: self.public_key@ }
    }
}

/// What the new account is let in with.
#[derive(Clone, Debug, PartialEq, Eq)]
pub struct LoginResponse {
    pub jwt: String,
}

impl View for LoginResponse {
    type V = Seq<char>;

    open spec fn view(&self) -> Seq<char> {
        self.jwt@
    }
}

/// What an address of this server leads to.
#[derive(Clone, Copy, Debug, PartialEq, Eq, Structural)]
pub enum EndpointType {
    Person,
    Community,
}

/// An account once both its rows are stored.
#[derive(Clone, Copy, Debug, PartialEq, Eq, Structural)]
pub struct Account {
    pub no_admins: bool,
    pub person_id: PersonId,
    pub local_user_id: LocalUserId,
}

/// Where a registration stands: the reply that it waits for, and what it will
/// need of the earlier ones. `no_admins` says that the server had no admin yet.
#[derive(Debug, PartialEq, Eq)]
pub enum RegisterState<E> {
    Site,
    PasswordLength,
    Honeypot,
    Admins,
    Captcha,
    Slurs { no_admins: bool },
    ActorKeypair { no_admins: bool },
    ActorName { no_admins: bool, form: PersonForm },
    ActorId { no_admins: bool, form: PersonForm },
    Inbox { no_admins: bool, actor_id: Url, form: PersonForm },
    SharedInbox { no_admins: bool, form: PersonForm },
    Person { no_admins: bool },
    LocalUser { no_admins: bool, person_id: PersonId },
    PersonDeletion { error: LemmyError<E> },
    CommunityKeypair { account: Account },
    Community { account: Account, keypair: Keypair },
    CommunityActorId { account: Account, form: CommunityForm },
    CommunityFollowers { account: Account, actor_id: Url, form: CommunityForm },
    CommunityInbox { account: Account, actor_id: Url, form: CommunityForm },
    CommunitySharedInbox { account: Account, form: CommunityForm },
    NewCommunity { account: Account },
    Follow { account: Account, community_id: CommunityId },
    Moderator { account: Account },
    Jwt,
    Finished,
}

pub enum RegisterStateView<E> {
    Site,
    PasswordLength,
    Honeypot,
    Admins,
    Captcha,
    Slurs { no_admins: bool },
    ActorKeypair { no_admins: bool },
    ActorName { no_admins: bool, form: PersonFormView },
    ActorId { no_admins: bool, form: PersonFormView },
    Inbox { no_admins: bool, actor_id: Url, form: PersonFormView },
    SharedInbox { no_admins: bool, form: PersonFormView },
    Person { no_admins: bool },
    LocalUser { no_admins: bool, person_id: PersonId },
    PersonDeletion { error: LemmyError<E> },
    CommunityKeypair { account: Account },
    Community { account: Account, keypair: KeypairView },
    CommunityActorId { account: Account, form: CommunityFormView },
    CommunityFollowers { account: Account, actor_id: Url, form: CommunityFormView },
    CommunityInbox { account: Account, actor_id: Url, form: CommunityFormView },
    CommunitySharedInbox { account: Account, form: CommunityFormView },
    NewCommunity { account: Account },
    Follow { account: Account, community_id: CommunityId },
    Moderator { account: Account },
    Jwt,
    Finished,
}

impl<E> View for RegisterState<E> {
    type V = RegisterStateView<E>;

    open spec fn view(&self) -> RegisterStateView<E> {
        match *self {
            RegisterState::Site => RegisterStateView::Site,
            RegisterState::PasswordLength => RegisterStateView::PasswordLength,
            RegisterState::Honeypot => RegisterStateView::Honeypot,
            RegisterState::Admins => RegisterStateView::Admins,
            RegisterState::Captcha => RegisterStateView::Captcha,
            RegisterState::Slurs { no_admins } => RegisterStateView::Slurs { no_admins },
            RegisterState::ActorKeypair { no_admins } => RegisterStateView::ActorKeypair {
                no_admins,
            },
            RegisterState::ActorName { no_admins, form } => RegisterStateView::ActorName {
                no_admins,
                form: form@,
            },
            RegisterState::ActorId { no_admins, form } => RegisterStateView::ActorId {
                no_admins,
                form: form@,
            },
            RegisterState::Inbox { no_admins, actor_id, form } => RegisterStateView::Inbox {
                no_admins,
                actor_id,
                form: form@,
            },
            RegisterState::SharedInbox { no_admins, form } => RegisterStateView::SharedInbox {
                no_admins,
                form: form@,
            },
            RegisterState::Person { no_admins } => RegisterStateView::Person { no_admins },
            RegisterState::LocalUser { no_admins, person_id } => RegisterStateView::LocalUser {
                no_admins,
                person_id,
            },
            RegisterState::PersonDeletion { error } => RegisterStateView::PersonDeletion { error },
            RegisterState::CommunityKeypair { account } => RegisterStateView::CommunityKeypair {
                account,
            },
            RegisterState::Community { account, keypair } => RegisterStateView::Community {
                account,
                keypair: keypair@,
            },
            RegisterState::CommunityActorId { account, form } =>
                RegisterStateView::CommunityActorId { account, form: form@ },
            RegisterState::CommunityFollowers { account, actor_id, form } =>
                RegisterStateView::CommunityFollowers { account, actor_id, form: form@ },
            RegisterState::CommunityInbox { account, actor_id, form } =>
                RegisterStateView::CommunityInbox { account, actor_id, form: form@ },
            RegisterState::CommunitySharedInbox { account, form } =>
                RegisterStateView::CommunitySharedInbox { account, form: form@ },
            RegisterState::NewCommunity { account } => RegisterStateView::NewCommunity { account },
            RegisterState::Follow { account, community_id } => RegisterStateView::Follow {
                account,
                community_id,
            },
            RegisterState::Moderator { account } => RegisterStateView::Moderator { account },
            RegisterState::Jwt => RegisterStateView::Jwt,
            RegisterState::Finished => RegisterStateView::Finished,
        }
    }
}

/// What the program has to do next.
#[derive(Debug, PartialEq, Eq)]
pub enum RegisterAction<E> {
    /// Read whether the site takes registrations.
    ReadSite,
    CheckPasswordLength { password: String },
    CheckHoneypot { honeypot: Option<String> },
    /// Count the admins of the server.
    ReadAdmins,
    CheckCaptcha { uuid: String, answer: String },
    CheckSlurs { text: String },
    GenerateActorKeypair,
    ValidateActorName { name: String, max_length: usize },
    GenerateLocalApubEndpoint {
        endpoint_type: EndpointType,
        name: String,
        protocol_and_hostname: String,
    },
    GenerateFollowersUrl { actor_id: Url },
    GenerateInboxUrl { actor_id: Url },
    GenerateSharedInboxUrl { actor_id: Url },
    CreatePerson { form: PersonForm },
    RegisterLocalUser { form: LocalUserForm },
    DeletePerson { person_id: PersonId },
    ReadCommunity { community_id: CommunityId },
    CreateCommunity { form: CommunityForm },
    FollowCommunity { form: CommunityFollowerForm },
    JoinModerators { form: CommunityModeratorForm },
    SignJwt { local_user_id: LocalUserId, secret: String, hostname: String },
    /// Answer the visitor. Nothing comes after it.
    Finish { result: Result<LoginResponse, LemmyError<E>> },
}

pub enum RegisterActionView<E> {
    ReadSite,
    CheckPasswordLength { password: Seq<char> },
    CheckHoneypot { honeypot: Option<Seq<char>> },
    ReadAdmins,
    CheckCaptcha { uuid: Seq<char>, answer: Seq<char> },
    CheckSlurs { text: Seq<char> },
    GenerateActorKeypair,
    ValidateActorName { name: Seq<char>, max_length: usize },
    GenerateLocalApubEndpoint {
        endpoint_type: EndpointType,
        name: Seq<char>,
        protocol_and_hostname: Seq<char>,
    },
    GenerateFollowersUrl { actor_id: Url },
    GenerateInboxUrl { actor_id: Url },
    GenerateSharedInboxUrl { actor_id: Url },
    CreatePerson { form: PersonFormView },
    RegisterLocalUser { form: LocalUserFormView },
    DeletePerson { person_id: PersonId },
    ReadCommunity { community_id: CommunityId },
    CreateCommunity { form: CommunityFormView },
    FollowCommunity { form: CommunityFollowerForm },
    JoinModerators { form: CommunityModeratorForm },
    SignJwt { local_user_id: LocalUserId, secret: Seq<char>, hostname: Seq<char> },
    Finish { result: Result<Seq<char>, LemmyError<E>> },
}

impl<E> View for RegisterAction<E> {
    type V = RegisterActionView<E>;

    open spec fn view(&self) -> RegisterActionView<E> {
        match *self {
            RegisterAction::ReadSite => RegisterActionView::ReadSite,
            RegisterAction::CheckPasswordLength { password } =>
                RegisterActionView::CheckPasswordLength { password: password@ },
            RegisterAction::CheckHoneypot { honeypot } => RegisterActionView::CheckHoneypot {
                honeypot: honeypot.deep_view(),
            },
            RegisterAction::ReadAdmins => RegisterActionView::ReadAdmins,
            RegisterAction::CheckCaptcha { uuid, answer } => RegisterActionView::CheckCaptcha {
                uuid: uuid@,
                answer: answer@,
            },
            RegisterAction::CheckSlurs { text } => RegisterActionView::CheckSlurs { text: text@ },
            RegisterAction::GenerateActorKeypair => RegisterActionView::GenerateActorKeypair,
            RegisterAction::ValidateActorName { name, max_length } =>
                RegisterActionView::ValidateActorName { name: name@, max_length },
            RegisterAction::GenerateLocalApubEndpoint {
                endpoint_type,
                name,
                protocol_and_hostname,
            } => RegisterActionView::GenerateLocalApubEndpoint {
                endpoint_type,
                name: name@,
                protocol_and_hostname: protocol_and_hostname@,
            },
            RegisterAction::GenerateFollowersUrl { actor_id } =>
                RegisterActionView::GenerateFollowersUrl { actor_id },
            RegisterAction::GenerateInboxUrl { actor_id } => RegisterActionView::GenerateInboxUrl {
                actor_id,
            },
            RegisterAction::GenerateSharedInboxUrl { actor_id } =>
                RegisterActionView::GenerateSharedInboxUrl { actor_id },
            RegisterAction::CreatePerson { form } => RegisterActionView::CreatePerson {
                form: form@,
            },
            RegisterAction::RegisterLocalUser { form } => RegisterActionView::RegisterLocalUser {
                form: form@,
            },
            RegisterAction::DeletePerson { person_id } => RegisterActionView::DeletePerson {
                person_id,
            },
            RegisterAction::ReadCommunity { community_id } => RegisterActionView::ReadCommunity {
                community_id,
            },
            RegisterAction::CreateCommunity { form } => RegisterActionView::CreateCommunity {
                form: form@,
            },
            RegisterAction::FollowCommunity { form } => RegisterActionView::FollowCommunity {
                form,
            },
            RegisterAction::JoinModerators { form } => RegisterActionView::JoinModerators { form },
            RegisterAction::SignJwt { local_user_id, secret, hostname } =>
                RegisterActionView::SignJwt { local_user_id, secret: secret@, hostname: hostname@ },
            RegisterAction::Finish { result } => RegisterActionView::Finish {
                result: match result {
                    Ok(response) => Ok(response@),
                    Err(error) => Err(error),
                },
            },
        }
    }
}

/// What came of an action.
#[derive(Debug, PartialEq, Eq)]
pub enum RegisterEvent<E> {
    /// Whether the site takes registrations, or why its row could not be read.
    Site(Blocking<bool, E>),
    /// Whether a text passed a check.
    Checked(Result<(), E>),
    /// How many admins there are.
    Admins(Blocking<usize, E>),
    /// Whether the answer to the captcha is the right one.
    Captcha(Result<bool, E>),
    Keypair(Result<Keypair, E>),
    /// Whether the name is one that an actor can have.
    ActorName(bool),
    Url(Result<Url, E>),
    Person(Blocking<PersonId, E>),
    LocalUser(Result<Result<LocalUserId, QueryError<E>>, E>),
    PersonDeleted(Blocking<(), E>),
    Community(Blocking<CommunityId, E>),
    Joined(Blocking<(), E>),
    Jwt(Result<String, E>),
}

pub enum RegisterEventView<E> {
    Site(Blocking<bool, E>),
    Checked(Result<(), E>),
    Admins(Blocking<usize, E>),
    Captcha(Result<bool, E>),
    Keypair(Result<KeypairView, E>),
    ActorName(bool),
    Url(Result<Url, E>),
    Person(Blocking<PersonId, E>),
    LocalUser(Result<Result<LocalUserId, (E, Seq<char>)>, E>),
    PersonDeleted(Blocking<(), E>),
    Community(Blocking<CommunityId, E>),
    Joined(Blocking<(), E>),
    Jwt(Result<Seq<char>, E>),
}

impl<E> View for RegisterEvent<E> {
    type V = RegisterEventView<E>;

    open spec fn view(&self) -> RegisterEventView<E> {
        match *self {
            RegisterEvent::Site(reply) => RegisterEventView::Site(reply),
            RegisterEvent::Checked(reply) => RegisterEventView::Checked(reply),
            RegisterEvent::Admins(reply) => RegisterEventView::Admins(reply),
            RegisterEvent::Captcha(reply) => RegisterEventView::Captcha(reply),
            RegisterEvent::Keypair(reply) => RegisterEventView::Keypair(
                match reply {
                    Ok(keypair) => Ok(keypair@),
                    Err(error) => Err(error),
                },
            ),
            RegisterEvent::ActorName(valid) => RegisterEventView::ActorName(valid),
            RegisterEvent::Url(reply) => RegisterEventView::Url(reply),
            RegisterEvent::Person(reply) => RegisterEventView::Person(reply),
            RegisterEvent::LocalUser(reply) => RegisterEventView::LocalUser(
                match reply {
                    Ok(Ok(id)) => Ok(Ok(id)),
                    Ok(Err(query)) => Ok(Err((query.error, query.text@))),
                    Err(error) => Err(error),
                },
            ),
            RegisterEvent::PersonDeleted(reply) => RegisterEventView::PersonDeleted(reply),
            RegisterEvent::Community(reply) => RegisterEventView::Community(reply),
            RegisterEvent::Joined(reply) => RegisterEventView::Joined(reply),
            RegisterEvent::Jwt(reply) => RegisterEventView::Jwt(
                match reply {
                    Ok(jwt) => Ok(jwt@),
                    Err(error) => Err(error),
                },
            ),
        }
    }
}

impl<E> RegisterStateView<E> {
    /// Whether `event` is a reply of the kind that the registration waits for.
    pub open spec fn awaits(self, event: RegisterEventView<E>) -> bool {
        match self {
            RegisterStateView::Site => event is Site,
            RegisterStateView::PasswordLength => event is Checked,
            RegisterStateView::Honeypot => event is Checked,
            RegisterStateView::Admins => event is Admins,
            RegisterStateView::Captcha => event is Captcha,
            RegisterStateView::Slurs { .. } => event is Checked,
            RegisterStateView::ActorKeypair { .. } => event is Keypair,
            RegisterStateView::ActorName { .. } => event is ActorName,
            RegisterStateView::ActorId { .. } => event is Url,
            RegisterStateView::Inbox { .. } => event is Url,
            RegisterStateView::SharedInbox { .. } => event is Url,
            RegisterStateView::Person { .. } => event is Person,
            RegisterStateView::LocalUser { .. } => event is LocalUser,
            RegisterStateView::PersonDeletion { .. } => event is PersonDeleted,
            RegisterStateView::CommunityKeypair { .. } => event is Keypair,
            RegisterStateView::Community { .. } => event is Community,
            RegisterStateView::CommunityActorId { .. } => event is Url,
            RegisterStateView::CommunityFollowers { .. } => event is Url,
            RegisterStateView::CommunityInbox { .. } => event is Url,
            RegisterStateView::CommunitySharedInbox { .. } => event is Url,
            RegisterStateView::NewCommunity { .. } => event is Community,
            RegisterStateView::Follow { .. } => event is Joined,
            RegisterStateView::Moderator { .. } => event is Joined,
            RegisterStateView::Jwt => event is Jwt,
            RegisterStateView::Finished => false,
        }
    }
}

/// The text with which the database refuses a second account for an email address.
pub open spec fn duplicate_email() -> Seq<char> {
    "duplicate key value violates unique constraint \"local_user_email_key\""@
}

/// The end of a registration.
pub open spec fn finish<E>(result: Result<Seq<char>, LemmyError<E>>) -> (
    RegisterStateView<E>,
    RegisterActionView<E>,
) {
    (RegisterStateView::Finished, RegisterActionView::Finish { result })
}

/// The end of a registration that a call failed.
pub open spec fn fail<E>(error: E) -> (RegisterStateView<E>, RegisterActionView<E>) {
    finish(Err(LemmyError::of_cause(error)))
}

/// The end of a registration that a rule refuses.
pub open spec fn refuse<E>(message: ErrorMessage) -> (RegisterStateView<E>, RegisterActionView<E>) {
    finish(Err(LemmyError::of_message(message)))
}

/// The form of the main community, up to its addresses.
pub open spec fn main_community(keypair: KeypairView) -> CommunityFormView {
    CommunityFormView {
        name: "main"@,
        title: "The Default Community"@,
        description: Some("The Default Community"@),
        actor_id: None,
        private_key: Some(Some(keypair.private_key)),
        public_key: keypair.public_key,
        followers_url: None,
        inbox_url: None,
        shared_inbox_url: None,
    }
}

impl RegisterView {
    /// The form of the new person, up to its addresses. A server that had no admin gets one
    /// in it.
    pub open spec fn person(self, no_admins: bool, keypair: KeypairView) -> PersonFormView {
        PersonFormView {
            name: self.username,
            private_key: Some(Some(keypair.private_key)),
            public_key: keypair.public_key,
            admin: Some(no_admins),
            ..PersonFormView::blank()
        }
    }

    /// The form of the new account, with the choices that every account starts with.
    pub open spec fn local_user(self, person_id: PersonId) -> LocalUserFormView {
        LocalUserFormView {
            person_id,
            email: Some(self.email),
            password_encrypted: self.password,
            show_nsfw: Some(self.show_nsfw),
            show_bot_accounts: Some(true),
            theme: Some("browser"@),
            default_sort_type: Some(SortType::Active),
            default_listing_type: Some(ListingType::Subscribed),
            lang: Some("browser"@),
            show_avatars: Some(true),
            show_scores: Some(true),
            show_read_posts: Some(true),
            show_new_post_notifs: Some(false),
            send_notifications_to_email: Some(false),
        }
    }

    /// Signing the new account up for a community, whoever it is.
    pub open spec fn follow<E>(self, account: Account, community_id: CommunityId) -> (
        RegisterStateView<E>,
        RegisterActionView<E>,
    ) {
        (
            RegisterStateView::Follow { account, community_id },
            RegisterActionView::FollowCommunity {
                form: CommunityFollowerForm {
                    community_id,
                    person_id: account.person_id,
                    pending: false,
                },
            },
        )
    }

    /// Letting the new account in.
    pub open spec fn log_in<E>(self, settings: RegisterSettingsView, account: Account) -> (
        RegisterStateView<E>,
        RegisterActionView<E>,
    ) {
        (
            RegisterStateView::Jwt,
            RegisterActionView::SignJwt {
                local_user_id: account.local_user_id,
                secret: settings.jwt_secret,
                hostname: settings.hostname,
            },
        )
    }

    /// How a registration begins.
    pub open spec fn begin<E>(self) -> (RegisterStateView<E>, RegisterActionView<E>) {
        (RegisterStateView::Site, RegisterActionView::ReadSite)
    }

    /// How a registration goes on after the reply that it waits for.
    pub open spec fn next<E>(
        self,
        settings: RegisterSettingsView,
        state: RegisterStateView<E>,
        event: RegisterEventView<E>,
    ) -> (RegisterStateView<E>, RegisterActionView<E>)
        recommends
            state.awaits(event),
    {
        match (state, event) {
            // Without a row of the site, registration is open.
            (RegisterStateView::Site, RegisterEventView::Site(reply)) => match reply {
                Err(error) => fail(error),
                Ok(Ok(false)) => refuse(ErrorMessage::RegistrationClosed),
                _ => (
                    RegisterStateView::PasswordLength,
                    RegisterActionView::CheckPasswordLength { password: self.password },
                ),
            },
            (RegisterStateView::PasswordLength, RegisterEventView::Checked(reply)) => match reply {
                Err(error) => fail(error),
                Ok(_) => (
                    RegisterStateView::Honeypot,
                    RegisterActionView::CheckHoneypot { honeypot: self.honeypot },
                ),
            },
            (RegisterStateView::Honeypot, RegisterEventView::Checked(reply)) => match reply {
                Err(error) => fail(error),
                Ok(_) => if self.password == self.password_verify {
                    (RegisterStateView::Admins, RegisterActionView::ReadAdmins)
                } else {
                    refuse(ErrorMessage::PasswordsDontMatch)
                },
            },
            (RegisterStateView::Admins, RegisterEventView::Admins(reply)) => match flat(reply) {
                Err(error) => fail(error),
                Ok(admins) => if admins > 0 && settings.captcha_enabled {
                    (
                        RegisterStateView::Captcha,
                        RegisterActionView::CheckCaptcha {
                            uuid: self.captcha_uuid.unwrap_or(Seq::empty()),
                            answer: self.captcha_answer.unwrap_or(Seq::empty()),
                        },
                    )
                } else {
                    (
                        RegisterStateView::Slurs { no_admins: admins == 0 },
                        RegisterActionView::CheckSlurs { text: self.username },
                    )
                },
            },
            (RegisterStateView::Captcha, RegisterEventView::Captcha(reply)) => match reply {
                Err(error) => fail(error),
                Ok(false) => refuse(ErrorMessage::CaptchaIncorrect),
                Ok(true) => (
                    RegisterStateView::Slurs { no_admins: false },
                    RegisterActionView::CheckSlurs { text: self.username },
                ),
            },
            (RegisterStateView::Slurs { no_admins }, RegisterEventView::Checked(reply)) =>
                match reply {
                Err(error) => fail(error),
                Ok(_) => (
                    RegisterStateView::ActorKeypair { no_admins },
                    RegisterActionView::GenerateActorKeypair,
                ),
            },
            (RegisterStateView::ActorKeypair { no_admins }, RegisterEventView::Keypair(reply)) =>
                match reply {
                Err(error) => fail(error),
                Ok(keypair) => (
                    RegisterStateView::ActorName {
                        no_admins,
                        form: self.person(no_admins, keypair),
                    },
                    RegisterActionView::ValidateActorName {
                        name: self.username,
                        max_length: settings.actor_name_max_length,
                    },
                ),
            },
            (
                RegisterStateView::ActorName { no_admins, form },
                RegisterEventView::ActorName(valid),
            ) => if valid {
                (
                    RegisterStateView::ActorId { no_admins, form },
                    RegisterActionView::GenerateLocalApubEndpoint {
                        endpoint_type: EndpointType::Person,
                        name: self.username,
                        protocol_and_hostname: settings.protocol_and_hostname,
                    },
                )
            } else {
                refuse(ErrorMessage::InvalidUsername)
            },
            (RegisterStateView::ActorId { no_admins, form }, RegisterEventView::Url(reply)) =>
                match reply {
                Err(error) => fail(error),
                Ok(actor_id) => (
                    RegisterStateView::Inbox {
                        no_admins,
                        actor_id,
                        form: PersonFormView { actor_id: Some(actor_id), ..form },
                    },
                    RegisterActionView::GenerateInboxUrl { actor_id },
                ),
            },
            (
                RegisterStateView::Inbox { no_admins, actor_id, form },
                RegisterEventView::Url(reply),
            ) => match reply {
                Err(error) => fail(error),
                Ok(inbox_url) => (
                    RegisterStateView::SharedInbox {
                        no_admins,
                        form: PersonFormView { inbox_url: Some(inbox_url), ..form },
                    },
                    RegisterActionView::GenerateSharedInboxUrl { actor_id },
                ),
            },
            (RegisterStateView::SharedInbox { no_admins, form }, RegisterEventView::Url(reply)) =>
                match reply {
                Err(error) => fail(error),
                Ok(shared_inbox_url) => (
                    RegisterStateView::Person { no_admins },
                    RegisterActionView::CreatePerson {
                        form: PersonFormView {
                            shared_inbox_url: Some(Some(shared_inbox_url)),
                            ..form
                        },
                    },
                ),
            },
            (RegisterStateView::Person { no_admins }, RegisterEventView::Person(reply)) =>
                match reply {
                Err(error) => fail(error),
                Ok(Err(error)) => finish(
                    Err(LemmyError::of_both(error, ErrorMessage::UserAlreadyExists)),
                ),
                Ok(Ok(person_id)) => (
                    RegisterStateView::LocalUser { no_admins, person_id },
                    RegisterActionView::RegisterLocalUser { form: self.local_user(person_id) },
                ),
            },
            // A person without an account is taken back.
            (
                RegisterStateView::LocalUser { no_admins, person_id },
                RegisterEventView::LocalUser(reply),
            ) => match reply {
                Err(error) => fail(error),
                Ok(Err((error, text))) => (
                    RegisterStateView::PersonDeletion {
                        error: LemmyError::of_both(
                            error,
                            if text == duplicate_email() {
                                ErrorMessage::EmailAlreadyExists
                            } else {
                                ErrorMessage::UserAlreadyExists
                            },
                        ),
                    },
                    RegisterActionView::DeletePerson { person_id },
                ),
                Ok(Ok(local_user_id)) => (
                    RegisterStateView::CommunityKeypair {
                        account: Account { no_admins, person_id, local_user_id },
                    },
                    RegisterActionView::GenerateActorKeypair,
                ),
            },
            (
                RegisterStateView::PersonDeletion { error },
                RegisterEventView::PersonDeleted(reply),
            ) => match flat(reply) {
                Err(failed) => fail(failed),
                Ok(_) => finish(Err(error)),
            },
            (RegisterStateView::CommunityKeypair { account }, RegisterEventView::Keypair(reply)) =>
                match reply {
                Err(error) => fail(error),
                Ok(keypair) => (
                    RegisterStateView::Community { account, keypair },
                    RegisterActionView::ReadCommunity {
                        community_id: CommunityId(MAIN_COMMUNITY_ID),
                    },
                ),
            },
            // The main community is made if it is not there.
            (
                RegisterStateView::Community { account, keypair },
                RegisterEventView::Community(reply),
            ) => match reply {
                Err(error) => fail(error),
                Ok(Ok(community_id)) => self.follow(account, community_id),
                Ok(Err(_)) => (
                    RegisterStateView::CommunityActorId { account, form: main_community(keypair) },
                    RegisterActionView::GenerateLocalApubEndpoint {
                        endpoint_type: EndpointType::Community,
                        name: "main"@,
                        protocol_and_hostname: settings.protocol_and_hostname,
                    },
                ),
            },
            (
                RegisterStateView::CommunityActorId { account, form },
                RegisterEventView::Url(reply),
            ) => match reply {
                Err(error) => fail(error),
                Ok(actor_id) => (
                    RegisterStateView::CommunityFollowers {
                        account,
                        actor_id,
                        form: CommunityFormView { actor_id: Some(actor_id), ..form },
                    },
                    RegisterActionView::GenerateFollowersUrl { actor_id },
                ),
            },
            (
                RegisterStateView::CommunityFollowers { account, actor_id, form },
                RegisterEventView::Url(reply),
            ) => match reply {
                Err(error) => fail(error),
                Ok(followers_url) => (
                    RegisterStateView::CommunityInbox {
                        account,
                        actor_id,
                        form: CommunityFormView { followers_url: Some(followers_url), ..form },
                    },
                    RegisterActionView::GenerateInboxUrl { actor_id },
                ),
            },
            (
                RegisterStateView::CommunityInbox { account, actor_id, form },
                RegisterEventView::Url(reply),
            ) => match reply {
                Err(error) => fail(error),
                Ok(inbox_url) => (
                    RegisterStateView::CommunitySharedInbox {
                        account,
                        form: CommunityFormView { inbox_url: Some(inbox_url), ..form },
                    },
                    RegisterActionView::GenerateSharedInboxUrl { actor_id },
                ),
            },
            (
                RegisterStateView::CommunitySharedInbox { account, form },
                RegisterEventView::Url(reply),
            ) => match reply {
                Err(error) => fail(error),
                Ok(shared_inbox_url) => (
                    RegisterStateView::NewCommunity { account },
                    RegisterActionView::CreateCommunity {
                        form: CommunityFormView {
                            shared_inbox_url: Some(Some(shared_inbox_url)),
                            ..form
                        },
                    },
                ),
            },
            (RegisterStateView::NewCommunity { account }, RegisterEventView::Community(reply)) =>
                match flat(reply) {
                Err(error) => fail(error),
                Ok(community_id) => self.follow(account, community_id),
            },
            // The admin that a server had not before also moderates the main community.
            (
                RegisterStateView::Follow { account, community_id },
                RegisterEventView::Joined(reply),
            ) => match reply {
                Err(error) => fail(error),
                Ok(Err(error)) => finish(
                    Err(LemmyError::of_both(error, ErrorMessage::CommunityFollowerAlreadyExists)),
                ),
                Ok(Ok(_)) => if account.no_admins {
                    (
                        RegisterStateView::Moderator { account },
                        RegisterActionView::JoinModerators {
                            form: CommunityModeratorForm {
                                community_id,
                                person_id: account.person_id,
                            },
                        },
                    )
                } else {
                    self.log_in(settings, account)
                },
            },
            (RegisterStateView::Moderator { account }, RegisterEventView::Joined(reply)) =>
                match reply {
                Err(error) => fail(error),
                Ok(Err(error)) => finish(
                    Err(LemmyError::of_both(error, ErrorMessage::CommunityModeratorAlreadyExists)),
                ),
                Ok(Ok(_)) => self.log_in(settings, account),
            },
            (RegisterStateView::Jwt, RegisterEventView::Jwt(reply)) => match reply {
                Err(error) => fail(error),
                Ok(jwt) => finish(Ok(jwt)),
            },
            _ => arbitrary(),
        }
    }
}

impl<E> RegisterState<E> {
    /// Whether `event` is a reply of the kind that the registration waits for.
    pub fn awaits(&self, event: &RegisterEvent<E>) -> (res: bool)
        ensures
            res == self@.awaits(event@),
    {
        match self {
            RegisterState::Site => matches!(event, RegisterEvent::Site(_)),
            RegisterState::PasswordLength | RegisterState::Honeypot | RegisterState::Slurs { .. } =>
                matches!(event, RegisterEvent::Checked(_)),
            RegisterState::Admins => matches!(event, RegisterEvent::Admins(_)),
            RegisterState::Captcha => matches!(event, RegisterEvent::Captcha(_)),
            RegisterState::ActorKeypair { .. } | RegisterState::CommunityKeypair { .. } =>
                matches!(event, RegisterEvent::Keypair(_)),
            RegisterState::ActorName { .. } => matches!(event, RegisterEvent::ActorName(_)),
            RegisterState::ActorId { .. } | RegisterState::Inbox { .. }
            | RegisterState::SharedInbox { .. } | RegisterState::CommunityActorId { .. }
            | RegisterState::CommunityFollowers { .. } | RegisterState::CommunityInbox { .. }
            | RegisterState::CommunitySharedInbox { .. } => matches!(event, RegisterEvent::Url(_)),
            RegisterState::Person { .. } => matches!(event, RegisterEvent::Person(_)),
            RegisterState::LocalUser { .. } => matches!(event, RegisterEvent::LocalUser(_)),
            RegisterState::PersonDeletion { .. } =>
                matches!(event, RegisterEvent::PersonDeleted(_)),
            RegisterState::Community { .. } | RegisterState::NewCommunity { .. } =>
                matches!(event, RegisterEvent::Community(_)),
            RegisterState::Follow { .. } | RegisterState::Moderator { .. } =>
                matches!(event, RegisterEvent::Joined(_)),
            RegisterState::Jwt => matches!(event, RegisterEvent::Jwt(_)),
            RegisterState::Finished => false,
        }
    }
}

/// Where a registration stands, and what the program has to do for it.
type Step<E> = (RegisterState<E>, RegisterAction<E>);

fn answer<E>(result: Result<LoginResponse, LemmyError<E>>) -> (res: Step<E>)
    ensures
        (res.0@, res.1@) == finish(
            match result {
                Ok(response) => Ok(response@),
                Err(error) => Err(error),
            },
        ),
{
    (RegisterState::Finished, RegisterAction::Finish { result })
}

fn failure<E>(error: E) -> (res: Step<E>)
    ensures
        (res.0@, res.1@) == fail(error),
{
    answer(Err(LemmyError::from_cause(error)))
}

fn refusal<E>(message: ErrorMessage) -> (res: Step<E>)
    ensures
        (res.0@, res.1@) == refuse::<E>(message),
{
    answer(Err(LemmyError::from_message(message)))
}

fn text_or_empty(text: &Option<String>) -> (res: String)
    ensures
        res@ == text.deep_view().unwrap_or(Seq::empty()),
{
    match text {
        Some(text) => text.clone(),
        None => String::new(),
    }
}

impl Register {
    /// The form of the new person, up to its addresses.
    fn person_form(&self, no_admins: bool, keypair: Keypair) -> (res: PersonForm)
        ensures
            res@ == self@.person(no_admins, keypair@),
    {
        PersonForm {
            name: self.username.clone(),
            private_key: Some(Some(keypair.private_key)),
            public_key: keypair.public_key,
            admin: Some(no_admins),
            ..PersonForm::default()
        }
    }

    /// The form of the new account.
    fn local_user_form(&self, person_id: PersonId) -> (res: LocalUserForm)
        ensures
            res@ == self@.local_user(person_id),
    {
        LocalUserForm {
            person_id,
            email: Some(self.email.clone()),
            password_encrypted: self.password.clone(),
            show_nsfw: Some(self.show_nsfw),
            show_bot_accounts: Some(true),
            theme: Some("browser".to_string()),
            default_sort_type: Some(SortType::Active),
            default_listing_type: Some(ListingType::Subscribed),
            lang: Some("browser".to_string()),
            show_avatars: Some(true),
            show_scores: Some(true),
            show_read_posts: Some(true),
            show_new_post_notifs: Some(false),
            send_notifications_to_email: Some(false),
        }
    }

    /// The form of the main community, up to its addresses.
    fn community_form(keypair: Keypair) -> (res: CommunityForm)
        ensures
            res@ == main_community(keypair@),
    {
        CommunityForm {
            name: "main".to_string(),
            title: "The Default Community".to_string(),
            description: Some("The Default Community".to_string()),
            actor_id: None,
            private_key: Some(Some(keypair.private_key)),
            public_key: keypair.public_key,
            followers_url: None,
            inbox_url: None,
            shared_inbox_url: None,
        }
    }

    fn check_slurs<E>(&self, no_admins: bool) -> (res: Step<E>)
        ensures
            res.0@ == (RegisterStateView::<E>::Slurs { no_admins }),
            res.1@ == (RegisterActionView::<E>::CheckSlurs { text: self@.username }),
    {
        (
            RegisterState::Slurs { no_admins },
            RegisterAction::CheckSlurs { text: self.username.clone() },
        )
    }

    fn follow_community<E>(&self, account: Account, community_id: CommunityId) -> (res: Step<E>)
        ensures
            (res.0@, res.1@) == self@.follow::<E>(account, community_id),
    {
        let form = CommunityFollowerForm {
            community_id,
            person_id: account.person_id,
            pending: false,
        };
        (
            RegisterState::Follow { account, community_id },
            RegisterAction::FollowCommunity { form },
        )
    }

    fn sign_jwt<E>(&self, settings: &RegisterSettings, account: Account) -> (res: Step<E>)
        ensures
            (res.0@, res.1@) == self@.log_in::<E>(settings@, account),
    {
        (
            RegisterState::Jwt,
            RegisterAction::SignJwt {
                local_user_id: account.local_user_id,
                secret: settings.jwt_secret.clone(),
                hostname: settings.hostname.clone(),
            },
        )
    }

    /// The first action of a registration.
    pub fn begin<E>(&self) -> (res: (RegisterState<E>, RegisterAction<E>))
        ensures
            (res.0@, res.1@) == self@.begin::<E>(),
    {
        (RegisterState::Site, RegisterAction::ReadSite)
    }

    /// The action that follows on the reply to the last one.
    pub fn next<E>(
        &self,
        settings: &RegisterSettings,
        state: RegisterState<E>,
        event: RegisterEvent<E>,
    ) -> (res: (RegisterState<E>, RegisterAction<E>))
        requires
            state@.awaits(event@),
        ensures
            (res.0@, res.1@) == self@.next(settings@, state@, event@),
    {
        match (state, event) {
            (RegisterState::Site, RegisterEvent::Site(reply)) => match reply {
                Err(error) => failure(error),
                Ok(Ok(false)) => refusal(ErrorMessage::RegistrationClosed),
                Ok(_) => (
                    RegisterState::PasswordLength,
                    RegisterAction::CheckPasswordLength { password: self.password.clone() },
                ),
            },
            (RegisterState::PasswordLength, RegisterEvent::Checked(reply)) => match reply {
                Err(error) => failure(error),
                Ok(_) => (
                    RegisterState::Honeypot,
                    RegisterAction::CheckHoneypot { honeypot: self.honeypot.clone() },
                ),
            },
            (RegisterState::Honeypot, RegisterEvent::Checked(reply)) => match reply {
                Err(error) => failure(error),
                Ok(_) => if self.password != self.password_verify {
                    refusal(ErrorMessage::PasswordsDontMatch)
                } else {
                    (RegisterState::Admins, RegisterAction::ReadAdmins)
                },
            },
            (RegisterState::Admins, RegisterEvent::Admins(reply)) => match flatten(reply) {
                Err(error) => failure(error),
                Ok(admins) => {
                    let no_admins = admins == 0;
                    if !no_admins && settings.captcha_enabled {
                        (
                            RegisterState::Captcha,
                            RegisterAction::CheckCaptcha {
                                uuid: text_or_empty(&self.captcha_uuid),
                                answer: text_or_empty(&self.captcha_answer),
                            },
                        )
                    } else {
                        self.check_slurs(no_admins)
                    }
                },
            },
            (RegisterState::Captcha, RegisterEvent::Captcha(reply)) => match reply {
                Err(error) => failure(error),
                Ok(correct) => if correct {
                    self.check_slurs(false)
                } else {
                    refusal(ErrorMessage::CaptchaIncorrect)
                },
            },
            (RegisterState::Slurs { no_admins }, RegisterEvent::Checked(reply)) => match reply {
                Err(error) => failure(error),
                Ok(_) => (
                    RegisterState::ActorKeypair { no_admins },
                    RegisterAction::GenerateActorKeypair,
                ),
            },
            (RegisterState::ActorKeypair { no_admins }, RegisterEvent::Keypair(reply)) =>
                match reply {
                Err(error) => failure(error),
                Ok(keypair) => (
                    RegisterState::ActorName {
                        no_admins,
                        form: self.person_form(no_admins, keypair),
                    },
                    RegisterAction::ValidateActorName {
                        name: self.username.clone(),
                        max_length: settings.actor_name_max_length,
                    },
                ),
            },
            (RegisterState::ActorName { no_admins, form }, RegisterEvent::ActorName(valid)) => if valid {
                (
                    RegisterState::ActorId { no_admins, form },
                    RegisterAction::GenerateLocalApubEndpoint {
                        endpoint_type: EndpointType::Person,
                        name: self.username.clone(),
                        protocol_and_hostname: settings.protocol_and_hostname.clone(),
                    },
                )
            } else {
                refusal(ErrorMessage::InvalidUsername)
            },
            (RegisterState::ActorId { no_admins, form }, RegisterEvent::Url(reply)) => match reply {
                Err(error) => failure(error),
                Ok(actor_id) => {
                    let form = PersonForm { actor_id: Some(actor_id.clone()), ..form };
                    (
                        RegisterState::Inbox { no_admins, actor_id: actor_id.clone(), form },
                        RegisterAction::GenerateInboxUrl { actor_id },
                    )
                },
            },
            (RegisterState::Inbox { no_admins, actor_id, form }, RegisterEvent::Url(reply)) =>
                match reply {
                Err(error) => failure(error),
                Ok(inbox_url) => {
                    let form = PersonForm { inbox_url: Some(inbox_url), ..form };
                    (
                        RegisterState::SharedInbox { no_admins, form },
                        RegisterAction::GenerateSharedInboxUrl { actor_id },
                    )
                },
            },
            (RegisterState::SharedInbox { no_admins, form }, RegisterEvent::Url(reply)) =>
                match reply {
                Err(error) => failure(error),
                Ok(shared_inbox_url) => {
                    let form = PersonForm {
                        shared_inbox_url: Some(Some(shared_inbox_url)),
                        ..form
                    };
                    (RegisterState::Person { no_admins }, RegisterAction::CreatePerson { form })
                },
            },
            (RegisterState::Person { no_admins }, RegisterEvent::Person(reply)) => match reply {
                Err(error) => failure(error),
                Ok(Err(error)) => answer(
                    Err(
                        LemmyError::from_cause(error).with_message(ErrorMessage::UserAlreadyExists),
                    ),
                ),
                Ok(Ok(person_id)) => (
                    RegisterState::LocalUser { no_admins, person_id },
                    RegisterAction::RegisterLocalUser { form: self.local_user_form(person_id) },
                ),
            },
            (RegisterState::LocalUser { no_admins, person_id }, RegisterEvent::LocalUser(reply)) =>
                match reply {
                Err(error) => failure(error),
                Ok(Err(query)) => {
                    let email_taken = query.text
                        == "duplicate key value violates unique constraint \"local_user_email_key\"".to_string();
                    let message = if email_taken {
                        ErrorMessage::EmailAlreadyExists
                    } else {
                        ErrorMessage::UserAlreadyExists
                    };
                    let error = LemmyError::from_cause(query.error).with_message(message);
                    (
                        RegisterState::PersonDeletion { error },
                        RegisterAction::DeletePerson { person_id },
                    )
                },
                Ok(Ok(local_user_id)) => (
                    RegisterState::CommunityKeypair {
                        account: Account { no_admins, person_id, local_user_id },
                    },
                    RegisterAction::GenerateActorKeypair,
                ),
            },
            (RegisterState::PersonDeletion { error }, RegisterEvent::PersonDeleted(reply)) =>
                match flatten(reply) {
                Err(failed) => failure(failed),
                Ok(_) => answer(Err(error)),
            },
            (RegisterState::CommunityKeypair { account }, RegisterEvent::Keypair(reply)) =>
                match reply {
                Err(error) => failure(error),
                Ok(keypair) => (
                    RegisterState::Community { account, keypair },
                    RegisterAction::ReadCommunity { community_id: CommunityId(MAIN_COMMUNITY_ID) },
                ),
            },
            (RegisterState::Community { account, keypair }, RegisterEvent::Community(reply)) =>
                match reply {
                Err(error) => failure(error),
                Ok(Ok(community_id)) => self.follow_community(account, community_id),
                Ok(Err(_)) => (
                    RegisterState::CommunityActorId {
                        account,
                        form: Self::community_form(keypair),
                    },
                    RegisterAction::GenerateLocalApubEndpoint {
                        endpoint_type: EndpointType::Community,
                        name: "main".to_string(),
                        protocol_and_hostname: settings.protocol_and_hostname.clone(),
                    },
                ),
            },
            (RegisterState::CommunityActorId { account, form }, RegisterEvent::Url(reply)) =>
                match reply {
                Err(error) => failure(error),
                Ok(actor_id) => {
                    let form = CommunityForm { actor_id: Some(actor_id.clone()), ..form };
                    (
                        RegisterState::CommunityFollowers {
                            account,
                            actor_id: actor_id.clone(),
                            form,
                        },
                        RegisterAction::GenerateFollowersUrl { actor_id },
                    )
                },
            },
            (
                RegisterState::CommunityFollowers { account, actor_id, form },
                RegisterEvent::Url(reply),
            ) => match reply {
                Err(error) => failure(error),
                Ok(followers_url) => {
                    let form = CommunityForm { followers_url: Some(followers_url), ..form };
                    (
                        RegisterState::CommunityInbox { account, actor_id: actor_id.clone(), form },
                        RegisterAction::GenerateInboxUrl { actor_id },
                    )
                },
            },
            (
                RegisterState::CommunityInbox { account, actor_id, form },
                RegisterEvent::Url(reply),
            ) => match reply {
                Err(error) => failure(error),
                Ok(inbox_url) => {
                    let form = CommunityForm { inbox_url: Some(inbox_url), ..form };
                    (
                        RegisterState::CommunitySharedInbox { account, form },
                        RegisterAction::GenerateSharedInboxUrl { actor_id },
                    )
                },
            },
            (RegisterState::CommunitySharedInbox { account, form }, RegisterEvent::Url(reply)) =>
                match reply {
                Err(error) => failure(error),
                Ok(shared_inbox_url) => {
                    let form = CommunityForm {
                        shared_inbox_url: Some(Some(shared_inbox_url)),
                        ..form
                    };
                    (
                        RegisterState::NewCommunity { account },
                        RegisterAction::CreateCommunity { form },
                    )
                },
            },
            (RegisterState::NewCommunity { account }, RegisterEvent::Community(reply)) =>
                match flatten(reply) {
                Err(error) => failure(error),
                Ok(community_id) => self.follow_community(account, community_id),
            },
            (RegisterState::Follow { account, community_id }, RegisterEvent::Joined(reply)) =>
                match reply {
                Err(error) => failure(error),
                Ok(Err(error)) => answer(
                    Err(
                        LemmyError::from_cause(error).with_message(
                            ErrorMessage::CommunityFollowerAlreadyExists,
                        ),
                    ),
                ),
                Ok(Ok(_)) => if account.no_admins {
                    let form = CommunityModeratorForm {
                        community_id,
                        person_id: account.person_id,
                    };
                    (RegisterState::Moderator { account }, RegisterAction::JoinModerators { form })
                } else {
                    self.sign_jwt(settings, account)
                },
            },
            (RegisterState::Moderator { account }, RegisterEvent::Joined(reply)) => match reply {
                Err(error) => failure(error),
                Ok(Err(error)) => answer(
                    Err(
                        LemmyError::from_cause(error).with_message(
                            ErrorMessage::CommunityModeratorAlreadyExists,
                        ),
                    ),
                ),
                Ok(Ok(_)) => self.sign_jwt(settings, account),
            },
            (RegisterState::Jwt, RegisterEvent::Jwt(reply)) => match reply {
                Err(error) => failure(error),
                Ok(jwt) => answer(Ok(LoginResponse { jwt })),
            },
            _ => vstd::pervasive::unreached(),
        }
    }
}

} // verus!
