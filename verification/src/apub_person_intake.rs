//! Taking in persons of other servers: checking the object that another server sent,
//! and storing what it says.

use vstd::prelude::*;

use crate::apub_person::{url_of, ApubPerson};
use crate::error::{flat, flatten, Blocking, LemmyError};
use crate::protocol::{Person, PersonView, Source, SourceView, UserTypes};
use crate::schema::{DbPerson, DbPersonView, PersonForm, PersonFormView};
use crate::time::{DateTime, NaiveDateTime};
use url::Url;

verus! {

// Checking an object.

/// Where the check of an object stands.
#[derive(Clone, Copy, Debug, PartialEq, Eq, Structural)]
pub enum VerifyPersonState {
    Domain,
    ApubId,
    UsernameSlurs,
    NameSlurs,
    Bio,
    BioSlurs,
    Finished,
}

/// What the program has to do next.
#[derive(Debug, PartialEq, Eq)]
pub enum VerifyPersonAction<E> {
    VerifyDomainsMatch { id: Url, expected_domain: Url },
    CheckIsApubIdValid { id: Url, use_strict_allowlist: bool },
    CheckSlurs { text: String },
    /// Check a text for slurs, if there is one.
    CheckSlursOpt { text: Option<String> },
    /// Find out which of the two texts is the biography.
    GetSummary { summary: Option<String>, source: Option<Source> },
    Finish { result: Result<(), LemmyError<E>> },
}

pub enum VerifyPersonActionView<E> {
    VerifyDomainsMatch { id: Url, expected_domain: Url },
    CheckIsApubIdValid { id: Url, use_strict_allowlist: bool },
    CheckSlurs { text: Seq<char> },
    CheckSlursOpt { text: Option<Seq<char>> },
    GetSummary { summary: Option<Seq<char>>, source: Option<SourceView> },
    Finish { result: Result<(), LemmyError<E>> },
}

impl<E> View for VerifyPersonAction<E> {
    type V = VerifyPersonActionView<E>;

    open spec fn view(&self) -> VerifyPersonActionView<E> {
        match *self {
            VerifyPersonAction::VerifyDomainsMatch { id, expected_domain } =>
                VerifyPersonActionView::VerifyDomainsMatch { id, expected_domain },
            VerifyPersonAction::CheckIsApubIdValid { id, use_strict_allowlist } =>
                VerifyPersonActionView::CheckIsApubIdValid { id, use_strict_allowlist },
            VerifyPersonAction::CheckSlurs { text } => VerifyPersonActionView::CheckSlurs {
                text: text@,
            },
            VerifyPersonAction::CheckSlursOpt { text } => VerifyPersonActionView::CheckSlursOpt {
                text: text.deep_view(),
            },
            VerifyPersonAction::GetSummary { summary, source } =>
                VerifyPersonActionView::GetSummary {
                summary: summary.deep_view(),
                source: source.deep_view(),
            },
            VerifyPersonAction::Finish { result } => VerifyPersonActionView::Finish { result },
        }
    }
}

/// What came of an action.
#[derive(Debug, PartialEq, Eq)]
pub enum VerifyPersonEvent<E> {
    /// Whether something passed a check.
    Checked(Result<(), E>),
    Summary(Option<String>),
}

pub enum VerifyPersonEventView<E> {
    Checked(Result<(), E>),
    Summary(Option<Seq<char>>),
}

impl<E> View for VerifyPersonEvent<E> {
    type V = VerifyPersonEventView<E>;

    open spec fn view(&self) -> VerifyPersonEventView<E> {
        match *self {
            VerifyPersonEvent::Checked(reply) => VerifyPersonEventView::Checked(reply),
            VerifyPersonEvent::Summary(bio) => VerifyPersonEventView::Summary(bio.deep_view()),
        }
    }
}

impl VerifyPersonState {
    /// Whether `event` is a reply of the kind that the check waits for.
    pub open spec fn expects<E>(self, event: VerifyPersonEventView<E>) -> bool {
        match self {
            VerifyPersonState::Bio => event is Summary,
            VerifyPersonState::Finished => false,
            _ => event is Checked,
        }
    }

    /// Whether `event` is a reply of the kind that the check waits for.
    pub fn awaits<E>(&self, event: &VerifyPersonEvent<E>) -> (res: bool)
        ensures
            res == self.expects(event@),
    {
        match self {
            VerifyPersonState::Bio => matches!(event, VerifyPersonEvent::Summary(_)),
            VerifyPersonState::Finished => false,
            _ => matches!(event, VerifyPersonEvent::Checked(_)),
        }
    }
}

/// How the check of an object begins: with whether it comes from the server that it was
/// asked from.
pub open spec fn begin_verify<E>(person: PersonView, expected_domain: Url) -> (
    VerifyPersonState,
    VerifyPersonActionView<E>,
) {
    (
        VerifyPersonState::Domain,
        VerifyPersonActionView::VerifyDomainsMatch { id: person.id, expected_domain },
    )
}

/// What is checked once a check has passed.
pub open spec fn next_check<E>(person: PersonView, state: VerifyPersonState) -> (
    VerifyPersonState,
    VerifyPersonActionView<E>,
) {
    match state {
        VerifyPersonState::Domain => (
            VerifyPersonState::ApubId,
            VerifyPersonActionView::CheckIsApubIdValid {
                id: person.id,
                use_strict_allowlist: false,
            },
        ),
        VerifyPersonState::ApubId => (
            VerifyPersonState::UsernameSlurs,
            VerifyPersonActionView::CheckSlurs { text: person.preferred_username },
        ),
        VerifyPersonState::UsernameSlurs => (
            VerifyPersonState::NameSlurs,
            VerifyPersonActionView::CheckSlursOpt { text: person.name },
        ),
        VerifyPersonState::NameSlurs => (
            VerifyPersonState::Bio,
            VerifyPersonActionView::GetSummary { summary: person.summary, source: person.source },
        ),
        _ => (
            VerifyPersonState::Finished,
            VerifyPersonActionView::Finish { result: Ok(()) },
        ),
    }
}

/// How the check of an object goes on after the reply that it waits for: the first check
/// that fails decides.
pub open spec fn next_verify<E>(
    person: PersonView,
    state: VerifyPersonState,
    event: VerifyPersonEventView<E>,
) -> (VerifyPersonState, VerifyPersonActionView<E>)
    recommends
        state.expects(event),
{
    match event {
        VerifyPersonEventView::Summary(bio) => (
            VerifyPersonState::BioSlurs,
            VerifyPersonActionView::CheckSlursOpt { text: bio },
        ),
        VerifyPersonEventView::Checked(Err(error)) => (
            VerifyPersonState::Finished,
            VerifyPersonActionView::Finish { result: Err(LemmyError::of_cause(error)) },
        ),
        VerifyPersonEventView::Checked(Ok(_)) => next_check(person, state),
    }
}

impl ApubPerson {
    /// The first action of the check of `person`, which is expected to come from the
    /// server at `expected_domain`.
    pub fn verify<E>(person: &Person, expected_domain: &Url) -> (res: (
        VerifyPersonState,
        VerifyPersonAction<E>,
    ))
        ensures
            (res.0, res.1@) == begin_verify::<E>(person@, *expected_domain),
    {
        (
            VerifyPersonState::Domain,
            VerifyPersonAction::VerifyDomainsMatch {
                id: person.id.clone(),
                expected_domain: expected_domain.clone(),
            },
        )
    }

    /// The action that follows on the reply to the last one.
    pub fn verify_next<E>(
        person: &Person,
        state: VerifyPersonState,
        event: VerifyPersonEvent<E>,
    ) -> (res: (VerifyPersonState, VerifyPersonAction<E>))
        requires
            state.expects(event@),
        ensures
            (res.0, res.1@) == next_verify(person@, state, event@),
    {
        match event {
            VerifyPersonEvent::Summary(bio) => (
                VerifyPersonState::BioSlurs,
                VerifyPersonAction::CheckSlursOpt { text: bio },
            ),
            VerifyPersonEvent::Checked(Err(error)) => (
                VerifyPersonState::Finished,
                VerifyPersonAction::Finish { result: Err(LemmyError::from_cause(error)) },
            ),
            VerifyPersonEvent::Checked(Ok(_)) => match state {
                VerifyPersonState::Domain => (
                    VerifyPersonState::ApubId,
                    VerifyPersonAction::CheckIsApubIdValid {
                        id: person.id.clone(),
                        use_strict_allowlist: false,
                    },
                ),
                VerifyPersonState::ApubId => (
                    VerifyPersonState::UsernameSlurs,
                    VerifyPersonAction::CheckSlurs { text: person.preferred_username.clone() },
                ),
                VerifyPersonState::UsernameSlurs => (
                    VerifyPersonState::NameSlurs,
                    VerifyPersonAction::CheckSlursOpt { text: person.name.clone() },
                ),
                VerifyPersonState::NameSlurs => (
                    VerifyPersonState::Bio,
                    VerifyPersonAction::GetSummary {
                        summary: person.summary.clone(),
                        source: Source::copy_of(&person.source),
                    },
                ),
                _ => (
                    VerifyPersonState::Finished,
                    VerifyPersonAction::Finish { result: Ok(()) },
                ),
            },
        }
    }
}

// Storing an object.

/// Where the storing of an object stands.
#[derive(Debug, PartialEq, Eq)]
pub enum FromApubState {
    Bio,
    Clock { bio: Option<String> },
    Upsert,
    Finished,
}

pub enum FromApubStateView {
    Bio,
    Clock { bio: Option<Seq<char>> },
    Upsert,
    Finished,
}

impl View for FromApubState {
    type V = FromApubStateView;

    open spec fn view(&self) -> FromApubStateView {
        match *self {
            FromApubState::Bio => FromApubStateView::Bio,
            FromApubState::Clock { bio } => FromApubStateView::Clock { bio: bio.deep_view() },
            FromApubState::Upsert => FromApubStateView::Upsert,
            FromApubState::Finished => FromApubStateView::Finished,
        }
    }
}

/// What the program has to do next.
#[derive(Debug, PartialEq, Eq)]
pub enum FromApubAction<E> {
    /// Find out which of the two texts is the biography.
    GetSummary { summary: Option<String>, source: Option<Source> },
    ReadClock,
    /// Store the person, or bring its row up to date.
    Upsert { form: PersonForm },
    Finish { result: Result<ApubPerson, LemmyError<E>> },
}

pub enum FromApubActionView<E> {
    GetSummary { summary: Option<Seq<char>>, source: Option<SourceView> },
    ReadClock,
    Upsert { form: PersonFormView },
    Finish { result: Result<DbPersonView, LemmyError<E>> },
}

impl<E> View for FromApubAction<E> {
    type V = FromApubActionView<E>;

    open spec fn view(&self) -> FromApubActionView<E> {
        match *self {
            FromApubAction::GetSummary { summary, source } => FromApubActionView::GetSummary {
                summary: summary.deep_view(),
                source: source.deep_view(),
            },
            FromApubAction::ReadClock => FromApubActionView::ReadClock,
            FromApubAction::Upsert { form } => FromApubActionView::Upsert { form: form@ },
            FromApubAction::Finish { result } => FromApubActionView::Finish {
                result: match result {
                    Ok(person) => Ok(person@),
                    Err(error) => Err(error),
                },
            },
        }
    }
}

/// What came of an action.
#[derive(Debug, PartialEq, Eq)]
pub enum FromApubEvent<E> {
    Summary(Option<String>),
    Clock(NaiveDateTime),
    Person(Blocking<DbPerson, E>),
}

pub enum FromApubEventView<E> {
    Summary(Option<Seq<char>>),
    Clock(NaiveDateTime),
    Person(Blocking<DbPersonView, E>),
}

impl<E> View for FromApubEvent<E> {
    type V = FromApubEventView<E>;

    open spec fn view(&self) -> FromApubEventView<E> {
        match *self {
            FromApubEvent::Summary(bio) => FromApubEventView::Summary(bio.deep_view()),
            FromApubEvent::Clock(now) => FromApubEventView::Clock(now),
            FromApubEvent::Person(reply) => FromApubEventView::Person(
                match reply {
                    Ok(Ok(person)) => Ok(Ok(person@)),
                    Ok(Err(error)) => Ok(Err(error)),
                    Err(error) => Err(error),
                },
            ),
        }
    }
}

impl FromApubStateView {
    /// Whether `event` is a reply of the kind that the flow waits for.
    pub open spec fn awaits<E>(self, event: FromApubEventView<E>) -> bool {
        match self {
            FromApubStateView::Bio => event is Summary,
            FromApubStateView::Clock { .. } => event is Clock,
            FromApubStateView::Upsert => event is Person,
            FromApubStateView::Finished => false,
        }
    }
}

/// What a clock at the offset of a point in time shows, if there is one.
pub open spec fn local_time(point: Option<DateTime>) -> Option<NaiveDateTime> {
    match point {
        Some(point) => Some(point.local()),
        None => None,
    }
}

/// What is stored of a person of another server: it is neither local nor an admin,
/// brings no private key, and has just been refreshed. Whether it is banned or
/// deleted here stays as it is.
pub open spec fn form_of(
    person: PersonView,
    bio: Option<Seq<char>>,
    now: NaiveDateTime,
) -> PersonFormView {
    PersonFormView {
        name: person.preferred_username,
        display_name: Some(person.name),
        banned: None,
        deleted: None,
        avatar: Some(person.icon),
        banner: Some(person.image),
        published: local_time(person.published),
        updated: local_time(person.updated),
        actor_id: Some(person.id),
        bio: Some(bio),
        local: Some(false),
        admin: Some(false),
        bot_account: Some(person.kind == UserTypes::Service),
        private_key: None,
        public_key: person.public_key.public_key_pem,
        last_refreshed_at: Some(now),
        inbox_url: Some(person.inbox),
        shared_inbox_url: Some(person.shared_inbox),
        matrix_user_id: Some(person.matrix_user_id),
    }
}

/// How the storing of an object begins.
pub open spec fn begin_from_apub<E>(person: PersonView) -> (
    FromApubStateView,
    FromApubActionView<E>,
) {
    (
        FromApubStateView::Bio,
        FromApubActionView::GetSummary { summary: person.summary, source: person.source },
    )
}

/// How the storing of an object goes on after the reply that it waits for.
pub open spec fn next_from_apub<E>(
    person: PersonView,
    state: FromApubStateView,
    event: FromApubEventView<E>,
) -> (FromApubStateView, FromApubActionView<E>)
    recommends
        state.awaits(event),
{
    match (state, event) {
        (FromApubStateView::Bio, FromApubEventView::Summary(bio)) => (
            FromApubStateView::Clock { bio },
            FromApubActionView::ReadClock,
        ),
        (FromApubStateView::Clock { bio }, FromApubEventView::Clock(now)) => (
            FromApubStateView::Upsert,
            FromApubActionView::Upsert { form: form_of(person, bio, now) },
        ),
        (FromApubStateView::Upsert, FromApubEventView::Person(reply)) => (
            FromApubStateView::Finished,
            FromApubActionView::Finish {
                result: match flat(reply) {
                    Ok(stored) => Ok(stored),
                    Err(error) => Err(LemmyError::of_cause(error)),
                },
            },
        ),
        _ => arbitrary(),
    }
}

/// What a clock at the offset of a point in time shows, if there is one.
fn naive_local_of(point: &Option<DateTime>) -> (res: Option<NaiveDateTime>)
    ensures
        res == local_time(*point),
{
    match point {
        Some(point) => Some(point.naive_local()),
        None => None,
    }
}

impl FromApubState {
    /// Whether `event` is a reply of the kind that the flow waits for.
    pub fn awaits<E>(&self, event: &FromApubEvent<E>) -> (res: bool)
        ensures
            res == self@.awaits(event@),
    {
        match self {
            FromApubState::Bio => matches!(event, FromApubEvent::Summary(_)),
            FromApubState::Clock { .. } => matches!(event, FromApubEvent::Clock(_)),
            FromApubState::Upsert => matches!(event, FromApubEvent::Person(_)),
            FromApubState::Finished => false,
        }
    }
}

impl ApubPerson {
    /// What is stored of a person of another server, given its biography and the time.
    pub fn person_form(person: &Person, bio: Option<String>, now: NaiveDateTime) -> (res:
        PersonForm)
        ensures
            res@ == form_of(person@, bio.deep_view(), now),
    {
        PersonForm {
            name: person.preferred_username.clone(),
            display_name: Some(person.name.clone()),
            banned: None,
            deleted: None,
            avatar: Some(url_of(&person.icon)),
            banner: Some(url_of(&person.image)),
            published: naive_local_of(&person.published),
            updated: naive_local_of(&person.updated),
            actor_id: Some(person.id.clone()),
            bio: Some(bio),
            local: Some(false),
            admin: Some(false),
            bot_account: Some(person.kind == UserTypes::Service),
            private_key: None,
            public_key: person.public_key.public_key_pem.clone(),
            last_refreshed_at: Some(now),
            inbox_url: Some(person.inbox.clone()),
            shared_inbox_url: Some(person.endpoints.shared_inbox.clone()),
            matrix_user_id: Some(person.matrix_user_id.clone()),
        }
    }

    /// The first action on the way to the row of `person`.
    pub fn from_apub<E>(person: &Person) -> (res: (FromApubState, FromApubAction<E>))
        ensures
            (res.0@, res.1@) == begin_from_apub::<E>(person@),
    {
        (
            FromApubState::Bio,
            FromApubAction::GetSummary {
                summary: person.summary.clone(),
                source: Source::copy_of(&person.source),
            },
        )
    }

    /// The action that follows on the reply to the last one.
    pub fn from_apub_next<E>(
        person: &Person,
        state: FromApubState,
        event: FromApubEvent<E>,
    ) -> (res: (FromApubState, FromApubAction<E>))
        requires
            state@.awaits(event@),
        ensures
            (res.0@, res.1@) == next_from_apub(person@, state@, event@),
    {
        match (state, event) {
            (FromApubState::Bio, FromApubEvent::Summary(bio)) => (
                FromApubState::Clock { bio },
                FromApubAction::ReadClock,
            ),
            (FromApubState::Clock { bio }, FromApubEvent::Clock(now)) => (
                FromApubState::Upsert,
                FromApubAction::Upsert { form: Self::person_form(person, bio, now) },
            ),
            (FromApubState::Upsert, FromApubEvent::Person(reply)) => {
                let result = match flatten(reply) {
                    Ok(stored) => Ok(ApubPerson::from(stored)),
                    Err(error) => Err(LemmyError::from_cause(error)),
                };
                (FromApubState::Finished, FromApubAction::Finish { result })
            },
            _ => vstd::pervasive::unreached(),
        }
    }
}

} // verus!
