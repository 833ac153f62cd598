//! Persons between the database and the protocol.
//!
//! The flow that turns a row into an object begins with the first action that the
//! program has to perform and goes on with its reply, until the action is `Finish`.

use vstd::prelude::*;

use crate::error::{flat, flatten, Blocking, LemmyError};
use crate::protocol::{
    Endpoints, ImageObject, MediaTypeMarkdown, Person, PersonView, PublicKey, PublicKeyView,
    Source, SourceView, UserTypes,
};
use crate::schema::{DbPerson, DbPersonView, PersonId};
use crate::time::{DateTime, NaiveDateTime};
use std::ops::Deref;
use url::Url;

verus! {

/// A person of the database that takes part in the protocol.
#[derive(Clone, Debug, PartialEq, Eq)]
pub struct ApubPerson(pub DbPerson);

impl View for ApubPerson {
    type V = DbPersonView;

    open spec fn view(&self) -> DbPersonView {
        self.0@
    }
}

impl Deref for ApubPerson {
    type Target = DbPerson;

    fn deref(&self) -> (res: &DbPerson)
        ensures
            *res == self.0,
    {
        &self.0
    }
}

impl From<DbPerson> for ApubPerson {
    fn from(p: DbPerson) -> (res: Self) {
        ApubPerson(p)
    }
}

impl vstd::std_specs::convert::FromSpecImpl<DbPerson> for ApubPerson {
    open spec fn obeys_from_spec() -> bool {
        true
    }

    open spec fn from_spec(p: DbPerson) -> Self {
        ApubPerson(p)
    }
}

/// A call to the table of persons.
#[derive(Debug, PartialEq, Eq)]
pub enum PersonQuery {
    ReadFromApubId { object_id: Url },
    UpdateDeleted { person_id: PersonId, deleted: bool },
}

/// The address in a picture, if there is one.
pub(crate) fn url_of(image: &Option<ImageObject>) -> (res: Option<Url>)
    ensures
        res == crate::protocol::image_url(*image),
{
    match image {
        Some(image) => Some(image.url.clone()),
        None => None,
    }
}

/// The picture at an address, if there is one.
fn image_at(url: &Option<Url>) -> (res: Option<ImageObject>)
    ensures
        crate::protocol::image_url(res) == *url,
{
    match url {
        Some(url) => Some(ImageObject::new(url.clone())),
        None => None,
    }
}

impl ApubPerson {
    /// When the row was last brought up to date with the person's own server.
    pub fn last_refreshed_at(&self) -> (res: Option<NaiveDateTime>)
        ensures
            res == Some(self@.last_refreshed_at),
    {
        Some(self.0.last_refreshed_at)
    }

    /// The query for the person with the address `object_id`.
    pub fn read_from_apub_id(object_id: Url) -> (res: PersonQuery)
        ensures
            res == (PersonQuery::ReadFromApubId { object_id }),
    {
        PersonQuery::ReadFromApubId { object_id }
    }

    /// The person that the query found, if it found one.
    pub fn found<E>(reply: Blocking<Option<DbPerson>, E>) -> (res: Result<
        Option<ApubPerson>,
        LemmyError<E>,
    >)
        ensures
            res == match flat(reply) {
                Err(error) => Err(LemmyError::of_cause(error)),
                Ok(None) => Ok(None),
                Ok(Some(person)) => Ok(Some(ApubPerson(person))),
            },
    {
        match flatten(reply) {
            Err(error) => Err(LemmyError::from_cause(error)),
            Ok(None) => Ok(None),
            Ok(Some(person)) => Ok(Some(ApubPerson::from(person))),
        }
    }

    /// The query that marks the person as deleted.
    pub fn delete(self) -> (res: PersonQuery)
        ensures
            res == (PersonQuery::UpdateDeleted { person_id: self@.id, deleted: true }),
    {
        PersonQuery::UpdateDeleted { person_id: self.0.id, deleted: true }
    }

    /// Whether the person was marked as deleted.
    pub fn deleted<E>(reply: Blocking<(), E>) -> (res: Result<(), LemmyError<E>>)
        ensures
            res is Ok <==> flat(reply) is Ok,
            flat(reply) matches Err(error) ==> res == Err::<(), _>(LemmyError::of_cause(error)),
    {
        match flatten(reply) {
            Err(error) => Err(LemmyError::from_cause(error)),
            Ok(_) => Ok(()),
        }
    }

    /// The address of the person.
    pub fn actor_id(&self) -> (res: Url)
        ensures
            res == self@.actor_id,
    {
        self.0.actor_id.clone()
    }

    /// The key that the person's signatures are checked with.
    pub fn public_key(&self) -> (res: String)
        ensures
            res@ == self@.public_key,
    {
        self.0.public_key.clone()
    }

    /// The key that the person signs with; only persons of this server have one.
    pub fn private_key(&self) -> (res: Option<String>)
        ensures
            res.deep_view() == self@.private_key,
    {
        self.0.private_key.clone()
    }

    /// Where the person takes activities.
    pub fn inbox_url(&self) -> (res: Url)
        ensures
            res == self@.inbox_url,
    {
        self.0.inbox_url.clone()
    }

    /// Where the person's whole server takes activities.
    pub fn shared_inbox_url(&self) -> (res: Option<Url>)
        ensures
            res == self@.shared_inbox_url,
    {
        self.0.shared_inbox_url.clone()
    }
}

// From a row to an object.

/// Where the making of an object stands.
#[derive(Debug, PartialEq, Eq)]
pub enum IntoApubState {
    Summary,
    Published { summary: Option<String> },
    Outbox { summary: Option<String>, published: DateTime },
    PublicKey { summary: Option<String>, published: DateTime, outbox: Url },
    Updated {
        summary: Option<String>,
        published: DateTime,
        outbox: Url,
        public_key: PublicKey,
    },
    Finished,
}

pub enum IntoApubStateView {
    Summary,
    Published { summary: Option<Seq<char>> },
    Outbox { summary: Option<Seq<char>>, published: DateTime },
    PublicKey { summary: Option<Seq<char>>, published: DateTime, outbox: Url },
    Updated {
        summary: Option<Seq<char>>,
        published: DateTime,
        outbox: Url,
        public_key: PublicKeyView,
    },
    Finished,
}

impl View for IntoApubState {
    type V = IntoApubStateView;

    open spec fn view(&self) -> IntoApubStateView {
        match *self {
            IntoApubState::Summary => IntoApubStateView::Summary,
            IntoApubState::Published { summary } => IntoApubStateView::Published {
                summary: summary.deep_view(),
            },
            IntoApubState::Outbox { summary, published } => IntoApubStateView::Outbox {
                summary: summary.deep_view(),
                published,
            },
            IntoApubState::PublicKey { summary, published, outbox } =>
                IntoApubStateView::PublicKey { summary: summary.deep_view(), published, outbox },
            IntoApubState::Updated { summary, published, outbox, public_key } =>
                IntoApubStateView::Updated {
                summary: summary.deep_view(),
                published,
                outbox,
                public_key: public_key@,
            },
            IntoApubState::Finished => IntoApubStateView::Finished,
        }
    }
}

/// What the program has to do next.
#[derive(Debug, PartialEq, Eq)]
pub enum IntoApubAction<E> {
    RenderMarkdown { text: String },
    /// Write a time of the database as a point in time.
    ConvertDateTime { naive: NaiveDateTime },
    GenerateOutboxUrl { actor_id: Url },
    /// Make the object of the public key of the person at an address.
    GetPublicKey { actor_id: Url, public_key: String },
    Finish { result: Result<Person, LemmyError<E>> },
}

pub enum IntoApubActionView<E> {
    RenderMarkdown { text: Seq<char> },
    ConvertDateTime { naive: NaiveDateTime },
    GenerateOutboxUrl { actor_id: Url },
    GetPublicKey { actor_id: Url, public_key: Seq<char> },
    Finish { result: Result<PersonView, LemmyError<E>> },
}

impl<E> View for IntoApubAction<E> {
    type V = IntoApubActionView<E>;

    open spec fn view(&self) -> IntoApubActionView<E> {
        match *self {
            IntoApubAction::RenderMarkdown { text } => IntoApubActionView::RenderMarkdown {
                text: text@,
            },
            IntoApubAction::ConvertDateTime { naive } => IntoApubActionView::ConvertDateTime {
                naive,
            },
            IntoApubAction::GenerateOutboxUrl { actor_id } =>
                IntoApubActionView::GenerateOutboxUrl { actor_id },
            IntoApubAction::GetPublicKey { actor_id, public_key } =>
                IntoApubActionView::GetPublicKey { actor_id, public_key: public_key@ },
            IntoApubAction::Finish { result } => IntoApubActionView::Finish {
                result: match result {
                    Ok(person) => Ok(person@),
                    Err(error) => Err(error),
                },
            },
        }
    }
}

/// What came of an action.
#[derive(Debug, PartialEq, Eq)]
pub enum IntoApubEvent<E> {
    Html(String),
    DateTime(DateTime),
    Url(Result<Url, E>),
    PublicKey(Result<PublicKey, E>),
}

pub enum IntoApubEventView<E> {
    Html(Seq<char>),
    DateTime(DateTime),
    Url(Result<Url, E>),
    PublicKey(Result<PublicKeyView, E>),
}

impl<E> View for IntoApubEvent<E> {
    type V = IntoApubEventView<E>;

    open spec fn view(&self) -> IntoApubEventView<E> {
        match *self {
            IntoApubEvent::Html(html) => IntoApubEventView::Html(html@),
            IntoApubEvent::DateTime(point) => IntoApubEventView::DateTime(point),
            IntoApubEvent::Url(reply) => IntoApubEventView::Url(reply),
            IntoApubEvent::PublicKey(reply) => IntoApubEventView::PublicKey(
                match reply {
                    Ok(key) => Ok(key@),
                    Err(error) => Err(error),
                },
            ),
        }
    }
}

impl IntoApubStateView {
    /// Whether `event` is a reply of the kind that the flow waits for.
    pub open spec fn awaits<E>(self, event: IntoApubEventView<E>) -> bool {
        match self {
            IntoApubStateView::Summary => event is Html,
            IntoApubStateView::Published { .. } => event is DateTime,
            IntoApubStateView::Outbox { .. } => event is Url,
            IntoApubStateView::PublicKey { .. } => event is PublicKey,
            IntoApubStateView::Updated { .. } => event is DateTime,
            IntoApubStateView::Finished => false,
        }
    }
}

/// What other servers are told of a person: `summary` is the rendered biography,
/// `published` and `updated` are the times of the row as points in time.
pub open spec fn document(
    person: DbPersonView,
    summary: Option<Seq<char>>,
    published: DateTime,
    outbox: Url,
    public_key: PublicKeyView,
    updated: Option<DateTime>,
) -> PersonView {
    PersonView {
        kind: if person.bot_account {
            UserTypes::Service
        } else {
            UserTypes::Person
        },
        id: person.actor_id,
        preferred_username: person.name,
        name: person.display_name,
        summary,
        source: match person.bio {
            Some(bio) => Some(
                SourceView { content: bio, media_type: MediaTypeMarkdown::Markdown },
            ),
            None => None,
        },
        icon: person.avatar,
        image: person.banner,
        matrix_user_id: person.matrix_user_id,
        published: Some(published),
        outbox,
        shared_inbox: person.shared_inbox_url,
        public_key,
        updated,
        unparsed: Seq::empty(),
        inbox: person.inbox_url,
    }
}

/// How the making of an object begins. Without a biography there is nothing to render.
pub open spec fn begin_into_apub<E>(person: DbPersonView) -> (
    IntoApubStateView,
    IntoApubActionView<E>,
) {
    match person.bio {
        Some(bio) => (
            IntoApubStateView::Summary,
            IntoApubActionView::RenderMarkdown { text: bio },
        ),
        None => (
            IntoApubStateView::Published { summary: None },
            IntoApubActionView::ConvertDateTime { naive: person.published },
        ),
    }
}

/// How the making of an object goes on after the reply that it waits for.
pub open spec fn next_into_apub<E>(
    person: DbPersonView,
    state: IntoApubStateView,
    event: IntoApubEventView<E>,
) -> (IntoApubStateView, IntoApubActionView<E>)
    recommends
        state.awaits(event),
{
    match (state, event) {
        (IntoApubStateView::Summary, IntoApubEventView::Html(html)) => (
            IntoApubStateView::Published { summary: Some(html) },
            IntoApubActionView::ConvertDateTime { naive: person.published },
        ),
        (IntoApubStateView::Published { summary }, IntoApubEventView::DateTime(published)) => (
            IntoApubStateView::Outbox { summary, published },
            IntoApubActionView::GenerateOutboxUrl { actor_id: person.actor_id },
        ),
        (IntoApubStateView::Outbox { summary, published }, IntoApubEventView::Url(reply)) =>
            match reply {
            Err(error) => (
                IntoApubStateView::Finished,
                IntoApubActionView::Finish { result: Err(LemmyError::of_cause(error)) },
            ),
            Ok(outbox) => (
                IntoApubStateView::PublicKey { summary, published, outbox },
                IntoApubActionView::GetPublicKey {
                    actor_id: person.actor_id,
                    public_key: person.public_key,
                },
            ),
        },
        (
            IntoApubStateView::PublicKey { summary, published, outbox },
            IntoApubEventView::PublicKey(reply),
        ) => match reply {
            Err(error) => (
                IntoApubStateView::Finished,
                IntoApubActionView::Finish { result: Err(LemmyError::of_cause(error)) },
            ),
            Ok(public_key) => match person.updated {
                Some(naive) => (
                    IntoApubStateView::Updated { summary, published, outbox, public_key },
                    IntoApubActionView::ConvertDateTime { naive },
                ),
                None => (
                    IntoApubStateView::Finished,
                    IntoApubActionView::Finish {
                        result: Ok(document(person, summary, published, outbox, public_key, None)),
                    },
                ),
            },
        },
        (
            IntoApubStateView::Updated { summary, published, outbox, public_key },
            IntoApubEventView::DateTime(updated),
        ) => (
            IntoApubStateView::Finished,
            IntoApubActionView::Finish {
                result: Ok(
                    document(person, summary, published, outbox, public_key, Some(updated)),
                ),
            },
        ),
        _ => arbitrary(),
    }
}

impl IntoApubState {
    /// Whether `event` is a reply of the kind that the flow waits for.
    pub fn awaits<E>(&self, event: &IntoApubEvent<E>) -> (res: bool)
        ensures
            res == self@.awaits(event@),
    {
        match self {
            IntoApubState::Summary => matches!(event, IntoApubEvent::Html(_)),
            IntoApubState::Published { .. } | IntoApubState::Updated { .. } =>
                matches!(event, IntoApubEvent::DateTime(_)),
            IntoApubState::Outbox { .. } => matches!(event, IntoApubEvent::Url(_)),
            IntoApubState::PublicKey { .. } => matches!(event, IntoApubEvent::PublicKey(_)),
            IntoApubState::Finished => false,
        }
    }
}

impl ApubPerson {
    fn make_document(
        &self,
        summary: Option<String>,
        published: DateTime,
        outbox: Url,
        public_key: PublicKey,
        updated: Option<DateTime>,
    ) -> (res: Person)
        ensures
            res@ == document(
                self@,
                summary.deep_view(),
                published,
                outbox,
                public_key@,
                updated,
            ),
    {
        let person = &self.0;
        let kind = if person.bot_account {
            UserTypes::Service
        } else {
            UserTypes::Person
        };
        let source = match &person.bio {
            Some(bio) => Some(
                Source { content: bio.clone(), media_type: MediaTypeMarkdown::Markdown },
            ),
            None => None,
        };
        let unparsed: Vec<(String, String)> = Vec::new();
        assert(unparsed.deep_view() =~= Seq::empty());
        Person {
            kind,
            id: person.actor_id.clone(),
            preferred_username: person.name.clone(),
            name: person.display_name.clone(),
            summary,
            source,
            icon: image_at(&person.avatar),
            image: image_at(&person.banner),
            matrix_user_id: person.matrix_user_id.clone(),
            published: Some(published),
            outbox,
            endpoints: Endpoints { shared_inbox: person.shared_inbox_url.clone() },
            public_key,
            updated,
            unparsed,
            inbox: person.inbox_url.clone(),
        }
    }

    /// The first action on the way to the object of the person.
    pub fn into_apub<E>(&self) -> (res: (IntoApubState, IntoApubAction<E>))
        ensures
            (res.0@, res.1@) == begin_into_apub::<E>(self@),
    {
        match &self.0.bio {
            Some(bio) => (
                IntoApubState::Summary,
                IntoApubAction::RenderMarkdown { text: bio.clone() },
            ),
            None => (
                IntoApubState::Published { summary: None },
                IntoApubAction::ConvertDateTime { naive: self.0.published },
            ),
        }
    }

    /// The action that follows on the reply to the last one.
    pub fn into_apub_next<E>(
        &self,
        state: IntoApubState,
        event: IntoApubEvent<E>,
    ) -> (res: (IntoApubState, IntoApubAction<E>))
        requires
            state@.awaits(event@),
        ensures
            (res.0@, res.1@) == next_into_apub(self@, state@, event@),
    {
        match (state, event) {
            (IntoApubState::Summary, IntoApubEvent::Html(html)) => (
                IntoApubState::Published { summary: Some(html) },
                IntoApubAction::ConvertDateTime { naive: self.0.published },
            ),
            (IntoApubState::Published { summary }, IntoApubEvent::DateTime(published)) => (
                IntoApubState::Outbox { summary, published },
                IntoApubAction::GenerateOutboxUrl { actor_id: self.0.actor_id.clone() },
            ),
            (IntoApubState::Outbox { summary, published }, IntoApubEvent::Url(reply)) =>
                match reply {
                Err(error) => (
                    IntoApubState::Finished,
                    IntoApubAction::Finish { result: Err(LemmyError::from_cause(error)) },
                ),
                Ok(outbox) => (
                    IntoApubState::PublicKey { summary, published, outbox },
                    IntoApubAction::GetPublicKey {
                        actor_id: self.actor_id(),
                        public_key: self.public_key(),
                    },
                ),
            },
            (
                IntoApubState::PublicKey { summary, published, outbox },
                IntoApubEvent::PublicKey(reply),
            ) => match reply {
                Err(error) => (
                    IntoApubState::Finished,
                    IntoApubAction::Finish { result: Err(LemmyError::from_cause(error)) },
                ),
                Ok(public_key) => match self.0.updated {
                    Some(naive) => (
                        IntoApubState::Updated { summary, published, outbox, public_key },
                        IntoApubAction::ConvertDateTime { naive },
                    ),
                    None => {
                        let person = self.make_document(
                            summary,
                            published,
                            outbox,
                            public_key,
                            None,
                        );
                        (IntoApubState::Finished, IntoApubAction::Finish { result: Ok(person) })
                    },
                },
            },
            (
                IntoApubState::Updated { summary, published, outbox, public_key },
                IntoApubEvent::DateTime(updated),
            ) => {
                let person = self.make_document(
                    summary,
                    published,
                    outbox,
                    public_key,
                    Some(updated),
                );
                (IntoApubState::Finished, IntoApubAction::Finish { result: Ok(person) })
            },
            _ => vstd::pervasive::unreached(),
        }
    }
}

} // verus!
