//! Objects of the ActivityPub protocol, as they go from server to server.

use vstd::prelude::*;

use crate::time::DateTime;
use url::Url;

verus! {

/// What kind of actor a person is: a human, or a bot.
#[derive(Clone, Copy, Debug, PartialEq, Eq, Structural)]
pub enum UserTypes {
    Person,
    Service,
}

#[derive(Clone, Copy, Debug, PartialEq, Eq, Structural)]
pub enum MediaTypeMarkdown {
    Markdown,
}

/// The text that a rendered text was made from.
#[derive(Clone, Debug, PartialEq, Eq)]
pub struct Source {
    pub content: String,
    pub media_type: MediaTypeMarkdown,
}

pub struct SourceView {
    pub content: Seq<char>,
    pub media_type: MediaTypeMarkdown,
}

impl View for Source {
    type V = SourceView;

    open spec fn view(&self) -> SourceView {
        SourceView { content: self.content@, media_type: self.media_type }
    }
}

impl DeepView for Source {
    type V = SourceView;

    open spec fn deep_view(&self) -> SourceView {
        self.view()
    }
}

impl Source {
    /// A copy of a source, if there is one.
    pub fn copy_of(source: &Option<Source>) -> (res: Option<Source>)
        ensures
            res.deep_view() == source.deep_view(),
    {
        match source {
            Some(source) => Some(
                Source { content: source.content.clone(), media_type: source.media_type },
            ),
            None => None,
        }
    }
}

/// A picture on the web.
#[derive(Clone, Debug, PartialEq, Eq)]
pub struct ImageObject {
    pub url: Url,
}

impl ImageObject {
    pub fn new(url: Url) -> (res: Self)
        ensures
            res.url == url,
    {
        ImageObject { url }
    }
}

/// Where a whole server takes activities.
#[derive(Clone, Debug, PartialEq, Eq)]
pub struct Endpoints {
    pub shared_inbox: Option<Url>,
}

/// The key that the signatures of an actor are checked with.
#[derive(Clone, Debug, PartialEq, Eq)]
pub struct PublicKey {
    pub id: String,
    pub owner: Url,
    pub public_key_pem: String,
}

pub struct PublicKeyView {
    pub id: Seq<char>,
    pub owner: Url,
    pub public_key_pem: Seq<char>,
}

impl View for PublicKey {
    type V = PublicKeyView;

    open spec fn view(&self) -> PublicKeyView {
        PublicKeyView {
            id: self.id@,
            owner: self.owner,
            public_key_pem: self.public_key_pem@,
        }
    }
}

/// A person as other servers see it. `unparsed` holds the members that the library
/// has no field for, each with its text.
#[derive(Clone, Debug, PartialEq, Eq)]
pub struct Person {
    pub kind: UserTypes,
    pub id: Url,
    pub preferred_username: String,
    pub name: Option<String>,
    pub summary: Option<String>,
    pub source: Option<Source>,
    pub icon: Option<ImageObject>,
    pub image: Option<ImageObject>,
    pub matrix_user_id: Option<String>,
    pub published: Option<DateTime>,
    pub outbox: Url,
    pub endpoints: Endpoints,
    pub public_key: PublicKey,
    pub updated: Option<DateTime>,
    pub unparsed: Vec<(String, String)>,
    pub inbox: Url,
}

pub struct PersonView {
    pub kind: UserTypes,
    pub id: Url,
    pub preferred_username: Seq<char>,
    pub name: Option<Seq<char>>,
    pub summary: Option<Seq<char>>,
    pub source: Option<SourceView>,
    pub icon: Option<Url>,
    pub image: Option<Url>,
    pub matrix_user_id: Option<Seq<char>>,
    pub published: Option<DateTime>,
    pub outbox: Url,
    pub shared_inbox: Option<Url>,
    pub public_key: PublicKeyView,
    pub updated: Option<DateTime>,
    pub unparsed: Seq<(Seq<char>, Seq<char>)>,
    pub inbox: Url,
}

/// The address of a picture, if there is one.
pub open spec fn image_url(image: Option<ImageObject>) -> Option<Url> {
    match image {
        Some(image) => Some(image.url),
        None => None,
    }
}

impl View for Person {
    type V = PersonView;

    open spec fn view(&self) -> PersonView {
        PersonView {
            kind: self.kind,
            id: self.id,
            preferred_username: self.preferred_username@,
            name: self.name.deep_view(),
            summary: self.summary.deep_view(),
            source: self.source.deep_view(),
            icon: image_url(self.icon),
            image: image_url(self.image),
            matrix_user_id: self.matrix_user_id.deep_view(),
            published: self.published,
            outbox: self.outbox,
            shared_inbox: self.endpoints.shared_inbox,
            public_key: self.public_key@,
            updated: self.updated,
            unparsed: self.unparsed.deep_view(),
            inbox: self.inbox,
        }
    }
}

} // verus!
