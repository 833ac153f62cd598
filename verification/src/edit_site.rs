//! Changing the site: its name, its texts and pictures, and what it allows.
//!
//! The flow has the form of the registration: `EditSite::begin` gives the first
//! action, `EditSite::next` the one after each reply.

use vstd::prelude::*;

use crate::error::{flat, flatten, Blocking, ErrorMessage, LemmyError};
use crate::schema::{Site, SiteForm, SiteFormView, SiteRowView};
use crate::time::NaiveDateTime;
use url::Url;

verus! {

/// The id of the only row of the site.
pub const SITE_ID: i32 = 1;

/// What an admin sends to change the site. What is `None` stays as it is.
#[derive(Clone, Debug, PartialEq, Eq)]
pub struct EditSite {
    pub name: Option<String>,
    pub sidebar: Option<String>,
    pub description: Option<String>,
    pub icon: Option<String>,
    pub banner: Option<String>,
    pub enable_downvotes: Option<bool>,
    pub open_registration: Option<bool>,
    pub enable_nsfw: Option<bool>,
    pub community_creation_admin_only: Option<bool>,
    pub auth: String,
}

pub struct EditSiteView {
    pub name: Option<Seq<char>>,
    pub sidebar: Option<Seq<char>>,
    pub description: Option<Seq<char>>,
    pub icon: Option<Seq<char>>,
    pub banner: Option<Seq<char>>,
    pub enable_downvotes: Option<bool>,
    pub open_registration: Option<bool>,
    pub enable_nsfw: Option<bool>,
    pub community_creation_admin_only: Option<bool>,
    pub auth: Seq<char>,
}

impl View for EditSite {
    type V = EditSiteView;

    open spec fn view(&self) -> EditSiteView {
        EditSiteView {
            name: self.name.deep_view(),
            sidebar: self.sidebar.deep_view(),
            description: self.description.deep_view(),
            icon: self.icon.deep_view(),
            banner: self.banner.deep_view(),
            enable_downvotes: self.enable_downvotes,
            open_registration: self.open_registration,
            enable_nsfw: self.enable_nsfw,
            community_creation_admin_only: self.community_creation_admin_only,
            auth: self.auth@,
        }
    }
}

/// The site as its visitors see it. `W` is the program's type for that.
#[derive(Clone, Debug, PartialEq, Eq)]
pub struct SiteResponse<W> {
    pub site_view: W,
}

/// What a message to all clients is about.
#[derive(Clone, Copy, Debug, PartialEq, Eq, Structural)]
pub enum UserOperationCrud {
    EditSite,
}

/// A message to all clients, and the connection that caused it, if there is one.
#[derive(Clone, Debug, PartialEq, Eq)]
pub struct SendAllMessage<W> {
    pub op: UserOperationCrud,
    pub response: SiteResponse<W>,
    pub websocket_id: Option<usize>,
}

/// Where an edit stands: the reply that it waits for, and what it will need of the
/// earlier ones. `U` is the program's type for a logged-in user.
#[derive(Debug, PartialEq, Eq)]
pub enum EditSiteState<U> {
    LocalUser,
    NameSlurs { user: U },
    DescriptionSlurs { user: U },
    Admin,
    Site,
    Sidebar { form: SiteForm },
    Description { form: SiteForm },
    Icon { form: SiteForm },
    Banner { form: SiteForm },
    DescriptionLength { form: SiteForm },
    Clock { form: SiteForm },
    Update,
    SiteView,
    Finished,
}

pub enum EditSiteStateView<U> {
    LocalUser,
    NameSlurs { user: U },
    DescriptionSlurs { user: U },
    Admin,
    Site,
    Sidebar { form: SiteFormView },
    Description { form: SiteFormView },
    Icon { form: SiteFormView },
    Banner { form: SiteFormView },
    DescriptionLength { form: SiteFormView },
    Clock { form: SiteFormView },
    Update,
    SiteView,
    Finished,
}

impl<U> View for EditSiteState<U> {
    type V = EditSiteStateView<U>;

    open spec fn view(&self) -> EditSiteStateView<U> {
        match *self {
            EditSiteState::LocalUser => EditSiteStateView::LocalUser,
            EditSiteState::NameSlurs { user } => EditSiteStateView::NameSlurs { user },
            EditSiteState::DescriptionSlurs { user } => EditSiteStateView::DescriptionSlurs {
                user,
            },
            EditSiteState::Admin => EditSiteStateView::Admin,
            EditSiteState::Site => EditSiteStateView::Site,
            EditSiteState::Sidebar { form } => EditSiteStateView::Sidebar { form: form@ },
            EditSiteState::Description { form } => EditSiteStateView::Description { form: form@ },
            EditSiteState::Icon { form } => EditSiteStateView::Icon { form: form@ },
            EditSiteState::Banner { form } => EditSiteStateView::Banner { form: form@ },
            EditSiteState::DescriptionLength { form } => EditSiteStateView::DescriptionLength {
                form: form@,
            },
            EditSiteState::Clock { form } => EditSiteStateView::Clock { form: form@ },
            EditSiteState::Update => EditSiteStateView::Update,
            EditSiteState::SiteView => EditSiteStateView::SiteView,
            EditSiteState::Finished => EditSiteStateView::Finished,
        }
    }
}

/// What the program has to do next.
#[derive(Debug, PartialEq, Eq)]
pub enum EditSiteAction<U, W, E> {
    /// Find out whose token it is.
    ReadLocalUser { jwt: String },
    /// Check a text for slurs, if there is one.
    CheckSlurs { text: Option<String> },
    CheckAdmin { user: U },
    ReadSite,
    /// Find out what a text sets a column to.
    OverwriteText { text: Option<String> },
    /// Find out what the text of an address sets a column to.
    OverwriteUrl { text: Option<String> },
    CheckDescriptionLength { description: String },
    ReadClock,
    UpdateSite { site_id: i32, form: SiteForm },
    ReadSiteView,
    /// Send the message to all clients and answer with its response, or with the
    /// error. Nothing comes after it.
    Finish { result: Result<SendAllMessage<W>, LemmyError<E>> },
}

pub enum EditSiteActionView<U, W, E> {
    ReadLocalUser { jwt: Seq<char> },
    CheckSlurs { text: Option<Seq<char>> },
    CheckAdmin { user: U },
    ReadSite,
    OverwriteText { text: Option<Seq<char>> },
    OverwriteUrl { text: Option<Seq<char>> },
    CheckDescriptionLength { description: Seq<char> },
    ReadClock,
    UpdateSite { site_id: i32, form: SiteFormView },
    ReadSiteView,
    Finish { result: Result<SendAllMessage<W>, LemmyError<E>> },
}

impl<U, W, E> View for EditSiteAction<U, W, E> {
    type V = EditSiteActionView<U, W, E>;

    open spec fn view(&self) -> EditSiteActionView<U, W, E> {
        match *self {
            EditSiteAction::ReadLocalUser { jwt } => EditSiteActionView::ReadLocalUser {
                jwt: jwt@,
            },
            EditSiteAction::CheckSlurs { text } => EditSiteActionView::CheckSlurs {
                text: text.deep_view(),
            },
            EditSiteAction::CheckAdmin { user } => EditSiteActionView::CheckAdmin { user },
            EditSiteAction::ReadSite => EditSiteActionView::ReadSite,
            EditSiteAction::OverwriteText { text } => EditSiteActionView::OverwriteText {
                text: text.deep_view(),
            },
            EditSiteAction::OverwriteUrl { text } => EditSiteActionView::OverwriteUrl {
                text: text.deep_view(),
            },
            EditSiteAction::CheckDescriptionLength { description } =>
                EditSiteActionView::CheckDescriptionLength { description: description@ },
            EditSiteAction::ReadClock => EditSiteActionView::ReadClock,
            EditSiteAction::UpdateSite { site_id, form } => EditSiteActionView::UpdateSite {
                site_id,
                form: form@,
            },
            EditSiteAction::ReadSiteView => EditSiteActionView::ReadSiteView,
            EditSiteAction::Finish { result } => EditSiteActionView::Finish { result },
        }
    }
}

/// What came of an action.
#[derive(Debug, PartialEq, Eq)]
pub enum EditSiteEvent<U, W, E> {
    LocalUser(Result<U, E>),
    /// Whether something passed a check.
    Checked(Result<(), E>),
    Site(Blocking<Site, E>),
    /// What a text sets a column to.
    Text(Option<Option<String>>),
    /// What the text of an address sets a column to.
    Url(Result<Option<Option<Url>>, E>),
    Clock(NaiveDateTime),
    Updated(Blocking<(), E>),
    SiteView(Blocking<W, E>),
}

pub enum EditSiteEventView<U, W, E> {
    LocalUser(Result<U, E>),
    Checked(Result<(), E>),
    Site(Blocking<SiteRowView, E>),
    Text(Option<Option<Seq<char>>>),
    Url(Result<Option<Option<Url>>, E>),
    Clock(NaiveDateTime),
    Updated(Blocking<(), E>),
    SiteView(Blocking<W, E>),
}

impl<U, W, E> View for EditSiteEvent<U, W, E> {
    type V = EditSiteEventView<U, W, E>;

    open spec fn view(&self) -> EditSiteEventView<U, W, E> {
        match *self {
            EditSiteEvent::LocalUser(reply) => EditSiteEventView::LocalUser(reply),
            EditSiteEvent::Checked(reply) => EditSiteEventView::Checked(reply),
            EditSiteEvent::Site(reply) => EditSiteEventView::Site(
                match reply {
                    Ok(Ok(site)) => Ok(Ok(site@)),
                    Ok(Err(error)) => Ok(Err(error)),
                    Err(error) => Err(error),
                },
            ),
            EditSiteEvent::Text(text) => EditSiteEventView::Text(text.deep_view()),
            EditSiteEvent::Url(reply) => EditSiteEventView::Url(reply),
            EditSiteEvent::Clock(now) => EditSiteEventView::Clock(now),
            EditSiteEvent::Updated(reply) => EditSiteEventView::Updated(reply),
            EditSiteEvent::SiteView(reply) => EditSiteEventView::SiteView(reply),
        }
    }
}

impl<U> EditSiteStateView<U> {
    /// Whether `event` is a reply of the kind that the edit waits for.
    pub open spec fn awaits<W, E>(self, event: EditSiteEventView<U, W, E>) -> bool {
        match self {
            EditSiteStateView::LocalUser => event is LocalUser,
            EditSiteStateView::NameSlurs { .. } => event is Checked,
            EditSiteStateView::DescriptionSlurs { .. } => event is Checked,
            EditSiteStateView::Admin => event is Checked,
            EditSiteStateView::Site => event is Site,
            EditSiteStateView::Sidebar { .. } => event is Text,
            EditSiteStateView::Description { .. } => event is Text,
            EditSiteStateView::Icon { .. } => event is Url,
            EditSiteStateView::Banner { .. } => event is Url,
            EditSiteStateView::DescriptionLength { .. } => event is Checked,
            EditSiteStateView::Clock { .. } => event is Clock,
            EditSiteStateView::Update => event is Updated,
            EditSiteStateView::SiteView => event is SiteView,
            EditSiteStateView::Finished => false,
        }
    }
}

/// The end of an edit.
pub open spec fn finish<U, W, E>(result: Result<SendAllMessage<W>, LemmyError<E>>) -> (
    EditSiteStateView<U>,
    EditSiteActionView<U, W, E>,
) {
    (EditSiteStateView::Finished, EditSiteActionView::Finish { result })
}

/// The end of an edit that a call failed.
pub open spec fn fail<U, W, E>(error: E) -> (EditSiteStateView<U>, EditSiteActionView<U, W, E>) {
    finish(Err(LemmyError::of_cause(error)))
}

impl EditSiteView {
    /// The new row of the site, up to what the overwritten texts and addresses and the
    /// clock add to it. The name stays if none is given.
    pub open spec fn form(self, site: SiteRowView) -> SiteFormView {
        SiteFormView {
            creator_id: site.creator_id,
            name: self.name.unwrap_or(site.name),
            sidebar: None,
            description: None,
            icon: None,
            banner: None,
            updated: None,
            enable_downvotes: self.enable_downvotes,
            open_registration: self.open_registration,
            enable_nsfw: self.enable_nsfw,
            community_creation_admin_only: self.community_creation_admin_only,
        }
    }

    /// How an edit begins.
    pub open spec fn begin<U, W, E>(self) -> (EditSiteStateView<U>, EditSiteActionView<U, W, E>) {
        (EditSiteStateView::LocalUser, EditSiteActionView::ReadLocalUser { jwt: self.auth })
    }

    /// How an edit that came in over `websocket_id` goes on after the reply that it
    /// waits for.
    pub open spec fn next<U, W, E>(
        self,
        websocket_id: Option<usize>,
        state: EditSiteStateView<U>,
        event: EditSiteEventView<U, W, E>,
    ) -> (EditSiteStateView<U>, EditSiteActionView<U, W, E>)
        recommends
            state.awaits(event),
    {
        match (state, event) {
            (EditSiteStateView::LocalUser, EditSiteEventView::LocalUser(reply)) => match reply {
                Err(error) => fail(error),
                Ok(user) => (
                    EditSiteStateView::NameSlurs { user },
                    EditSiteActionView::CheckSlurs { text: self.name },
                ),
            },
            (EditSiteStateView::NameSlurs { user }, EditSiteEventView::Checked(reply)) =>
                match reply {
                Err(error) => fail(error),
                Ok(_) => (
                    EditSiteStateView::DescriptionSlurs { user },
                    EditSiteActionView::CheckSlurs { text: self.description },
                ),
            },
            (EditSiteStateView::DescriptionSlurs { user }, EditSiteEventView::Checked(reply)) =>
                match reply {
                Err(error) => fail(error),
                Ok(_) => (EditSiteStateView::Admin, EditSiteActionView::CheckAdmin { user }),
            },
            (EditSiteStateView::Admin, EditSiteEventView::Checked(reply)) => match reply {
                Err(error) => fail(error),
                Ok(_) => (EditSiteStateView::Site, EditSiteActionView::ReadSite),
            },
            (EditSiteStateView::Site, EditSiteEventView::Site(reply)) => match flat(reply) {
                Err(error) => fail(error),
                Ok(site) => (
                    EditSiteStateView::Sidebar { form: self.form(site) },
                    EditSiteActionView::OverwriteText { text: self.sidebar },
                ),
            },
            (EditSiteStateView::Sidebar { form }, EditSiteEventView::Text(sidebar)) => (
                EditSiteStateView::Description { form: SiteFormView { sidebar, ..form } },
                EditSiteActionView::OverwriteText { text: self.description },
            ),
            (EditSiteStateView::Description { form }, EditSiteEventView::Text(description)) => (
                EditSiteStateView::Icon { form: SiteFormView { description, ..form } },
                EditSiteActionView::OverwriteUrl { text: self.icon },
            ),
            (EditSiteStateView::Icon { form }, EditSiteEventView::Url(reply)) => match reply {
                Err(error) => fail(error),
                Ok(icon) => (
                    EditSiteStateView::Banner { form: SiteFormView { icon, ..form } },
                    EditSiteActionView::OverwriteUrl { text: self.banner },
                ),
            },
            // Only a description that is set has a length to check.
            (EditSiteStateView::Banner { form }, EditSiteEventView::Url(reply)) => match reply {
                Err(error) => fail(error),
                Ok(banner) => {
                    let form = SiteFormView { banner, ..form };
                    match form.description {
                        Some(Some(description)) => (
                            EditSiteStateView::DescriptionLength { form },
                            EditSiteActionView::CheckDescriptionLength { description },
                        ),
                        _ => (EditSiteStateView::Clock { form }, EditSiteActionView::ReadClock),
                    }
                },
            },
            (EditSiteStateView::DescriptionLength { form }, EditSiteEventView::Checked(reply)) =>
                match reply {
                Err(error) => fail(error),
                Ok(_) => (EditSiteStateView::Clock { form }, EditSiteActionView::ReadClock),
            },
            (EditSiteStateView::Clock { form }, EditSiteEventView::Clock(now)) => (
                EditSiteStateView::Update,
                EditSiteActionView::UpdateSite {
                    site_id: SITE_ID,
                    form: SiteFormView { updated: Some(now), ..form },
                },
            ),
            (EditSiteStateView::Update, EditSiteEventView::Updated(reply)) => match reply {
                Err(error) => fail(error),
                Ok(Err(error)) => finish(
                    Err(LemmyError::of_both(error, ErrorMessage::CouldntUpdateSite)),
                ),
                Ok(Ok(_)) => (EditSiteStateView::SiteView, EditSiteActionView::ReadSiteView),
            },
            (EditSiteStateView::SiteView, EditSiteEventView::SiteView(reply)) =>
                match flat(reply) {
                Err(error) => fail(error),
                Ok(site_view) => finish(
                    Ok(
                        SendAllMessage {
                            op: UserOperationCrud::EditSite,
                            response: SiteResponse { site_view },
                            websocket_id,
                        },
                    ),
                ),
            },
            _ => arbitrary(),
        }
    }
}

impl<U> EditSiteState<U> {
    /// Whether `event` is a reply of the kind that the edit waits for.
    pub fn awaits<W, E>(&self, event: &EditSiteEvent<U, W, E>) -> (res: bool)
        ensures
            res == self@.awaits(event@),
    {
        match self {
            EditSiteState::LocalUser => matches!(event, EditSiteEvent::LocalUser(_)),
            EditSiteState::NameSlurs { .. } | EditSiteState::DescriptionSlurs { .. }
            | EditSiteState::Admin | EditSiteState::DescriptionLength { .. } =>
                matches!(event, EditSiteEvent::Checked(_)),
            EditSiteState::Site => matches!(event, EditSiteEvent::Site(_)),
            EditSiteState::Sidebar { .. } | EditSiteState::Description { .. } =>
                matches!(event, EditSiteEvent::Text(_)),
            EditSiteState::Icon { .. } | EditSiteState::Banner { .. } =>
                matches!(event, EditSiteEvent::Url(_)),
            EditSiteState::Clock { .. } => matches!(event, EditSiteEvent::Clock(_)),
            EditSiteState::Update => matches!(event, EditSiteEvent::Updated(_)),
            EditSiteState::SiteView => matches!(event, EditSiteEvent::SiteView(_)),
            EditSiteState::Finished => false,
        }
    }
}

/// Where an edit stands, and what the program has to do for it.
type Step<U, W, E> = (EditSiteState<U>, EditSiteAction<U, W, E>);

fn answer<U, W, E>(result: Result<SendAllMessage<W>, LemmyError<E>>) -> (res: Step<U, W, E>)
    ensures
        (res.0@, res.1@) == finish::<U, W, E>(result),
{
    (EditSiteState::Finished, EditSiteAction::Finish { result })
}

fn failure<U, W, E>(error: E) -> (res: Step<U, W, E>)
    ensures
        (res.0@, res.1@) == fail::<U, W, E>(error),
{
    answer(Err(LemmyError::from_cause(error)))
}

impl EditSite {
    /// The new row of the site, up to the overwritten columns.
    fn site_form(&self, site: Site) -> (res: SiteForm)
        ensures
            res@ == self@.form(site@),
    {
        let name = match &self.name {
            Some(name) => name.clone(),
            None => site.name,
        };
        SiteForm {
            creator_id: site.creator_id,
            name,
            sidebar: None,
            description: None,
            icon: None,
            banner: None,
            updated: None,
            enable_downvotes: self.enable_downvotes,
            open_registration: self.open_registration,
            enable_nsfw: self.enable_nsfw,
            community_creation_admin_only: self.community_creation_admin_only,
        }
    }

    /// The first action of an edit.
    pub fn begin<U, W, E>(&self) -> (res: (EditSiteState<U>, EditSiteAction<U, W, E>))
        ensures
            (res.0@, res.1@) == self@.begin::<U, W, E>(),
    {
        (EditSiteState::LocalUser, EditSiteAction::ReadLocalUser { jwt: self.auth.clone() })
    }

    /// The action that follows on the reply to the last one.
    pub fn next<U, W, E>(
        &self,
        websocket_id: Option<usize>,
        state: EditSiteState<U>,
        event: EditSiteEvent<U, W, E>,
    ) -> (res: (EditSiteState<U>, EditSiteAction<U, W, E>))
        requires
            state@.awaits(event@),
        ensures
            (res.0@, res.1@) == self@.next(websocket_id, state@, event@),
    {
        match (state, event) {
            (EditSiteState::LocalUser, EditSiteEvent::LocalUser(reply)) => match reply {
                Err(error) => failure(error),
                Ok(user) => (
                    EditSiteState::NameSlurs { user },
                    EditSiteAction::CheckSlurs { text: self.name.clone() },
                ),
            },
            (EditSiteState::NameSlurs { user }, EditSiteEvent::Checked(reply)) => match reply {
                Err(error) => failure(error),
                Ok(_) => (
                    EditSiteState::DescriptionSlurs { user },
                    EditSiteAction::CheckSlurs { text: self.description.clone() },
                ),
            },
            (EditSiteState::DescriptionSlurs { user }, EditSiteEvent::Checked(reply)) =>
                match reply {
                Err(error) => failure(error),
                Ok(_) => (EditSiteState::Admin, EditSiteAction::CheckAdmin { user }),
            },
            (EditSiteState::Admin, EditSiteEvent::Checked(reply)) => match reply {
                Err(error) => failure(error),
                Ok(_) => (EditSiteState::Site, EditSiteAction::ReadSite),
            },
            (EditSiteState::Site, EditSiteEvent::Site(reply)) => match flatten(reply) {
                Err(error) => failure(error),
                Ok(site) => (
                    EditSiteState::Sidebar { form: self.site_form(site) },
                    EditSiteAction::OverwriteText { text: self.sidebar.clone() },
                ),
            },
            (EditSiteState::Sidebar { form }, EditSiteEvent::Text(sidebar)) => (
                EditSiteState::Description { form: SiteForm { sidebar, ..form } },
                EditSiteAction::OverwriteText { text: self.description.clone() },
            ),
            (EditSiteState::Description { form }, EditSiteEvent::Text(description)) => (
                EditSiteState::Icon { form: SiteForm { description, ..form } },
                EditSiteAction::OverwriteUrl { text: self.icon.clone() },
            ),
            (EditSiteState::Icon { form }, EditSiteEvent::Url(reply)) => match reply {
                Err(error) => failure(error),
                Ok(icon) => (
                    EditSiteState::Banner { form: SiteForm { icon, ..form } },
                    EditSiteAction::OverwriteUrl { text: self.banner.clone() },
                ),
            },
            (EditSiteState::Banner { form }, EditSiteEvent::Url(reply)) => match reply {
                Err(error) => failure(error),
                Ok(banner) => {
                    let form = SiteForm { banner, ..form };
                    let set = match &form.description {
                        Some(Some(description)) => Some(description.clone()),
                        _ => None,
                    };
                    match set {
                        Some(description) => (
                            EditSiteState::DescriptionLength { form },
                            EditSiteAction::CheckDescriptionLength { description },
                        ),
                        None => (EditSiteState::Clock { form }, EditSiteAction::ReadClock),
                    }
                },
            },
            (EditSiteState::DescriptionLength { form }, EditSiteEvent::Checked(reply)) =>
                match reply {
                Err(error) => failure(error),
                Ok(_) => (EditSiteState::Clock { form }, EditSiteAction::ReadClock),
            },
            (EditSiteState::Clock { form }, EditSiteEvent::Clock(now)) => (
                EditSiteState::Update,
                EditSiteAction::UpdateSite {
                    site_id: SITE_ID,
                    form: SiteForm { updated: Some(now), ..form },
                },
            ),
            (EditSiteState::Update, EditSiteEvent::Updated(reply)) => match reply {
                Err(error) => failure(error),
                Ok(Err(error)) => answer(
                    Err(
                        LemmyError::from_cause(error).with_message(ErrorMessage::CouldntUpdateSite),
                    ),
                ),
                Ok(Ok(_)) => (EditSiteState::SiteView, EditSiteAction::ReadSiteView),
            },
            (EditSiteState::SiteView, EditSiteEvent::SiteView(reply)) => match flatten(reply) {
                Err(error) => failure(error),
                Ok(site_view) => answer(
                    Ok(
                        SendAllMessage {
                            op: UserOperationCrud::EditSite,
                            response: SiteResponse { site_view },
                            websocket_id,
                        },
                    ),
                ),
            },
            _ => vstd::pervasive::unreached(),
        }
    }
}

} // verus!
