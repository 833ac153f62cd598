//! Rows of the database, and the forms that create or change them.
//!
//! In a form an outer `None` leaves a column as it is (or at its default), and
//! `Some(None)` clears it. Each type that holds text has a view in which the text
//! is a sequence of characters.

use vstd::prelude::*;

use crate::time::NaiveDateTime;
use url::Url;

verus! {

#[derive(Clone, Copy, Debug, PartialEq, Eq, Structural)]
pub struct PersonId(pub i32);

#[derive(Clone, Copy, Debug, PartialEq, Eq, Structural)]
pub struct LocalUserId(pub i32);

#[derive(Clone, Copy, Debug, PartialEq, Eq, Structural)]
pub struct CommunityId(pub i32);

/// The order in which a new account sees posts.
#[derive(Clone, Copy, Debug, PartialEq, Eq, Structural)]
pub enum SortType {
    Active,
}

/// The posts that a new account sees.
#[derive(Clone, Copy, Debug, PartialEq, Eq, Structural)]
pub enum ListingType {
    Subscribed,
}

/// A person of this or of another server.
#[derive(Clone, Debug, PartialEq, Eq)]
pub struct DbPerson {
    pub id: PersonId,
    pub name: String,
    pub display_name: Option<String>,
    pub avatar: Option<Url>,
    pub banned: bool,
    pub banner: Option<Url>,
    pub published: NaiveDateTime,
    pub updated: Option<NaiveDateTime>,
    pub actor_id: Url,
    pub bio: Option<String>,
    pub local: bool,
    pub deleted: bool,
    pub admin: bool,
    pub bot_account: bool,
    pub private_key: Option<String>,
    pub public_key: String,
    pub last_refreshed_at: NaiveDateTime,
    pub inbox_url: Url,
    pub shared_inbox_url: Option<Url>,
    pub matrix_user_id: Option<String>,
}

pub struct DbPersonView {
    pub id: PersonId,
    pub name: Seq<char>,
    pub display_name: Option<Seq<char>>,
    pub avatar: Option<Url>,
    pub banned: bool,
    pub banner: Option<Url>,
    pub published: NaiveDateTime,
    pub updated: Option<NaiveDateTime>,
    pub actor_id: Url,
    pub bio: Option<Seq<char>>,
    pub local: bool,
    pub deleted: bool,
    pub admin: bool,
    pub bot_account: bool,
    pub private_key: Option<Seq<char>>,
    pub public_key: Seq<char>,
    pub last_refreshed_at: NaiveDateTime,
    pub inbox_url: Url,
    pub shared_inbox_url: Option<Url>,
    pub matrix_user_id: Option<Seq<char>>,
}

impl View for DbPerson {
    type V = DbPersonView;

    open spec fn view(&self) -> DbPersonView {
        DbPersonView {
            id: self.id,
            name: self.name@,
            display_name: self.display_name.deep_view(),
            avatar: self.avatar,
            banned: self.banned,
            banner: self.banner,
            published: self.published,
            updated: self.updated,
            actor_id: self.actor_id,
            bio: self.bio.deep_view(),
            local: self.local,
            deleted: self.deleted,
            admin: self.admin,
            bot_account: self.bot_account,
            private_key: self.private_key.deep_view(),
            public_key: self.public_key@,
            last_refreshed_at: self.last_refreshed_at,
            inbox_url: self.inbox_url,
            shared_inbox_url: self.shared_inbox_url,
            matrix_user_id: self.matrix_user_id.deep_view(),
        }
    }
}

/// What is stored of a person.
#[derive(Clone, Debug, PartialEq, Eq)]
pub struct PersonForm {
    pub name: String,
    pub display_name: Option<Option<String>>,
    pub banned: Option<bool>,
    pub deleted: Option<bool>,
    pub avatar: Option<Option<Url>>,
    pub banner: Option<Option<Url>>,
    pub published: Option<NaiveDateTime>,
    pub updated: Option<NaiveDateTime>,
    pub actor_id: Option<Url>,
    pub bio: Option<Option<String>>,
    pub local: Option<bool>,
    pub admin: Option<bool>,
    pub bot_account: Option<bool>,
    pub private_key: Option<Option<String>>,
    pub public_key: String,
    pub last_refreshed_at: Option<NaiveDateTime>,
    pub inbox_url: Option<Url>,
    pub shared_inbox_url: Option<Option<Url>>,
    pub matrix_user_id: Option<Option<String>>,
}

pub struct PersonFormView {
    pub name: Seq<char>,
    pub display_name: Option<Option<Seq<char>>>,
    pub banned: Option<bool>,
    pub deleted: Option<bool>,
    pub avatar: Option<Option<Url>>,
    pub banner: Option<Option<Url>>,
    pub published: Option<NaiveDateTime>,
    pub updated: Option<NaiveDateTime>,
    pub actor_id: Option<Url>,
    pub bio: Option<Option<Seq<char>>>,
    pub local: Option<bool>,
    pub admin: Option<bool>,
    pub bot_account: Option<bool>,
    pub private_key: Option<Option<Seq<char>>>,
    pub public_key: Seq<char>,
    pub last_refreshed_at: Option<NaiveDateTime>,
    pub inbox_url: Option<Url>,
    pub shared_inbox_url: Option<Option<Url>>,
    pub matrix_user_id: Option<Option<Seq<char>>>,
}

impl View for PersonForm {
    type V = PersonFormView;

    open spec fn view(&self) -> PersonFormView {
        PersonFormView {
            name: self.name@,
            display_name: self.display_name.deep_view(),
            banned: self.banned,
            deleted: self.deleted,
            avatar: self.avatar,
            banner: self.banner,
            published: self.published,
            updated: self.updated,
            actor_id: self.actor_id,
            bio: self.bio.deep_view(),
            local: self.local,
            admin: self.admin,
            bot_account: self.bot_account,
            private_key: self.private_key.deep_view(),
            public_key: self.public_key@,
            last_refreshed_at: self.last_refreshed_at,
            inbox_url: self.inbox_url,
            shared_inbox_url: self.shared_inbox_url,
            matrix_user_id: self.matrix_user_id.deep_view(),
        }
    }
}

impl PersonFormView {
    /// The form that names nothing and sets nothing.
    pub open spec fn blank() -> PersonFormView {
        PersonFormView {
            name: Seq::empty(),
            display_name: None,
            banned: None,
            deleted: None,
            avatar: None,
            banner: None,
            published: None,
            updated: None,
            actor_id: None,
            bio: None,
            local: None,
            admin: None,
            bot_account: None,
            private_key: None,
            public_key: Seq::empty(),
            last_refreshed_at: None,
            inbox_url: None,
            shared_inbox_url: None,
            matrix_user_id: None,
        }
    }
}

impl Default for PersonForm {
    fn default() -> (res: Self)
        ensures
            res@ == PersonFormView::blank(),
    {
        PersonForm {
            name: String::new(),
            display_name: None,
            banned: None,
            deleted: None,
            avatar: None,
            banner: None,
            published: None,
            updated: None,
            actor_id: None,
            bio: None,
            local: None,
            admin: None,
            bot_account: None,
            private_key: None,
            public_key: String::new(),
            last_refreshed_at: None,
            inbox_url: None,
            shared_inbox_url: None,
            matrix_user_id: None,
        }
    }
}

/// What is stored of an account on this server.
#[derive(Clone, Debug, PartialEq, Eq)]
pub struct LocalUserForm {
    pub person_id: PersonId,
    pub email: Option<Option<String>>,
    pub password_encrypted: String,
    pub show_nsfw: Option<bool>,
    pub show_bot_accounts: Option<bool>,
    pub theme: Option<String>,
    pub default_sort_type: Option<SortType>,
    pub default_listing_type: Option<ListingType>,
    pub lang: Option<String>,
    pub show_avatars: Option<bool>,
    pub show_scores: Option<bool>,
    pub show_read_posts: Option<bool>,
    pub show_new_post_notifs: Option<bool>,
    pub send_notifications_to_email: Option<bool>,
}

pub struct LocalUserFormView {
    pub person_id: PersonId,
    pub email: Option<Option<Seq<char>>>,
    pub password_encrypted: Seq<char>,
    pub show_nsfw: Option<bool>,
    pub show_bot_accounts: Option<bool>,
    pub theme: Option<Seq<char>>,
    pub default_sort_type: Option<SortType>,
    pub default_listing_type: Option<ListingType>,
    pub lang: Option<Seq<char>>,
    pub show_avatars: Option<bool>,
    pub show_scores: Option<bool>,
    pub show_read_posts: Option<bool>,
    pub show_new_post_notifs: Option<bool>,
    pub send_notifications_to_email: Option<bool>,
}

impl View for LocalUserForm {
    type V = LocalUserFormView;

    open spec fn view(&self) -> LocalUserFormView {
        LocalUserFormView {
            person_id: self.person_id,
            email: self.email.deep_view(),
            password_encrypted: self.password_encrypted@,
            show_nsfw: self.show_nsfw,
            show_bot_accounts: self.show_bot_accounts,
            theme: self.theme.deep_view(),
            default_sort_type: self.default_sort_type,
            default_listing_type: self.default_listing_type,
            lang: self.lang.deep_view(),
            show_avatars: self.show_avatars,
            show_scores: self.show_scores,
            show_read_posts: self.show_read_posts,
            show_new_post_notifs: self.show_new_post_notifs,
            send_notifications_to_email: self.send_notifications_to_email,
        }
    }
}

/// What is stored of a community. The columns that the server never sets here
/// keep their defaults and have no field.
#[derive(Clone, Debug, PartialEq, Eq)]
pub struct CommunityForm {
    pub name: String,
    pub title: String,
    pub description: Option<String>,
    pub actor_id: Option<Url>,
    pub private_key: Option<Option<String>>,
    pub public_key: String,
    pub followers_url: Option<Url>,
    pub inbox_url: Option<Url>,
    pub shared_inbox_url: Option<Option<Url>>,
}

pub struct CommunityFormView {
    pub name: Seq<char>,
    pub title: Seq<char>,
    pub description: Option<Seq<char>>,
    pub actor_id: Option<Url>,
    pub private_key: Option<Option<Seq<char>>>,
    pub public_key: Seq<char>,
    pub followers_url: Option<Url>,
    pub inbox_url: Option<Url>,
    pub shared_inbox_url: Option<Option<Url>>,
}

impl View for CommunityForm {
    type V = CommunityFormView;

    open spec fn view(&self) -> CommunityFormView {
        CommunityFormView {
            name: self.name@,
            title: self.title@,
            description: self.description.deep_view(),
            actor_id: self.actor_id,
            private_key: self.private_key.deep_view(),
            public_key: self.public_key@,
            followers_url: self.followers_url,
            inbox_url: self.inbox_url,
            shared_inbox_url: self.shared_inbox_url,
        }
    }
}

/// That a person follows a community.
#[derive(Clone, Copy, Debug, PartialEq, Eq, Structural)]
pub struct CommunityFollowerForm {
    pub community_id: CommunityId,
    pub person_id: PersonId,
    pub pending: bool,
}

/// That a person moderates a community.
#[derive(Clone, Copy, Debug, PartialEq, Eq, Structural)]
pub struct CommunityModeratorForm {
    pub community_id: CommunityId,
    pub person_id: PersonId,
}

/// What an edit of the site reads of its row.
#[derive(Clone, Debug, PartialEq, Eq)]
pub struct Site {
    pub creator_id: PersonId,
    pub name: String,
}

pub struct SiteRowView {
    pub creator_id: PersonId,
    pub name: Seq<char>,
}

impl View for Site {
    type V = SiteRowView;

    open spec fn view(&self) -> SiteRowView {
        SiteRowView { creator_id: self.creator_id, name: self.name@ }
    }
}

/// What is stored of the site.
#[derive(Clone, Debug, PartialEq, Eq)]
pub struct SiteForm {
    pub creator_id: PersonId,
    pub name: String,
    pub sidebar: Option<Option<String>>,
    pub description: Option<Option<String>>,
    pub icon: Option<Option<Url>>,
    pub banner: Option<Option<Url>>,
    pub updated: Option<NaiveDateTime>,
    pub enable_downvotes: Option<bool>,
    pub open_registration: Option<bool>,
    pub enable_nsfw: Option<bool>,
    pub community_creation_admin_only: Option<bool>,
}

pub struct SiteFormView {
    pub creator_id: PersonId,
    pub name: Seq<char>,
    pub sidebar: Option<Option<Seq<char>>>,
    pub description: Option<Option<Seq<char>>>,
    pub icon: Option<Option<Url>>,
    pub banner: Option<Option<Url>>,
    pub updated: Option<NaiveDateTime>,
    pub enable_downvotes: Option<bool>,
    pub open_registration: Option<bool>,
    pub enable_nsfw: Option<bool>,
    pub community_creation_admin_only: Option<bool>,
}

impl View for SiteForm {
    type V = SiteFormView;

    open spec fn view(&self) -> SiteFormView {
        SiteFormView {
            creator_id: self.creator_id,
            name: self.name@,
            sidebar: self.sidebar.deep_view(),
            description: self.description.deep_view(),
            icon: self.icon,
            banner: self.banner,
            updated: self.updated,
            enable_downvotes: self.enable_downvotes,
            open_registration: self.open_registration,
            enable_nsfw: self.enable_nsfw,
            community_creation_admin_only: self.community_creation_admin_only,
        }
    }
}

} // verus!
