//! What the views show: every field of a value, each in its own place.

use vstd::prelude::*;

use crate::apub_person::{
    ApubPerson, IntoApubAction, IntoApubActionView, IntoApubEvent, IntoApubEventView,
};
use crate::apub_person_intake::{
    FromApubAction, FromApubActionView, FromApubEvent, FromApubEventView, VerifyPersonAction,
    VerifyPersonActionView, VerifyPersonEvent, VerifyPersonEventView,
};
use crate::edit_site::{
    EditSite, EditSiteAction, EditSiteActionView, EditSiteEvent, EditSiteEventView,
};
use crate::protocol::{Person, PublicKey, Source};
use crate::register::{
    Keypair, LoginResponse, Register, RegisterAction, RegisterActionView, RegisterEvent,
    RegisterEventView, RegisterSettings,
};
use crate::schema::{CommunityForm, DbPerson, LocalUserForm, PersonForm, PersonFormView, Site, SiteForm};
use crate::undo_follow::{
    ActivityCommonFields, FollowCommunity, SendUndoAction, SendUndoActionView,
    UndoFollowCommunity,
};

verus! {

/// The view of `Register` shows what it holds.
pub proof fn register_is_shown(value: Register)
    ensures
        value@.username == value.username@,
        value@.password == value.password@,
        value@.password_verify == value.password_verify@,
        value@.show_nsfw == value.show_nsfw,
        value@.email == value.email.deep_view(),
        value@.captcha_uuid == value.captcha_uuid.deep_view(),
        value@.captcha_answer == value.captcha_answer.deep_view(),
        value@.honeypot == value.honeypot.deep_view(),
{
}

/// The view of `RegisterSettings` shows what it holds.
pub proof fn register_settings_is_shown(value: RegisterSettings)
    ensures
        value@.captcha_enabled == value.captcha_enabled,
        value@.actor_name_max_length == value.actor_name_max_length,
        value@.protocol_and_hostname == value.protocol_and_hostname@,
        value@.hostname == value.hostname@,
        value@.jwt_secret == value.jwt_secret@,
{
}

/// The view of `Keypair` shows what it holds.
pub proof fn keypair_is_shown(value: Keypair)
    ensures
        value@.private_key == value.private_key@,
        value@.public_key == value.public_key@,
{
}

/// The view of `LoginResponse` shows what it holds.
pub proof fn login_response_is_shown(value: LoginResponse)
    ensures
        value@ == value.jwt@,
{
}

/// The view of `RegisterAction` shows what it holds.
pub proof fn register_action_is_shown<E>(value: RegisterAction<E>)
    ensures
        value@ == (match value {
            RegisterAction::ReadSite => RegisterActionView::<E>::ReadSite,
            RegisterAction::CheckPasswordLength { password } =>
                RegisterActionView::<E>::CheckPasswordLength { password: password@ },
            RegisterAction::CheckHoneypot { honeypot } => RegisterActionView::<E>::CheckHoneypot {
                honeypot: honeypot.deep_view(),
            },
            RegisterAction::ReadAdmins => RegisterActionView::<E>::ReadAdmins,
            RegisterAction::CheckCaptcha { uuid, answer } => RegisterActionView::<E>::CheckCaptcha {
                uuid: uuid@,
                answer: answer@,
            },
            RegisterAction::CheckSlurs { text } => RegisterActionView::<E>::CheckSlurs { text: text@ },
            RegisterAction::GenerateActorKeypair => RegisterActionView::<E>::GenerateActorKeypair,
            RegisterAction::ValidateActorName { name, max_length } =>
                RegisterActionView::<E>::ValidateActorName { name: name@, max_length },
            RegisterAction::GenerateLocalApubEndpoint {
                endpoint_type,
                name,
                protocol_and_hostname,
            } => RegisterActionView::<E>::GenerateLocalApubEndpoint {
                endpoint_type,
                name: name@,
                protocol_and_hostname: protocol_and_hostname@,
            },
            RegisterAction::GenerateFollowersUrl { actor_id } =>
                RegisterActionView::<E>::GenerateFollowersUrl { actor_id },
            RegisterAction::GenerateInboxUrl { actor_id } => RegisterActionView::<E>::GenerateInboxUrl {
                actor_id,
            },
            RegisterAction::GenerateSharedInboxUrl { actor_id } =>
                RegisterActionView::<E>::GenerateSharedInboxUrl { actor_id },
            RegisterAction::CreatePerson { form } => RegisterActionView::<E>::CreatePerson {
                form: form@,
            },
            RegisterAction::RegisterLocalUser { form } => RegisterActionView::<E>::RegisterLocalUser {
                form: form@,
            },
            RegisterAction::DeletePerson { person_id } => RegisterActionView::<E>::DeletePerson {
                person_id,
            },
            RegisterAction::ReadCommunity { community_id } => RegisterActionView::<E>::ReadCommunity {
                community_id,
            },
            RegisterAction::CreateCommunity { form } => RegisterActionView::<E>::CreateCommunity {
                form: form@,
            },
            RegisterAction::FollowCommunity { form } => RegisterActionView::<E>::FollowCommunity {
                form,
            },
            RegisterAction::JoinModerators { form } => RegisterActionView::<E>::JoinModerators { form },
            RegisterAction::SignJwt { local_user_id, secret, hostname } =>
                RegisterActionView::<E>::SignJwt { local_user_id, secret: secret@, hostname: hostname@ },
            RegisterAction::Finish { result } => RegisterActionView::<E>::Finish {
                result: match result {
                    Ok(response) => Ok(response@),
                    Err(error) => Err(error),
                },
            },
        }),
{
}

/// The view of `RegisterEvent` shows what it holds.
pub proof fn register_event_is_shown<E>(value: RegisterEvent<E>)
    ensures
        value@ == (match value {
            RegisterEvent::Site(reply) => RegisterEventView::<E>::Site(reply),
            RegisterEvent::Checked(reply) => RegisterEventView::<E>::Checked(reply),
            RegisterEvent::Admins(reply) => RegisterEventView::<E>::Admins(reply),
            RegisterEvent::Captcha(reply) => RegisterEventView::<E>::Captcha(reply),
            RegisterEvent::Keypair(reply) => RegisterEventView::<E>::Keypair(
                match reply {
                    Ok(keypair) => Ok(keypair@),
                    Err(error) => Err(error),
                },
            ),
            RegisterEvent::ActorName(valid) => RegisterEventView::<E>::ActorName(valid),
            RegisterEvent::Url(reply) => RegisterEventView::<E>::Url(reply),
            RegisterEvent::Person(reply) => RegisterEventView::<E>::Person(reply),
            RegisterEvent::LocalUser(reply) => RegisterEventView::<E>::LocalUser(
                match reply {
                    Ok(Ok(id)) => Ok(Ok(id)),
                    Ok(Err(query)) => Ok(Err((query.error, query.text@))),
                    Err(error) => Err(error),
                },
            ),
            RegisterEvent::PersonDeleted(reply) => RegisterEventView::<E>::PersonDeleted(reply),
            RegisterEvent::Community(reply) => RegisterEventView::<E>::Community(reply),
            RegisterEvent::Joined(reply) => RegisterEventView::<E>::Joined(reply),
            RegisterEvent::Jwt(reply) => RegisterEventView::<E>::Jwt(
                match reply {
                    Ok(jwt) => Ok(jwt@),
                    Err(error) => Err(error),
                },
            ),
        }),
{
}

/// The view of `EditSite` shows what it holds.
pub proof fn edit_site_is_shown(value: EditSite)
    ensures
        value@.name == value.name.deep_view(),
        value@.sidebar == value.sidebar.deep_view(),
        value@.description == value.description.deep_view(),
        value@.icon == value.icon.deep_view(),
        value@.banner == value.banner.deep_view(),
        value@.enable_downvotes == value.enable_downvotes,
        value@.open_registration == value.open_registration,
        value@.enable_nsfw == value.enable_nsfw,
        value@.community_creation_admin_only == value.community_creation_admin_only,
        value@.auth == value.auth@,
{
}

/// The view of `EditSiteAction` shows what it holds.
pub proof fn edit_site_action_is_shown<U, W, E>(value: EditSiteAction<U, W, E>)
    ensures
        value@ == (match value {
            EditSiteAction::ReadLocalUser { jwt } => EditSiteActionView::<U, W, E>::ReadLocalUser {
                jwt: jwt@,
            },
            EditSiteAction::CheckSlurs { text } => EditSiteActionView::<U, W, E>::CheckSlurs {
                text: text.deep_view(),
            },
            EditSiteAction::CheckAdmin { user } => EditSiteActionView::<U, W, E>::CheckAdmin { user },
            EditSiteAction::ReadSite => EditSiteActionView::<U, W, E>::ReadSite,
            EditSiteAction::OverwriteText { text } => EditSiteActionView::<U, W, E>::OverwriteText {
                text: text.deep_view(),
            },
            EditSiteAction::OverwriteUrl { text } => EditSiteActionView::<U, W, E>::OverwriteUrl {
                text: text.deep_view(),
            },
            EditSiteAction::CheckDescriptionLength { description } =>
                EditSiteActionView::<U, W, E>::CheckDescriptionLength { description: description@ },
            EditSiteAction::ReadClock => EditSiteActionView::<U, W, E>::ReadClock,
            EditSiteAction::UpdateSite { site_id, form } => EditSiteActionView::<U, W, E>::UpdateSite {
                site_id,
                form: form@,
            },
            EditSiteAction::ReadSiteView => EditSiteActionView::<U, W, E>::ReadSiteView,
            EditSiteAction::Finish { result } => EditSiteActionView::<U, W, E>::Finish { result },
        }),
{
}

/// The view of `EditSiteEvent` shows what it holds.
pub proof fn edit_site_event_is_shown<U, W, E>(value: EditSiteEvent<U, W, E>)
    ensures
        value@ == (match value {
            EditSiteEvent::LocalUser(reply) => EditSiteEventView::<U, W, E>::LocalUser(reply),
            EditSiteEvent::Checked(reply) => EditSiteEventView::<U, W, E>::Checked(reply),
            EditSiteEvent::Site(reply) => EditSiteEventView::<U, W, E>::Site(
                match reply {
                    Ok(Ok(site)) => Ok(Ok(site@)),
                    Ok(Err(error)) => Ok(Err(error)),
                    Err(error) => Err(error),
                },
            ),
            EditSiteEvent::Text(text) => EditSiteEventView::<U, W, E>::Text(text.deep_view()),
            EditSiteEvent::Url(reply) => EditSiteEventView::<U, W, E>::Url(reply),
            EditSiteEvent::Clock(now) => EditSiteEventView::<U, W, E>::Clock(now),
            EditSiteEvent::Updated(reply) => EditSiteEventView::<U, W, E>::Updated(reply),
            EditSiteEvent::SiteView(reply) => EditSiteEventView::<U, W, E>::SiteView(reply),
        }),
{
}

/// The view of `Source` shows what it holds.
pub proof fn source_is_shown(value: Source)
    ensures
        value@.content == value.content@,
        value@.media_type == value.media_type,
        value.deep_view() == value@,
{
}

/// The view of `PublicKey` shows what it holds.
pub proof fn public_key_is_shown(value: PublicKey)
    ensures
        value@.id == value.id@,
        value@.owner == value.owner,
        value@.public_key_pem == value.public_key_pem@,
{
}

/// The view of `Person` shows what it holds.
pub proof fn person_is_shown(value: Person)
    ensures
        value@.kind == value.kind,
        value@.id == value.id,
        value@.preferred_username == value.preferred_username@,
        value@.name == value.name.deep_view(),
        value@.summary == value.summary.deep_view(),
        value@.source == value.source.deep_view(),
        value@.icon == match value.icon {
            Some(picture) => Some(picture.url),
            None => None,
        },
        value@.image == match value.image {
            Some(picture) => Some(picture.url),
            None => None,
        },
        value@.matrix_user_id == value.matrix_user_id.deep_view(),
        value@.published == value.published,
        value@.outbox == value.outbox,
        value@.shared_inbox == value.endpoints.shared_inbox,
        value@.public_key == value.public_key@,
        value@.updated == value.updated,
        value@.unparsed == value.unparsed.deep_view(),
        value@.inbox == value.inbox,
{
}

/// The view of `DbPerson` shows what it holds.
pub proof fn db_person_is_shown(value: DbPerson)
    ensures
        value@.id == value.id,
        value@.name == value.name@,
        value@.display_name == value.display_name.deep_view(),
        value@.avatar == value.avatar,
        value@.banned == value.banned,
        value@.banner == value.banner,
        value@.published == value.published,
        value@.updated == value.updated,
        value@.actor_id == value.actor_id,
        value@.bio == value.bio.deep_view(),
        value@.local == value.local,
        value@.deleted == value.deleted,
        value@.admin == value.admin,
        value@.bot_account == value.bot_account,
        value@.private_key == value.private_key.deep_view(),
        value@.public_key == value.public_key@,
        value@.last_refreshed_at == value.last_refreshed_at,
        value@.inbox_url == value.inbox_url,
        value@.shared_inbox_url == value.shared_inbox_url,
        value@.matrix_user_id == value.matrix_user_id.deep_view(),
{
}

/// The view of `PersonForm` shows what it holds.
pub proof fn person_form_is_shown(value: PersonForm)
    ensures
        value@.name == value.name@,
        value@.display_name == value.display_name.deep_view(),
        value@.banned == value.banned,
        value@.deleted == value.deleted,
        value@.avatar == value.avatar,
        value@.banner == value.banner,
        value@.published == value.published,
        value@.updated == value.updated,
        value@.actor_id == value.actor_id,
        value@.bio == value.bio.deep_view(),
        value@.local == value.local,
        value@.admin == value.admin,
        value@.bot_account == value.bot_account,
        value@.private_key == value.private_key.deep_view(),
        value@.public_key == value.public_key@,
        value@.last_refreshed_at == value.last_refreshed_at,
        value@.inbox_url == value.inbox_url,
        value@.shared_inbox_url == value.shared_inbox_url,
        value@.matrix_user_id == value.matrix_user_id.deep_view(),
{
}

/// The view of `LocalUserForm` shows what it holds.
pub proof fn local_user_form_is_shown(value: LocalUserForm)
    ensures
        value@.person_id == value.person_id,
        value@.email == value.email.deep_view(),
        value@.password_encrypted == value.password_encrypted@,
        value@.show_nsfw == value.show_nsfw,
        value@.show_bot_accounts == value.show_bot_accounts,
        value@.theme == value.theme.deep_view(),
        value@.default_sort_type == value.default_sort_type,
        value@.default_listing_type == value.default_listing_type,
        value@.lang == value.lang.deep_view(),
        value@.show_avatars == value.show_avatars,
        value@.show_scores == value.show_scores,
        value@.show_read_posts == value.show_read_posts,
        value@.show_new_post_notifs == value.show_new_post_notifs,
        value@.send_notifications_to_email == value.send_notifications_to_email,
{
}

/// The view of `CommunityForm` shows what it holds.
pub proof fn community_form_is_shown(value: CommunityForm)
    ensures
        value@.name == value.name@,
        value@.title == value.title@,
        value@.description == value.description.deep_view(),
        value@.actor_id == value.actor_id,
        value@.private_key == value.private_key.deep_view(),
        value@.public_key == value.public_key@,
        value@.followers_url == value.followers_url,
        value@.inbox_url == value.inbox_url,
        value@.shared_inbox_url == value.shared_inbox_url,
{
}

/// The view of `Site` shows what it holds.
pub proof fn site_is_shown(value: Site)
    ensures
        value@.creator_id == value.creator_id,
        value@.name == value.name@,
{
}

/// The view of `SiteForm` shows what it holds.
pub proof fn site_form_is_shown(value: SiteForm)
    ensures
        value@.creator_id == value.creator_id,
        value@.name == value.name@,
        value@.sidebar == value.sidebar.deep_view(),
        value@.description == value.description.deep_view(),
        value@.icon == value.icon,
        value@.banner == value.banner,
        value@.updated == value.updated,
        value@.enable_downvotes == value.enable_downvotes,
        value@.open_registration == value.open_registration,
        value@.enable_nsfw == value.enable_nsfw,
        value@.community_creation_admin_only == value.community_creation_admin_only,
{
}

/// The view of `ApubPerson` shows what it holds.
pub proof fn apub_person_is_shown(value: ApubPerson)
    ensures
        value@ == value.0@,
{
}

/// The view of `IntoApubAction` shows what it holds.
pub proof fn into_apub_action_is_shown<E>(value: IntoApubAction<E>)
    ensures
        value@ == (match value {
            IntoApubAction::RenderMarkdown { text } => IntoApubActionView::<E>::RenderMarkdown {
                text: text@,
            },
            IntoApubAction::ConvertDateTime { naive } => IntoApubActionView::<E>::ConvertDateTime {
                naive,
            },
            IntoApubAction::GenerateOutboxUrl { actor_id } =>
                IntoApubActionView::<E>::GenerateOutboxUrl { actor_id },
            IntoApubAction::GetPublicKey { actor_id, public_key } =>
                IntoApubActionView::<E>::GetPublicKey { actor_id, public_key: public_key@ },
            IntoApubAction::Finish { result } => IntoApubActionView::<E>::Finish {
                result: match result {
                    Ok(person) => Ok(person@),
                    Err(error) => Err(error),
                },
            },
        }),
{
}

/// The view of `IntoApubEvent` shows what it holds.
pub proof fn into_apub_event_is_shown<E>(value: IntoApubEvent<E>)
    ensures
        value@ == (match value {
            IntoApubEvent::Html(html) => IntoApubEventView::<E>::Html(html@),
            IntoApubEvent::DateTime(point) => IntoApubEventView::<E>::DateTime(point),
            IntoApubEvent::Url(reply) => IntoApubEventView::<E>::Url(reply),
            IntoApubEvent::PublicKey(reply) => IntoApubEventView::<E>::PublicKey(
                match reply {
                    Ok(key) => Ok(key@),
                    Err(error) => Err(error),
                },
            ),
        }),
{
}

/// The view of `VerifyPersonAction` shows what it holds.
pub proof fn verify_person_action_is_shown<E>(value: VerifyPersonAction<E>)
    ensures
        value@ == (match value {
            VerifyPersonAction::VerifyDomainsMatch { id, expected_domain } =>
                VerifyPersonActionView::<E>::VerifyDomainsMatch { id, expected_domain },
            VerifyPersonAction::CheckIsApubIdValid { id, use_strict_allowlist } =>
                VerifyPersonActionView::<E>::CheckIsApubIdValid { id, use_strict_allowlist },
            VerifyPersonAction::CheckSlurs { text } => VerifyPersonActionView::<E>::CheckSlurs {
                text: text@,
            },
            VerifyPersonAction::CheckSlursOpt { text } => VerifyPersonActionView::<E>::CheckSlursOpt {
                text: text.deep_view(),
            },
            VerifyPersonAction::GetSummary { summary, source } =>
                VerifyPersonActionView::<E>::GetSummary {
                summary: summary.deep_view(),
                source: source.deep_view(),
            },
            VerifyPersonAction::Finish { result } => VerifyPersonActionView::<E>::Finish { result },
        }),
{
}

/// The view of `VerifyPersonEvent` shows what it holds.
pub proof fn verify_person_event_is_shown<E>(value: VerifyPersonEvent<E>)
    ensures
        value@ == (match value {
            VerifyPersonEvent::Checked(reply) => VerifyPersonEventView::<E>::Checked(reply),
            VerifyPersonEvent::Summary(bio) => VerifyPersonEventView::<E>::Summary(bio.deep_view()),
        }),
{
}

/// The view of `FromApubAction` shows what it holds.
pub proof fn from_apub_action_is_shown<E>(value: FromApubAction<E>)
    ensures
        value@ == (match value {
            FromApubAction::GetSummary { summary, source } => FromApubActionView::<E>::GetSummary {
                summary: summary.deep_view(),
                source: source.deep_view(),
            },
            FromApubAction::ReadClock => FromApubActionView::<E>::ReadClock,
            FromApubAction::Upsert { form } => FromApubActionView::<E>::Upsert { form: form@ },
            FromApubAction::Finish { result } => FromApubActionView::<E>::Finish {
                result: match result {
                    Ok(person) => Ok(person@),
                    Err(error) => Err(error),
                },
            },
        }),
{
}

/// The view of `FromApubEvent` shows what it holds.
pub proof fn from_apub_event_is_shown<E>(value: FromApubEvent<E>)
    ensures
        value@ == (match value {
            FromApubEvent::Summary(bio) => FromApubEventView::<E>::Summary(bio.deep_view()),
            FromApubEvent::Clock(now) => FromApubEventView::<E>::Clock(now),
            FromApubEvent::Person(reply) => FromApubEventView::<E>::Person(
                match reply {
                    Ok(Ok(person)) => Ok(Ok(person@)),
                    Ok(Err(error)) => Ok(Err(error)),
                    Err(error) => Err(error),
                },
            ),
        }),
{
}

/// The view of `ActivityCommonFields` shows what it holds.
pub proof fn activity_common_fields_is_shown(value: ActivityCommonFields)
    ensures
        value@.context == value.context@,
        value@.id == value.id,
        value@.actor == value.actor,
        value@.unparsed == value.unparsed.deep_view(),
{
}

/// The view of `FollowCommunity` shows what it holds.
pub proof fn follow_community_is_shown(value: FollowCommunity)
    ensures
        value@.to == value.to,
        value@.object == value.object,
        value@.kind == value.kind,
        value@.common == value.common@,
{
}

/// The view of `UndoFollowCommunity` shows what it holds.
pub proof fn undo_follow_community_is_shown(value: UndoFollowCommunity)
    ensures
        value@.to == value.to,
        value@.object == value.object@,
        value@.kind == value.kind,
        value@.common == value.common@,
{
}

/// The view of `SendUndoAction` shows what it holds.
pub proof fn send_undo_action_is_shown<E>(value: SendUndoAction<E>)
    ensures
        value@ == (match value {
            SendUndoAction::GenerateActivityId { kind } =>
                SendUndoActionView::<E>::GenerateActivityId { kind },
            SendUndoAction::SendActivity { activity, activity_id, actor, inboxes, sensitive } =>
                SendUndoActionView::<E>::SendActivity {
                activity: activity@,
                activity_id,
                actor,
                inboxes: inboxes@,
                sensitive,
            },
            SendUndoAction::Finish { result } => SendUndoActionView::<E>::Finish { result },
        }),
{
}

/// The blank form of a person names nothing and sets nothing.
pub proof fn blank_forms_set_nothing()
    ensures
        ({
            let form = PersonFormView::blank();
            &&& form.name.len() == 0
            &&& form.display_name is None
            &&& form.banned is None
            &&& form.deleted is None
            &&& form.avatar is None
            &&& form.banner is None
            &&& form.published is None
            &&& form.updated is None
            &&& form.actor_id is None
            &&& form.bio is None
            &&& form.local is None
            &&& form.admin is None
            &&& form.bot_account is None
            &&& form.private_key is None
            &&& form.public_key.len() == 0
            &&& form.last_refreshed_at is None
            &&& form.inbox_url is None
            &&& form.shared_inbox_url is None
            &&& form.matrix_user_id is None
        }),
{
}

} // verus!
