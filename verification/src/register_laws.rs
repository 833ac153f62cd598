//! What holds of every run of a registration, whatever the replies are.

use vstd::prelude::*;

use crate::error::{flat, ErrorMessage, LemmyError};
use crate::register::{
    duplicate_email, main_community, Account, EndpointType, RegisterActionView, RegisterEventView,
    RegisterSettingsView, RegisterStateView, RegisterView, MAIN_COMMUNITY_ID,
};
use crate::schema::{
    CommunityFollowerForm, CommunityFormView, CommunityId, CommunityModeratorForm, ListingType,
    LocalUserFormView, LocalUserId, PersonFormView, PersonId, SortType,
};

verus! {

/// One round of a registration: where it stands, what it asks for, and the reply.
pub struct RegisterStep<E> {
    pub state: RegisterStateView<E>,
    pub action: RegisterActionView<E>,
    pub event: RegisterEventView<E>,
}

/// Whether the round after round `i` is the one that its reply leads to.
pub open spec fn goes_on<E>(
    request: RegisterView,
    settings: RegisterSettingsView,
    run: Seq<RegisterStep<E>>,
    i: int,
) -> bool {
    &&& run[i].state.awaits(run[i].event)
    &&& (run[i + 1].state, run[i + 1].action) == request.next(
        settings,
        run[i].state,
        run[i].event,
    )
}

/// Whether `run` is how a registration can go, from its first round on. The last
/// round's reply may still be open.
pub open spec fn is_run<E>(
    request: RegisterView,
    settings: RegisterSettingsView,
    run: Seq<RegisterStep<E>>,
) -> bool {
    &&& run.len() > 0
    &&& (run[0].state, run[0].action) == request.begin::<E>()
    &&& forall|i: int|
        0 <= i < run.len() - 1 ==> #[trigger] goes_on(request, settings, run, i)
}

/// Whether an action was performed before round `i` with this reply.
pub open spec fn happened<E>(
    run: Seq<RegisterStep<E>>,
    i: int,
    action: RegisterActionView<E>,
    event: RegisterEventView<E>,
) -> bool {
    exists|j: int|
        0 <= j < i && (#[trigger] run[j]).action == action && run[j].event == event
}

/// How far a registration has come. A server without admins skips the captcha and
/// makes up for it with a moderator.
spec fn progress<E>(state: RegisterStateView<E>) -> int {
    let skipped = |no_admins: bool| if no_admins { 1int } else { 0 };
    match state {
        RegisterStateView::Site => 0,
        RegisterStateView::PasswordLength => 1,
        RegisterStateView::Honeypot => 2,
        RegisterStateView::Admins => 3,
        RegisterStateView::Captcha => 4,
        RegisterStateView::Slurs { no_admins } => 5 - skipped(no_admins),
        RegisterStateView::ActorKeypair { no_admins } => 6 - skipped(no_admins),
        RegisterStateView::ActorName { no_admins, .. } => 7 - skipped(no_admins),
        RegisterStateView::ActorId { no_admins, .. } => 8 - skipped(no_admins),
        RegisterStateView::Inbox { no_admins, .. } => 9 - skipped(no_admins),
        RegisterStateView::SharedInbox { no_admins, .. } => 10 - skipped(no_admins),
        RegisterStateView::Person { no_admins } => 11 - skipped(no_admins),
        RegisterStateView::LocalUser { no_admins, .. } => 12 - skipped(no_admins),
        RegisterStateView::PersonDeletion { .. } => 13,
        RegisterStateView::CommunityKeypair { account } => 13 - skipped(account.no_admins),
        RegisterStateView::Community { account, .. } => 14 - skipped(account.no_admins),
        RegisterStateView::CommunityActorId { account, .. } => 15 - skipped(account.no_admins),
        RegisterStateView::CommunityFollowers { account, .. } => 16 - skipped(account.no_admins),
        RegisterStateView::CommunityInbox { account, .. } => 17 - skipped(account.no_admins),
        RegisterStateView::CommunitySharedInbox { account, .. } => 18 - skipped(account.no_admins),
        RegisterStateView::NewCommunity { account } => 19 - skipped(account.no_admins),
        RegisterStateView::Follow { account, .. } => 20 - skipped(account.no_admins),
        RegisterStateView::Moderator { .. } => 20,
        RegisterStateView::Jwt => 21,
        RegisterStateView::Finished => 22,
    }
}

proof fn lemma_progress<E>(
    request: RegisterView,
    settings: RegisterSettingsView,
    run: Seq<RegisterStep<E>>,
    i: int,
)
    requires
        is_run(request, settings, run),
        0 <= i < run.len(),
    ensures
        i <= progress(run[i].state) <= 22,
    decreases i,
{
    if i > 0 {
        lemma_progress(request, settings, run, i - 1);
        assert(goes_on(request, settings, run, i - 1));
    }
}

/// Every registration ends: no run has more than twenty-three rounds, and only its
/// last one can be finished.
pub proof fn registration_ends<E>(
    request: RegisterView,
    settings: RegisterSettingsView,
    run: Seq<RegisterStep<E>>,
)
    requires
        is_run(request, settings, run),
    ensures
        run.len() <= 23,
        forall|i: int|
            0 <= i < run.len() - 1 ==> !((#[trigger] run[i]).state is Finished),
{
    lemma_progress(request, settings, run, run.len() - 1);
    assert forall|i: int| 0 <= i < run.len() - 1 implies !((#[trigger] run[i]).state
        is Finished) by {
        assert(goes_on(request, settings, run, i));
    }
}

/// Which round comes before a round of each kind, and what the registration asks
/// for in it.
spec fn came_from<E>(
    request: RegisterView,
    settings: RegisterSettingsView,
    before: RegisterStep<E>,
    state: RegisterStateView<E>,
    action: RegisterActionView<E>,
) -> bool {
    match state {
        RegisterStateView::Site => false,
        RegisterStateView::PasswordLength => {
            &&& before.state is Site
            &&& before.event matches RegisterEventView::Site(Ok(open))
            &&& open != Ok::<bool, E>(false)
            &&& action == RegisterActionView::<E>::CheckPasswordLength {
                password: request.password,
            }
        },
        RegisterStateView::Honeypot => {
            &&& before.state is PasswordLength
            &&& before.event == RegisterEventView::<E>::Checked(Ok(()))
            &&& action == RegisterActionView::<E>::CheckHoneypot { honeypot: request.honeypot }
        },
        RegisterStateView::Admins => {
            &&& before.state is Honeypot
            &&& before.event == RegisterEventView::<E>::Checked(Ok(()))
            &&& request.password == request.password_verify
            &&& action is ReadAdmins
        },
        RegisterStateView::Captcha => {
            &&& before.state is Admins
            &&& before.event matches RegisterEventView::Admins(Ok(Ok(admins)))
            &&& admins > 0
            &&& settings.captcha_enabled
            &&& action == captcha_check::<E>(request)
        },
        RegisterStateView::Slurs { no_admins } => {
            &&& {
                ||| {
                    &&& before.state is Admins
                    &&& before.event matches RegisterEventView::Admins(Ok(Ok(admins)))
                    &&& no_admins == (admins == 0)
                    &&& admins == 0 || !settings.captcha_enabled
                }
                ||| {
                    &&& before.state is Captcha
                    &&& before.event == RegisterEventView::<E>::Captcha(Ok(true))
                    &&& !no_admins
                }
            }
            &&& action == RegisterActionView::<E>::CheckSlurs { text: request.username }
        },
        RegisterStateView::ActorKeypair { no_admins } => {
            &&& before.state == RegisterStateView::<E>::Slurs { no_admins }
            &&& before.event == RegisterEventView::<E>::Checked(Ok(()))
            &&& action is GenerateActorKeypair
        },
        RegisterStateView::ActorName { no_admins, form } => {
            &&& before.state == RegisterStateView::<E>::ActorKeypair { no_admins }
            &&& before.event matches RegisterEventView::Keypair(Ok(keypair))
            &&& form == request.person(no_admins, keypair)
            &&& action == name_check::<E>(request, settings)
        },
        RegisterStateView::ActorId { no_admins, form } => {
            &&& before.state == RegisterStateView::<E>::ActorName { no_admins, form }
            &&& before.event == RegisterEventView::<E>::ActorName(true)
            &&& action == (RegisterActionView::<E>::GenerateLocalApubEndpoint {
                endpoint_type: EndpointType::Person,
                name: request.username,
                protocol_and_hostname: settings.protocol_and_hostname,
            })
        },
        RegisterStateView::Inbox { no_admins, actor_id, form } => {
            &&& before.state matches RegisterStateView::ActorId { no_admins: same, form: earlier }
            &&& same == no_admins
            &&& before.event == RegisterEventView::<E>::Url(Ok(actor_id))
            &&& form == (PersonFormView { actor_id: Some(actor_id), ..earlier })
            &&& action == (RegisterActionView::<E>::GenerateInboxUrl { actor_id })
        },
        RegisterStateView::SharedInbox { no_admins, form } => {
            &&& before.state matches RegisterStateView::Inbox {
                no_admins: same,
                actor_id,
                form: earlier,
            }
            &&& same == no_admins
            &&& before.event matches RegisterEventView::Url(Ok(inbox_url))
            &&& form == (PersonFormView { inbox_url: Some(inbox_url), ..earlier })
            &&& action == (RegisterActionView::<E>::GenerateSharedInboxUrl { actor_id })
        },
        RegisterStateView::Person { no_admins } => {
            &&& before.state matches RegisterStateView::SharedInbox {
                no_admins: same,
                form: earlier,
            }
            &&& same == no_admins
            &&& before.event matches RegisterEventView::Url(Ok(shared_inbox_url))
            &&& action == (RegisterActionView::<E>::CreatePerson {
                form: PersonFormView {
                    shared_inbox_url: Some(Some(shared_inbox_url)),
                    ..earlier
                },
            })
        },
        RegisterStateView::LocalUser { no_admins, person_id } => {
            &&& before.state == RegisterStateView::<E>::Person { no_admins }
            &&& before.event == RegisterEventView::<E>::Person(Ok(Ok(person_id)))
            &&& action == (RegisterActionView::<E>::RegisterLocalUser {
                form: request.local_user(person_id),
            })
        },
        RegisterStateView::PersonDeletion { error } => {
            &&& before.state matches RegisterStateView::LocalUser { person_id, .. }
            &&& before.event matches RegisterEventView::LocalUser(Ok(Err(_)))
            &&& action == (RegisterActionView::<E>::DeletePerson { person_id })
        },
        RegisterStateView::CommunityKeypair { account } => {
            &&& before.state == (RegisterStateView::<E>::LocalUser {
                no_admins: account.no_admins,
                person_id: account.person_id,
            })
            &&& before.event == RegisterEventView::<E>::LocalUser(Ok(Ok(account.local_user_id)))
            &&& action is GenerateActorKeypair
        },
        RegisterStateView::Community { account, keypair } => {
            &&& before.state == (RegisterStateView::<E>::CommunityKeypair { account })
            &&& before.event == RegisterEventView::<E>::Keypair(Ok(keypair))
            &&& action == main_community_read::<E>()
        },
        RegisterStateView::CommunityActorId { account, form } => {
            &&& before.state matches RegisterStateView::Community { account: same, keypair }
            &&& same == account
            &&& before.event matches RegisterEventView::Community(Ok(Err(_)))
            &&& form == main_community(keypair)
            &&& action == (RegisterActionView::<E>::GenerateLocalApubEndpoint {
                endpoint_type: EndpointType::Community,
                name: "main"@,
                protocol_and_hostname: settings.protocol_and_hostname,
            })
        },
        RegisterStateView::CommunityFollowers { account, actor_id, form } => {
            &&& before.state matches RegisterStateView::CommunityActorId {
                account: same,
                form: earlier,
            }
            &&& same == account
            &&& before.event == RegisterEventView::<E>::Url(Ok(actor_id))
            &&& form == (CommunityFormView { actor_id: Some(actor_id), ..earlier })
            &&& action == (RegisterActionView::<E>::GenerateFollowersUrl { actor_id })
        },
        RegisterStateView::CommunityInbox { account, actor_id, form } => {
            &&& before.state matches RegisterStateView::CommunityFollowers {
                account: same,
                actor_id: its_id,
                form: earlier,
            }
            &&& same == account
            &&& its_id == actor_id
            &&& action == (RegisterActionView::<E>::GenerateInboxUrl { actor_id })
            &&& before.event matches RegisterEventView::Url(Ok(followers_url))
            &&& form == (CommunityFormView { followers_url: Some(followers_url), ..earlier })
        },
        RegisterStateView::CommunitySharedInbox { account, form } => {
            &&& before.state matches RegisterStateView::CommunityInbox {
                account: same,
                actor_id,
                form: earlier,
            }
            &&& same == account
            &&& action == (RegisterActionView::<E>::GenerateSharedInboxUrl { actor_id })
            &&& before.event matches RegisterEventView::Url(Ok(inbox_url))
            &&& form == (CommunityFormView { inbox_url: Some(inbox_url), ..earlier })
        },
        RegisterStateView::NewCommunity { account } => {
            &&& before.state matches RegisterStateView::CommunitySharedInbox {
                account: same,
                form: earlier,
            }
            &&& same == account
            &&& before.event matches RegisterEventView::Url(Ok(shared_inbox_url))
            &&& action == (RegisterActionView::<E>::CreateCommunity {
                form: CommunityFormView {
                    shared_inbox_url: Some(Some(shared_inbox_url)),
                    ..earlier
                },
            })
        },
        RegisterStateView::Follow { account, community_id } => {
            &&& {
                ||| before.state matches RegisterStateView::Community { account: same, .. }
                    && same == account
                ||| before.state == (RegisterStateView::<E>::NewCommunity { account })
            }
            &&& before.event == RegisterEventView::<E>::Community(Ok(Ok(community_id)))
            &&& action == following::<E>(account.person_id, community_id)
        },
        RegisterStateView::Moderator { account } => {
            &&& before.state matches RegisterStateView::Follow { account: same, community_id }
            &&& same == account
            &&& account.no_admins
            &&& before.event == RegisterEventView::<E>::Joined(Ok(Ok(())))
            &&& action == moderating::<E>(account.person_id, community_id)
        },
        RegisterStateView::Jwt => {
            &&& before.event == RegisterEventView::<E>::Joined(Ok(Ok(())))
            &&& {
                ||| before.state matches RegisterStateView::Follow { account, .. }
                    && !account.no_admins && action == log_in::<E>(settings, account.local_user_id)
                ||| before.state matches RegisterStateView::Moderator { account } && action
                    == log_in::<E>(settings, account.local_user_id)
            }
        },
        RegisterStateView::Finished => {
            &&& action matches RegisterActionView::Finish { result }
            &&& result matches Ok(jwt) ==> before.state is Jwt && before.event
                == RegisterEventView::<E>::Jwt(Ok(jwt))
        },
    }
}

/// The check of the captcha that a request answers.
pub open spec fn captcha_check<E>(request: RegisterView) -> RegisterActionView<E> {
    RegisterActionView::CheckCaptcha {
        uuid: request.captcha_uuid.unwrap_or(Seq::empty()),
        answer: request.captcha_answer.unwrap_or(Seq::empty()),
    }
}

/// The check of the name that a request asks for.
pub open spec fn name_check<E>(
    request: RegisterView,
    settings: RegisterSettingsView,
) -> RegisterActionView<E> {
    RegisterActionView::ValidateActorName {
        name: request.username,
        max_length: settings.actor_name_max_length,
    }
}

/// Looking for the main community.
pub open spec fn main_community_read<E>() -> RegisterActionView<E> {
    RegisterActionView::ReadCommunity { community_id: CommunityId(MAIN_COMMUNITY_ID) }
}

/// Making a person a follower of a community.
pub open spec fn following<E>(person_id: PersonId, community_id: CommunityId) -> RegisterActionView<
    E,
> {
    RegisterActionView::FollowCommunity {
        form: CommunityFollowerForm { community_id, person_id, pending: false },
    }
}

/// Making a person a moderator of a community.
pub open spec fn moderating<E>(
    person_id: PersonId,
    community_id: CommunityId,
) -> RegisterActionView<E> {
    RegisterActionView::JoinModerators { form: CommunityModeratorForm { community_id, person_id } }
}

/// Signing the token that lets an account in.
pub open spec fn log_in<E>(
    settings: RegisterSettingsView,
    local_user_id: LocalUserId,
) -> RegisterActionView<E> {
    RegisterActionView::SignJwt {
        local_user_id,
        secret: settings.jwt_secret,
        hostname: settings.hostname,
    }
}

proof fn lemma_came_from<E>(
    request: RegisterView,
    settings: RegisterSettingsView,
    run: Seq<RegisterStep<E>>,
    i: int,
)
    requires
        is_run(request, settings, run),
        0 <= i < run.len(),
    ensures
        i == 0 ==> run[0].state is Site && run[0].action is ReadSite,
        i > 0 ==> came_from(request, settings, run[i - 1], run[i].state, run[i].action),
{
    if i > 0 {
        assert(goes_on(request, settings, run, i - 1));
        if let RegisterEventView::Checked(Ok(unit)) = run[i - 1].event {
            assert(unit == ());
        }
        if let RegisterEventView::Joined(Ok(Ok(unit))) = run[i - 1].event {
            assert(unit == ());
        }
    }
}

/// A person is stored only after every check has passed: the site is not closed, the
/// password is long enough and was typed twice alike, the honeypot is untouched, the
/// captcha is solved if the server has admins and asks for one, and the name is
/// free of slurs and valid. What is stored is made of the replies, and the person
/// is stored as an admin exactly if no admin was counted.
pub proof fn persons_pass_every_check<E>(
    request: RegisterView,
    settings: RegisterSettingsView,
    run: Seq<RegisterStep<E>>,
    i: int,
) -> (admins: usize)
    requires
        is_run(request, settings, run),
        0 <= i < run.len(),
        run[i].action is CreatePerson,
    ensures
        i == if admins > 0 && settings.captcha_enabled {
            11int
        } else {
            10
        },
        run[0].event matches RegisterEventView::Site(Ok(open)) && open != Ok::<bool, E>(false),
        request.password == request.password_verify,
        happened(
            run,
            i,
            RegisterActionView::CheckPasswordLength { password: request.password },
            RegisterEventView::Checked(Ok(())),
        ),
        happened(
            run,
            i,
            RegisterActionView::CheckHoneypot { honeypot: request.honeypot },
            RegisterEventView::Checked(Ok(())),
        ),
        run[3].action is ReadAdmins,
        run[3].event == RegisterEventView::<E>::Admins(Ok(Ok(admins))),
        run[i].state == (RegisterStateView::<E>::Person { no_admins: admins == 0 }),
        admins > 0 && settings.captcha_enabled ==> happened(
            run,
            i,
            captcha_check(request),
            RegisterEventView::Captcha(Ok(true)),
        ),
        happened(
            run,
            i,
            RegisterActionView::CheckSlurs { text: request.username },
            RegisterEventView::Checked(Ok(())),
        ),
        happened(run, i, name_check(request, settings), RegisterEventView::ActorName(true)),
        run[i - 5].event matches RegisterEventView::Keypair(Ok(keypair)) && {
            &&& run[i - 3].event matches RegisterEventView::Url(Ok(actor_id))
            &&& run[i - 2].event matches RegisterEventView::Url(Ok(inbox_url))
            &&& run[i - 1].event matches RegisterEventView::Url(Ok(shared_inbox_url))
            &&& run[i].action == (RegisterActionView::<E>::CreatePerson {
                form: PersonFormView {
                    actor_id: Some(actor_id),
                    inbox_url: Some(inbox_url),
                    shared_inbox_url: Some(Some(shared_inbox_url)),
                    ..request.person(admins == 0, keypair)
                },
            })
        },
{
    assert(i > 0);
    assert(goes_on(request, settings, run, i - 1));
    lemma_came_from(request, settings, run, i);
    lemma_came_from(request, settings, run, i - 1);
    lemma_came_from(request, settings, run, i - 2);
    lemma_came_from(request, settings, run, i - 3);
    lemma_came_from(request, settings, run, i - 4);
    lemma_came_from(request, settings, run, i - 5);
    lemma_came_from(request, settings, run, i - 6);
    let asked: int = if run[i - 7].state is Captcha {
        i - 8
    } else {
        i - 7
    };
    lemma_came_from(request, settings, run, i - 7);
    lemma_came_from(request, settings, run, asked);
    lemma_came_from(request, settings, run, asked - 1);
    lemma_came_from(request, settings, run, asked - 2);
    lemma_came_from(request, settings, run, asked - 3);
    assert(asked == 3);
    flat(run[3].event->Admins_0)->Ok_0
}

/// A site that is closed takes nobody: the registration ends at once.
pub proof fn closed_sites_take_nobody<E>(
    request: RegisterView,
    settings: RegisterSettingsView,
    run: Seq<RegisterStep<E>>,
)
    requires
        is_run(request, settings, run),
        run.len() > 1,
        run[0].event == RegisterEventView::<E>::Site(Ok(Ok(false))),
    ensures
        run.len() == 2,
        run[1].action == (RegisterActionView::<E>::Finish {
            result: Err(LemmyError::of_message(ErrorMessage::RegistrationClosed)),
        }),
{
    assert(goes_on(request, settings, run, 0));
    registration_ends(request, settings, run);
}

/// Whoever types two different passwords gets no account: the server does not even
/// look for its admins, let alone store anything.
pub proof fn different_passwords_get_no_account<E>(
    request: RegisterView,
    settings: RegisterSettingsView,
    run: Seq<RegisterStep<E>>,
    i: int,
)
    requires
        is_run(request, settings, run),
        request.password != request.password_verify,
        0 <= i < run.len(),
    ensures
        match run[i].action {
            RegisterActionView::ReadSite => true,
            RegisterActionView::CheckPasswordLength { .. } => true,
            RegisterActionView::CheckHoneypot { .. } => true,
            RegisterActionView::Finish { result } => result is Err,
            _ => false,
        },
        run[i].action is Finish || run[i].state is Site || run[i].state is PasswordLength
            || run[i].state is Honeypot,
    decreases i,
{
    if i > 0 {
        different_passwords_get_no_account(request, settings, run, i - 1);
        assert(goes_on(request, settings, run, i - 1));
        if i > 1 {
            assert(goes_on(request, settings, run, i - 2));
        }
    }
}

/// Whoever gets no account is told why: each message comes with the reply or the rule that
/// it names, and an error without a message is the one that the last call reported.
pub proof fn messages_tell_what_went_wrong<E>(
    request: RegisterView,
    settings: RegisterSettingsView,
    run: Seq<RegisterStep<E>>,
    end: int,
    error: LemmyError<E>,
)
    requires
        is_run(request, settings, run),
        0 <= end < run.len(),
        run[end].action == (RegisterActionView::<E>::Finish { result: Err(error) }),
    ensures
        end > 0,
        error.message is None ==> (error.cause matches Some(cause) && reports(
            run[end - 1].event,
            cause,
        )),
        error.message == Some(ErrorMessage::RegistrationClosed) <==> run[end - 1].event
            == RegisterEventView::<E>::Site(Ok(Ok(false))),
        error.message == Some(ErrorMessage::PasswordsDontMatch) <==> {
            &&& run[end - 1].action is CheckHoneypot
            &&& run[end - 1].event matches RegisterEventView::Checked(Ok(_))
            &&& request.password != request.password_verify
        },
        error.message == Some(ErrorMessage::CaptchaIncorrect) <==> run[end - 1].event
            == RegisterEventView::<E>::Captcha(Ok(false)),
        error.message == Some(ErrorMessage::InvalidUsername) <==> run[end - 1].event
            == RegisterEventView::<E>::ActorName(false),
        error.message == Some(ErrorMessage::UserAlreadyExists) <==> {
            ||| run[end - 1].event matches RegisterEventView::Person(Ok(Err(_)))
            ||| {
                &&& run[end - 1].event matches RegisterEventView::PersonDeleted(Ok(Ok(_)))
                &&& run[end - 2].event matches RegisterEventView::LocalUser(Ok(Err((_, text))))
                &&& text != duplicate_email()
            }
        },
        error.message == Some(ErrorMessage::EmailAlreadyExists) <==> {
            &&& run[end - 1].event matches RegisterEventView::PersonDeleted(Ok(Ok(_)))
            &&& run[end - 2].event matches RegisterEventView::LocalUser(Ok(Err((_, text))))
            &&& text == duplicate_email()
        },
        error.message == Some(ErrorMessage::CommunityFollowerAlreadyExists) <==> {
            &&& run[end - 1].action is FollowCommunity
            &&& run[end - 1].event matches RegisterEventView::Joined(Ok(Err(_)))
        },
        error.message == Some(ErrorMessage::CommunityModeratorAlreadyExists) <==> {
            &&& run[end - 1].action is JoinModerators
            &&& run[end - 1].event matches RegisterEventView::Joined(Ok(Err(_)))
        },
        error.message != Some(ErrorMessage::CouldntUpdateSite),
{
    assert(end > 0);
    assert(goes_on(request, settings, run, end - 1));
    lemma_came_from(request, settings, run, end - 1);
    if end > 1 {
        assert(goes_on(request, settings, run, end - 2));
        lemma_came_from(request, settings, run, end - 2);
    }
}

/// Whether `error` is what a call reported with `event`.
pub open spec fn reports<E>(event: RegisterEventView<E>, error: E) -> bool {
    match event {
        RegisterEventView::Site(Err(given)) => given == error,
        RegisterEventView::Checked(Err(given)) => given == error,
        RegisterEventView::Admins(reply) => flat(reply) matches Err(given) && given == error,
        RegisterEventView::Captcha(Err(given)) => given == error,
        RegisterEventView::Keypair(Err(given)) => given == error,
        RegisterEventView::Url(Err(given)) => given == error,
        RegisterEventView::Person(Err(given)) => given == error,
        RegisterEventView::LocalUser(Err(given)) => given == error,
        RegisterEventView::PersonDeleted(reply) => flat(reply) matches Err(given) && given
            == error,
        RegisterEventView::Community(reply) => flat(reply) matches Err(given) && given == error,
        RegisterEventView::Joined(Err(given)) => given == error,
        RegisterEventView::Jwt(Err(given)) => given == error,
        _ => false,
    }
}

/// If the account of a stored person cannot be stored, that person is deleted again
/// and the registration ends with an error, which tells a taken email address from
/// a taken name.
pub proof fn failed_accounts_are_taken_back<E>(
    request: RegisterView,
    settings: RegisterSettingsView,
    run: Seq<RegisterStep<E>>,
    i: int,
    error: E,
    text: Seq<char>,
)
    requires
        is_run(request, settings, run),
        0 <= i < run.len() - 1,
        run[i].event == RegisterEventView::<E>::LocalUser(Ok(Err((error, text)))),
    ensures
        i > 0,
        run[i - 1].action is CreatePerson,
        run[i - 1].event matches RegisterEventView::Person(Ok(Ok(person_id))) && run[i + 1].action
            == (RegisterActionView::<E>::DeletePerson { person_id }),
        run.len() <= i + 3,
        run.len() == i + 3 ==> (run[i + 1].event matches RegisterEventView::PersonDeleted(reply)
            && run[i + 2].action == (RegisterActionView::<E>::Finish {
            result: Err(
                match flat(reply) {
                    Err(failed) => LemmyError::of_cause(failed),
                    Ok(_) => LemmyError::of_both(
                        error,
                        if text == duplicate_email() {
                            ErrorMessage::EmailAlreadyExists
                        } else {
                            ErrorMessage::UserAlreadyExists
                        },
                    ),
                },
            ),
        })),
{
    assert(goes_on(request, settings, run, i));
    lemma_came_from(request, settings, run, i);
    lemma_came_from(request, settings, run, i - 1);
    registration_ends(request, settings, run);
    if run.len() > i + 2 {
        assert(goes_on(request, settings, run, i + 1));
        assert(run[i + 2].state is Finished);
    }
}

/// Nobody is deleted but the person that the same registration stored.
pub proof fn only_the_new_person_is_deleted<E>(
    request: RegisterView,
    settings: RegisterSettingsView,
    run: Seq<RegisterStep<E>>,
    i: int,
    person_id: PersonId,
)
    requires
        is_run(request, settings, run),
        0 <= i < run.len(),
        run[i].action == (RegisterActionView::<E>::DeletePerson { person_id }),
    ensures
        i >= 2,
        run[i - 2].action is CreatePerson,
        run[i - 2].event == RegisterEventView::<E>::Person(Ok(Ok(person_id))),
        run[i - 1].event matches RegisterEventView::LocalUser(Ok(Err(_))),
{
    assert(i > 0);
    assert(goes_on(request, settings, run, i - 1));
    lemma_came_from(request, settings, run, i);
    lemma_came_from(request, settings, run, i - 1);
    lemma_came_from(request, settings, run, i - 2);
}

/// A registration stores one person at most.
pub proof fn one_person_at_most<E>(
    request: RegisterView,
    settings: RegisterSettingsView,
    run: Seq<RegisterStep<E>>,
    i: int,
    j: int,
)
    requires
        is_run(request, settings, run),
        0 <= i < run.len(),
        0 <= j < run.len(),
        run[i].action is CreatePerson,
        run[j].action is CreatePerson,
    ensures
        i == j,
{
    let a = persons_pass_every_check(request, settings, run, i);
    let b = persons_pass_every_check(request, settings, run, j);
    assert(a == b);
}

/// The main community is made only if it could not be found, and it is made of the
/// replies.
pub proof fn main_community_is_made_if_missing<E>(
    request: RegisterView,
    settings: RegisterSettingsView,
    run: Seq<RegisterStep<E>>,
    i: int,
)
    requires
        is_run(request, settings, run),
        0 <= i < run.len(),
        run[i].action is CreateCommunity,
    ensures
        i >= 6,
        run[i - 5].action == main_community_read::<E>(),
        run[i - 5].event matches RegisterEventView::Community(Ok(Err(_))),
        run[i - 6].event matches RegisterEventView::Keypair(Ok(keypair)) && {
            &&& run[i - 4].event matches RegisterEventView::Url(Ok(actor_id))
            &&& run[i - 3].event matches RegisterEventView::Url(Ok(followers_url))
            &&& run[i - 2].event matches RegisterEventView::Url(Ok(inbox_url))
            &&& run[i - 1].event matches RegisterEventView::Url(Ok(shared_inbox_url))
            &&& run[i].action == (RegisterActionView::<E>::CreateCommunity {
                form: CommunityFormView {
                    actor_id: Some(actor_id),
                    followers_url: Some(followers_url),
                    inbox_url: Some(inbox_url),
                    shared_inbox_url: Some(Some(shared_inbox_url)),
                    ..main_community(keypair)
                },
            })
        },
{
    assert(i > 0);
    assert(goes_on(request, settings, run, i - 1));
    lemma_came_from(request, settings, run, i);
    lemma_came_from(request, settings, run, i - 1);
    lemma_came_from(request, settings, run, i - 2);
    lemma_came_from(request, settings, run, i - 3);
    lemma_came_from(request, settings, run, i - 4);
    lemma_came_from(request, settings, run, i - 5);
    lemma_came_from(request, settings, run, i - 6);
}

/// What a registration knows of the admins of the server: whether there were none.
spec fn known_no_admins<E>(state: RegisterStateView<E>) -> Option<bool> {
    match state {
        RegisterStateView::Slurs { no_admins } => Some(no_admins),
        RegisterStateView::ActorKeypair { no_admins } => Some(no_admins),
        RegisterStateView::ActorName { no_admins, .. } => Some(no_admins),
        RegisterStateView::ActorId { no_admins, .. } => Some(no_admins),
        RegisterStateView::Inbox { no_admins, .. } => Some(no_admins),
        RegisterStateView::SharedInbox { no_admins, .. } => Some(no_admins),
        RegisterStateView::Person { no_admins } => Some(no_admins),
        RegisterStateView::LocalUser { no_admins, .. } => Some(no_admins),
        RegisterStateView::CommunityKeypair { account } => Some(account.no_admins),
        RegisterStateView::Community { account, .. } => Some(account.no_admins),
        RegisterStateView::CommunityActorId { account, .. } => Some(account.no_admins),
        RegisterStateView::CommunityFollowers { account, .. } => Some(account.no_admins),
        RegisterStateView::CommunityInbox { account, .. } => Some(account.no_admins),
        RegisterStateView::CommunitySharedInbox { account, .. } => Some(account.no_admins),
        RegisterStateView::NewCommunity { account } => Some(account.no_admins),
        RegisterStateView::Follow { account, .. } => Some(account.no_admins),
        RegisterStateView::Moderator { account } => Some(account.no_admins),
        _ => None,
    }
}

proof fn lemma_admins_were_counted<E>(
    request: RegisterView,
    settings: RegisterSettingsView,
    run: Seq<RegisterStep<E>>,
    i: int,
) -> (at: int)
    requires
        is_run(request, settings, run),
        0 <= i < run.len(),
        known_no_admins(run[i].state) is Some,
    ensures
        0 <= at < i,
        run[at].action is ReadAdmins,
        run[at].event matches RegisterEventView::Admins(Ok(Ok(admins))) && known_no_admins(
            run[i].state,
        ) == Some(admins == 0),
    decreases i,
{
    lemma_came_from(request, settings, run, i);
    if known_no_admins(run[i - 1].state) is Some {
        lemma_admins_were_counted(request, settings, run, i - 1)
    } else {
        lemma_came_from(request, settings, run, i - 1);
        if run[i - 1].state is Captcha {
            lemma_came_from(request, settings, run, i - 2);
            i - 2
        } else {
            i - 1
        }
    }
}

/// A person joins the moderators only if no admin was counted. `at` is the round that counted
/// them.
pub proof fn moderators_join_servers_without_admins<E>(
    request: RegisterView,
    settings: RegisterSettingsView,
    run: Seq<RegisterStep<E>>,
    i: int,
) -> (at: int)
    requires
        is_run(request, settings, run),
        0 <= i < run.len(),
        run[i].action is JoinModerators,
    ensures
        0 <= at < i,
        run[at].action is ReadAdmins,
        run[at].event == RegisterEventView::<E>::Admins(Ok(Ok(0))),
{
    assert(i > 0);
    assert(goes_on(request, settings, run, i - 1));
    lemma_came_from(request, settings, run, i);
    lemma_admins_were_counted(request, settings, run, i)
}

/// Whoever is let in has both rows stored and follows the main community, whether it
/// was found or made. It also moderates it exactly if no admin was counted. The token is signed for the account that was stored.
///
/// `stored` is the round that stored the person, `followed` the one that made it a
/// follower.
pub proof fn accounts_follow_the_main_community<E>(
    request: RegisterView,
    settings: RegisterSettingsView,
    run: Seq<RegisterStep<E>>,
    end: int,
    jwt: Seq<char>,
) -> (res: (int, int, Account, CommunityId))
    requires
        is_run(request, settings, run),
        0 <= end < run.len(),
        run[end].action == (RegisterActionView::<E>::Finish { result: Ok(jwt) }),
    ensures
        ({
            let (stored, followed, account, community_id) = res;
            &&& 0 <= stored
            &&& stored + 1 < followed < end
            &&& run[stored].action is CreatePerson
            &&& run[stored].event == RegisterEventView::<E>::Person(Ok(Ok(account.person_id)))
            &&& run[stored + 1].action == (RegisterActionView::<E>::RegisterLocalUser {
                form: request.local_user(account.person_id),
            })
            &&& run[stored + 1].event == RegisterEventView::<E>::LocalUser(
                Ok(Ok(account.local_user_id)),
            )
            &&& run[followed - 1].action == main_community_read::<E>() || run[followed - 1].action
                is CreateCommunity
            &&& run[followed - 1].event == RegisterEventView::<E>::Community(Ok(Ok(community_id)))
            &&& run[followed].action == following::<E>(account.person_id, community_id)
            &&& run[followed].event == RegisterEventView::<E>::Joined(Ok(Ok(())))
            &&& run[3].event matches RegisterEventView::Admins(Ok(Ok(admins)))
            &&& account.no_admins == (admins == 0)
            &&& if account.no_admins {
                &&& followed == end - 3
                &&& run[end - 2].action == moderating::<E>(account.person_id, community_id)
                &&& run[end - 2].event == RegisterEventView::<E>::Joined(Ok(Ok(())))
            } else {
                followed == end - 2
            }
            &&& run[end - 1].action == log_in::<E>(settings, account.local_user_id)
            &&& run[end - 1].event == RegisterEventView::<E>::Jwt(Ok(jwt))
        }),
{
    assert(end > 0);
    assert(goes_on(request, settings, run, end - 1));
    lemma_came_from(request, settings, run, end);
    lemma_came_from(request, settings, run, end - 1);
    let followed: int = if run[end - 2].state is Moderator {
        end - 3
    } else {
        end - 2
    };
    lemma_came_from(request, settings, run, end - 2);
    lemma_came_from(request, settings, run, followed);
    let account = run[followed].state->Follow_account;
    let community_id = run[followed].state->Follow_community_id;
    let looked: int = if run[followed - 1].state is Community {
        followed - 1
    } else {
        followed - 6
    };
    lemma_came_from(request, settings, run, followed - 1);
    if run[followed - 1].state is NewCommunity {
        lemma_came_from(request, settings, run, followed - 2);
        lemma_came_from(request, settings, run, followed - 3);
        lemma_came_from(request, settings, run, followed - 4);
        lemma_came_from(request, settings, run, followed - 5);
    }
    lemma_came_from(request, settings, run, looked);
    lemma_came_from(request, settings, run, looked - 1);
    lemma_came_from(request, settings, run, looked - 2);
    let stored = looked - 3;
    lemma_came_from(request, settings, run, stored);
    let admins = persons_pass_every_check(request, settings, run, stored);
    (stored, followed, account, community_id)
}

/// An account is stored with what the visitor sent: the password as it was typed, the email
/// address if there is one, and whether it wants to see everything. It belongs to the person
/// that was stored in the round before, and everything else starts with the same choices for
/// all.
pub proof fn accounts_are_stored_as_asked<E>(
    request: RegisterView,
    settings: RegisterSettingsView,
    run: Seq<RegisterStep<E>>,
    i: int,
    form: LocalUserFormView,
)
    requires
        is_run(request, settings, run),
        0 <= i < run.len(),
        run[i].action == (RegisterActionView::<E>::RegisterLocalUser { form }),
    ensures
        form.password_encrypted == request.password,
        form.password_encrypted == request.password_verify,
        form.email == Some(request.email),
        form.show_nsfw == Some(request.show_nsfw),
        i > 0,
        run[i - 1].action is CreatePerson,
        run[i - 1].event == RegisterEventView::<E>::Person(Ok(Ok(form.person_id))),
        form.show_bot_accounts == Some(true),
        form.theme == Some("browser"@),
        form.default_sort_type == Some(SortType::Active),
        form.default_listing_type == Some(ListingType::Subscribed),
        form.lang == Some("browser"@),
        form.show_avatars == Some(true),
        form.show_scores == Some(true),
        form.show_read_posts == Some(true),
        form.show_new_post_notifs == Some(false),
        form.send_notifications_to_email == Some(false),
{
    assert(i > 0);
    assert(goes_on(request, settings, run, i - 1));
    lemma_came_from(request, settings, run, i);
    lemma_came_from(request, settings, run, i - 1);
    let admins = persons_pass_every_check(request, settings, run, i - 1);
}

/// A person is stored under the name that the visitor asked for, with the first keys that were
/// made and the addresses that were made for it, as an admin exactly if no admin was counted.
/// Nothing else of it is set.
pub proof fn persons_are_stored_as_asked<E>(
    request: RegisterView,
    settings: RegisterSettingsView,
    run: Seq<RegisterStep<E>>,
    i: int,
    form: PersonFormView,
)
    requires
        is_run(request, settings, run),
        0 <= i < run.len(),
        run[i].action == (RegisterActionView::<E>::CreatePerson { form }),
    ensures
        i >= 10,
        form.name == request.username,
        run[i - 5].action is GenerateActorKeypair,
        run[i - 5].event matches RegisterEventView::Keypair(Ok(keypair)) && form.private_key
            == Some(Some(keypair.private_key)) && form.public_key == keypair.public_key,
        run[i - 3].action == (RegisterActionView::<E>::GenerateLocalApubEndpoint {
            endpoint_type: EndpointType::Person,
            name: request.username,
            protocol_and_hostname: settings.protocol_and_hostname,
        }),
        run[i - 3].event matches RegisterEventView::Url(Ok(actor_id)) && {
            &&& form.actor_id == Some(actor_id)
            &&& run[i - 2].action == (RegisterActionView::<E>::GenerateInboxUrl { actor_id })
            &&& run[i - 1].action == (RegisterActionView::<E>::GenerateSharedInboxUrl { actor_id })
        },
        run[i - 2].event matches RegisterEventView::Url(Ok(inbox_url)) && form.inbox_url == Some(
            inbox_url,
        ),
        run[i - 1].event matches RegisterEventView::Url(Ok(shared_inbox_url))
            && form.shared_inbox_url == Some(Some(shared_inbox_url)),
        run[3].action is ReadAdmins,
        run[3].event matches RegisterEventView::Admins(Ok(Ok(admins))) && form.admin == Some(
            admins == 0,
        ),
        form.display_name is None,
        form.banned is None,
        form.deleted is None,
        form.avatar is None,
        form.banner is None,
        form.published is None,
        form.updated is None,
        form.bio is None,
        form.local is None,
        form.bot_account is None,
        form.last_refreshed_at is None,
        form.matrix_user_id is None,
{
    let admins = persons_pass_every_check(request, settings, run, i);
    lemma_came_from(request, settings, run, i);
    lemma_came_from(request, settings, run, i - 1);
    lemma_came_from(request, settings, run, i - 2);
    lemma_came_from(request, settings, run, i - 3);
    lemma_came_from(request, settings, run, i - 4);
    lemma_came_from(request, settings, run, i - 5);
}

/// A main community is made only after looking for the community with id 2 failed. It has
/// the name `main`, the keys that were made after the account was stored, and the addresses
/// that were made for it.
pub proof fn the_main_community_is_made_as_it_should_be<E>(
    request: RegisterView,
    settings: RegisterSettingsView,
    run: Seq<RegisterStep<E>>,
    i: int,
    form: CommunityFormView,
)
    requires
        is_run(request, settings, run),
        0 <= i < run.len(),
        run[i].action == (RegisterActionView::<E>::CreateCommunity { form }),
    ensures
        i >= 7,
        run[i - 7].action is RegisterLocalUser,
        run[i - 5].action == (RegisterActionView::<E>::ReadCommunity {
            community_id: CommunityId(2),
        }),
        run[i - 5].event matches RegisterEventView::Community(Ok(Err(_))),
        form.name == "main"@,
        form.title == "The Default Community"@,
        form.description == Some("The Default Community"@),
        run[i - 6].action is GenerateActorKeypair,
        run[i - 6].event matches RegisterEventView::Keypair(Ok(keypair)) && form.private_key
            == Some(Some(keypair.private_key)) && form.public_key == keypair.public_key,
        run[i - 4].action == (RegisterActionView::<E>::GenerateLocalApubEndpoint {
            endpoint_type: EndpointType::Community,
            name: "main"@,
            protocol_and_hostname: settings.protocol_and_hostname,
        }),
        run[i - 4].event matches RegisterEventView::Url(Ok(actor_id)) && {
            &&& form.actor_id == Some(actor_id)
            &&& run[i - 3].action == (RegisterActionView::<E>::GenerateFollowersUrl { actor_id })
            &&& run[i - 2].action == (RegisterActionView::<E>::GenerateInboxUrl { actor_id })
            &&& run[i - 1].action == (RegisterActionView::<E>::GenerateSharedInboxUrl { actor_id })
        },
        run[i - 3].event matches RegisterEventView::Url(Ok(followers_url)) && form.followers_url
            == Some(followers_url),
        run[i - 2].event matches RegisterEventView::Url(Ok(inbox_url)) && form.inbox_url == Some(
            inbox_url,
        ),
        run[i - 1].event matches RegisterEventView::Url(Ok(shared_inbox_url))
            && form.shared_inbox_url == Some(Some(shared_inbox_url)),
{
    main_community_is_made_if_missing(request, settings, run, i);
    lemma_came_from(request, settings, run, i);
    lemma_came_from(request, settings, run, i - 1);
    lemma_came_from(request, settings, run, i - 2);
    lemma_came_from(request, settings, run, i - 3);
    lemma_came_from(request, settings, run, i - 4);
    lemma_came_from(request, settings, run, i - 5);
    lemma_came_from(request, settings, run, i - 6);
    lemma_came_from(request, settings, run, i - 7);
}

/// The checks of a visitor come in one order, each on what the visitor sent, and the first
/// that fails decides. A site without a row is open, and only a server that has admins asks
/// for a captcha.
pub proof fn visitors_are_checked_in_order<E>(
    request: RegisterView,
    settings: RegisterSettingsView,
    run: Seq<RegisterStep<E>>,
    i: int,
)
    requires
        is_run(request, settings, run),
        0 <= i < run.len() - 1,
    ensures
        run[0].action is ReadSite,
        !(run[i].action is Finish),
        ({
            let next = run[i + 1].action;
            match (run[i].action, run[i].event) {
            (RegisterActionView::ReadSite, RegisterEventView::Site(Err(error))) => next == (RegisterActionView::<E>::Finish {
                result: Err(LemmyError { message: None, cause: Some(error) }),
            }),
            (RegisterActionView::ReadSite, RegisterEventView::Site(Ok(Ok(false)))) => next == (RegisterActionView::<E>::Finish {
                result: Err(LemmyError { message: Some(ErrorMessage::RegistrationClosed), cause: None }),
            }),
            (RegisterActionView::ReadSite, RegisterEventView::Site(Ok(_))) => next == (RegisterActionView::<E>::CheckPasswordLength {
                password: request.password,
            }),
            (RegisterActionView::CheckPasswordLength { .. }, RegisterEventView::Checked(Err(error))) => next == (RegisterActionView::<E>::Finish {
                result: Err(LemmyError { message: None, cause: Some(error) }),
            }),
            (RegisterActionView::CheckPasswordLength { .. }, RegisterEventView::Checked(Ok(_))) => next == (RegisterActionView::<E>::CheckHoneypot {
                honeypot: request.honeypot,
            }),
            (RegisterActionView::CheckHoneypot { .. }, RegisterEventView::Checked(Err(error))) => next == (RegisterActionView::<E>::Finish {
                result: Err(LemmyError { message: None, cause: Some(error) }),
            }),
            (RegisterActionView::CheckHoneypot { .. }, RegisterEventView::Checked(Ok(_))) => if request.password == request.password_verify {
                next is ReadAdmins
            } else {
                next == (RegisterActionView::<E>::Finish {
                result: Err(LemmyError { message: Some(ErrorMessage::PasswordsDontMatch), cause: None }),
            })
            },
            (RegisterActionView::ReadAdmins, RegisterEventView::Admins(Err(error))) => next == (RegisterActionView::<E>::Finish {
                result: Err(LemmyError { message: None, cause: Some(error) }),
            }),
            (RegisterActionView::ReadAdmins, RegisterEventView::Admins(Ok(Err(error)))) => next == (RegisterActionView::<E>::Finish {
                result: Err(LemmyError { message: None, cause: Some(error) }),
            }),
            (RegisterActionView::ReadAdmins, RegisterEventView::Admins(Ok(Ok(admins)))) => if admins > 0 && settings.captcha_enabled {
                next == (RegisterActionView::<E>::CheckCaptcha {
                    uuid: match request.captcha_uuid {
                        Some(uuid) => uuid,
                        None => Seq::empty(),
                    },
                    answer: match request.captcha_answer {
                        Some(answer) => answer,
                        None => Seq::empty(),
                    },
                })
            } else {
                next == (RegisterActionView::<E>::CheckSlurs { text: request.username })
            },
            (RegisterActionView::CheckCaptcha { .. }, RegisterEventView::Captcha(Err(error))) => next == (RegisterActionView::<E>::Finish {
                result: Err(LemmyError { message: None, cause: Some(error) }),
            }),
            (RegisterActionView::CheckCaptcha { .. }, RegisterEventView::Captcha(Ok(false))) => next == (RegisterActionView::<E>::Finish {
                result: Err(LemmyError { message: Some(ErrorMessage::CaptchaIncorrect), cause: None }),
            }),
            (RegisterActionView::CheckCaptcha { .. }, RegisterEventView::Captcha(Ok(true))) => next == (RegisterActionView::<E>::CheckSlurs { text: request.username }),
            (RegisterActionView::CheckSlurs { .. }, RegisterEventView::Checked(Err(error))) => next == (RegisterActionView::<E>::Finish {
                result: Err(LemmyError { message: None, cause: Some(error) }),
            }),
            (RegisterActionView::CheckSlurs { .. }, RegisterEventView::Checked(Ok(_))) => next is GenerateActorKeypair,
            (RegisterActionView::ValidateActorName { .. }, RegisterEventView::ActorName(false)) => next == (RegisterActionView::<E>::Finish {
                result: Err(LemmyError { message: Some(ErrorMessage::InvalidUsername), cause: None }),
            }),
            (RegisterActionView::ValidateActorName { .. }, RegisterEventView::ActorName(true)) => next == (RegisterActionView::<E>::GenerateLocalApubEndpoint {
                endpoint_type: EndpointType::Person,
                name: request.username,
                protocol_and_hostname: settings.protocol_and_hostname,
            }),
            _ => true,
            }
        }),
{
    assert(goes_on(request, settings, run, i));
    lemma_came_from(request, settings, run, i);
}

/// The person gets its keys, its name checked and its addresses before it is stored; the main
/// community, if it is made, gets its own in the same way.
pub proof fn actors_get_keys_and_addresses<E>(
    request: RegisterView,
    settings: RegisterSettingsView,
    run: Seq<RegisterStep<E>>,
    i: int,
)
    requires
        is_run(request, settings, run),
        0 <= i < run.len() - 1,
    ensures
        ({
            let next = run[i + 1].action;
            match (run[i].action, run[i].event) {
            (RegisterActionView::GenerateActorKeypair, RegisterEventView::Keypair(Err(error))) => next == (RegisterActionView::<E>::Finish {
                result: Err(LemmyError { message: None, cause: Some(error) }),
            }),
            (RegisterActionView::GenerateActorKeypair, RegisterEventView::Keypair(Ok(_))) => if run[i - 1].action is CheckSlurs {
                next == (RegisterActionView::<E>::ValidateActorName {
                    name: request.username,
                    max_length: settings.actor_name_max_length,
                })
            } else {
                &&& run[i - 1].action is RegisterLocalUser
                &&& next == (RegisterActionView::<E>::ReadCommunity { community_id: CommunityId(2) })
            },
            (RegisterActionView::GenerateLocalApubEndpoint { .. }, RegisterEventView::Url(Err(error))) => next == (RegisterActionView::<E>::Finish {
                result: Err(LemmyError { message: None, cause: Some(error) }),
            }),
            (RegisterActionView::GenerateLocalApubEndpoint { endpoint_type, .. }, RegisterEventView::Url(Ok(actor_id))) => match endpoint_type {
                EndpointType::Person => next == (RegisterActionView::<E>::GenerateInboxUrl { actor_id }),
                EndpointType::Community => next == (RegisterActionView::<E>::GenerateFollowersUrl {
                    actor_id,
                }),
            },
            (RegisterActionView::GenerateFollowersUrl { .. }, RegisterEventView::Url(Err(error))) => next == (RegisterActionView::<E>::Finish {
                result: Err(LemmyError { message: None, cause: Some(error) }),
            }),
            (RegisterActionView::GenerateFollowersUrl { actor_id }, RegisterEventView::Url(Ok(_))) => next == (RegisterActionView::<E>::GenerateInboxUrl {
                actor_id,
            }),
            (RegisterActionView::GenerateInboxUrl { .. }, RegisterEventView::Url(Err(error))) => next == (RegisterActionView::<E>::Finish {
                result: Err(LemmyError { message: None, cause: Some(error) }),
            }),
            (RegisterActionView::GenerateInboxUrl { actor_id }, RegisterEventView::Url(Ok(_))) => next == (RegisterActionView::<E>::GenerateSharedInboxUrl {
                actor_id,
            }),
            (RegisterActionView::GenerateSharedInboxUrl { .. }, RegisterEventView::Url(Err(error))) => next == (RegisterActionView::<E>::Finish {
                result: Err(LemmyError { message: None, cause: Some(error) }),
            }),
            (RegisterActionView::GenerateSharedInboxUrl { .. }, RegisterEventView::Url(Ok(_))) => if run[i - 2].action
                is GenerateLocalApubEndpoint {
                next is CreatePerson
            } else {
                next is CreateCommunity
            },
            _ => true,
            }
        }),
{
    assert(goes_on(request, settings, run, i));
    lemma_came_from(request, settings, run, i);
    if i > 0 {
        lemma_came_from(request, settings, run, i - 1);
    }
    if i > 1 {
        lemma_came_from(request, settings, run, i - 2);
    }
}

/// Once the person is stored the account is; if that fails, the person is deleted again and the
/// visitor is told whether the email address or the name was taken.
pub proof fn rows_are_stored_or_taken_back<E>(
    request: RegisterView,
    settings: RegisterSettingsView,
    run: Seq<RegisterStep<E>>,
    i: int,
)
    requires
        is_run(request, settings, run),
        0 <= i < run.len() - 1,
    ensures
        ({
            let next = run[i + 1].action;
            match (run[i].action, run[i].event) {
            (RegisterActionView::CreatePerson { .. }, RegisterEventView::Person(Err(error))) => next == (RegisterActionView::<E>::Finish {
                result: Err(LemmyError { message: None, cause: Some(error) }),
            }),
            (RegisterActionView::CreatePerson { .. }, RegisterEventView::Person(Ok(Err(error)))) => next == (RegisterActionView::<E>::Finish {
                result: Err(
                    LemmyError { message: Some(ErrorMessage::UserAlreadyExists), cause: Some(error) },
                ),
            }),
            (RegisterActionView::CreatePerson { .. }, RegisterEventView::Person(Ok(Ok(_)))) => next is RegisterLocalUser,
            (RegisterActionView::RegisterLocalUser { .. }, RegisterEventView::LocalUser(Err(error))) => next == (RegisterActionView::<E>::Finish {
                result: Err(LemmyError { message: None, cause: Some(error) }),
            }),
            (RegisterActionView::RegisterLocalUser { form }, RegisterEventView::LocalUser(Ok(Err(_)))) => next == (RegisterActionView::<E>::DeletePerson {
                person_id: form.person_id,
            }),
            (RegisterActionView::RegisterLocalUser { .. }, RegisterEventView::LocalUser(Ok(Ok(_)))) => next is GenerateActorKeypair,
            (RegisterActionView::DeletePerson { .. }, RegisterEventView::PersonDeleted(Err(error))) => next == (RegisterActionView::<E>::Finish {
                result: Err(LemmyError { message: None, cause: Some(error) }),
            }),
            (RegisterActionView::DeletePerson { .. }, RegisterEventView::PersonDeleted(Ok(Err(error)))) => next == (RegisterActionView::<E>::Finish {
                result: Err(LemmyError { message: None, cause: Some(error) }),
            }),
            (RegisterActionView::DeletePerson { .. }, RegisterEventView::PersonDeleted(Ok(Ok(_)))) => {
                &&& run[i - 1].event matches RegisterEventView::LocalUser(Ok(Err((error, text))))
                &&& next == (RegisterActionView::<E>::Finish {
                    result: Err(
                        LemmyError {
                            message: Some(
                                if text
                                    == "duplicate key value violates unique constraint \"local_user_email_key\""@ {
                                    ErrorMessage::EmailAlreadyExists
                                } else {
                                    ErrorMessage::UserAlreadyExists
                                },
                            ),
                            cause: Some(error),
                        },
                    ),
                })
            },
            _ => true,
            }
        }),
{
    assert(goes_on(request, settings, run, i));
    lemma_came_from(request, settings, run, i);
    if i > 0 {
        lemma_came_from(request, settings, run, i - 1);
        if let RegisterEventView::LocalUser(Ok(Err((error, text)))) = run[i - 1].event {
            failed_accounts_are_taken_back(request, settings, run, i - 1, error, text);
        }
    }
}

/// A new account follows the main community, whether it was found or made; what cannot be
/// found is made.
pub proof fn new_accounts_follow_the_main_community<E>(
    request: RegisterView,
    settings: RegisterSettingsView,
    run: Seq<RegisterStep<E>>,
    i: int,
)
    requires
        is_run(request, settings, run),
        0 <= i < run.len() - 1,
    ensures
        ({
            let next = run[i + 1].action;
            match (run[i].action, run[i].event) {
            (RegisterActionView::ReadCommunity { .. }, RegisterEventView::Community(Err(error))) => next == (RegisterActionView::<E>::Finish {
                result: Err(LemmyError { message: None, cause: Some(error) }),
            }),
            (RegisterActionView::ReadCommunity { .. }, RegisterEventView::Community(Ok(Ok(community_id)))) => {
                &&& run[i - 3].event matches RegisterEventView::Person(Ok(Ok(person_id)))
                &&& next == (RegisterActionView::<E>::FollowCommunity {
                    form: CommunityFollowerForm { community_id, person_id, pending: false },
                })
            },
            (RegisterActionView::ReadCommunity { .. }, RegisterEventView::Community(Ok(Err(_)))) => next == (RegisterActionView::<E>::GenerateLocalApubEndpoint {
                endpoint_type: EndpointType::Community,
                name: "main"@,
                protocol_and_hostname: settings.protocol_and_hostname,
            }),
            (RegisterActionView::CreateCommunity { .. }, RegisterEventView::Community(Err(error))) => next == (RegisterActionView::<E>::Finish {
                result: Err(LemmyError { message: None, cause: Some(error) }),
            }),
            (RegisterActionView::CreateCommunity { .. }, RegisterEventView::Community(Ok(Err(error)))) => next == (RegisterActionView::<E>::Finish {
                result: Err(LemmyError { message: None, cause: Some(error) }),
            }),
            (RegisterActionView::CreateCommunity { .. }, RegisterEventView::Community(Ok(Ok(community_id)))) => {
                &&& run[i - 8].event matches RegisterEventView::Person(Ok(Ok(person_id)))
                &&& next == (RegisterActionView::<E>::FollowCommunity {
                    form: CommunityFollowerForm { community_id, person_id, pending: false },
                })
            },
            _ => true,
            }
        }),
{
    assert(goes_on(request, settings, run, i));
    lemma_came_from(request, settings, run, i);
    if run[i].action is ReadCommunity || run[i].action is CreateCommunity {
        lemma_came_from(request, settings, run, i - 1);
        lemma_came_from(request, settings, run, i - 2);
    }
    if run[i].action is CreateCommunity {
        lemma_came_from(request, settings, run, i - 3);
        lemma_came_from(request, settings, run, i - 4);
        lemma_came_from(request, settings, run, i - 5);
        lemma_came_from(request, settings, run, i - 6);
        lemma_came_from(request, settings, run, i - 7);
    }
}

/// Once it follows the main community an account is let in; on a server without admins it
/// joins the moderators of that community first. The token is signed for the account that was
/// stored, with the secret and the name of the server, and is the answer.
pub proof fn new_accounts_are_let_in<E>(
    request: RegisterView,
    settings: RegisterSettingsView,
    run: Seq<RegisterStep<E>>,
    i: int,
)
    requires
        is_run(request, settings, run),
        0 <= i < run.len() - 1,
    ensures
        ({
            let next = run[i + 1].action;
            match (run[i].action, run[i].event) {
            (RegisterActionView::FollowCommunity { .. }, RegisterEventView::Joined(Err(error))) => next == (RegisterActionView::<E>::Finish {
                result: Err(LemmyError { message: None, cause: Some(error) }),
            }),
            (RegisterActionView::FollowCommunity { .. }, RegisterEventView::Joined(Ok(Err(error)))) => next == (RegisterActionView::<E>::Finish {
                result: Err(
                    LemmyError { message: Some(ErrorMessage::CommunityFollowerAlreadyExists), cause: Some(error) },
                ),
            }),
            (RegisterActionView::FollowCommunity { form }, RegisterEventView::Joined(Ok(Ok(_)))) => {
                // The round that stored the account.
                let stored: int = if run[i - 1].action is ReadCommunity {
                    i - 3
                } else {
                    i - 8
                };
                &&& run[3].event matches RegisterEventView::Admins(Ok(Ok(admins)))
                &&& run[stored].event matches RegisterEventView::LocalUser(Ok(Ok(local_user_id)))
                &&& if admins == 0 {
                    next == (RegisterActionView::<E>::JoinModerators {
                        form: CommunityModeratorForm {
                            community_id: form.community_id,
                            person_id: form.person_id,
                        },
                    })
                } else {
                    next == (RegisterActionView::<E>::SignJwt {
                        local_user_id,
                        secret: settings.jwt_secret,
                        hostname: settings.hostname,
                    })
                }
            },
            (RegisterActionView::JoinModerators { .. }, RegisterEventView::Joined(Err(error))) => next == (RegisterActionView::<E>::Finish {
                result: Err(LemmyError { message: None, cause: Some(error) }),
            }),
            (RegisterActionView::JoinModerators { .. }, RegisterEventView::Joined(Ok(Err(error)))) => next == (RegisterActionView::<E>::Finish {
                result: Err(
                    LemmyError { message: Some(ErrorMessage::CommunityModeratorAlreadyExists), cause: Some(error) },
                ),
            }),
            (RegisterActionView::JoinModerators { .. }, RegisterEventView::Joined(Ok(Ok(_)))) => {
                let stored: int = if run[i - 2].action is ReadCommunity {
                    i - 4
                } else {
                    i - 9
                };
                &&& run[stored].event matches RegisterEventView::LocalUser(Ok(Ok(local_user_id)))
                &&& next == (RegisterActionView::<E>::SignJwt {
                    local_user_id,
                    secret: settings.jwt_secret,
                    hostname: settings.hostname,
                })
            },
            (RegisterActionView::SignJwt { .. }, RegisterEventView::Jwt(Err(error))) => next == (RegisterActionView::<E>::Finish {
                result: Err(LemmyError { message: None, cause: Some(error) }),
            }),
            (RegisterActionView::SignJwt { .. }, RegisterEventView::Jwt(Ok(jwt))) => next == (RegisterActionView::<E>::Finish { result: Ok(jwt) }),
            _ => true,
            }
        }),
{
    assert(goes_on(request, settings, run, i));
    lemma_came_from(request, settings, run, i);
    if run[i].action is FollowCommunity || run[i].action is JoinModerators {
        let followed: int = if run[i].action is FollowCommunity {
            i
        } else {
            i - 1
        };
        lemma_came_from(request, settings, run, followed);
        lemma_came_from(request, settings, run, followed - 1);
        let looked: int = if run[followed - 1].state is Community {
            followed - 1
        } else {
            followed - 6
        };
        if run[followed - 1].state is NewCommunity {
            lemma_came_from(request, settings, run, followed - 2);
            lemma_came_from(request, settings, run, followed - 3);
            lemma_came_from(request, settings, run, followed - 4);
            lemma_came_from(request, settings, run, followed - 5);
        }
        lemma_came_from(request, settings, run, looked);
        lemma_came_from(request, settings, run, looked - 1);
        lemma_came_from(request, settings, run, looked - 2);
        lemma_came_from(request, settings, run, looked - 3);
        let admins = persons_pass_every_check(request, settings, run, looked - 3);
    }
}

/// Whether `event` is how the program answers `action`.
pub open spec fn answers<E>(action: RegisterActionView<E>, event: RegisterEventView<E>) -> bool {
    match action {
        RegisterActionView::ReadSite => event is Site,
        RegisterActionView::CheckPasswordLength { .. } => event is Checked,
        RegisterActionView::CheckHoneypot { .. } => event is Checked,
        RegisterActionView::ReadAdmins => event is Admins,
        RegisterActionView::CheckCaptcha { .. } => event is Captcha,
        RegisterActionView::CheckSlurs { .. } => event is Checked,
        RegisterActionView::GenerateActorKeypair => event is Keypair,
        RegisterActionView::ValidateActorName { .. } => event is ActorName,
        RegisterActionView::GenerateLocalApubEndpoint { .. } => event is Url,
        RegisterActionView::GenerateFollowersUrl { .. } => event is Url,
        RegisterActionView::GenerateInboxUrl { .. } => event is Url,
        RegisterActionView::GenerateSharedInboxUrl { .. } => event is Url,
        RegisterActionView::CreatePerson { .. } => event is Person,
        RegisterActionView::RegisterLocalUser { .. } => event is LocalUser,
        RegisterActionView::DeletePerson { .. } => event is PersonDeleted,
        RegisterActionView::ReadCommunity { .. } => event is Community,
        RegisterActionView::CreateCommunity { .. } => event is Community,
        RegisterActionView::FollowCommunity { .. } => event is Joined,
        RegisterActionView::JoinModerators { .. } => event is Joined,
        RegisterActionView::SignJwt { .. } => event is Jwt,
        RegisterActionView::Finish { .. } => false,
    }
}

/// A program that answers each action in its own kind never gives a reply that is not
/// waited for.
pub proof fn answers_are_awaited<E>(
    request: RegisterView,
    settings: RegisterSettingsView,
    run: Seq<RegisterStep<E>>,
    i: int,
    event: RegisterEventView<E>,
)
    requires
        is_run(request, settings, run),
        0 <= i < run.len(),
    ensures
        answers(run[i].action, event) <==> run[i].state.awaits(event),
        run[i].state.awaits(event) <==> (match run[i].action {
                RegisterActionView::ReadSite => event is Site,
                RegisterActionView::CheckPasswordLength { .. } => event is Checked,
                RegisterActionView::CheckHoneypot { .. } => event is Checked,
                RegisterActionView::ReadAdmins => event is Admins,
                RegisterActionView::CheckCaptcha { .. } => event is Captcha,
                RegisterActionView::CheckSlurs { .. } => event is Checked,
                RegisterActionView::GenerateActorKeypair => event is Keypair,
                RegisterActionView::ValidateActorName { .. } => event is ActorName,
                RegisterActionView::GenerateLocalApubEndpoint { .. } => event is Url,
                RegisterActionView::GenerateFollowersUrl { .. } => event is Url,
                RegisterActionView::GenerateInboxUrl { .. } => event is Url,
                RegisterActionView::GenerateSharedInboxUrl { .. } => event is Url,
                RegisterActionView::CreatePerson { .. } => event is Person,
                RegisterActionView::RegisterLocalUser { .. } => event is LocalUser,
                RegisterActionView::DeletePerson { .. } => event is PersonDeleted,
                RegisterActionView::ReadCommunity { .. } => event is Community,
                RegisterActionView::CreateCommunity { .. } => event is Community,
                RegisterActionView::FollowCommunity { .. } => event is Joined,
                RegisterActionView::JoinModerators { .. } => event is Joined,
                RegisterActionView::SignJwt { .. } => event is Jwt,
                RegisterActionView::Finish { .. } => false,
            }),
{
    if i > 0 {
        assert(goes_on(request, settings, run, i - 1));
    }
}

} // verus!