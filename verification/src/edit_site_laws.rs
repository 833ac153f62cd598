//! What holds of every run of an edit of the site, whatever the replies are.

use vstd::prelude::*;

use crate::edit_site::{
    EditSiteActionView, EditSiteEventView, EditSiteStateView, EditSiteView, SendAllMessage,
    SiteResponse, UserOperationCrud, SITE_ID,
};
use crate::error::{flat, ErrorMessage, LemmyError};
use crate::schema::SiteFormView;

verus! {

/// One round of an edit: where it stands, what it asks for, and the reply.
pub struct EditSiteStep<U, W, E> {
    pub state: EditSiteStateView<U>,
    pub action: EditSiteActionView<U, W, E>,
    pub event: EditSiteEventView<U, W, E>,
}

/// Whether the round after round `i` is the one that its reply leads to.
pub open spec fn goes_on<U, W, E>(
    request: EditSiteView,
    websocket_id: Option<usize>,
    run: Seq<EditSiteStep<U, W, E>>,
    i: int,
) -> bool {
    &&& run[i].state.awaits(run[i].event)
    &&& (run[i + 1].state, run[i + 1].action) == request.next(
        websocket_id,
        run[i].state,
        run[i].event,
    )
}

/// Whether `run` is how an edit can go, from its first round on. The last round's
/// reply may still be open.
pub open spec fn is_run<U, W, E>(
    request: EditSiteView,
    websocket_id: Option<usize>,
    run: Seq<EditSiteStep<U, W, E>>,
) -> bool {
    &&& run.len() > 0
    &&& (run[0].state, run[0].action) == request.begin::<U, W, E>()
    &&& forall|i: int|
        0 <= i < run.len() - 1 ==> #[trigger] goes_on(request, websocket_id, run, i)
}

/// How far an edit has come.
spec fn progress<U>(state: EditSiteStateView<U>) -> int {
    match state {
        EditSiteStateView::LocalUser => 0,
        EditSiteStateView::NameSlurs { .. } => 1,
        EditSiteStateView::DescriptionSlurs { .. } => 2,
        EditSiteStateView::Admin => 3,
        EditSiteStateView::Site => 4,
        EditSiteStateView::Sidebar { .. } => 5,
        EditSiteStateView::Description { .. } => 6,
        EditSiteStateView::Icon { .. } => 7,
        EditSiteStateView::Banner { .. } => 8,
        EditSiteStateView::DescriptionLength { .. } => 9,
        EditSiteStateView::Clock { .. } => 10,
        EditSiteStateView::Update => 11,
        EditSiteStateView::SiteView => 12,
        EditSiteStateView::Finished => 13,
    }
}

proof fn lemma_progress<U, W, E>(
    request: EditSiteView,
    websocket_id: Option<usize>,
    run: Seq<EditSiteStep<U, W, E>>,
    i: int,
)
    requires
        is_run(request, websocket_id, run),
        0 <= i < run.len(),
    ensures
        i <= progress(run[i].state) <= 13,
    decreases i,
{
    if i > 0 {
        lemma_progress(request, websocket_id, run, i - 1);
        assert(goes_on(request, websocket_id, run, i - 1));
    }
}

/// Every edit ends: no run has more than fourteen rounds, and only its last one can
/// be finished.
pub proof fn edits_end<U, W, E>(
    request: EditSiteView,
    websocket_id: Option<usize>,
    run: Seq<EditSiteStep<U, W, E>>,
)
    requires
        is_run(request, websocket_id, run),
    ensures
        run.len() <= 14,
        forall|i: int|
            0 <= i < run.len() - 1 ==> !((#[trigger] run[i]).state is Finished),
{
    lemma_progress(request, websocket_id, run, run.len() - 1);
    assert forall|i: int| 0 <= i < run.len() - 1 implies !((#[trigger] run[i]).state
        is Finished) by {
        assert(goes_on(request, websocket_id, run, i));
    }
}

/// Which round comes before a round of each kind, and what the edit asks for in it.
spec fn came_from<U, W, E>(
    request: EditSiteView,
    websocket_id: Option<usize>,
    before: EditSiteStep<U, W, E>,
    state: EditSiteStateView<U>,
    action: EditSiteActionView<U, W, E>,
) -> bool {
    match state {
        EditSiteStateView::LocalUser => false,
        EditSiteStateView::NameSlurs { user } => {
            &&& before.state is LocalUser
            &&& before.event == EditSiteEventView::<U, W, E>::LocalUser(Ok(user))
            &&& action == (EditSiteActionView::<U, W, E>::CheckSlurs { text: request.name })
        },
        EditSiteStateView::DescriptionSlurs { user } => {
            &&& before.state == (EditSiteStateView::<U>::NameSlurs { user })
            &&& before.event matches EditSiteEventView::Checked(Ok(_))
            &&& action == (EditSiteActionView::<U, W, E>::CheckSlurs { text: request.description })
        },
        EditSiteStateView::Admin => {
            &&& before.state matches EditSiteStateView::DescriptionSlurs { user }
            &&& before.event matches EditSiteEventView::Checked(Ok(_))
            &&& action == (EditSiteActionView::<U, W, E>::CheckAdmin { user })
        },
        EditSiteStateView::Site => {
            &&& before.state is Admin
            &&& before.event matches EditSiteEventView::Checked(Ok(_))
            &&& action is ReadSite
        },
        EditSiteStateView::Sidebar { form } => {
            &&& before.state is Site
            &&& before.event matches EditSiteEventView::Site(Ok(Ok(site)))
            &&& form == request.form(site)
            &&& action == (EditSiteActionView::<U, W, E>::OverwriteText { text: request.sidebar })
        },
        EditSiteStateView::Description { form } => {
            &&& before.state matches EditSiteStateView::Sidebar { form: earlier }
            &&& before.event matches EditSiteEventView::Text(sidebar)
            &&& form == (SiteFormView { sidebar, ..earlier })
            &&& action == (EditSiteActionView::<U, W, E>::OverwriteText {
                text: request.description,
            })
        },
        EditSiteStateView::Icon { form } => {
            &&& before.state matches EditSiteStateView::Description { form: earlier }
            &&& before.event matches EditSiteEventView::Text(description)
            &&& form == (SiteFormView { description, ..earlier })
            &&& action == (EditSiteActionView::<U, W, E>::OverwriteUrl { text: request.icon })
        },
        EditSiteStateView::Banner { form } => {
            &&& before.state matches EditSiteStateView::Icon { form: earlier }
            &&& before.event matches EditSiteEventView::Url(Ok(icon))
            &&& form == (SiteFormView { icon, ..earlier })
            &&& action == (EditSiteActionView::<U, W, E>::OverwriteUrl { text: request.banner })
        },
        EditSiteStateView::DescriptionLength { form } => {
            &&& before.state matches EditSiteStateView::Banner { form: earlier }
            &&& before.event matches EditSiteEventView::Url(Ok(banner))
            &&& form == (SiteFormView { banner, ..earlier })
            &&& form.description matches Some(Some(description))
            &&& action == (EditSiteActionView::<U, W, E>::CheckDescriptionLength { description })
        },
        EditSiteStateView::Clock { form } => {
            &&& action is ReadClock
            &&& {
                ||| {
                    &&& before.state matches EditSiteStateView::Banner { form: earlier }
                    &&& before.event matches EditSiteEventView::Url(Ok(banner))
                    &&& form == (SiteFormView { banner, ..earlier })
                    &&& !(form.description matches Some(Some(_)))
                }
                ||| {
                    &&& before.state == (EditSiteStateView::<U>::DescriptionLength { form })
                    &&& before.event matches EditSiteEventView::Checked(Ok(_))
                }
            }
        },
        EditSiteStateView::Update => {
            &&& before.state matches EditSiteStateView::Clock { form }
            &&& before.event matches EditSiteEventView::Clock(now)
            &&& action == (EditSiteActionView::<U, W, E>::UpdateSite {
                site_id: SITE_ID,
                form: SiteFormView { updated: Some(now), ..form },
            })
        },
        EditSiteStateView::SiteView => {
            &&& before.state is Update
            &&& before.event matches EditSiteEventView::Updated(Ok(Ok(_)))
            &&& action is ReadSiteView
        },
        EditSiteStateView::Finished => {
            &&& action matches EditSiteActionView::Finish { result }
            &&& result matches Ok(message) ==> {
                &&& before.state is SiteView
                &&& before.event == EditSiteEventView::<U, W, E>::SiteView(
                    Ok(Ok(message.response.site_view)),
                )
                &&& message.op == UserOperationCrud::EditSite
                &&& message.websocket_id == websocket_id
            }
        },
    }
}

proof fn lemma_came_from<U, W, E>(
    request: EditSiteView,
    websocket_id: Option<usize>,
    run: Seq<EditSiteStep<U, W, E>>,
    i: int,
)
    requires
        is_run(request, websocket_id, run),
        0 <= i < run.len(),
    ensures
        i == 0 ==> run[0].state is LocalUser,
        i > 0 ==> came_from(request, websocket_id, run[i - 1], run[i].state, run[i].action),
{
    if i > 0 {
        assert(goes_on(request, websocket_id, run, i - 1));
    }
}

/// Whether round `i` was a check, and passed.
pub open spec fn passed<U, W, E>(
    step: EditSiteStep<U, W, E>,
    check: EditSiteActionView<U, W, E>,
) -> bool {
    step.action == check && step.event matches EditSiteEventView::Checked(Ok(_))
}

/// The site is changed only for an admin, and only after its new name and
/// description were found free of slurs; a description that is set is
/// also short enough. What is stored is made of the replies: it keeps the
/// creator, keeps the name if none was given, and carries the time of the change.
pub proof fn only_admins_change_the_site<U, W, E>(
    request: EditSiteView,
    websocket_id: Option<usize>,
    run: Seq<EditSiteStep<U, W, E>>,
    i: int,
)
    requires
        is_run(request, websocket_id, run),
        0 <= i < run.len(),
        run[i].action is UpdateSite,
    ensures
        10 <= i <= 11,
        run[0].event matches EditSiteEventView::LocalUser(Ok(user)) && passed(
            run[3],
            EditSiteActionView::CheckAdmin { user },
        ),
        passed(run[1], EditSiteActionView::CheckSlurs { text: request.name }),
        passed(run[2], EditSiteActionView::CheckSlurs { text: request.description }),
        run[4].event matches EditSiteEventView::Site(Ok(Ok(site))) && {
            &&& run[5].event matches EditSiteEventView::Text(sidebar)
            &&& run[6].event matches EditSiteEventView::Text(description)
            &&& run[7].event matches EditSiteEventView::Url(Ok(icon))
            &&& run[8].event matches EditSiteEventView::Url(Ok(banner))
            &&& run[i - 1].event matches EditSiteEventView::Clock(now)
            &&& description matches Some(Some(text)) ==> passed(
                run[9],
                EditSiteActionView::CheckDescriptionLength { description: text },
            )
            &&& run[i].action == (EditSiteActionView::<U, W, E>::UpdateSite {
                site_id: SITE_ID,
                form: SiteFormView {
                    sidebar,
                    description,
                    icon,
                    banner,
                    updated: Some(now),
                    ..request.form(site)
                },
            })
        },
{
    assert(i > 0);
    assert(goes_on(request, websocket_id, run, i - 1));
    lemma_came_from(request, websocket_id, run, i);
    lemma_came_from(request, websocket_id, run, i - 1);
    lemma_came_from(request, websocket_id, run, i - 2);
    let last: int = if run[i - 2].state is DescriptionLength {
        i - 3
    } else {
        i - 2
    };
    lemma_came_from(request, websocket_id, run, last);
    lemma_came_from(request, websocket_id, run, last - 1);
    lemma_came_from(request, websocket_id, run, last - 2);
    lemma_came_from(request, websocket_id, run, last - 3);
    lemma_came_from(request, websocket_id, run, last - 4);
    lemma_came_from(request, websocket_id, run, last - 5);
    lemma_came_from(request, websocket_id, run, last - 6);
    lemma_came_from(request, websocket_id, run, last - 7);
    lemma_came_from(request, websocket_id, run, last - 8);
    assert(last == 8);
}

/// An edit that succeeds has stored the change; the answer and the message to all
/// clients carry the site as it was read afterwards, and the message names the
/// connection that the edit came in over.
pub proof fn all_clients_see_the_change<U, W, E>(
    request: EditSiteView,
    websocket_id: Option<usize>,
    run: Seq<EditSiteStep<U, W, E>>,
    end: int,
    message: SendAllMessage<W>,
)
    requires
        is_run(request, websocket_id, run),
        0 <= end < run.len(),
        run[end].action == (EditSiteActionView::<U, W, E>::Finish { result: Ok(message) }),
    ensures
        end >= 2,
        run[end - 2].action is UpdateSite,
        run[end - 2].event matches EditSiteEventView::Updated(Ok(Ok(_))),
        run[end - 1].action is ReadSiteView,
        run[end - 1].event matches EditSiteEventView::SiteView(Ok(Ok(site_view))) && message == (
        SendAllMessage {
            op: UserOperationCrud::EditSite,
            response: SiteResponse { site_view },
            websocket_id,
        }),
{
    assert(end > 0);
    assert(goes_on(request, websocket_id, run, end - 1));
    lemma_came_from(request, websocket_id, run, end);
    lemma_came_from(request, websocket_id, run, end - 1);
    lemma_came_from(request, websocket_id, run, end - 2);
}

/// Whether `error` is what a call reported with `event`.
pub open spec fn reports<U, W, E>(event: EditSiteEventView<U, W, E>, error: E) -> bool {
    match event {
        EditSiteEventView::LocalUser(Err(given)) => given == error,
        EditSiteEventView::Checked(Err(given)) => given == error,
        EditSiteEventView::Site(reply) => flat(reply) matches Err(given) && given == error,
        EditSiteEventView::Url(Err(given)) => given == error,
        EditSiteEventView::Updated(Err(given)) => given == error,
        EditSiteEventView::SiteView(reply) => flat(reply) matches Err(given) && given == error,
        _ => false,
    }
}

/// A client is told that the site could not be changed exactly if the query that changes
/// it failed; every other error has no message and is the one that the last call reported.
pub proof fn failed_changes_are_named<U, W, E>(
    request: EditSiteView,
    websocket_id: Option<usize>,
    run: Seq<EditSiteStep<U, W, E>>,
    end: int,
    error: LemmyError<E>,
)
    requires
        is_run(request, websocket_id, run),
        0 <= end < run.len(),
        run[end].action == (EditSiteActionView::<U, W, E>::Finish { result: Err(error) }),
    ensures
        end > 0,
        match run[end - 1].event {
            EditSiteEventView::Updated(Ok(Err(cause))) => error == LemmyError::of_both(
                cause,
                ErrorMessage::CouldntUpdateSite,
            ),
            event => {
                &&& error.message is None
                &&& error.cause matches Some(cause)
                &&& reports(event, cause)
            },
        },
{
    assert(end > 0);
    assert(goes_on(request, websocket_id, run, end - 1));
}

/// Whether `event` is how the program answers `action`.
pub open spec fn answers<U, W, E>(
    action: EditSiteActionView<U, W, E>,
    event: EditSiteEventView<U, W, E>,
) -> bool {
    match action {
        EditSiteActionView::ReadLocalUser { .. } => event is LocalUser,
        EditSiteActionView::CheckSlurs { .. } => event is Checked,
        EditSiteActionView::CheckAdmin { .. } => event is Checked,
        EditSiteActionView::ReadSite => event is Site,
        EditSiteActionView::OverwriteText { .. } => event is Text,
        EditSiteActionView::OverwriteUrl { .. } => event is Url,
        EditSiteActionView::CheckDescriptionLength { .. } => event is Checked,
        EditSiteActionView::ReadClock => event is Clock,
        EditSiteActionView::UpdateSite { .. } => event is Updated,
        EditSiteActionView::ReadSiteView => event is SiteView,
        EditSiteActionView::Finish { .. } => false,
    }
}

/// A program that answers each action in its own kind never gives a reply that is not
/// waited for.
pub proof fn answers_are_awaited<U, W, E>(
    request: EditSiteView,
    websocket_id: Option<usize>,
    run: Seq<EditSiteStep<U, W, E>>,
    i: int,
    event: EditSiteEventView<U, W, E>,
)
    requires
        is_run(request, websocket_id, run),
        0 <= i < run.len(),
    ensures
        answers(run[i].action, event) <==> run[i].state.awaits(event),
        run[i].state.awaits(event) <==> (match run[i].action {
                EditSiteActionView::ReadLocalUser { .. } => event is LocalUser,
                EditSiteActionView::CheckSlurs { .. } => event is Checked,
                EditSiteActionView::CheckAdmin { .. } => event is Checked,
                EditSiteActionView::ReadSite => event is Site,
                EditSiteActionView::OverwriteText { .. } => event is Text,
                EditSiteActionView::OverwriteUrl { .. } => event is Url,
                EditSiteActionView::CheckDescriptionLength { .. } => event is Checked,
                EditSiteActionView::ReadClock => event is Clock,
                EditSiteActionView::UpdateSite { .. } => event is Updated,
                EditSiteActionView::ReadSiteView => event is SiteView,
                EditSiteActionView::Finish { .. } => false,
            }),
{
    if i > 0 {
        assert(goes_on(request, websocket_id, run, i - 1));
    }
}

/// The connection that an edit came in over reaches nothing but the message at its end: two
/// edits that differ in it alone go the same way.
pub proof fn connections_only_reach_the_message<U, W, E>(
    request: EditSiteView,
    one: Option<usize>,
    other: Option<usize>,
    state: EditSiteStateView<U>,
    event: EditSiteEventView<U, W, E>,
)
    requires
        state.awaits(event),
    ensures
        request.next(one, state, event).0 == request.next(other, state, event).0,
        match request.next(one, state, event).1 {
            EditSiteActionView::Finish { result: Ok(message) } => request.next(
                other,
                state,
                event,
            ).1 == (EditSiteActionView::<U, W, E>::Finish {
                result: Ok(SendAllMessage { websocket_id: other, ..message }),
            }),
            action => request.next(other, state, event).1 == action,
        },
{
}

/// What is stored of the site is what the admin sent: each setting that was sent, and no
/// other; the name that was sent, or else the one that it had; the texts and addresses that
/// those that were sent stand for; and the time of the change. The creator stays.
pub proof fn settings_are_stored_as_sent<U, W, E>(
    request: EditSiteView,
    websocket_id: Option<usize>,
    run: Seq<EditSiteStep<U, W, E>>,
    i: int,
    site_id: i32,
    form: SiteFormView,
)
    requires
        is_run(request, websocket_id, run),
        0 <= i < run.len(),
        run[i].action == (EditSiteActionView::<U, W, E>::UpdateSite { site_id, form }),
    ensures
        site_id == 1,
        form.enable_downvotes == request.enable_downvotes,
        form.open_registration == request.open_registration,
        form.enable_nsfw == request.enable_nsfw,
        form.community_creation_admin_only == request.community_creation_admin_only,
        i >= 10,
        run[4].action is ReadSite,
        run[4].event matches EditSiteEventView::Site(Ok(Ok(site))) && {
            &&& form.creator_id == site.creator_id
            &&& request.name matches Some(name) ==> form.name == name
            &&& request.name is None ==> form.name == site.name
        },
        run[5].action == (EditSiteActionView::<U, W, E>::OverwriteText { text: request.sidebar }),
        run[5].event == EditSiteEventView::<U, W, E>::Text(form.sidebar),
        run[6].action == (EditSiteActionView::<U, W, E>::OverwriteText {
            text: request.description,
        }),
        run[6].event == EditSiteEventView::<U, W, E>::Text(form.description),
        run[7].action == (EditSiteActionView::<U, W, E>::OverwriteUrl { text: request.icon }),
        run[7].event == EditSiteEventView::<U, W, E>::Url(Ok(form.icon)),
        run[8].action == (EditSiteActionView::<U, W, E>::OverwriteUrl { text: request.banner }),
        run[8].event == EditSiteEventView::<U, W, E>::Url(Ok(form.banner)),
        run[i - 1].action is ReadClock,
        run[i - 1].event matches EditSiteEventView::Clock(now) && form.updated == Some(now),
{
    only_admins_change_the_site(request, websocket_id, run, i);
    lemma_came_from(request, websocket_id, run, i);
    lemma_came_from(request, websocket_id, run, i - 1);
    lemma_came_from(request, websocket_id, run, 9);
    lemma_came_from(request, websocket_id, run, 8);
    lemma_came_from(request, websocket_id, run, 7);
    lemma_came_from(request, websocket_id, run, 6);
    lemma_came_from(request, websocket_id, run, 5);
    lemma_came_from(request, websocket_id, run, 4);
}

/// The calls of an edit come in one order, each on what the admin sent, and the first that fails
/// decides.
pub proof fn edits_go_in_order<U, W, E>(
    request: EditSiteView,
    websocket_id: Option<usize>,
    run: Seq<EditSiteStep<U, W, E>>,
    i: int,
)
    requires
        is_run(request, websocket_id, run),
        0 <= i < run.len() - 1,
    ensures
        run[0].action == (EditSiteActionView::<U, W, E>::ReadLocalUser { jwt: request.auth }),
        !(run[i].action is Finish),
        i == 0 ==> ({
            let next = run[i + 1].action;
            match run[i].event {
                EditSiteEventView::LocalUser(Err(error)) => next == (EditSiteActionView::<U, W, E>::Finish {
                    result: Err(LemmyError { message: None, cause: Some(error) }),
                }),
                EditSiteEventView::LocalUser(Ok(_)) => next == (EditSiteActionView::<U, W, E>::CheckSlurs {
                    text: request.name,
                }),
                _ => false,
            }
        }),
        i == 1 ==> ({
            let next = run[i + 1].action;
            match run[i].event {
                EditSiteEventView::Checked(Err(error)) => next == (EditSiteActionView::<U, W, E>::Finish {
                    result: Err(LemmyError { message: None, cause: Some(error) }),
                }),
                EditSiteEventView::Checked(Ok(_)) => next == (EditSiteActionView::<U, W, E>::CheckSlurs {
                    text: request.description,
                }),
                _ => false,
            }
        }),
        i == 2 ==> ({
            let next = run[i + 1].action;
            match run[i].event {
                EditSiteEventView::Checked(Err(error)) => next == (EditSiteActionView::<U, W, E>::Finish {
                    result: Err(LemmyError { message: None, cause: Some(error) }),
                }),
                EditSiteEventView::Checked(Ok(_)) => run[0].event matches EditSiteEventView::LocalUser(Ok(user)) && next == (
                EditSiteActionView::<U, W, E>::CheckAdmin { user }),
                _ => false,
            }
        }),
        i == 3 ==> ({
            let next = run[i + 1].action;
            match run[i].event {
                EditSiteEventView::Checked(Err(error)) => next == (EditSiteActionView::<U, W, E>::Finish {
                    result: Err(LemmyError { message: None, cause: Some(error) }),
                }),
                EditSiteEventView::Checked(Ok(_)) => next is ReadSite,
                _ => false,
            }
        }),
        i == 4 ==> ({
            let next = run[i + 1].action;
            match run[i].event {
                EditSiteEventView::Site(Err(error)) => next == (EditSiteActionView::<U, W, E>::Finish {
                    result: Err(LemmyError { message: None, cause: Some(error) }),
                }),
                EditSiteEventView::Site(Ok(Err(error))) => next == (EditSiteActionView::<U, W, E>::Finish {
                    result: Err(LemmyError { message: None, cause: Some(error) }),
                }),
                EditSiteEventView::Site(Ok(Ok(_))) => next == (EditSiteActionView::<U, W, E>::OverwriteText {
                    text: request.sidebar,
                }),
                _ => false,
            }
        }),
        i == 5 ==> ({
            let next = run[i + 1].action;
            match run[i].event {
                EditSiteEventView::Text(_) => next == (EditSiteActionView::<U, W, E>::OverwriteText {
                    text: request.description,
                }),
                _ => false,
            }
        }),
        i == 6 ==> ({
            let next = run[i + 1].action;
            match run[i].event {
                EditSiteEventView::Text(_) => next == (EditSiteActionView::<U, W, E>::OverwriteUrl { text: request.icon }),
                _ => false,
            }
        }),
        i == 7 ==> ({
            let next = run[i + 1].action;
            match run[i].event {
                EditSiteEventView::Url(Err(error)) => next == (EditSiteActionView::<U, W, E>::Finish {
                    result: Err(LemmyError { message: None, cause: Some(error) }),
                }),
                EditSiteEventView::Url(Ok(_)) => next == (EditSiteActionView::<U, W, E>::OverwriteUrl { text: request.banner }),
                _ => false,
            }
        }),
        i == 8 ==> ({
            let next = run[i + 1].action;
            match run[i].event {
                EditSiteEventView::Url(Err(error)) => next == (EditSiteActionView::<U, W, E>::Finish {
                    result: Err(LemmyError { message: None, cause: Some(error) }),
                }),
                EditSiteEventView::Url(Ok(_)) => match run[6].event {
                    EditSiteEventView::Text(Some(Some(description))) => next == (
                    EditSiteActionView::<U, W, E>::CheckDescriptionLength { description }),
                    _ => next is ReadClock,
                },
                _ => false,
            }
        }),
        ({
            let next = run[i + 1].action;
            match (run[i].action, run[i].event) {
                (EditSiteActionView::CheckDescriptionLength { .. }, EditSiteEventView::Checked(Err(error))) => next == (EditSiteActionView::<U, W, E>::Finish {
                    result: Err(LemmyError { message: None, cause: Some(error) }),
                }),
                (EditSiteActionView::CheckDescriptionLength { .. }, EditSiteEventView::Checked(Ok(_))) => next is ReadClock,
                (EditSiteActionView::ReadClock, EditSiteEventView::Clock(_)) => next is UpdateSite,
                (EditSiteActionView::UpdateSite { .. }, EditSiteEventView::Updated(Err(error))) => next == (EditSiteActionView::<U, W, E>::Finish {
                    result: Err(LemmyError { message: None, cause: Some(error) }),
                }),
                (EditSiteActionView::UpdateSite { .. }, EditSiteEventView::Updated(Ok(Err(error)))) => next == (EditSiteActionView::<U, W, E>::Finish {
                    result: Err(
                        LemmyError {
                            message: Some(ErrorMessage::CouldntUpdateSite),
                            cause: Some(error),
                        },
                    ),
                }),
                (EditSiteActionView::UpdateSite { .. }, EditSiteEventView::Updated(Ok(Ok(_)))) => next is ReadSiteView,
                (EditSiteActionView::ReadSiteView, EditSiteEventView::SiteView(Err(error))) => next == (EditSiteActionView::<U, W, E>::Finish {
                    result: Err(LemmyError { message: None, cause: Some(error) }),
                }),
                (EditSiteActionView::ReadSiteView, EditSiteEventView::SiteView(Ok(Err(error)))) => next == (EditSiteActionView::<U, W, E>::Finish {
                    result: Err(LemmyError { message: None, cause: Some(error) }),
                }),
                (EditSiteActionView::ReadSiteView, EditSiteEventView::SiteView(Ok(Ok(site_view)))) => next == (EditSiteActionView::<U, W, E>::Finish {
                    result: Ok(
                        SendAllMessage {
                            op: UserOperationCrud::EditSite,
                            response: SiteResponse { site_view },
                            websocket_id,
                        },
                    ),
                }),
                _ => true,
            }
        }),
{
    assert(goes_on(request, websocket_id, run, i));
    lemma_at(request, websocket_id, run, i);
    if i >= 8 {
        lemma_at(request, websocket_id, run, 6);
        lemma_came_from(request, websocket_id, run, 8);
        lemma_came_from(request, websocket_id, run, 7);
    }
    if i == 2 {
        lemma_came_from(request, websocket_id, run, 2);
        lemma_came_from(request, websocket_id, run, 1);
    }
    lemma_came_from(request, websocket_id, run, i);
}

/// Where an edit stands in each round.
proof fn lemma_at<U, W, E>(
    request: EditSiteView,
    websocket_id: Option<usize>,
    run: Seq<EditSiteStep<U, W, E>>,
    i: int,
)
    requires
        is_run(request, websocket_id, run),
        0 <= i < run.len(),
    ensures
        run[i].state is Finished || match run[i].state {
            EditSiteStateView::LocalUser => i == 0,
            EditSiteStateView::NameSlurs { .. } => i == 1,
            EditSiteStateView::DescriptionSlurs { .. } => i == 2,
            EditSiteStateView::Admin => i == 3,
            EditSiteStateView::Site => i == 4,
            EditSiteStateView::Sidebar { .. } => i == 5,
            EditSiteStateView::Description { .. } => i == 6,
            EditSiteStateView::Icon { .. } => i == 7,
            EditSiteStateView::Banner { .. } => i == 8,
            _ => i >= 9,
        },
    decreases i,
{
    if i > 0 {
        lemma_at(request, websocket_id, run, i - 1);
        assert(goes_on(request, websocket_id, run, i - 1));
    }
}

} // verus!
