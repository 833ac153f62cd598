//! What holds of persons between servers, whatever the replies are.

use vstd::prelude::*;

use crate::apub_person::{
    begin_into_apub, document, next_into_apub, IntoApubActionView, IntoApubEventView,
    IntoApubStateView,
};
use crate::apub_person_intake::{
    begin_from_apub, begin_verify, form_of, next_from_apub, next_verify, FromApubActionView,
    FromApubEventView, FromApubStateView, VerifyPersonActionView, VerifyPersonEventView,
    VerifyPersonState,
};
use crate::error::{flat, LemmyError};
use crate::protocol::{PersonView, PublicKeyView};
use crate::schema::{DbPersonView, PersonFormView};
use crate::time::{DateTime, NaiveDateTime};
use url::Url;

verus! {

/// What one server tells of a person is what another one stores: the object that is
/// made of a row gives back the names, the pictures, the addresses, the Matrix id, the
/// key and the times that went into it, and whether the person is a bot. Its source
/// is the biography.
pub proof fn objects_carry_the_person(
    person: DbPersonView,
    summary: Option<Seq<char>>,
    published: DateTime,
    outbox: Url,
    public_key: PublicKeyView,
    updated: Option<DateTime>,
    bio: Option<Seq<char>>,
    now: NaiveDateTime,
)
    ensures
        ({
            let object = document(person, summary, published, outbox, public_key, updated);
            let form = form_of(object, bio, now);
            &&& form.name == person.name
            &&& form.display_name == Some(person.display_name)
            &&& form.avatar == Some(person.avatar)
            &&& form.banner == Some(person.banner)
            &&& form.actor_id == Some(person.actor_id)
            &&& form.inbox_url == Some(person.inbox_url)
            &&& form.shared_inbox_url == Some(person.shared_inbox_url)
            &&& form.matrix_user_id == Some(person.matrix_user_id)
            &&& form.bot_account == Some(person.bot_account)
            &&& form.public_key == public_key.public_key_pem
            &&& form.published == Some(published.local())
            &&& updated matches Some(point) ==> form.updated == Some(point.local())
            &&& updated is None ==> form.updated is None
            &&& person.bio matches Some(text) ==> object.source matches Some(source)
                && source.content == text
            &&& person.bio is None ==> object.source is None
        }),
{
}

/// A person that comes from another server gains nothing by what its server says: it
/// is never stored as local or as an admin, never brings a private key, and stays
/// banned or deleted if it was.
pub proof fn remote_persons_gain_no_rights<E>(
    person: PersonView,
    state: FromApubStateView,
    event: FromApubEventView<E>,
)
    requires
        state.awaits(event),
    ensures
        next_from_apub(person, state, event).1 matches FromApubActionView::Upsert { form } ==> {
            &&& form.local == Some(false)
            &&& form.admin == Some(false)
            &&& form.private_key is None
            &&& form.banned is None
            &&& form.deleted is None
        },
{
}

/// One round of the making of an object.
pub struct IntoApubStep<E> {
    pub state: IntoApubStateView,
    pub action: IntoApubActionView<E>,
    pub event: IntoApubEventView<E>,
}

/// Whether the round after round `i` is the one that its reply leads to.
pub open spec fn into_apub_goes_on<E>(
    person: DbPersonView,
    run: Seq<IntoApubStep<E>>,
    i: int,
) -> bool {
    &&& run[i].state.awaits(run[i].event)
    &&& (run[i + 1].state, run[i + 1].action) == next_into_apub(
        person,
        run[i].state,
        run[i].event,
    )
}

/// Whether `run` is how the making of an object can go.
pub open spec fn is_into_apub_run<E>(person: DbPersonView, run: Seq<IntoApubStep<E>>) -> bool {
    &&& run.len() > 0
    &&& (run[0].state, run[0].action) == begin_into_apub::<E>(person)
    &&& forall|i: int|
        0 <= i < run.len() - 1 ==> #[trigger] into_apub_goes_on(person, run, i)
}

/// The making of an object ends after six rounds at most. It fails only if the outbox or the
/// key cannot be had. Otherwise the object is made of the replies: the biography
/// is rendered if there is one, and the time of the last change converted if there
/// is one.
pub proof fn objects_are_made_of_the_replies<E>(
    person: DbPersonView,
    run: Seq<IntoApubStep<E>>,
    end: int,
    result: Result<PersonView, LemmyError<E>>,
)
    requires
        is_into_apub_run(person, run),
        0 <= end < run.len(),
        run[end].action == (IntoApubActionView::<E>::Finish { result }),
    ensures
        run.len() == end + 1,
        end <= 5,
        ({
            // The round that converts the time at which the person was stored.
            let at: int = if person.bio is Some {
                1
            } else {
                0
            };
            let summary = match person.bio {
                Some(_) => Some(run[0].event->Html_0),
                None => None,
            };
            &&& person.bio matches Some(bio) ==> run[0].action == (
            IntoApubActionView::<E>::RenderMarkdown { text: bio })
            &&& run[at].action == (IntoApubActionView::<E>::ConvertDateTime {
                naive: person.published,
            })
            &&& run[at].event matches IntoApubEventView::DateTime(published)
            &&& run[at + 1].action == (IntoApubActionView::<E>::GenerateOutboxUrl {
                actor_id: person.actor_id,
            })
            &&& run[at + 1].event matches IntoApubEventView::Url(outbox_reply)
            &&& match outbox_reply {
                Err(error) => result == Err::<PersonView, _>(LemmyError::of_cause(error)),
                Ok(outbox) => {
                    &&& run[at + 2].action == (IntoApubActionView::<E>::GetPublicKey {
                        actor_id: person.actor_id,
                        public_key: person.public_key,
                    })
                    &&& run[at + 2].event matches IntoApubEventView::PublicKey(key_reply)
                    &&& match key_reply {
                        Err(error) => result == Err::<PersonView, _>(LemmyError::of_cause(error)),
                        Ok(key) => match person.updated {
                            None => result == Ok::<_, LemmyError<E>>(
                                document(person, summary, published, outbox, key, None),
                            ),
                            Some(naive) => {
                                &&& run[at + 3].action == (
                                IntoApubActionView::<E>::ConvertDateTime { naive })
                                &&& run[at + 3].event matches IntoApubEventView::DateTime(updated)
                                &&& result == Ok::<_, LemmyError<E>>(
                                    document(
                                        person,
                                        summary,
                                        published,
                                        outbox,
                                        key,
                                        Some(updated),
                                    ),
                                )
                            },
                        },
                    }
                },
            }
        }),
{
    let at: int = if person.bio is Some {
        1
    } else {
        0
    };
    assert(end > 0);
    assert(into_apub_goes_on(person, run, end - 1));
    assert(run[end].state is Finished);
    if end < run.len() - 1 {
        assert(into_apub_goes_on(person, run, end));
    }
    if person.bio is Some {
        assert(into_apub_goes_on(person, run, 0));
    }
    assert(run[at].state is Published);
    assert(into_apub_goes_on(person, run, at));
    assert(run[at + 1].state is Outbox);
    assert(into_apub_goes_on(person, run, at + 1));
    if run[at + 1].event->Url_0 is Ok {
        assert(run[at + 2].state is PublicKey);
        assert(into_apub_goes_on(person, run, at + 2));
        if run[at + 2].event->PublicKey_0 is Ok && person.updated is Some {
            assert(run[at + 3].state is Updated);
            assert(into_apub_goes_on(person, run, at + 3));
            assert(run[at + 4].state is Finished);
            if end > at + 4 {
                assert(into_apub_goes_on(person, run, at + 4));
            }
        } else {
            assert(run[at + 3].state is Finished);
            if end > at + 3 {
                assert(into_apub_goes_on(person, run, at + 3));
            }
        }
    } else {
        assert(run[at + 2].state is Finished);
        if end > at + 2 {
            assert(into_apub_goes_on(person, run, at + 2));
        }
    }
}

/// One round of the check of an object.
pub struct VerifyPersonStep<E> {
    pub state: VerifyPersonState,
    pub action: VerifyPersonActionView<E>,
    pub event: VerifyPersonEventView<E>,
}

/// Whether the round after round `i` is the one that its reply leads to.
pub open spec fn verify_goes_on<E>(
    person: PersonView,
    run: Seq<VerifyPersonStep<E>>,
    i: int,
) -> bool {
    &&& run[i].state.expects(run[i].event)
    &&& (run[i + 1].state, run[i + 1].action) == next_verify(person, run[i].state, run[i].event)
}

/// Whether `run` is how the check of an object can go.
pub open spec fn is_verify_run<E>(
    person: PersonView,
    expected_domain: Url,
    run: Seq<VerifyPersonStep<E>>,
) -> bool {
    &&& run.len() > 0
    &&& (run[0].state, run[0].action) == begin_verify::<E>(person, expected_domain)
    &&& forall|i: int| 0 <= i < run.len() - 1 ==> #[trigger] verify_goes_on(person, run, i)
}

/// Whether a round was a check, and passed.
pub open spec fn passed<E>(
    step: VerifyPersonStep<E>,
    check: VerifyPersonActionView<E>,
) -> bool {
    step.action == check && step.event matches VerifyPersonEventView::Checked(Ok(_))
}

/// An object is accepted exactly if every check passes, in this order: that it comes from
/// the server that it was asked from, that its address is allowed here, and that
/// neither the name, nor the display name, nor the biography holds a slur. Otherwise
/// the first check that fails gives the error.
pub proof fn accepted_objects_pass_every_check<E>(
    person: PersonView,
    expected_domain: Url,
    run: Seq<VerifyPersonStep<E>>,
    end: int,
    result: Result<(), LemmyError<E>>,
)
    requires
        is_verify_run(person, expected_domain, run),
        0 <= end < run.len(),
        run[end].action == (VerifyPersonActionView::<E>::Finish { result }),
    ensures
        run.len() == end + 1,
        end <= 6,
        result is Ok <==> {
            &&& end == 6
            &&& passed(
                run[0],
                VerifyPersonActionView::VerifyDomainsMatch { id: person.id, expected_domain },
            )
            &&& passed(
                run[1],
                VerifyPersonActionView::CheckIsApubIdValid {
                    id: person.id,
                    use_strict_allowlist: false,
                },
            )
            &&& passed(
                run[2],
                VerifyPersonActionView::CheckSlurs { text: person.preferred_username },
            )
            &&& passed(run[3], VerifyPersonActionView::CheckSlursOpt { text: person.name })
            &&& run[4].action == (VerifyPersonActionView::<E>::GetSummary {
                summary: person.summary,
                source: person.source,
            })
            &&& run[4].event matches VerifyPersonEventView::Summary(bio)
            &&& passed(run[5], VerifyPersonActionView::CheckSlursOpt { text: bio })
        },
        result matches Err(error) ==> (run[end - 1].event matches VerifyPersonEventView::Checked(
            Err(cause),
        ) && error == LemmyError::of_cause(cause)),
{
    assert(end > 0);
    assert(verify_goes_on(person, run, end - 1));
    assert(run[end].state is Finished);
    if end < run.len() - 1 {
        assert(verify_goes_on(person, run, end));
    }
    assert(verify_goes_on(person, run, 0));
    if end > 1 {
        assert(verify_goes_on(person, run, 1));
    }
    if end > 2 {
        assert(verify_goes_on(person, run, 2));
    }
    if end > 3 {
        assert(verify_goes_on(person, run, 3));
    }
    if end > 4 {
        assert(verify_goes_on(person, run, 4));
    }
    if end > 5 {
        assert(verify_goes_on(person, run, 5));
    }
    if end > 6 {
        assert(verify_goes_on(person, run, 6));
    }
}

/// One round of the storing of an object.
pub struct FromApubStep<E> {
    pub state: FromApubStateView,
    pub action: FromApubActionView<E>,
    pub event: FromApubEventView<E>,
}

/// Whether the round after round `i` is the one that its reply leads to.
pub open spec fn from_apub_goes_on<E>(
    person: PersonView,
    run: Seq<FromApubStep<E>>,
    i: int,
) -> bool {
    &&& run[i].state.awaits(run[i].event)
    &&& (run[i + 1].state, run[i + 1].action) == next_from_apub(
        person,
        run[i].state,
        run[i].event,
    )
}

/// Whether `run` is how the storing of an object can go.
pub open spec fn is_from_apub_run<E>(person: PersonView, run: Seq<FromApubStep<E>>) -> bool {
    &&& run.len() > 0
    &&& (run[0].state, run[0].action) == begin_from_apub::<E>(person)
    &&& forall|i: int| 0 <= i < run.len() - 1 ==> #[trigger] from_apub_goes_on(person, run, i)
}

/// The storing of an object takes four rounds, and succeeds exactly if the database
/// stores it. What is stored is made of the object, the biography and the time; what
/// comes back is the stored row.
pub proof fn objects_are_stored_as_they_are<E>(
    person: PersonView,
    run: Seq<FromApubStep<E>>,
    end: int,
    result: Result<DbPersonView, LemmyError<E>>,
)
    requires
        is_from_apub_run(person, run),
        0 <= end < run.len(),
        run[end].action == (FromApubActionView::<E>::Finish { result }),
    ensures
        end == 3,
        run.len() == 4,
        run[0].action == (FromApubActionView::<E>::GetSummary {
            summary: person.summary,
            source: person.source,
        }),
        run[0].event matches FromApubEventView::Summary(bio) && {
            &&& run[1].event matches FromApubEventView::Clock(now)
            &&& run[2].action == (FromApubActionView::<E>::Upsert {
                form: form_of(person, bio, now),
            })
            &&& run[2].event matches FromApubEventView::Person(reply)
            &&& result == match flat(reply) {
                Ok(stored) => Ok(stored),
                Err(error) => Err(LemmyError::of_cause(error)),
            }
        },
{
    assert(end > 0);
    assert(from_apub_goes_on(person, run, end - 1));
    assert(run[end].state is Finished);
    if end < run.len() - 1 {
        assert(from_apub_goes_on(person, run, end));
    }
    assert(from_apub_goes_on(person, run, 0));
    if end > 1 {
        assert(from_apub_goes_on(person, run, 1));
    }
    if end > 2 {
        assert(from_apub_goes_on(person, run, 2));
    }
    if end > 3 {
        assert(from_apub_goes_on(person, run, 3));
    }
}

/// Whether `event` is how the program answers `action`.
pub open spec fn answers_into_apub<E>(action: IntoApubActionView<E>, event: IntoApubEventView<E>) -> bool {
    match action {
        IntoApubActionView::RenderMarkdown { .. } => event is Html,
        IntoApubActionView::ConvertDateTime { .. } => event is DateTime,
        IntoApubActionView::GenerateOutboxUrl { .. } => event is Url,
        IntoApubActionView::GetPublicKey { .. } => event is PublicKey,
        IntoApubActionView::Finish { .. } => false,
    }
}

/// A program that answers each action of this flow in its own kind never gives a reply that
/// is not waited for.
pub proof fn answers_into_apub_are_awaited<E>(
    person: DbPersonView,
    run: Seq<IntoApubStep<E>>,
    i: int,
    event: IntoApubEventView<E>,
)
    requires
        is_into_apub_run(person, run),
        0 <= i < run.len(),
    ensures
        answers_into_apub(run[i].action, event) <==> run[i].state.awaits(event),
        run[i].state.awaits(event) <==> (match run[i].action {
                IntoApubActionView::RenderMarkdown { .. } => event is Html,
                IntoApubActionView::ConvertDateTime { .. } => event is DateTime,
                IntoApubActionView::GenerateOutboxUrl { .. } => event is Url,
                IntoApubActionView::GetPublicKey { .. } => event is PublicKey,
                IntoApubActionView::Finish { .. } => false,
            }),
{
    if i > 0 {
        assert(into_apub_goes_on(person, run, i - 1));
    }
}

/// Whether `event` is how the program answers `action`.
pub open spec fn answers_verify<E>(action: VerifyPersonActionView<E>, event: VerifyPersonEventView<E>) -> bool {
    match action {
        VerifyPersonActionView::VerifyDomainsMatch { .. } => event is Checked,
        VerifyPersonActionView::CheckIsApubIdValid { .. } => event is Checked,
        VerifyPersonActionView::CheckSlurs { .. } => event is Checked,
        VerifyPersonActionView::CheckSlursOpt { .. } => event is Checked,
        VerifyPersonActionView::GetSummary { .. } => event is Summary,
        VerifyPersonActionView::Finish { .. } => false,
    }
}

/// A program that answers each action of this flow in its own kind never gives a reply that
/// is not waited for.
pub proof fn answers_verify_are_awaited<E>(
    person: PersonView,
    expected_domain: Url,
    run: Seq<VerifyPersonStep<E>>,
    i: int,
    event: VerifyPersonEventView<E>,
)
    requires
        is_verify_run(person, expected_domain, run),
        0 <= i < run.len(),
    ensures
        answers_verify(run[i].action, event) <==> run[i].state.expects(event),
        run[i].state.expects(event) <==> (match run[i].action {
                VerifyPersonActionView::VerifyDomainsMatch { .. } => event is Checked,
                VerifyPersonActionView::CheckIsApubIdValid { .. } => event is Checked,
                VerifyPersonActionView::CheckSlurs { .. } => event is Checked,
                VerifyPersonActionView::CheckSlursOpt { .. } => event is Checked,
                VerifyPersonActionView::GetSummary { .. } => event is Summary,
                VerifyPersonActionView::Finish { .. } => false,
            }),
{
    if i > 0 {
        assert(verify_goes_on(person, run, i - 1));
    }
}

/// Whether `event` is how the program answers `action`.
pub open spec fn answers_from_apub<E>(action: FromApubActionView<E>, event: FromApubEventView<E>) -> bool {
    match action {
        FromApubActionView::GetSummary { .. } => event is Summary,
        FromApubActionView::ReadClock => event is Clock,
        FromApubActionView::Upsert { .. } => event is Person,
        FromApubActionView::Finish { .. } => false,
    }
}

/// A program that answers each action of this flow in its own kind never gives a reply that
/// is not waited for.
pub proof fn answers_from_apub_are_awaited<E>(
    person: PersonView,
    run: Seq<FromApubStep<E>>,
    i: int,
    event: FromApubEventView<E>,
)
    requires
        is_from_apub_run(person, run),
        0 <= i < run.len(),
    ensures
        answers_from_apub(run[i].action, event) <==> run[i].state.awaits(event),
        run[i].state.awaits(event) <==> (match run[i].action {
                FromApubActionView::GetSummary { .. } => event is Summary,
                FromApubActionView::ReadClock => event is Clock,
                FromApubActionView::Upsert { .. } => event is Person,
                FromApubActionView::Finish { .. } => false,
            }),
{
    if i > 0 {
        assert(from_apub_goes_on(person, run, i - 1));
    }
}

/// Whether two rows differ at most in what other servers are not told: the id, the private key,
/// whether the person is local, banned, deleted or an admin, and when it was refreshed.
pub open spec fn same_in_public(one: DbPersonView, other: DbPersonView) -> bool {
    other == (DbPersonView {
        id: other.id,
        private_key: other.private_key,
        local: other.local,
        banned: other.banned,
        deleted: other.deleted,
        admin: other.admin,
        last_refreshed_at: other.last_refreshed_at,
        ..one
    })
}

/// What other servers are told, and every call on the way to it, depends on nothing that
/// they are not told.
pub proof fn objects_give_nothing_private_away<E>(
    one: DbPersonView,
    other: DbPersonView,
    state: IntoApubStateView,
    event: IntoApubEventView<E>,
)
    requires
        same_in_public(one, other),
        state.awaits(event),
    ensures
        begin_into_apub::<E>(one) == begin_into_apub::<E>(other),
        next_into_apub(one, state, event) == next_into_apub(other, state, event),
{
}

/// The check of an object reads its address, its two names, its summary and its source, and
/// nothing else.
pub proof fn checks_read_five_members<E>(
    one: PersonView,
    other: PersonView,
    expected_domain: Url,
    state: VerifyPersonState,
    event: VerifyPersonEventView<E>,
)
    requires
        one.id == other.id,
        one.preferred_username == other.preferred_username,
        one.name == other.name,
        one.summary == other.summary,
        one.source == other.source,
        state.expects(event),
    ensures
        begin_verify::<E>(one, expected_domain) == begin_verify::<E>(other, expected_domain),
        next_verify(one, state, event) == next_verify(other, state, event),
{
}

/// The object of a person says what its row says: the icon is the avatar and the image the
/// banner, the source is the biography, a bot is a service, and names, addresses and the Matrix
/// id are those of the row. The rendered biography, the times, the outbox and the key are what
/// was answered for those of the row.
pub proof fn objects_say_what_the_row_says<E>(
    person: DbPersonView,
    run: Seq<IntoApubStep<E>>,
    end: int,
    object: PersonView,
)
    requires
        is_into_apub_run(person, run),
        0 <= end < run.len(),
        run[end].action == (IntoApubActionView::<E>::Finish { result: Ok(object) }),
    ensures
        person.bot_account ==> object.kind is Service,
        !person.bot_account ==> object.kind is Person,
        object.id == person.actor_id,
        object.preferred_username == person.name,
        object.name == person.display_name,
        object.icon == person.avatar,
        object.image == person.banner,
        object.matrix_user_id == person.matrix_user_id,
        object.inbox == person.inbox_url,
        object.shared_inbox == person.shared_inbox_url,
        object.unparsed.len() == 0,
        person.bio is None ==> object.source is None && object.summary is None,
        person.bio matches Some(bio) ==> {
            &&& object.source matches Some(source)
            &&& source.content == bio
            &&& source.media_type is Markdown
            &&& run[0].action == (IntoApubActionView::<E>::RenderMarkdown { text: bio })
            &&& object.summary matches Some(summary)
            &&& run[0].event == IntoApubEventView::<E>::Html(summary)
        },
        ({
            // The round that converts the time at which the person was stored.
            let at: int = if person.bio is Some {
                1
            } else {
                0
            };
            &&& run[at].action == (IntoApubActionView::<E>::ConvertDateTime {
                naive: person.published,
            })
            &&& object.published matches Some(published)
            &&& run[at].event == IntoApubEventView::<E>::DateTime(published)
            &&& run[at + 1].action == (IntoApubActionView::<E>::GenerateOutboxUrl {
                actor_id: person.actor_id,
            })
            &&& run[at + 1].event == IntoApubEventView::<E>::Url(Ok(object.outbox))
            &&& run[at + 2].action == (IntoApubActionView::<E>::GetPublicKey {
                actor_id: person.actor_id,
                public_key: person.public_key,
            })
            &&& run[at + 2].event == IntoApubEventView::<E>::PublicKey(Ok(object.public_key))
            &&& person.updated is None ==> object.updated is None
            &&& person.updated matches Some(naive) ==> {
                &&& run[at + 3].action == (IntoApubActionView::<E>::ConvertDateTime { naive })
                &&& object.updated matches Some(updated)
                &&& run[at + 3].event == IntoApubEventView::<E>::DateTime(updated)
            }
        }),
{
    objects_are_made_of_the_replies(person, run, end, Ok(object));
    if person.bio is Some {
        assert(into_apub_goes_on(person, run, 0));
    }
}

/// Where the making of an object stands in each round.
proof fn lemma_into_apub_at<E>(person: DbPersonView, run: Seq<IntoApubStep<E>>, i: int)
    requires
        is_into_apub_run(person, run),
        0 <= i < run.len(),
    ensures
        ({
            let at: int = if person.bio is Some {
                1
            } else {
                0
            };
            match run[i].state {
                IntoApubStateView::Summary => i == at - 1 && run[i].action is RenderMarkdown,
                IntoApubStateView::Published { .. } => i == at && run[i].action is ConvertDateTime,
                IntoApubStateView::Outbox { .. } => i == at + 1 && run[i].action
                    is GenerateOutboxUrl,
                IntoApubStateView::PublicKey { .. } => i == at + 2 && run[i].action is GetPublicKey,
                IntoApubStateView::Updated { .. } => i == at + 3 && run[i].action
                    is ConvertDateTime,
                IntoApubStateView::Finished => run[i].action is Finish,
            }
        }),
    decreases i,
{
    if i > 0 {
        lemma_into_apub_at(person, run, i - 1);
        assert(into_apub_goes_on(person, run, i - 1));
    }
}

/// The calls on the way to an object come in one order, each on what the row says, and the first
/// that fails decides.
pub proof fn objects_are_made_in_order<E>(person: DbPersonView, run: Seq<IntoApubStep<E>>, i: int)
    requires
        is_into_apub_run(person, run),
        0 <= i < run.len() - 1,
    ensures
        person.bio matches Some(bio) ==> run[0].action == (
        IntoApubActionView::<E>::RenderMarkdown { text: bio }),
        person.bio is None ==> run[0].action == (IntoApubActionView::<E>::ConvertDateTime {
            naive: person.published,
        }),
        ({
            let next = run[i + 1].action;
            match (run[i].action, run[i].event) {
                (IntoApubActionView::RenderMarkdown { .. }, IntoApubEventView::Html(_)) => next == (
                IntoApubActionView::<E>::ConvertDateTime { naive: person.published }),
                (IntoApubActionView::ConvertDateTime { .. }, IntoApubEventView::DateTime(_)) =>
                    if i == (if person.bio is Some {
                    1int
                } else {
                    0
                }) {
                    next == (IntoApubActionView::<E>::GenerateOutboxUrl {
                        actor_id: person.actor_id,
                    })
                } else {
                    next matches IntoApubActionView::Finish { result: Ok(_) }
                },
                (IntoApubActionView::GenerateOutboxUrl { .. }, IntoApubEventView::Url(Err(error))) =>
                    next == (IntoApubActionView::<E>::Finish {
                result: Err(LemmyError { message: None, cause: Some(error) }),
            }),
                (IntoApubActionView::GenerateOutboxUrl { .. }, IntoApubEventView::Url(Ok(_))) =>
                    next == (IntoApubActionView::<E>::GetPublicKey {
                    actor_id: person.actor_id,
                    public_key: person.public_key,
                }),
                (IntoApubActionView::GetPublicKey { .. }, IntoApubEventView::PublicKey(Err(error))) =>
                    next == (IntoApubActionView::<E>::Finish {
                result: Err(LemmyError { message: None, cause: Some(error) }),
            }),
                (IntoApubActionView::GetPublicKey { .. }, IntoApubEventView::PublicKey(Ok(_))) =>
                    match person.updated {
                    Some(naive) => next == (IntoApubActionView::<E>::ConvertDateTime { naive }),
                    None => next matches IntoApubActionView::Finish { result: Ok(_) },
                },
                _ => false,
            }
        }),
{
    lemma_into_apub_at(person, run, i);
    assert(into_apub_goes_on(person, run, i));
}

/// What is stored of a person of another server is what its object says, member by member: the
/// avatar is the icon and the banner the image, a service is a bot, and the times are those
/// that a clock at their offsets shows. The biography and the time are the given ones.
pub proof fn forms_say_what_objects_say(
    object: PersonView,
    bio: Option<Seq<char>>,
    now: NaiveDateTime,
)
    ensures
        ({
            let form = form_of(object, bio, now);
            &&& form.name == object.preferred_username
            &&& form.display_name == Some(object.name)
            &&& form.banned is None
            &&& form.deleted is None
            &&& form.avatar == Some(object.icon)
            &&& form.banner == Some(object.image)
            &&& object.published is None ==> form.published is None
            &&& object.published matches Some(point) ==> form.published == Some(
                NaiveDateTime { secs: (point.secs() + point.offset()) as i64, nanos: point.nanos() },
            )
            &&& object.updated is None ==> form.updated is None
            &&& object.updated matches Some(point) ==> form.updated == Some(
                NaiveDateTime { secs: (point.secs() + point.offset()) as i64, nanos: point.nanos() },
            )
            &&& form.actor_id == Some(object.id)
            &&& form.bio == Some(bio)
            &&& form.local == Some(false)
            &&& form.admin == Some(false)
            &&& form.bot_account == Some(object.kind is Service)
            &&& form.private_key is None
            &&& form.public_key == object.public_key.public_key_pem
            &&& form.last_refreshed_at == Some(now)
            &&& form.inbox_url == Some(object.inbox)
            &&& form.shared_inbox_url == Some(object.shared_inbox)
            &&& form.matrix_user_id == Some(object.matrix_user_id)
        }),
{
}

/// Every object is stored with the biography that was found for its summary and source,
/// whatever else it says, and as refreshed when the clock was read. All else is stored as
/// the object says it.
pub proof fn objects_are_stored_member_by_member<E>(
    object: PersonView,
    run: Seq<FromApubStep<E>>,
    i: int,
    form: PersonFormView,
)
    requires
        is_from_apub_run(object, run),
        0 <= i < run.len(),
        run[i].action == (FromApubActionView::<E>::Upsert { form }),
    ensures
        i == 2,
        run[0].action == (FromApubActionView::<E>::GetSummary {
            summary: object.summary,
            source: object.source,
        }),
        run[0].event matches FromApubEventView::Summary(bio) && form.bio == Some(bio),
        run[1].action is ReadClock,
        run[1].event matches FromApubEventView::Clock(now) && form.last_refreshed_at == Some(now),
        form.name == object.preferred_username,
        form.display_name == Some(object.name),
        form.avatar == Some(object.icon),
        form.banner == Some(object.image),
        form.actor_id == Some(object.id),
        form.bot_account == Some(object.kind is Service),
        form.public_key == object.public_key.public_key_pem,
        form.inbox_url == Some(object.inbox),
        form.shared_inbox_url == Some(object.shared_inbox),
        form.matrix_user_id == Some(object.matrix_user_id),
        object.published is None ==> form.published is None,
        object.published matches Some(point) ==> form.published == Some(
            NaiveDateTime { secs: (point.secs() + point.offset()) as i64, nanos: point.nanos() },
        ),
        object.updated is None ==> form.updated is None,
        object.updated matches Some(point) ==> form.updated == Some(
            NaiveDateTime { secs: (point.secs() + point.offset()) as i64, nanos: point.nanos() },
        ),
        form.local == Some(false),
        form.admin == Some(false),
        form.private_key is None,
        form.banned is None,
        form.deleted is None,
{
    assert(i > 0);
    assert(from_apub_goes_on(object, run, 0));
    if i > 1 {
        assert(from_apub_goes_on(object, run, 1));
        forms_say_what_objects_say(
            object,
            run[0].event->Summary_0,
            run[1].event->Clock_0,
        );
    }
    if i > 2 {
        assert(from_apub_goes_on(object, run, 2));
    }
    if i > 3 {
        assert(from_apub_goes_on(object, run, 3));
    }
}

/// The storing of an object takes its three calls in one order; what the database answers
/// is the result.
pub proof fn objects_are_stored_in_order<E>(object: PersonView, run: Seq<FromApubStep<E>>, i: int)
    requires
        is_from_apub_run(object, run),
        0 <= i < run.len() - 1,
    ensures
        run[0].action == (FromApubActionView::<E>::GetSummary {
            summary: object.summary,
            source: object.source,
        }),
        ({
            let next = run[i + 1].action;
            match (run[i].action, run[i].event) {
                (FromApubActionView::GetSummary { .. }, FromApubEventView::Summary(_)) => next
                    is ReadClock,
                (FromApubActionView::ReadClock, FromApubEventView::Clock(_)) => next is Upsert,
                (FromApubActionView::Upsert { .. }, FromApubEventView::Person(Err(error))) => next == (FromApubActionView::<E>::Finish {
                result: Err(LemmyError { message: None, cause: Some(error) }),
            }),
                (FromApubActionView::Upsert { .. }, FromApubEventView::Person(Ok(Err(error)))) =>
                    next == (FromApubActionView::<E>::Finish {
                result: Err(LemmyError { message: None, cause: Some(error) }),
            }),
                (FromApubActionView::Upsert { .. }, FromApubEventView::Person(Ok(Ok(stored)))) =>
                    next == (FromApubActionView::<E>::Finish { result: Ok(stored) }),
                _ => false,
            }
        }),
{
    answers_from_apub_are_awaited(object, run, i, run[i].event);
    assert(from_apub_goes_on(object, run, i));
}

/// The checks of an object come in one order, each on what the object says, and the first that
/// fails decides. No check but these is made.
pub proof fn objects_are_checked_in_order<E>(
    object: PersonView,
    expected_domain: Url,
    run: Seq<VerifyPersonStep<E>>,
    i: int,
)
    requires
        is_verify_run(object, expected_domain, run),
        0 <= i < run.len() - 1,
    ensures
        run[0].action == (VerifyPersonActionView::<E>::VerifyDomainsMatch {
            id: object.id,
            expected_domain,
        }),
        i <= 5,
        run[i].event matches VerifyPersonEventView::Checked(Err(error)) ==> run[i + 1].action == (
        VerifyPersonActionView::<E>::Finish {
            result: Err(LemmyError { message: None, cause: Some(error) }),
        }),
        i != 4 ==> run[i].event is Checked,
        !(run[i].event matches VerifyPersonEventView::Checked(Err(_))) ==> {
            &&& i == 0 ==> run[1].action == (VerifyPersonActionView::<E>::CheckIsApubIdValid {
                id: object.id,
                use_strict_allowlist: false,
            })
            &&& i == 1 ==> run[2].action == (VerifyPersonActionView::<E>::CheckSlurs {
                text: object.preferred_username,
            })
            &&& i == 2 ==> run[3].action == (VerifyPersonActionView::<E>::CheckSlursOpt {
                text: object.name,
            })
            &&& i == 3 ==> run[4].action == (VerifyPersonActionView::<E>::GetSummary {
                summary: object.summary,
                source: object.source,
            })
            &&& i == 4 ==> (run[4].event matches VerifyPersonEventView::Summary(bio)
                && run[5].action == (VerifyPersonActionView::<E>::CheckSlursOpt { text: bio }))
            &&& i == 5 ==> (run[6].action matches VerifyPersonActionView::Finish { result }
                && result is Ok)
        },
{
    lemma_verify_at(object, expected_domain, run, i);
    assert(verify_goes_on(object, run, i));
}

/// Where the check of an object stands in each round.
proof fn lemma_verify_at<E>(
    object: PersonView,
    expected_domain: Url,
    run: Seq<VerifyPersonStep<E>>,
    i: int,
)
    requires
        is_verify_run(object, expected_domain, run),
        0 <= i < run.len(),
    ensures
        match run[i].state {
            VerifyPersonState::Domain => i == 0,
            VerifyPersonState::ApubId => i == 1,
            VerifyPersonState::UsernameSlurs => i == 2,
            VerifyPersonState::NameSlurs => i == 3,
            VerifyPersonState::Bio => i == 4,
            VerifyPersonState::BioSlurs => i == 5,
            VerifyPersonState::Finished => true,
        },
    decreases i,
{
    if i > 0 {
        lemma_verify_at(object, expected_domain, run, i - 1);
        assert(verify_goes_on(object, run, i - 1));
    }
}

} // verus!
