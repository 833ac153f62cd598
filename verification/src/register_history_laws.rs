//! What holds of the registrations of a server, one after another.

use vstd::prelude::*;

use crate::register::{
    RegisterActionView, RegisterEventView, RegisterSettingsView, RegisterView,
};
use crate::register_laws::{
    is_run, moderators_join_servers_without_admins, persons_pass_every_check, RegisterStep,
};
use crate::schema::PersonFormView;

verus! {

/// One registration, from its first round to its last.
pub struct Registration<E> {
    pub request: RegisterView,
    pub settings: RegisterSettingsView,
    pub run: Seq<RegisterStep<E>>,
}

impl<E> Registration<E> {
    /// Whether the rounds are how the registration can go.
    pub open spec fn is_valid(self) -> bool {
        is_run(self.request, self.settings, self.run)
    }

    /// Whether round `i` stored a person, made of `form`.
    pub open spec fn stores(self, i: int, form: PersonFormView) -> bool {
        &&& 0 <= i < self.run.len()
        &&& self.run[i].action == (RegisterActionView::<E>::CreatePerson { form })
        &&& self.run[i].event matches RegisterEventView::Person(Ok(Ok(_)))
    }

    /// Whether the person was deleted again.
    pub open spec fn takes_back(self) -> bool {
        exists|i: int|
            0 <= i < self.run.len() && (#[trigger] self.run[i]).action is DeletePerson && (
            self.run[i].event matches RegisterEventView::PersonDeleted(Ok(Ok(_))))
    }

    /// Whether the registration leaves a person made of `form` behind, whatever it ends with.
    pub open spec fn leaves(self, form: PersonFormView) -> bool {
        &&& exists|i: int| self.stores(i, form)
        &&& !self.takes_back()
    }

    /// Whether the registration leaves a person behind.
    pub open spec fn leaves_person(self) -> bool {
        exists|form: PersonFormView| self.leaves(form)
    }

    /// Whether the registration leaves an admin behind.
    pub open spec fn leaves_admin(self) -> bool {
        exists|form: PersonFormView| #[trigger] self.leaves(form) && form.admin == Some(true)
    }
}

/// Whether one of the first `n` registrations left a person behind.
pub open spec fn person_before<E>(history: Seq<Registration<E>>, n: int) -> bool {
    exists|k: int| 0 <= k < n && (#[trigger] history[k]).leaves_person()
}

/// How many admins the first `n` registrations left behind.
pub open spec fn admins_before<E>(history: Seq<Registration<E>>, n: int) -> nat
    decreases n,
{
    if n <= 0 {
        0
    } else {
        admins_before(history, n - 1) + if history[n - 1].leaves_admin() {
            1nat
        } else {
            0nat
        }
    }
}

/// Whether a registration counted the admins that those before it left behind.
pub open spec fn counts_admins<E>(history: Seq<Registration<E>>, k: int) -> bool {
    forall|i: int, admins: usize|
        0 <= i < history[k].run.len() && (#[trigger] history[k].run[i]).action is ReadAdmins
            && history[k].run[i].event == #[trigger] admins_reply::<E>(admins) ==> admins
            == admins_before(history, k)
}

/// The reply that there are `admins` admins.
pub open spec fn admins_reply<E>(admins: usize) -> RegisterEventView<E> {
    RegisterEventView::Admins(Ok(Ok(admins)))
}

/// Whether `history` is how the registrations of a server can go that had no admin at first
/// and gets none in any other way: one after another, each of which counts the admins that
/// those before it left behind.
pub open spec fn is_history<E>(history: Seq<Registration<E>>) -> bool {
    forall|k: int|
        0 <= k < history.len() ==> (#[trigger] history[k]).is_valid() && counts_admins(history, k)
}

/// A person is stored as an admin exactly if those before it left no admin behind.
proof fn lemma_stored_admin<E>(
    history: Seq<Registration<E>>,
    k: int,
    i: int,
    form: PersonFormView,
)
    requires
        is_history(history),
        0 <= k < history.len(),
        history[k].stores(i, form),
    ensures
        form.admin == Some(admins_before(history, k) == 0),
{
    let registration = history[k];
    assert(registration.is_valid() && counts_admins(history, k));
    let admins = persons_pass_every_check(
        registration.request,
        registration.settings,
        registration.run,
        i,
    );
    assert(registration.run[3].event == admins_reply::<E>(admins));
}

/// There is an admin as soon as there is a person, and never a second one.
proof fn lemma_one_admin<E>(history: Seq<Registration<E>>, n: int)
    requires
        is_history(history),
        0 <= n <= history.len(),
    ensures
        admins_before(history, n) == if person_before(history, n) {
            1nat
        } else {
            0nat
        },
    decreases n,
{
    if n > 0 {
        let last = history[n - 1];
        lemma_one_admin(history, n - 1);
        assert(person_before(history, n) == (person_before(history, n - 1)
            || last.leaves_person())) by {
            if person_before(history, n - 1) {
                let k = choose|k: int| 0 <= k < n - 1 && (#[trigger] history[k]).leaves_person();
                assert(history[k].leaves_person());
            }
        }
        if last.leaves_person() {
            let form = choose|form: PersonFormView| last.leaves(form);
            let i = choose|i: int| last.stores(i, form);
            lemma_stored_admin(history, n - 1, i, form);
            if last.leaves_admin() {
                let other = choose|other: PersonFormView| #[trigger]
                    last.leaves(other) && other.admin == Some(true);
                let j = choose|j: int| last.stores(j, other);
                lemma_stored_admin(history, n - 1, j, other);
            }
        }
    }
}

/// Exactly the first person that registrations leave behind is an admin, whatever the
/// requests say: a person is stored as an admin if nobody was left behind before, and with
/// `Some(false)` otherwise.
pub proof fn the_first_person_is_the_admin<E>(
    history: Seq<Registration<E>>,
    k: int,
    i: int,
    form: PersonFormView,
)
    requires
        is_history(history),
        0 <= k < history.len(),
        history[k].stores(i, form),
    ensures
        form.admin == Some(!person_before(history, k)),
{
    lemma_one_admin(history, k);
    lemma_stored_admin(history, k, i, form);
}

/// No two registrations leave an admin behind.
pub proof fn there_is_one_admin_at_most<E>(history: Seq<Registration<E>>, j: int, k: int)
    requires
        is_history(history),
        0 <= j < history.len(),
        0 <= k < history.len(),
        history[j].leaves_admin(),
        history[k].leaves_admin(),
    ensures
        j == k,
{
    if j < k {
        lemma_second_admin(history, j, k);
    } else if k < j {
        lemma_second_admin(history, k, j);
    }
}

proof fn lemma_second_admin<E>(history: Seq<Registration<E>>, j: int, k: int)
    requires
        is_history(history),
        0 <= j < k < history.len(),
        history[j].leaves_admin(),
    ensures
        !history[k].leaves_admin(),
{
    let first = choose|form: PersonFormView| #[trigger]
        history[j].leaves(form) && form.admin == Some(true);
    assert(history[j].leaves(first));
    assert(history[j].leaves_person());
    assert(person_before(history, k));
    if history[k].leaves_admin() {
        let form = choose|form: PersonFormView| #[trigger]
            history[k].leaves(form) && form.admin == Some(true);
        let i = choose|i: int| history[k].stores(i, form);
        the_first_person_is_the_admin(history, k, i, form);
    }
}

/// Once registrations have left a person behind, nobody who registers joins the moderators.
pub proof fn later_persons_never_join_the_moderators<E>(
    history: Seq<Registration<E>>,
    k: int,
    i: int,
)
    requires
        is_history(history),
        0 <= k < history.len(),
        person_before(history, k),
        0 <= i < history[k].run.len(),
    ensures
        !(history[k].run[i].action is JoinModerators),
{
    let registration = history[k];
    assert(registration.is_valid() && counts_admins(history, k));
    lemma_one_admin(history, k);
    if registration.run[i].action is JoinModerators {
        let at = moderators_join_servers_without_admins(
            registration.request,
            registration.settings,
            registration.run,
            i,
        );
        assert(registration.run[at].event == admins_reply::<E>(0));
    }
}

} // verus!
