//! Accounts, their approval state machine, and the login-time
//! lookup-or-create rule over an account store.

use vstd::prelude::*;
use crate::keys::same_text;
use crate::token::IdentityClaim;

verus! {

/// Approval state of an account. Only an administrative action moves it, and
/// only out of `Pending`.
#[derive(PartialEq, Eq, Structural, Clone, Copy, Debug)]
pub enum AccountStatus {
    Pending,
    Approved,
    Denied,
}

impl AccountStatus {
    /// The transitions of the approval state machine.
    pub open spec fn can_move_to(self, to: AccountStatus) -> bool {
        self == AccountStatus::Pending && to != AccountStatus::Pending
    }

    /// The guarded transition: the new state when `self -> to` is allowed.
    pub fn transition(self, to: AccountStatus) -> (r: Option<AccountStatus>)
        ensures
            r == (if self.can_move_to(to) {
                Some(to)
            } else {
                None
            }),
    {
        match (self, to) {
            (AccountStatus::Pending, AccountStatus::Approved) => Some(AccountStatus::Approved),
            (AccountStatus::Pending, AccountStatus::Denied) => Some(AccountStatus::Denied),
            _ => None,
        }
    }
}

/// A locally governed account; `id` is the identity's subject.
/// Timestamps are Unix seconds.
pub struct User {
    pub id: String,
    pub email: String,
    pub name: String,
    pub status: AccountStatus,
    pub created_at: i64,
    pub last_login: i64,
}

/// An account as values.
pub struct UserView {
    pub id: Seq<char>,
    pub email: Seq<char>,
    pub name: Seq<char>,
    pub status: AccountStatus,
    pub created_at: i64,
    pub last_login: i64,
}

impl View for User {
    type V = UserView;

    open spec fn view(&self) -> UserView {
        UserView {
            id: self.id@,
            email: self.email@,
            name: self.name@,
            status: self.status,
            created_at: self.created_at,
            last_login: self.last_login,
        }
    }
}

impl User {
    /// A field-by-field copy.
    pub fn duplicate(&self) -> (r: User)
        ensures
            r@ == self@,
    {
        User {
            id: self.id.clone(),
            email: self.email.clone(),
            name: self.name.clone(),
            status: self.status,
            created_at: self.created_at,
            last_login: self.last_login,
        }
    }
}

/// Classes of account-store failure.
#[derive(PartialEq, Eq, Structural, Clone, Copy, Debug)]
pub enum StoreFailure {
    Connectivity,
    Timeout,
    Capacity,
    Constraint,
    Other,
}

/// Why an identity could not be mapped to an account.
#[derive(PartialEq, Eq, Structural, Clone, Copy, Debug)]
pub enum AuthorizeError {
    PersistenceUnavailable(StoreFailure),
}

/// The row the store keeps when `incoming` is written with `existing` already
/// stored under the same id: email, name and last login come from the write,
/// status and creation time are kept.
pub open spec fn merged_row(existing: UserView, incoming: UserView) -> UserView {
    UserView {
        id: existing.id,
        email: incoming.email,
        name: incoming.name,
        status: existing.status,
        created_at: existing.created_at,
        last_login: incoming.last_login,
    }
}

/// The conflict rule of the store's upsert, applied to one row.
pub fn merge_upsert(existing: &User, incoming: &User) -> (r: User)
    ensures
        r@ == merged_row(existing@, incoming@),
{
    User {
        id: existing.id.clone(),
        email: incoming.email.clone(),
        name: incoming.name.clone(),
        status: existing.status,
        created_at: existing.created_at,
        last_login: incoming.last_login,
    }
}

/// What a login does with the store.
pub enum LoginStep {
    /// The account exists: write back its refreshed name and login time.
    /// A failed write is tolerated.
    Update(User),
    /// The account is new: create it. A failed write aborts the login.
    Create(User),
}

/// The account written for a first login of `claim` at `now`.
pub open spec fn new_account(claim: crate::token::IdentityView, now: i64) -> UserView {
    UserView {
        id: claim.subject_id,
        email: claim.email,
        name: claim.display_name,
        status: AccountStatus::Pending,
        created_at: now,
        last_login: now,
    }
}

/// The account written back for a later login of `claim` at `now`.
pub open spec fn refreshed_account(u: UserView, claim: crate::token::IdentityView, now: i64) -> UserView {
    UserView { name: claim.display_name, last_login: now, ..u }
}

/// Decides, from the account found by email (if any), what a login of
/// `claim` at `now` writes.
pub fn plan_login(found: Option<User>, claim: &IdentityClaim, now: i64) -> (r: LoginStep)
    ensures
        match (found, r) {
            (Some(u), LoginStep::Update(w)) => w@ == refreshed_account(u@, claim@, now),
            (None, LoginStep::Create(w)) => w@ == new_account(claim@, now),
            _ => false,
        },
{
    match found {
        Some(u) => LoginStep::Update(
            User {
                id: u.id,
                email: u.email,
                name: claim.display_name.clone(),
                status: u.status,
                created_at: u.created_at,
                last_login: now,
            },
        ),
        None => LoginStep::Create(
            User {
                id: claim.subject_id.clone(),
                email: claim.email.clone(),
                name: claim.display_name.clone(),
                status: AccountStatus::Pending,
                created_at: now,
                last_login: now,
            },
        ),
    }
}

/// Turns the outcome of the store write of `step` into the login's result:
/// an update is returned whatever the write did, a creation only if it was
/// stored.
pub fn conclude_login(step: LoginStep, write: Result<(), StoreFailure>) -> (r: Result<User, AuthorizeError>)
    ensures
        match step {
            LoginStep::Update(w) => r matches Ok(u) && u@ == w@,
            LoginStep::Create(w) => match write {
                Ok(_) => r matches Ok(u) && u@ == w@,
                Err(f) => r == Err::<User, AuthorizeError>(AuthorizeError::PersistenceUnavailable(f)),
            },
        },
{
    match step {
        LoginStep::Update(w) => Ok(w),
        LoginStep::Create(w) => match write {
            Ok(_) => Ok(w),
            Err(f) => Err(AuthorizeError::PersistenceUnavailable(f)),
        },
    }
}

/// A lookup that failed makes the login fail with the store's failure class.
pub fn lookup_failed(f: StoreFailure) -> (r: AuthorizeError)
    ensures
        r == AuthorizeError::PersistenceUnavailable(f),
{
    AuthorizeError::PersistenceUnavailable(f)
}

/// Ids are pairwise distinct, and so are emails.
pub open spec fn rows_wf(rows: Seq<UserView>) -> bool {
    forall|i: int, j: int|
        0 <= i < j < rows.len() ==> rows[i].id != rows[j].id && rows[i].email != rows[j].email
}

/// Position of the row with this id, if any.
pub open spec fn id_index(rows: Seq<UserView>, id: Seq<char>) -> Option<int> {
    if exists|i: int| 0 <= i < rows.len() && rows[i].id == id {
        Some(choose|i: int| 0 <= i < rows.len() && rows[i].id == id)
    } else {
        None
    }
}

/// Position of the row with this email, if any.
pub open spec fn email_index(rows: Seq<UserView>, email: Seq<char>) -> Option<int> {
    if exists|i: int| 0 <= i < rows.len() && rows[i].email == email {
        Some(choose|i: int| 0 <= i < rows.len() && rows[i].email == email)
    } else {
        None
    }
}

/// Whether some row other than position `skip` holds `email`.
pub open spec fn email_taken(rows: Seq<UserView>, email: Seq<char>, skip: int) -> bool {
    exists|j: int| 0 <= j < rows.len() && j != skip && #[trigger] rows[j].email == email
}

/// The store's atomic upsert keyed by id: a new id is appended, an existing
/// id is merged by `merged_row`; an email held by another row is a
/// constraint failure that leaves the rows as they were.
pub open spec fn upserted(rows: Seq<UserView>, u: UserView) -> Result<Seq<UserView>, StoreFailure> {
    match id_index(rows, u.id) {
        Some(i) => if email_taken(rows, u.email, i) {
            Err(StoreFailure::Constraint)
        } else {
            Ok(rows.update(i, merged_row(rows[i], u)))
        },
        None => if email_taken(rows, u.email, -1) {
            Err(StoreFailure::Constraint)
        } else {
            Ok(rows.push(u))
        },
    }
}

/// The rows after an upsert, whether it was stored or refused.
pub open spec fn rows_after_upsert(rows: Seq<UserView>, u: UserView) -> Seq<UserView> {
    match upserted(rows, u) {
        Ok(s) => s,
        Err(_) => rows,
    }
}

/// The account a login of `claim` at `now` writes.
pub open spec fn login_write(rows: Seq<UserView>, claim: crate::token::IdentityView, now: i64) -> UserView {
    match email_index(rows, claim.email) {
        Some(i) => refreshed_account(rows[i], claim, now),
        None => new_account(claim, now),
    }
}

/// The rows after a login of `claim` at `now`.
#[verifier::opaque]
pub open spec fn rows_after_login(rows: Seq<UserView>, claim: crate::token::IdentityView, now: i64) -> Seq<UserView> {
    rows_after_upsert(rows, login_write(rows, claim, now))
}

/// What a login of `claim` at `now` returns.
#[verifier::opaque]
pub open spec fn login_result(rows: Seq<UserView>, claim: crate::token::IdentityView, now: i64) -> Result<UserView, AuthorizeError> {
    match email_index(rows, claim.email) {
        Some(i) => Ok(refreshed_account(rows[i], claim, now)),
        None => match upserted(rows, new_account(claim, now)) {
            Ok(_) => Ok(new_account(claim, now)),
            Err(f) => Err(AuthorizeError::PersistenceUnavailable(f)),
        },
    }
}

pub open spec fn login_result_view(r: Result<User, AuthorizeError>) -> Result<UserView, AuthorizeError> {
    match r {
        Ok(u) => Ok(u@),
        Err(e) => Err(e),
    }
}

/// An upsert keeps ids and emails distinct, keeps the id and status of every
/// row already stored, and adds at most one row.
pub proof fn lemma_upsert_preserves(rows: Seq<UserView>, u: UserView)
    requires
        rows_wf(rows),
    ensures
        rows_wf(rows_after_upsert(rows, u)),
        rows.len() <= rows_after_upsert(rows, u).len() <= rows.len() + 1,
        forall|i: int|
            0 <= i < rows.len() ==> (#[trigger] rows_after_upsert(rows, u)[i]).status == rows[i].status
                && rows_after_upsert(rows, u)[i].id == rows[i].id
                && rows_after_upsert(rows, u)[i].created_at == rows[i].created_at,
        rows_after_upsert(rows, u).len() == rows.len() + 1 ==> rows_after_upsert(rows, u)[rows.len() as int] == u,
{
    match id_index(rows, u.id) {
        Some(i) => {
            if !email_taken(rows, u.email, i) {
                let s = rows.update(i, merged_row(rows[i], u));
                assert forall|a: int, b: int| 0 <= a < b < s.len() implies s[a].id != s[b].id && s[a].email != s[b].email by {
                    if a == i {
                        assert(rows[b].email != u.email);
                    } else if b == i {
                        assert(rows[a].email != u.email);
                    }
                }
            }
        },
        None => {
            if !email_taken(rows, u.email, -1) {
                let s = rows.push(u);
                assert forall|a: int, b: int| 0 <= a < b < s.len() implies s[a].id != s[b].id && s[a].email != s[b].email by {
                    if b == rows.len() {
                        assert(rows[a].email != u.email);
                        assert(rows[a].id != u.id);
                    }
                }
            }
        },
    }
}

proof fn lemma_create_lands(rows: Seq<UserView>, w: UserView) -> (k: int)
    requires
        rows_wf(rows),
        email_index(rows, w.email) is None,
    ensures
        upserted(rows, w) is Ok,
        0 <= k < rows_after_upsert(rows, w).len(),
        rows_after_upsert(rows, w)[k].email == w.email,
{
    assert(!email_taken(rows, w.email, -1));
    match id_index(rows, w.id) {
        Some(i) => {
            assert(!email_taken(rows, w.email, i));
            i
        },
        None => rows.len() as int,
    }
}

proof fn lemma_update_in_place(rows: Seq<UserView>, k: int, w: UserView)
    requires
        rows_wf(rows),
        0 <= k < rows.len(),
        w.id == rows[k].id,
        w.email == rows[k].email,
    ensures
        upserted(rows, w) == Ok::<Seq<UserView>, StoreFailure>(rows.update(k, merged_row(rows[k], w))),
{
    assert(id_index(rows, w.id) == Some(k));
    assert(!email_taken(rows, w.email, k));
}

proof fn lemma_email_at(rows: Seq<UserView>, k: int)
    requires
        rows_wf(rows),
        0 <= k < rows.len(),
    ensures
        email_index(rows, rows[k].email) == Some(k),
        forall|j: int| 0 <= j < rows.len() && j != k ==> rows[j].email != rows[k].email,
{
    assert forall|j: int| 0 <= j < rows.len() && j != k implies rows[j].email != rows[k].email by {
        if j < k {
        } else {
        }
    }
}

proof fn lemma_first_login(rows: Seq<UserView>, claim: crate::token::IdentityView, now: i64) -> (k: int)
    requires
        rows_wf(rows),
        email_index(rows, claim.email) is None,
    ensures
        login_result(rows, claim, now) is Ok,
        rows_wf(rows_after_login(rows, claim, now)),
        0 <= k < rows_after_login(rows, claim, now).len(),
        rows_after_login(rows, claim, now)[k].email == claim.email,
{
    reveal(rows_after_login);
    reveal(login_result);
    let w = new_account(claim, now);
    assert(login_write(rows, claim, now) == w);
    lemma_upsert_preserves(rows, w);
    lemma_create_lands(rows, w)
}

proof fn lemma_later_login(rows: Seq<UserView>, claim: crate::token::IdentityView, now: i64, k: int)
    requires
        rows_wf(rows),
        0 <= k < rows.len(),
        rows[k].email == claim.email,
    ensures
        rows_wf(rows_after_login(rows, claim, now)),
        rows_after_login(rows, claim, now).len() == rows.len(),
        rows_after_login(rows, claim, now)[k].email == claim.email,
{
    reveal(rows_after_login);
    lemma_email_at(rows, k);
    let w = refreshed_account(rows[k], claim, now);
    assert(login_write(rows, claim, now) == w);
    lemma_update_in_place(rows, k, w);
    lemma_upsert_preserves(rows, w);
}

/// Logging in twice in a row with an identity whose email no account holds
/// creates exactly one account for it: the second login updates that
/// account and adds no row.
pub proof fn lemma_second_login_adds_nothing(
    rows: Seq<UserView>,
    claim: crate::token::IdentityView,
    first: i64,
    second: i64,
)
    requires
        rows_wf(rows),
        email_index(rows, claim.email) is None,
    ensures
        login_result(rows, claim, first) is Ok,
        rows_wf(rows_after_login(rows_after_login(rows, claim, first), claim, second)),
        rows_after_login(rows_after_login(rows, claim, first), claim, second).len()
            == rows_after_login(rows, claim, first).len(),
        ({
            let twice = rows_after_login(rows_after_login(rows, claim, first), claim, second);
            exists|i: int|
                0 <= i < twice.len() && twice[i].email == claim.email && forall|j: int|
                    0 <= j < twice.len() && j != i ==> twice[j].email != claim.email
        }),
{
    let k = lemma_first_login(rows, claim, first);
    let once = rows_after_login(rows, claim, first);
    lemma_later_login(once, claim, second, k);
    let twice = rows_after_login(once, claim, second);
    lemma_email_at(twice, k);
}

/// A login never changes the approval status, the id or the creation time of
/// an account already stored, so an administrative decision stays as it was
/// made; an account a login adds is `Pending`.
pub proof fn lemma_login_keeps_status(rows: Seq<UserView>, claim: crate::token::IdentityView, now: i64)
    requires
        rows_wf(rows),
    ensures
        rows_wf(rows_after_login(rows, claim, now)),
        rows.len() <= rows_after_login(rows, claim, now).len() <= rows.len() + 1,
        forall|i: int|
            0 <= i < rows.len() ==> (#[trigger] rows_after_login(rows, claim, now)[i]).status
                == rows[i].status && rows_after_login(rows, claim, now)[i].id == rows[i].id,
        rows_after_login(rows, claim, now).len() == rows.len() + 1 ==> rows_after_login(
            rows,
            claim,
            now,
        )[rows.len() as int].status == AccountStatus::Pending,
        match (email_index(rows, claim.email), login_result(rows, claim, now)) {
            (Some(i), Ok(u)) => u.status == rows[i].status,
            (None, Ok(u)) => u.status == AccountStatus::Pending,
            _ => true,
        },
{
    reveal(rows_after_login);
    reveal(login_result);
    let w = login_write(rows, claim, now);
    lemma_upsert_preserves(rows, w);
    if let Some(i) = email_index(rows, claim.email) {
        assert(id_index(rows, w.id) is Some);
    }
}

/// An in-memory account store with the same upsert and lookup rules as the
/// persistent one.
pub struct AccountStore {
    pub rows: Vec<User>,
}

impl View for AccountStore {
    type V = Seq<UserView>;

    open spec fn view(&self) -> Seq<UserView> {
        self.rows@.map_values(|u: User| u@)
    }
}

impl AccountStore {
    pub open spec fn wf(&self) -> bool {
        rows_wf(self@)
    }

    /// An empty store.
    pub fn new() -> (r: AccountStore)
        ensures
            r@ == Seq::<UserView>::empty(),
            r.wf(),
    {
        let r = AccountStore { rows: Vec::new() };
        assert(r@ =~= Seq::<UserView>::empty());
        r
    }

    /// Position of the row holding `email`.
    fn position_of_email(&self, email: &str) -> (r: Option<usize>)
        requires
            self.wf(),
        ensures
            match r {
                Some(i) => i < self@.len() && email_index(self@, email@) == Some(i as int),
                None => email_index(self@, email@) is None,
            },
    {
        let mut i: usize = 0;
        while i < self.rows.len()
            invariant
                i <= self.rows@.len(),
                self.wf(),
                forall|j: int| 0 <= j < i ==> self@[j].email != email@,
            decreases self.rows@.len() - i,
        {
            if same_text(self.rows[i].email.as_str(), email) {
                assert(self@[i as int].email == email@);
                return Some(i);
            }
            i = i + 1;
        }
        None
    }

    /// The account registered under `email`, if any.
    pub fn find_by_email(&self, email: &str) -> (r: Option<User>)
        requires
            self.wf(),
        ensures
            match email_index(self@, email@) {
                Some(i) => r matches Some(u) && u@ == self@[i],
                None => r is None,
            },
    {
        match self.position_of_email(email) {
            Some(i) => Some(self.rows[i].duplicate()),
            None => None,
        }
    }

    /// Writes `u`, keyed by id, under the store's conflict rule.
    pub fn upsert_user(&mut self, u: &User) -> (r: Result<(), StoreFailure>)
        requires
            old(self).wf(),
        ensures
            final(self).wf(),
            match upserted(old(self)@, u@) {
                Ok(s) => r is Ok && final(self)@ == s,
                Err(f) => r == Err::<(), StoreFailure>(f) && final(self)@ == old(self)@,
            },
    {
        let ghost rows = self@;
        let mut id_at: Option<usize> = None;
        let mut email_at: Option<usize> = None;
        let mut i: usize = 0;
        while i < self.rows.len()
            invariant
                self@ == rows,
                rows_wf(rows),
                i <= self.rows@.len(),
                match id_at {
                    Some(k) => k < i && rows[k as int].id == u.id@,
                    None => forall|j: int| 0 <= j < i ==> rows[j].id != u.id@,
                },
                match email_at {
                    Some(k) => k < i && rows[k as int].email == u.email@,
                    None => forall|j: int| 0 <= j < i ==> rows[j].email != u.email@,
                },
            decreases self.rows@.len() - i,
        {
            if same_text(self.rows[i].id.as_str(), u.id.as_str()) {
                id_at = Some(i);
            }
            if same_text(self.rows[i].email.as_str(), u.email.as_str()) {
                email_at = Some(i);
            }
            i = i + 1;
        }
        proof {
            lemma_upsert_preserves(rows, u@);
        }
        match id_at {
            Some(k) => {
                assert(id_index(rows, u.id@) == Some(k as int));
                let clash = match email_at {
                    Some(j) => j != k,
                    None => false,
                };
                if clash {
                    assert(email_taken(rows, u.email@, k as int));
                    return Err(StoreFailure::Constraint);
                }
                assert(!email_taken(rows, u.email@, k as int));
                let m = merge_upsert(&self.rows[k], u);
                self.rows.set(k, m);
                assert(self@ =~= rows.update(k as int, merged_row(rows[k as int], u@)));
                Ok(())
            },
            None => {
                assert(id_index(rows, u.id@) is None);
                if email_at.is_some() {
                    assert(email_taken(rows, u.email@, -1));
                    return Err(StoreFailure::Constraint);
                }
                assert(!email_taken(rows, u.email@, -1));
                self.rows.push(u.duplicate());
                assert(self@ =~= rows.push(u@));
                Ok(())
            },
        }
    }

    /// Maps a verified identity to its account: an existing account gets its
    /// name and login time refreshed (a failed write is tolerated and the
    /// refreshed account is still returned); an unseen one is created as
    /// `Pending`, and a failed creation is an error.
    pub fn authorize(&mut self, claim: &IdentityClaim, now: i64) -> (r: Result<User, AuthorizeError>)
        requires
            old(self).wf(),
        ensures
            final(self).wf(),
            final(self)@ == rows_after_login(old(self)@, claim@, now),
            login_result_view(r) == login_result(old(self)@, claim@, now),
    {
        proof {
            reveal(rows_after_login);
            reveal(login_result);
        }
        let found = self.find_by_email(claim.email.as_str());
        let step = plan_login(found, claim, now);
        let write = match &step {
            LoginStep::Update(w) => self.upsert_user(w),
            LoginStep::Create(w) => self.upsert_user(w),
        };
        conclude_login(step, write)
    }

    /// The administrative decision on the account under `email`: applied when
    /// the account exists and the state machine allows the move.
    pub fn set_status(&mut self, email: &str, to: AccountStatus) -> (r: bool)
        requires
            old(self).wf(),
        ensures
            final(self).wf(),
            match email_index(old(self)@, email@) {
                Some(i) => if old(self)@[i].status.can_move_to(to) {
                    r && final(self)@ == old(self)@.update(i, UserView { status: to, ..old(self)@[i] })
                } else {
                    !r && final(self)@ == old(self)@
                },
                None => !r && final(self)@ == old(self)@,
            },
    {
        match self.position_of_email(email) {
            Some(i) => match self.rows[i].status.transition(to) {
                Some(s) => {
                    let ghost rows = self@;
                    let mut u = self.rows[i].duplicate();
                    u.status = s;
                    self.rows.set(i, u);
                    assert(self@ =~= rows.update(i as int, UserView { status: to, ..rows[i as int] }));
                    assert forall|a: int, b: int| 0 <= a < b < self@.len() implies self@[a].id != self@[b].id
                        && self@[a].email != self@[b].email by {
                        assert(rows[a].id != rows[b].id && rows[a].email != rows[b].email);
                    }
                    true
                },
                None => false,
            },
            None => false,
        }
    }
}

} // verus!
