use vstd::prelude::*;
use crate::error::AppError;

verus! {

/// Why a refresh token was revoked.
#[derive(Debug, Clone, Copy, PartialEq, Eq, Structural)]
pub enum RevokeReason {
    Rotation,
    Logout,
    LogoutAll,
    PasswordChange,
    SecurityReuseDetected,
}

impl RevokeReason {
    /// The stored name of the reason.
    pub fn as_str(&self) -> (r: &'static str)
        ensures
            *self is Rotation ==> r@ == "rotation"@,
            *self is Logout ==> r@ == "logout"@,
            *self is LogoutAll ==> r@ == "logout_all"@,
            *self is PasswordChange ==> r@ == "password_change"@,
            *self is SecurityReuseDetected ==> r@ == "security_reuse_detected"@,
    {
        match self {
            RevokeReason::Rotation => "rotation",
            RevokeReason::Logout => "logout",
            RevokeReason::LogoutAll => "logout_all",
            RevokeReason::PasswordChange => "password_change",
            RevokeReason::SecurityReuseDetected => "security_reuse_detected",
        }
    }
}

/// A session record: one issued refresh token, kept by the hash of its text.
/// Rows are never deleted; revocation only fills in the two revocation fields.
#[derive(Debug)]
pub struct RefreshToken {
    pub id: u128,
    pub user_id: u128,
    pub token_hash: String,
    pub family_id: u128,
    pub expires_at: i64,
    pub created_at: i64,
    pub revoked_at: Option<i64>,
    pub revoked_reason: Option<RevokeReason>,
    pub user_agent: Option<String>,
    pub ip_address: Option<String>,
}

/// `t` marked revoked at `now` for `reason`, all else kept.
pub open spec fn revoked(t: RefreshToken, reason: RevokeReason, now: i64) -> RefreshToken {
    RefreshToken { revoked_at: Some(now), revoked_reason: Some(reason), ..t }
}

/// Which rows a bulk revocation reaches.
#[derive(Debug)]
pub enum Selector {
    /// The row with this id.
    Id(u128),
    /// Every row of a family.
    Family(u128),
    /// Every row of a user.
    User(u128),
    /// The row of this user with this token hash.
    UserHash(u128, String),
}

pub open spec fn selects(s: Selector, t: RefreshToken) -> bool {
    match s {
        Selector::Id(id) => t.id == id,
        Selector::Family(f) => t.family_id == f,
        Selector::User(u) => t.user_id == u,
        Selector::UserHash(u, h) => t.user_id == u && t.token_hash@ == h@,
    }
}

/// Every selected row that is not yet revoked becomes revoked; the rest stay.
pub open spec fn revoke_where(
    rows: Seq<RefreshToken>,
    s: Selector,
    reason: RevokeReason,
    now: i64,
) -> Seq<RefreshToken> {
    Seq::new(
        rows.len(),
        |i: int|
            if selects(s, rows[i]) && rows[i].revoked_at is None {
                revoked(rows[i], reason, now)
            } else {
                rows[i]
            },
    )
}

/// The number of selected rows that are not yet revoked.
pub open spec fn live_selected(rows: Seq<RefreshToken>, s: Selector) -> nat
    decreases rows.len(),
{
    if rows.len() == 0 {
        0
    } else {
        live_selected(rows.drop_last(), s) + if selects(s, rows.last()) && rows.last().revoked_at
            is None {
            1nat
        } else {
            0nat
        }
    }
}

/// Ids and token hashes are unique among the rows.
pub open spec fn store_wf(rows: Seq<RefreshToken>) -> bool {
    forall|i: int, j: int|
        0 <= i < rows.len() && 0 <= j < rows.len() && i != j ==> (#[trigger] rows[i]).id
            != (#[trigger] rows[j]).id && rows[i].token_hash@ != rows[j].token_hash@
}

pub open spec fn hash_at(rows: Seq<RefreshToken>, h: Seq<char>, i: int) -> bool {
    0 <= i < rows.len() && rows[i].token_hash@ == h
}

pub open spec fn has_hash(rows: Seq<RefreshToken>, h: Seq<char>) -> bool {
    exists|i: int| hash_at(rows, h, i)
}

pub open spec fn has_id(rows: Seq<RefreshToken>, id: u128) -> bool {
    exists|i: int| 0 <= i < rows.len() && (#[trigger] rows[i]).id == id
}

pub open spec fn has_family(rows: Seq<RefreshToken>, f: u128) -> bool {
    exists|i: int| 0 <= i < rows.len() && (#[trigger] rows[i]).family_id == f
}

/// The token with hash `h` can be rotated at `now`: its row exists, is not
/// revoked and has not expired.
pub open spec fn may_rotate(rows: Seq<RefreshToken>, h: Seq<char>, now: i64) -> bool {
    exists|i: int|
        hash_at(rows, h, i) && rows[i].revoked_at is None && !(rows[i].expires_at < now)
}

/// `after` is `before` with row `i` revoked for rotation at `now` and exactly
/// one new live row of the same family, under an id that no row had.
pub open spec fn rotated(
    before: Seq<RefreshToken>,
    after: Seq<RefreshToken>,
    i: int,
    now: i64,
) -> bool {
    &&& 0 <= i < before.len()
    &&& after.len() == before.len() + 1
    &&& after[i] == revoked(before[i], RevokeReason::Rotation, now)
    &&& forall|j: int| 0 <= j < before.len() && j != i ==> after[j] == before[j]
    &&& after.last().family_id == before[i].family_id
    &&& after.last().user_id == before[i].user_id
    &&& after.last().revoked_at is None
    &&& !has_id(before, after.last().id)
}

/// The durable record of issued refresh tokens.
pub struct SessionStore {
    rows: Vec<RefreshToken>,
}

impl View for SessionStore {
    type V = Seq<RefreshToken>;

    closed spec fn view(&self) -> Seq<RefreshToken> {
        self.rows@
    }
}

fn copy_text(o: &Option<String>) -> (r: Option<String>)
    ensures
        r == *o,
{
    match o {
        Some(s) => Some(s.clone()),
        None => None,
    }
}

fn copy_time(o: &Option<i64>) -> (r: Option<i64>)
    ensures
        r == *o,
{
    match o {
        Some(t) => Some(*t),
        None => None,
    }
}

impl Selector {
    pub fn selects(&self, t: &RefreshToken) -> (r: bool)
        ensures
            r == selects(*self, *t),
    {
        match self {
            Selector::Id(id) => t.id == *id,
            Selector::Family(f) => t.family_id == *f,
            Selector::User(u) => t.user_id == *u,
            Selector::UserHash(u, h) => t.user_id == *u && t.token_hash == *h,
        }
    }
}

impl RefreshToken {
    /// This row, marked revoked at `now` for `reason`.
    pub fn revoked_copy(&self, reason: RevokeReason, now: i64) -> (r: RefreshToken)
        ensures
            r == revoked(*self, reason, now),
    {
        RefreshToken {
            id: self.id,
            user_id: self.user_id,
            token_hash: self.token_hash.clone(),
            family_id: self.family_id,
            expires_at: self.expires_at,
            created_at: self.created_at,
            revoked_at: Some(now),
            revoked_reason: Some(reason),
            user_agent: copy_text(&self.user_agent),
            ip_address: copy_text(&self.ip_address),
        }
    }
}

/// What a revocation written to a shared store as a conditional update ("revoke
/// if not yet revoked") means. A rotation whose row another request revoked
/// first is a replay; any other outcome is fine, since revocation is idempotent.
pub fn revocation_write_outcome(reason: RevokeReason, row_was_live: bool) -> (r: Result<
    (),
    AppError,
>)
    ensures
        reason is Rotation && !row_was_live ==> (r matches Err(AppError::TokenReuseDetected)),
        !(reason is Rotation && !row_was_live) ==> r is Ok,
{
    match reason {
        RevokeReason::Rotation => if row_was_live {
            Ok(())
        } else {
            Err(AppError::TokenReuseDetected)
        },
        _ => Ok(()),
    }
}

impl SessionStore {
    pub open spec fn wf(&self) -> bool {
        store_wf(self@)
    }

    /// An empty store.
    pub fn new() -> (r: SessionStore)
        ensures
            r@ == Seq::<RefreshToken>::empty(),
            r.wf(),
    {
        SessionStore { rows: Vec::new() }
    }

    /// Number of rows, revoked ones included.
    pub fn len(&self) -> (r: usize)
        ensures
            r == self@.len(),
    {
        self.rows.len()
    }

    /// The row at position `i`.
    pub fn row(&self, i: usize) -> (r: &RefreshToken)
        requires
            i < self@.len(),
        ensures
            *r == self@[i as int],
    {
        &self.rows[i]
    }

    /// Position of the row whose token hash is `hash`.
    pub fn find_by_hash(&self, hash: &str) -> (r: Option<usize>)
        ensures
            r matches Some(i) ==> hash_at(self@, hash@, i as int),
            r is None ==> !has_hash(self@, hash@),
    {
        let mut i: usize = 0;
        while i < self.rows.len()
            invariant
                i <= self@.len(),
                forall|j: int| 0 <= j < i ==> !hash_at(self@, hash@, j),
            decreases self@.len() - i,
        {
            if crate::text::text_eq(self.rows[i].token_hash.as_str(), hash) {
                return Some(i);
            }
            i = i + 1;
        }
        None
    }

    fn find_id(&self, id: u128) -> (r: bool)
        ensures
            r == has_id(self@, id),
    {
        let mut i: usize = 0;
        while i < self.rows.len()
            invariant
                i <= self@.len(),
                forall|j: int| 0 <= j < i ==> self@[j].id != id,
            decreases self@.len() - i,
        {
            if self.rows[i].id == id {
                return true;
            }
            i = i + 1;
        }
        false
    }

    /// Whether some row belongs to family `f`.
    pub fn contains_family(&self, f: u128) -> (r: bool)
        ensures
            r == has_family(self@, f),
    {
        let mut i: usize = 0;
        while i < self.rows.len()
            invariant
                i <= self@.len(),
                forall|j: int| 0 <= j < i ==> self@[j].family_id != f,
            decreases self@.len() - i,
        {
            if self.rows[i].family_id == f {
                return true;
            }
            i = i + 1;
        }
        false
    }

    /// Adds a row. A row whose id or token hash is already stored is refused
    /// and the store is left as it was.
    pub fn insert(&mut self, row: RefreshToken) -> (r: Result<(), AppError>)
        requires
            old(self).wf(),
        ensures
            final(self).wf(),
            !has_id(old(self)@, row.id) && !has_hash(old(self)@, row.token_hash@) ==> r is Ok
                && final(self)@ == old(self)@.push(row),
            has_id(old(self)@, row.id) || has_hash(old(self)@, row.token_hash@) ==> (r matches Err(
                AppError::InternalError(_),
            )) && final(self)@ == old(self)@,
    {
        if self.find_id(row.id) {
            return Err(AppError::InternalError(String::from_str("Duplicate session id")));
        }
        match self.find_by_hash(row.token_hash.as_str()) {
            Some(_) => {
                return Err(AppError::InternalError(String::from_str("Duplicate session token")));
            },
            None => {},
        }
        let ghost before = self@;
        self.rows.push(row);
        assert forall|i: int, j: int|
            0 <= i < self@.len() && 0 <= j < self@.len() && i != j implies (
            #[trigger] self@[i]).id != (#[trigger] self@[j]).id && self@[i].token_hash@
                != self@[j].token_hash@ by {
            if i == before.len() as int {
                assert(hash_at(before, row.token_hash@, j) ==> has_hash(before, row.token_hash@));
            } else if j == before.len() as int {
                assert(hash_at(before, row.token_hash@, i) ==> has_hash(before, row.token_hash@));
            }
        }
        Ok(())
    }

    /// Revokes every selected row that is not yet revoked, and returns how many
    /// it revoked. Rows already revoked keep their first revocation.
    pub fn revoke_matching(&mut self, s: &Selector, reason: RevokeReason, now: i64) -> (r: u64)
        requires
            old(self).wf(),
        ensures
            final(self).wf(),
            final(self)@ == revoke_where(old(self)@, *s, reason, now),
            r as nat == live_selected(old(self)@, *s),
    {
        let ghost before = self@;
        let mut count: u64 = 0;
        let mut i: usize = 0;
        while i < self.rows.len()
            invariant
                self@.len() == before.len(),
                i <= before.len(),
                store_wf(before),
                forall|j: int|
                    0 <= j < i ==> self@[j] == (#[trigger] revoke_where(before, *s, reason, now)[j]),
                forall|j: int| i <= j < before.len() ==> self@[j] == before[j],
                count as nat == live_selected(before.take(i as int), *s),
                count <= i,
            decreases before.len() - i,
        {
            assert(before.take(i as int + 1).drop_last() =~= before.take(i as int));
            if s.selects(&self.rows[i]) && self.rows[i].revoked_at.is_none() {
                let fresh = self.rows[i].revoked_copy(reason, now);
                self.rows.set(i, fresh);
                count = count + 1;
            }
            i = i + 1;
        }
        assert(before.take(before.len() as int) =~= before);
        assert(self@ =~= revoke_where(before, *s, reason, now));
        count
    }

    /// Steps two to four of a rotation, for the token whose hash is
    /// `token_hash`: an unknown token is `TokenNotFound`; a revoked one is
    /// taken as a replay, revokes its whole family and is `TokenReuseDetected`;
    /// an expired one is `RefreshTokenExpired`. Otherwise it gives the row's
    /// position and changes nothing.
    pub fn begin_rotation(&mut self, token_hash: &str, now: i64) -> (r: Result<usize, AppError>)
        requires
            old(self).wf(),
        ensures
            final(self).wf(),
            !has_hash(old(self)@, token_hash@) ==> (r matches Err(AppError::TokenNotFound))
                && final(self)@ == old(self)@,
            r matches Ok(i) ==> hash_at(old(self)@, token_hash@, i as int) && old(self)@[i as int].revoked_at is None
                && !(old(self)@[i as int].expires_at < now) && final(self)@ == old(self)@,
            r is Err && !(r matches Err(AppError::TokenReuseDetected)) ==> final(self)@ == old(self)@,
            forall|i: int|
                #[trigger] hash_at(old(self)@, token_hash@, i) ==> {
                    &&& old(self)@[i].revoked_at is Some ==> (r matches Err(
                        AppError::TokenReuseDetected,
                    )) && final(self)@ == revoke_where(
                        old(self)@,
                        Selector::Family(old(self)@[i].family_id),
                        RevokeReason::SecurityReuseDetected,
                        now,
                    )
                    &&& old(self)@[i].revoked_at is None && old(self)@[i].expires_at < now ==> (
                    r matches Err(AppError::RefreshTokenExpired)) && final(self)@ == old(self)@
                    &&& old(self)@[i].revoked_at is None && !(old(self)@[i].expires_at < now)
                        ==> r == Ok::<usize, AppError>(i as usize) && final(self)@ == old(self)@
                },
    {
        let i = match self.find_by_hash(token_hash) {
            Some(i) => i,
            None => return Err(AppError::TokenNotFound),
        };
        if self.rows[i].revoked_at.is_some() {
            let f = self.rows[i].family_id;
            self.revoke_matching(&Selector::Family(f), RevokeReason::SecurityReuseDetected, now);
            return Err(AppError::TokenReuseDetected);
        }
        if self.rows[i].expires_at < now {
            return Err(AppError::RefreshTokenExpired);
        }
        Ok(i)
    }

    /// Step five of a rotation, as one conditional update: the row at `i` is
    /// revoked for rotation and `next` is stored, unless the row was revoked
    /// meanwhile, which is a replay and revokes the family, or `next` clashes
    /// with a stored id or hash, which changes nothing.
    pub fn complete_rotation(&mut self, i: usize, next: RefreshToken, now: i64) -> (r: Result<
        (),
        AppError,
    >)
        requires
            old(self).wf(),
            i < old(self)@.len(),
            next.family_id == old(self)@[i as int].family_id,
            next.user_id == old(self)@[i as int].user_id,
            next.revoked_at is None,
        ensures
            final(self).wf(),
            old(self)@[i as int].revoked_at is Some ==> (r matches Err(
                AppError::TokenReuseDetected,
            )) && final(self)@ == revoke_where(
                old(self)@,
                Selector::Family(next.family_id),
                RevokeReason::SecurityReuseDetected,
                now,
            ),
            old(self)@[i as int].revoked_at is None && (has_id(old(self)@, next.id) || has_hash(
                old(self)@,
                next.token_hash@,
            )) ==> (r matches Err(AppError::InternalError(_))) && final(self)@ == old(self)@,
            old(self)@[i as int].revoked_at is None && !has_id(old(self)@, next.id) && !has_hash(
                old(self)@,
                next.token_hash@,
            ) ==> r is Ok && final(self)@ == old(self)@.update(
                i as int,
                revoked(old(self)@[i as int], RevokeReason::Rotation, now),
            ).push(next),
            r is Ok ==> rotated(old(self)@, final(self)@, i as int, now),
    {
        if self.rows[i].revoked_at.is_some() {
            let f = self.rows[i].family_id;
            self.revoke_matching(&Selector::Family(f), RevokeReason::SecurityReuseDetected, now);
            return Err(AppError::TokenReuseDetected);
        }
        if self.find_id(next.id) {
            return Err(AppError::InternalError(String::from_str("Duplicate session id")));
        }
        match self.find_by_hash(next.token_hash.as_str()) {
            Some(_) => {
                return Err(AppError::InternalError(String::from_str("Duplicate session token")));
            },
            None => {},
        }
        let ghost before = self@;
        let done = self.rows[i].revoked_copy(RevokeReason::Rotation, now);
        self.rows.set(i, done);
        let ghost mid = self@;
        assert forall|a: int, b: int|
            0 <= a < mid.len() && 0 <= b < mid.len() && a != b implies (#[trigger] mid[a]).id
                != (#[trigger] mid[b]).id && mid[a].token_hash@ != mid[b].token_hash@ by {
            assert(before[a].id != before[b].id);
        }
        proof {
            assert forall|j: int| 0 <= j < mid.len() implies (#[trigger] mid[j]).id != next.id
                && mid[j].token_hash@ != next.token_hash@ by {
                assert(before[j].id == mid[j].id);
                assert(hash_at(before, next.token_hash@, j) ==> has_hash(before, next.token_hash@));
            }
        }
        self.rows.push(next);
        assert forall|a: int, b: int|
            0 <= a < self@.len() && 0 <= b < self@.len() && a != b implies (
            #[trigger] self@[a]).id != (#[trigger] self@[b]).id && self@[a].token_hash@
                != self@[b].token_hash@ by {
            if a < mid.len() && b < mid.len() {
                assert(mid[a].id != mid[b].id);
            } else if a < mid.len() {
                assert(mid[a].id != next.id);
            } else {
                assert(mid[b].id != next.id);
            }
        }
        Ok(())
    }
}

/// After a bulk revocation, no token of a selected row can be rotated, at any time.
pub proof fn lemma_revoked_selection_cannot_rotate(
    rows: Seq<RefreshToken>,
    s: Selector,
    reason: RevokeReason,
    t: i64,
    later: i64,
)
    requires
        store_wf(rows),
    ensures
        forall|i: int|
            0 <= i < rows.len() && #[trigger] selects(s, rows[i]) ==> !may_rotate(
                revoke_where(rows, s, reason, t),
                rows[i].token_hash@,
                later,
            ),
{
    let after = revoke_where(rows, s, reason, t);
    assert forall|i: int|
        0 <= i < rows.len() && #[trigger] selects(s, rows[i]) implies !may_rotate(
        after,
        rows[i].token_hash@,
        later,
    ) by {
        if may_rotate(after, rows[i].token_hash@, later) {
            let j = choose|j: int|
                hash_at(after, rows[i].token_hash@, j) && after[j].revoked_at is None && !(
                after[j].expires_at < later);
            assert(after[j].token_hash@ == rows[j].token_hash@);
            assert(after[i].revoked_at is Some);
            assert(i != j);
            assert(rows[i].token_hash@ != rows[j].token_hash@);
        }
    }
}

/// Reuse detection closes the family: once the family of a replayed token has
/// been revoked, no token of that family, sibling or descendant, can be
/// rotated any more.
pub proof fn lemma_reuse_closes_family(rows: Seq<RefreshToken>, family_id: u128, t: i64, later: i64)
    requires
        store_wf(rows),
    ensures
        forall|i: int|
            0 <= i < rows.len() && (#[trigger] rows[i]).family_id == family_id ==> !may_rotate(
                revoke_where(
                    rows,
                    Selector::Family(family_id),
                    RevokeReason::SecurityReuseDetected,
                    t,
                ),
                rows[i].token_hash@,
                later,
            ),
{
    lemma_revoked_selection_cannot_rotate(
        rows,
        Selector::Family(family_id),
        RevokeReason::SecurityReuseDetected,
        t,
        later,
    );
    assert forall|i: int| 0 <= i < rows.len() && (#[trigger] rows[i]).family_id == family_id implies
        selects(Selector::Family(family_id), rows[i]) by {}
}

/// A password change ends every session of the user: no refresh token issued
/// to the user before the change can be rotated afterwards.
pub proof fn lemma_password_change_ends_sessions(
    rows: Seq<RefreshToken>,
    user_id: u128,
    t: i64,
    later: i64,
)
    requires
        store_wf(rows),
    ensures
        forall|i: int|
            0 <= i < rows.len() && (#[trigger] rows[i]).user_id == user_id ==> !may_rotate(
                revoke_where(rows, Selector::User(user_id), RevokeReason::PasswordChange, t),
                rows[i].token_hash@,
                later,
            ),
{
    lemma_revoked_selection_cannot_rotate(
        rows,
        Selector::User(user_id),
        RevokeReason::PasswordChange,
        t,
        later,
    );
    assert forall|i: int| 0 <= i < rows.len() && (#[trigger] rows[i]).user_id == user_id implies
        selects(Selector::User(user_id), rows[i]) by {}
}

/// Revocation is monotonic and idempotent: a revoked row stays revoked with
/// its first reason and time, and revoking the same rows again changes nothing.
pub proof fn lemma_revocation_monotonic(
    rows: Seq<RefreshToken>,
    s: Selector,
    reason: RevokeReason,
    t: i64,
    again: RevokeReason,
    later: i64,
)
    ensures
        forall|i: int|
            0 <= i < rows.len() && (#[trigger] rows[i]).revoked_at is Some ==> revoke_where(
                rows,
                s,
                reason,
                t,
            )[i] == rows[i],
        revoke_where(revoke_where(rows, s, reason, t), s, again, later) == revoke_where(
            rows,
            s,
            reason,
            t,
        ),
{
    let once = revoke_where(rows, s, reason, t);
    let twice = revoke_where(once, s, again, later);
    assert forall|i: int| 0 <= i < rows.len() implies twice[i] == once[i] by {
        if selects(s, rows[i]) && rows[i].revoked_at is None {
            assert(selects(s, once[i]));
        }
    }
    assert(twice =~= once);
}

} // verus!
