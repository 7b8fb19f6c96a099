use vstd::prelude::*;
use rand::distributions::Alphanumeric;
use rand::Rng;
use crate::error::{AppError, TokenFailure};

verus! {

/// Number of characters of an issued token.
pub const TOKEN_LEN: usize = 32;

/// What a token may be redeemed for.
#[derive(Debug, Clone, Copy, PartialEq, Eq, Structural)]
pub enum TokenType {
    EmailVerification,
    PasswordReset,
}

/// One issued token.
pub struct TokenRecord {
    /// The opaque string handed out; the only credential in a link.
    pub token: String,
    /// The account the token is bound to, if any.
    pub user_id: Option<u128>,
    pub token_type: TokenType,
    /// Seconds since the epoch.
    pub created_at: u64,
    /// Seconds since the epoch; the token is rejected once the time is past it.
    pub expires_at: u64,
    pub consumed: bool,
}

impl TokenRecord {
    pub fn copy(&self) -> (r: Self)
        ensures
            r == *self,
    {
        TokenRecord {
            token: self.token.clone(),
            user_id: self.user_id,
            token_type: self.token_type,
            created_at: self.created_at,
            expires_at: self.expires_at,
            consumed: self.consumed,
        }
    }
}

pub open spec fn is_alphanumeric(c: char) -> bool {
    ('A' <= c && c <= 'Z') || ('a' <= c && c <= 'z') || ('0' <= c && c <= '9')
}

/// Relies on `rand::thread_rng` sampling `rand::distributions::Alphanumeric`:
/// each character is drawn from `A-Z`, `a-z` and `0-9`.
#[verifier::external_body]
fn random_alphanumeric(length: usize) -> (r: String)
    ensures
        r@.len() == length,
        forall|i: int| 0 <= i < r@.len() ==> is_alphanumeric(#[trigger] r@[i]),
{
    rand::thread_rng().sample_iter(&Alphanumeric).take(length).map(char::from).collect()
}

/// No two records hold the same token string.
pub open spec fn tokens_distinct(s: Seq<TokenRecord>) -> bool {
    forall|i: int, j: int|
        0 <= i < s.len() && 0 <= j < s.len() && i != j ==> #[trigger] s[i].token@
            != #[trigger] s[j].token@
}

pub open spec fn holds_token(s: Seq<TokenRecord>, t: Seq<char>, i: int) -> bool {
    0 <= i < s.len() && s[i].token@ == t
}

pub open spec fn present(s: Seq<TokenRecord>, t: Seq<char>) -> bool {
    exists|i: int| holds_token(s, t, i)
}

/// The position of the record holding `t`, where there is one.
pub open spec fn index_of(s: Seq<TokenRecord>, t: Seq<char>) -> int {
    choose|i: int| holds_token(s, t, i)
}

/// The record holding `t`, marked consumed.
pub open spec fn consumed_at(s: Seq<TokenRecord>, i: int) -> Seq<TokenRecord> {
    s.update(i, TokenRecord { consumed: true, ..s[i] })
}

/// Redeeming `t` for `ty` at time `now`: the store after, and the outcome.
/// The checks come in this order: absent, expired, already used, wrong type.
pub open spec fn redeem(s: Seq<TokenRecord>, t: Seq<char>, ty: TokenType, now: u64) -> (
    Seq<TokenRecord>,
    Result<Option<u128>, TokenFailure>,
) {
    if !present(s, t) {
        (s, Err(TokenFailure::NotFound))
    } else {
        let i = index_of(s, t);
        let rec = s[i];
        if now > rec.expires_at {
            (s, Err(TokenFailure::Expired))
        } else if rec.consumed {
            (s, Err(TokenFailure::AlreadyUsed))
        } else if rec.token_type != ty {
            (s, Err(TokenFailure::TypeMismatch))
        } else {
            (consumed_at(s, i), Ok(rec.user_id))
        }
    }
}

/// The record that issuing writes.
pub open spec fn fresh_record(
    token: String,
    user_id: Option<u128>,
    token_type: TokenType,
    now: u64,
    ttl_seconds: u64,
) -> TokenRecord {
    TokenRecord {
        token,
        user_id,
        token_type,
        created_at: now,
        expires_at: (now + ttl_seconds) as u64,
        consumed: false,
    }
}

/// No record holds a token of `n` characters; then no drawn token of that
/// length can collide.
pub open spec fn no_token_of_len(s: Seq<TokenRecord>, n: int) -> bool {
    forall|i: int| 0 <= i < s.len() ==> #[trigger] s[i].token@.len() != n
}

/// The store of issued tokens.
pub struct TokenStore {
    pub records: Vec<TokenRecord>,
}

impl TokenStore {
    pub open spec fn wf(&self) -> bool {
        tokens_distinct(self.records@)
    }

    pub fn new() -> (r: Self)
        ensures
            r.wf(),
            r.records@.len() == 0,
    {
        TokenStore { records: Vec::new() }
    }

    /// Looks `token` up: its position, or `None` where no record holds it.
    pub fn find(&self, token: &str) -> (r: Option<usize>)
        requires
            self.wf(),
        ensures
            r is None <==> !present(self.records@, token@),
            r matches Some(i) ==> i == index_of(self.records@, token@) && holds_token(
                self.records@,
                token@,
                i as int,
            ),
    {
        let key = token.to_owned();
        let n = self.records.len();
        let mut i: usize = 0;
        while i < n
            invariant
                self.wf(),
                n == self.records@.len(),
                i <= n,
                key@ == token@,
                forall|j: int| 0 <= j < i ==> !holds_token(self.records@, token@, j),
            decreases n - i,
        {
            if self.records[i].token == key {
                proof {
                    let s = self.records@;
                    assert(holds_token(s, token@, i as int));
                    let k = index_of(s, token@);
                    assert(holds_token(s, token@, k));
                    if k != i as int {
                        assert(s[k].token@ == s[i as int].token@);
                    }
                }
                return Some(i);
            }
            i = i + 1;
        }
        None
    }

    /// Adds `record` unless its token string is already held; tells whether
    /// it was added.
    pub fn insert(&mut self, record: TokenRecord) -> (r: bool)
        requires
            old(self).wf(),
        ensures
            final(self).wf(),
            r == !present(old(self).records@, record.token@),
            r ==> final(self).records@ == old(self).records@.push(record),
            !r ==> final(self).records@ == old(self).records@,
    {
        match self.find(record.token.as_str()) {
            Some(_) => false,
            None => {
                let ghost s = self.records@;
                self.records.push(record);
                proof {
                    let s2 = self.records@;
                    assert forall|i: int, j: int|
                        0 <= i < s2.len() && 0 <= j < s2.len() && i != j implies #[trigger] s2[i].token@
                        != #[trigger] s2[j].token@ by {
                        if i == s.len() {
                            assert(!holds_token(s, s2[i].token@, j));
                        } else if j == s.len() {
                            assert(!holds_token(s, s2[j].token@, i));
                        }
                    }
                }
                true
            }
        }
    }

    /// Issues a fresh random token of `TOKEN_LEN` alphanumeric characters,
    /// valid for `ttl_seconds` from `now`, and returns it. Fails with
    /// `Internal` in the unlikely case that the drawn string is already held.
    pub fn issue(
        &mut self,
        user_id: Option<u128>,
        token_type: TokenType,
        ttl_seconds: u64,
        now: u64,
    ) -> (r: Result<String, AppError>)
        requires
            old(self).wf(),
            now + ttl_seconds <= u64::MAX,
        ensures
            final(self).wf(),
            no_token_of_len(old(self).records@, TOKEN_LEN as int) ==> r is Ok,
            r matches Ok(t) ==> {
                &&& t@.len() == TOKEN_LEN
                &&& forall|i: int| 0 <= i < t@.len() ==> is_alphanumeric(#[trigger] t@[i])
                &&& !present(old(self).records@, t@)
                &&& final(self).records@ == old(self).records@.push(
                    fresh_record(t, user_id, token_type, now, ttl_seconds),
                )
            },
            r matches Err(e) ==> e == AppError::Internal && final(self).records@ == old(
                self,
            ).records@,
    {
        let token = random_alphanumeric(TOKEN_LEN);
        let record = TokenRecord {
            token: token.clone(),
            user_id,
            token_type,
            created_at: now,
            expires_at: now + ttl_seconds,
            consumed: false,
        };
        if self.insert(record) {
            Ok(token)
        } else {
            proof {
                let s = old(self).records@;
                if no_token_of_len(s, TOKEN_LEN as int) {
                    let k = choose|k: int| holds_token(s, token@, k);
                    assert(s[k].token@.len() == TOKEN_LEN);
                }
            }
            Err(AppError::Internal)
        }
    }

    /// Redeems `token` for `expected` at time `now`: fails when no record
    /// holds it, when it has expired, when it was already used, or when it was
    /// issued for another purpose; otherwise marks it consumed and returns the
    /// account it is bound to.
    pub fn validate_and_consume(&mut self, token: &str, expected: TokenType, now: u64) -> (r:
        Result<Option<u128>, TokenFailure>)
        requires
            old(self).wf(),
        ensures
            final(self).wf(),
            (final(self).records@, r) == redeem(old(self).records@, token@, expected, now),
    {
        match self.find(token) {
            None => Err(TokenFailure::NotFound),
            Some(i) => {
                let ghost s = self.records@;
                if now > self.records[i].expires_at {
                    return Err(TokenFailure::Expired);
                }
                if self.records[i].consumed {
                    return Err(TokenFailure::AlreadyUsed);
                }
                if self.records[i].token_type != expected {
                    return Err(TokenFailure::TypeMismatch);
                }
                let user = self.records[i].user_id;
                let mut updated = self.records[i].copy();
                updated.consumed = true;
                self.records.set(i, updated);
                proof {
                    let s2 = self.records@;
                    assert(s2 == consumed_at(s, i as int));
                    assert forall|a: int, b: int|
                        0 <= a < s2.len() && 0 <= b < s2.len() && a != b implies #[trigger] s2[a].token@
                        != #[trigger] s2[b].token@ by {
                        assert(s2[a].token@ == s[a].token@);
                        assert(s2[b].token@ == s[b].token@);
                    }
                }
                Ok(user)
            },
        }
    }
}

/// A freshly issued token is redeemed, for its own purpose and before it
/// expires, for the account it was issued to.
pub proof fn lemma_fresh_token_redeems(
    s: Seq<TokenRecord>,
    rec: TokenRecord,
    ty: TokenType,
    now: u64,
)
    requires
        tokens_distinct(s),
        !present(s, rec.token@),
        !rec.consumed,
        rec.token_type == ty,
        now <= rec.expires_at,
    ensures
        redeem(s.push(rec), rec.token@, ty, now).1 == Ok::<Option<u128>, TokenFailure>(
            rec.user_id,
        ),
{
    let s2 = s.push(rec);
    let n = s.len() as int;
    assert(holds_token(s2, rec.token@, n));
    let k = index_of(s2, rec.token@);
    if k != n {
        assert(holds_token(s, rec.token@, k));
    }
}

/// A token is redeemed at most once: after one successful redemption, every
/// later attempt, for any purpose, fails as already used, or as expired once
/// its time is past.
pub proof fn lemma_single_use(
    s: Seq<TokenRecord>,
    t: Seq<char>,
    ty: TokenType,
    now: u64,
    ty2: TokenType,
    now2: u64,
)
    requires
        tokens_distinct(s),
        redeem(s, t, ty, now).1 is Ok,
    ensures
        tokens_distinct(redeem(s, t, ty, now).0),
        redeem(redeem(s, t, ty, now).0, t, ty2, now2).1 == if now2 > s[index_of(s, t)].expires_at {
            Err::<Option<u128>, TokenFailure>(TokenFailure::Expired)
        } else {
            Err::<Option<u128>, TokenFailure>(TokenFailure::AlreadyUsed)
        },
{
    let i = index_of(s, t);
    let s2 = consumed_at(s, i);
    assert(holds_token(s, t, i));
    assert(holds_token(s2, t, i));
    assert forall|a: int, b: int|
        0 <= a < s2.len() && 0 <= b < s2.len() && a != b implies #[trigger] s2[a].token@
        != #[trigger] s2[b].token@ by {
        assert(s2[a].token@ == s[a].token@);
        assert(s2[b].token@ == s[b].token@);
    }
    let k = index_of(s2, t);
    assert(holds_token(s2, t, k));
    if k != i {
        assert(s2[k].token@ == s2[i].token@);
    }
}

/// The life of a freshly issued token: redeemed for its own purpose before
/// it expires, it yields the account it was issued to; after that every
/// attempt fails, as already used until it expires and as expired after; and
/// once past its expiry it is rejected as expired, used or not.
pub proof fn lemma_issued_token_lifecycle(
    s: Seq<TokenRecord>,
    t: String,
    user_id: Option<u128>,
    ty: TokenType,
    issued: u64,
    ttl: u64,
    now1: u64,
    ty2: TokenType,
    now2: u64,
)
    requires
        tokens_distinct(s),
        !present(s, t@),
        issued + ttl <= u64::MAX,
    ensures
        ({
            let s1 = s.push(fresh_record(t, user_id, ty, issued, ttl));
            &&& tokens_distinct(s1)
            &&& now1 > issued + ttl ==> redeem(s1, t@, ty2, now1) == (
                s1,
                Err::<Option<u128>, TokenFailure>(TokenFailure::Expired),
            )
            &&& now1 <= issued + ttl ==> redeem(s1, t@, ty, now1).1 == Ok::<
                Option<u128>,
                TokenFailure,
            >(user_id)
            &&& now1 <= issued + ttl ==> redeem(redeem(s1, t@, ty, now1).0, t@, ty2, now2).1 == if now2
                > issued + ttl {
                Err::<Option<u128>, TokenFailure>(TokenFailure::Expired)
            } else {
                Err::<Option<u128>, TokenFailure>(TokenFailure::AlreadyUsed)
            }
        }),
{
    let rec = fresh_record(t, user_id, ty, issued, ttl);
    let s1 = s.push(rec);
    let n = s.len() as int;
    assert forall|i: int, j: int|
        0 <= i < s1.len() && 0 <= j < s1.len() && i != j implies #[trigger] s1[i].token@
        != #[trigger] s1[j].token@ by {
        if i == n {
            assert(!holds_token(s, t@, j));
        } else if j == n {
            assert(!holds_token(s, t@, i));
        } else {
            assert(s1[i] == s[i] && s1[j] == s[j]);
        }
    }
    assert(holds_token(s1, t@, n));
    let k = index_of(s1, t@);
    assert(holds_token(s1, t@, k));
    if k != n {
        assert(s1[k].token@ == s1[n].token@);
    }
    if now1 <= issued + ttl {
        lemma_fresh_token_redeems(s, rec, ty, now1);
        lemma_single_use(s1, t@, ty, now1, ty2, now2);
    }
}

/// Once the time is past a token's expiry it is rejected as expired, whether
/// or not it was used.
pub proof fn lemma_expired_rejected(s: Seq<TokenRecord>, t: Seq<char>, ty: TokenType, now: u64)
    requires
        present(s, t),
        now > s[index_of(s, t)].expires_at,
    ensures
        redeem(s, t, ty, now) == (s, Err::<Option<u128>, TokenFailure>(TokenFailure::Expired)),
{
}

} // verus!
