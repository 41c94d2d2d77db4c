use vstd::prelude::*;
use vstd::string::StringSliceAdditionalSpecFns;
use crate::crypto::{key_parts, opened_text, sealed_text};
use crate::error::Error;
use crate::ids::new_id;
use crate::user::{open_field, seal_field, sealable, User};

verus! {

/// One sign-in of a user on one device. Times are milliseconds since the Unix epoch.
#[derive(Clone, Debug)]
pub struct Session {
    pub uid: String,
    pub session_id: String,
    pub email: String,
    pub id_token: String,
    pub refresh_token: String,
    pub user_agent: String,
    pub is_revoked: bool,
    pub created_at: i64,
    pub updated_at: i64,
}

pub struct SessionView {
    pub uid: Seq<char>,
    pub session_id: Seq<char>,
    pub email: Seq<char>,
    pub id_token: Seq<char>,
    pub refresh_token: Seq<char>,
    pub user_agent: Seq<char>,
    pub is_revoked: bool,
    pub created_at: i64,
    pub updated_at: i64,
}

impl View for Session {
    type V = SessionView;

    open spec fn view(&self) -> SessionView {
        SessionView {
            uid: self.uid@,
            session_id: self.session_id@,
            email: self.email@,
            id_token: self.id_token@,
            refresh_token: self.refresh_token@,
            user_agent: self.user_agent@,
            is_revoked: self.is_revoked,
            created_at: self.created_at,
            updated_at: self.updated_at,
        }
    }
}

/// Every text field of a session fits in one AES-GCM message.
pub open spec fn session_sealable(s: SessionView) -> bool {
    &&& sealable(s.uid) && sealable(s.session_id) && sealable(s.email)
    &&& sealable(s.id_token) && sealable(s.refresh_token) && sealable(s.user_agent)
}

/// The stored form of a session under the user's data key: every text field encrypted.
pub open spec fn seal_session(s: SessionView, key: Seq<u8>) -> Option<SessionView> {
    match (
        sealed_text(s.uid, key),
        sealed_text(s.session_id, key),
        sealed_text(s.email, key),
        sealed_text(s.id_token, key),
        sealed_text(s.refresh_token, key),
        sealed_text(s.user_agent, key),
    ) {
        (Some(u), Some(i), Some(e), Some(t), Some(rt), Some(ua)) => Some(
            SessionView {
                uid: u,
                session_id: i,
                email: e,
                id_token: t,
                refresh_token: rt,
                user_agent: ua,
                ..s
            },
        ),
        _ => None,
    }
}

/// The plain form of a stored session.
pub open spec fn open_session(s: SessionView, key: Seq<u8>) -> Option<SessionView> {
    match (
        opened_text(s.uid, key),
        opened_text(s.session_id, key),
        opened_text(s.email, key),
        opened_text(s.id_token, key),
        opened_text(s.refresh_token, key),
        opened_text(s.user_agent, key),
    ) {
        (Some(u), Some(i), Some(e), Some(t), Some(rt), Some(ua)) => Some(
            SessionView {
                uid: u,
                session_id: i,
                email: e,
                id_token: t,
                refresh_token: rt,
                user_agent: ua,
                ..s
            },
        ),
        _ => None,
    }
}

/// A query on stored sessions: each field that is set must be equal.
#[derive(Clone, Debug)]
pub struct SessionFilter {
    pub uid: Option<String>,
    pub session_id: Option<String>,
    pub id_token: Option<String>,
    pub refresh_token: Option<String>,
    pub is_revoked: Option<bool>,
}

/// A change to stored sessions: each field that is set is written.
#[derive(Clone, Debug)]
pub struct SessionUpdate {
    pub id_token: Option<String>,
    pub refresh_token: Option<String>,
    pub is_revoked: Option<bool>,
    pub updated_at: Option<i64>,
}

pub open spec fn opt_text(o: Option<String>) -> Option<Seq<char>> {
    match o {
        Some(s) => Some(s@),
        None => None,
    }
}

pub open spec fn field_ok(want: Option<Seq<char>>, have: Seq<char>) -> bool {
    match want {
        Some(w) => w == have,
        None => true,
    }
}

/// A stored session answers a query.
pub open spec fn filter_matches(f: SessionFilter, d: SessionView) -> bool {
    &&& field_ok(opt_text(f.uid), d.uid)
    &&& field_ok(opt_text(f.session_id), d.session_id)
    &&& field_ok(opt_text(f.id_token), d.id_token)
    &&& field_ok(opt_text(f.refresh_token), d.refresh_token)
    &&& match f.is_revoked {
        Some(b) => b == d.is_revoked,
        None => true,
    }
}

/// A stored session after a change.
pub open spec fn apply_update(u: SessionUpdate, d: SessionView) -> SessionView {
    SessionView {
        id_token: match opt_text(u.id_token) {
            Some(t) => t,
            None => d.id_token,
        },
        refresh_token: match opt_text(u.refresh_token) {
            Some(t) => t,
            None => d.refresh_token,
        },
        is_revoked: match u.is_revoked {
            Some(b) => b,
            None => d.is_revoked,
        },
        updated_at: match u.updated_at {
            Some(t) => t,
            None => d.updated_at,
        },
        ..d
    }
}

/// The sessions collection after changing every session that answers `f`.
pub open spec fn update_many(docs: Seq<SessionView>, f: SessionFilter, u: SessionUpdate) -> Seq<
    SessionView,
> {
    docs.map_values(|d: SessionView| if filter_matches(f, d) {
        apply_update(u, d)
    } else {
        d
    })
}

/// The sessions collection after removing every session that answers `f`.
pub open spec fn delete_many(docs: Seq<SessionView>, f: SessionFilter) -> Seq<SessionView> {
    docs.filter(|d: SessionView| !filter_matches(f, d))
}

/// How many stored sessions answer `f`.
pub open spec fn count_matching(docs: Seq<SessionView>, f: SessionFilter) -> nat {
    docs.filter(|d: SessionView| filter_matches(f, d)).len()
}

/// What is shown of a session: everything but its tokens.
#[derive(Clone, Debug)]
pub struct SessionResponse {
    pub uid: String,
    pub session_id: String,
    pub email: String,
    pub user_agent: String,
    pub is_revoked: bool,
    pub created_at: i64,
    pub updated_at: i64,
}

fn copy_text(s: &String) -> (r: String)
    ensures
        r@ == s@,
{
    s.clone()
}

impl Session {
    /// A new live session for `user` on `user_agent` with freshly signed tokens, created at
    /// `now` under a fresh random session id.
    pub fn new(user: &User, user_agent: &str, id_token: &str, refresh_token: &str, now: i64) -> (r:
        Session)
        ensures
            r.uid@ == user.uid@,
            r.session_id@.len() == 36,
            r.email@ == user.email@,
            r.id_token@ == id_token@,
            r.refresh_token@ == refresh_token@,
            r.user_agent@ == user_agent@,
            !r.is_revoked,
            r.created_at == now,
            r.updated_at == now,
    {
        Session {
            uid: copy_text(&user.uid),
            session_id: new_id(),
            email: copy_text(&user.email),
            id_token: id_token.to_string(),
            refresh_token: refresh_token.to_string(),
            user_agent: user_agent.to_string(),
            is_revoked: false,
            created_at: now,
            updated_at: now,
        }
    }

    /// The stored form of this session under the user's data key.
    pub fn encrypt(&self, dek: &str) -> (r: Result<Session, Error>)
        ensures
            r matches Ok(s) ==> seal_session(self@, dek.spec_bytes()) == Some(s@),
            key_parts(dek.spec_bytes()) is None ==> r is Err,
            key_parts(dek.spec_bytes()) is Some && sealable(self.uid@) && sealable(
                self.session_id@,
            ) && sealable(self.email@) && sealable(self.id_token@) && sealable(
                self.refresh_token@,
            ) && sealable(self.user_agent@) ==> r is Ok,
    {
        let uid = seal_field(&self.uid, dek)?;
        let session_id = seal_field(&self.session_id, dek)?;
        let email = seal_field(&self.email, dek)?;
        let id_token = seal_field(&self.id_token, dek)?;
        let refresh_token = seal_field(&self.refresh_token, dek)?;
        let user_agent = seal_field(&self.user_agent, dek)?;
        Ok(Session {
            uid,
            session_id,
            email,
            id_token,
            refresh_token,
            user_agent,
            is_revoked: self.is_revoked,
            created_at: self.created_at,
            updated_at: self.updated_at,
        })
    }

    /// The plain form of a stored session; a session encrypted under the same key comes back
    /// unchanged.
    pub fn decrypt(&self, dek: &str) -> (r: Result<Session, Error>)
        ensures
            match open_session(self@, dek.spec_bytes()) {
                Some(v) => r is Ok && r->Ok_0@ == v,
                None => r is Err,
            },
            forall|v: SessionView|
                session_sealable(v) && #[trigger] seal_session(v, dek.spec_bytes()) == Some(self@)
                    ==> r is Ok && r->Ok_0@ == v,
    {
        let uid = open_field(&self.uid, dek)?;
        let session_id = open_field(&self.session_id, dek)?;
        let email = open_field(&self.email, dek)?;
        let id_token = open_field(&self.id_token, dek)?;
        let refresh_token = open_field(&self.refresh_token, dek)?;
        let user_agent = open_field(&self.user_agent, dek)?;
        Ok(Session {
            uid,
            session_id,
            email,
            id_token,
            refresh_token,
            user_agent,
            is_revoked: self.is_revoked,
            created_at: self.created_at,
            updated_at: self.updated_at,
        })
    }

    /// What is shown of this session.
    pub fn to_response(&self) -> (r: SessionResponse)
        ensures
            r.uid@ == self.uid@,
            r.session_id@ == self.session_id@,
            r.email@ == self.email@,
            r.user_agent@ == self.user_agent@,
            r.is_revoked == self.is_revoked,
            r.created_at == self.created_at,
            r.updated_at == self.updated_at,
    {
        SessionResponse {
            uid: copy_text(&self.uid),
            session_id: copy_text(&self.session_id),
            email: copy_text(&self.email),
            user_agent: copy_text(&self.user_agent),
            is_revoked: self.is_revoked,
            created_at: self.created_at,
            updated_at: self.updated_at,
        }
    }

    /// What is shown of the stored session a lookup found, decrypted; `SessionNotFound` when
    /// there was none.
    pub fn details(found: Option<Session>, dek: &str) -> (r: Result<SessionResponse, Error>)
        ensures
            found is None ==> r matches Err(Error::SessionNotFound { .. }),
            found matches Some(d) ==> match open_session(d@, dek.spec_bytes()) {
                Some(v) => r matches Ok(s) && s.uid@ == v.uid && s.session_id@ == v.session_id
                    && s.email@ == v.email && s.user_agent@ == v.user_agent && s.is_revoked
                    == v.is_revoked && s.created_at == v.created_at && s.updated_at == v.updated_at,
                None => r is Err,
            },
    {
        match found {
            None => Err(Error::SessionNotFound { message: "Session not found".to_string() }),
            Some(d) => {
                let plain = d.decrypt(dek)?;
                Ok(plain.to_response())
            },
        }
    }

    /// The query that selects every stored session of a user.
    pub fn uid_filter(uid: &str, dek: &str) -> (r: Result<SessionFilter, Error>)
        ensures
            r matches Ok(f) ==> sealed_text(uid@, dek.spec_bytes()) == opt_text(f.uid)
                && f.session_id is None && f.id_token is None && f.refresh_token is None
                && f.is_revoked is None,
            key_parts(dek.spec_bytes()) is None ==> r is Err,
            key_parts(dek.spec_bytes()) is Some && sealable(uid@) ==> r is Ok,
    {
        let u = crate::crypto::Encryption::encrypt_data(uid, dek)?;
        Ok(SessionFilter {
            uid: Some(u),
            session_id: None,
            id_token: None,
            refresh_token: None,
            is_revoked: None,
        })
    }

    /// The query that selects one session of a user.
    pub fn session_filter(uid: &str, session_id: &str, dek: &str) -> (r: Result<SessionFilter, Error>)
        ensures
            r matches Ok(f) ==> sealed_text(uid@, dek.spec_bytes()) == opt_text(f.uid)
                && sealed_text(session_id@, dek.spec_bytes()) == opt_text(f.session_id)
                && f.id_token is None && f.refresh_token is None && f.is_revoked is None,
            key_parts(dek.spec_bytes()) is None ==> r is Err,
            key_parts(dek.spec_bytes()) is Some && sealable(uid@) && sealable(session_id@) ==> r is Ok,
    {
        let u = crate::crypto::Encryption::encrypt_data(uid, dek)?;
        let s = crate::crypto::Encryption::encrypt_data(session_id, dek)?;
        Ok(SessionFilter {
            uid: Some(u),
            session_id: Some(s),
            id_token: None,
            refresh_token: None,
            is_revoked: None,
        })
    }

    /// The query behind verification: a live session of the user holding the presented ID token.
    pub fn verify_filter(uid: &str, id_token: &str, dek: &str) -> (r: Result<SessionFilter, Error>)
        ensures
            r matches Ok(f) ==> sealed_text(uid@, dek.spec_bytes()) == opt_text(f.uid)
                && sealed_text(id_token@, dek.spec_bytes()) == opt_text(f.id_token)
                && f.session_id is None && f.refresh_token is None && f.is_revoked == Some(false),
            key_parts(dek.spec_bytes()) is None ==> r is Err,
            key_parts(dek.spec_bytes()) is Some && sealable(uid@) && sealable(id_token@) ==> r is Ok,
    {
        let u = crate::crypto::Encryption::encrypt_data(uid, dek)?;
        let t = crate::crypto::Encryption::encrypt_data(id_token, dek)?;
        Ok(SessionFilter {
            uid: Some(u),
            session_id: None,
            id_token: Some(t),
            refresh_token: None,
            is_revoked: Some(false),
        })
    }

    /// The change that revokes sessions.
    pub fn revoke_update() -> (r: SessionUpdate)
        ensures
            r.id_token is None,
            r.refresh_token is None,
            r.is_revoked == Some(true),
            r.updated_at is None,
    {
        SessionUpdate { id_token: None, refresh_token: None, is_revoked: Some(true), updated_at: None }
    }
}

/// Revoking every session of a user twice leaves the collection as revoking once does:
/// the second pass changes nothing, so no count changes either.
pub proof fn lemma_revoke_all_idempotent(docs: Seq<SessionView>, f: SessionFilter, u: SessionUpdate)
    requires
        f.session_id is None && f.id_token is None && f.refresh_token is None && f.is_revoked is None,
        u.id_token is None && u.refresh_token is None && u.is_revoked == Some(true)
            && u.updated_at is None,
    ensures
        update_many(update_many(docs, f, u), f, u) == update_many(docs, f, u),
        forall|g: SessionFilter|
            count_matching(update_many(update_many(docs, f, u), f, u), g) == count_matching(
                update_many(docs, f, u),
                g,
            ),
{
    let once = update_many(docs, f, u);
    let twice = update_many(once, f, u);
    assert forall|i: int| 0 <= i < docs.len() implies #[trigger] twice[i] == once[i] by {
        let d = docs[i];
        if filter_matches(f, d) {
            assert(filter_matches(f, apply_update(u, d)));
            assert(apply_update(u, apply_update(u, d)) == apply_update(u, d));
        }
    }
    assert(twice =~= once);
}

/// A live stored session holding the same encrypted uid and ID token as `a`.
pub open spec fn holds_live_token(a: SessionView, d: SessionView) -> bool {
    !d.is_revoked && d.uid == a.uid && d.id_token == a.id_token
}

/// Each live stored session is the only live one holding its encrypted uid and ID token, so
/// verification of its token finds exactly one session.
pub open spec fn live_tokens_unique(docs: Seq<SessionView>) -> bool {
    forall|i: int, j: int|
        #![trigger docs[i], docs[j]]
        0 <= i < docs.len() && 0 <= j < docs.len() && i != j && !docs[i].is_revoked ==> !holds_live_token(
            docs[i],
            docs[j],
        )
}

/// Storing a new live session whose ID token no live session of the user holds keeps live
/// tokens unique.
pub proof fn lemma_insert_keeps_live_tokens_unique(docs: Seq<SessionView>, d: SessionView)
    requires
        live_tokens_unique(docs),
        forall|k: int| 0 <= k < docs.len() ==> !holds_live_token(d, #[trigger] docs[k]),
    ensures
        live_tokens_unique(docs.push(d)),
{
    let e = docs.push(d);
    assert forall|i: int, j: int|
        #![trigger e[i], e[j]]
        0 <= i < e.len() && 0 <= j < e.len() && i != j && !e[i].is_revoked implies !holds_live_token(
            e[i],
            e[j],
        ) by {
        if i == docs.len() {
            assert(!holds_live_token(d, docs[j]));
        } else if j == docs.len() {
            assert(!holds_live_token(d, docs[i]));
        }
    }
}

/// Revoking sessions, by any query, keeps live tokens unique.
pub proof fn lemma_revoke_keeps_live_tokens_unique(docs: Seq<SessionView>, f: SessionFilter, u: SessionUpdate)
    requires
        live_tokens_unique(docs),
        u.id_token is None && u.refresh_token is None && u.is_revoked == Some(true),
    ensures
        live_tokens_unique(update_many(docs, f, u)),
{
    let e = update_many(docs, f, u);
    assert forall|i: int, j: int|
        #![trigger e[i], e[j]]
        0 <= i < e.len() && 0 <= j < e.len() && i != j && !e[i].is_revoked implies !holds_live_token(
            e[i],
            e[j],
        ) by {
        assert(!holds_live_token(docs[i], docs[j]));
    }
}

/// Rotating the pair of one session to an ID token that no other live session of the user
/// holds keeps live tokens unique.
pub proof fn lemma_rotation_keeps_live_tokens_unique(docs: Seq<SessionView>, k: int, u: SessionUpdate)
    requires
        live_tokens_unique(docs),
        0 <= k < docs.len(),
        u.is_revoked is None,
        forall|m: int|
            0 <= m < docs.len() && m != k ==> !holds_live_token(
                apply_update(u, docs[k]),
                #[trigger] docs[m],
            ),
    ensures
        live_tokens_unique(docs.update(k, apply_update(u, docs[k]))),
{
    let e = docs.update(k, apply_update(u, docs[k]));
    assert forall|i: int, j: int|
        #![trigger e[i], e[j]]
        0 <= i < e.len() && 0 <= j < e.len() && i != j && !e[i].is_revoked implies !holds_live_token(
            e[i],
            e[j],
        ) by {
        if i == k {
            assert(!holds_live_token(apply_update(u, docs[k]), docs[j]));
        } else if j == k {
            assert(!holds_live_token(apply_update(u, docs[k]), docs[i]));
        } else {
            assert(!holds_live_token(docs[i], docs[j]));
        }
    }
}

/// The verification query for a live stored session: its encrypted uid and ID token, live only.
pub open spec fn is_verify_query_for(f: SessionFilter, d: SessionView) -> bool {
    &&& opt_text(f.uid) == Some(d.uid)
    &&& opt_text(f.id_token) == Some(d.id_token)
    &&& f.session_id is None && f.refresh_token is None
    &&& f.is_revoked == Some(false)
}

proof fn lemma_filter_count_zero(s: Seq<SessionView>, f: SessionFilter)
    requires
        forall|i: int| 0 <= i < s.len() ==> !filter_matches(f, #[trigger] s[i]),
    ensures
        count_matching(s, f) == 0,
    decreases s.len(),
{
    reveal(Seq::filter);
    if s.len() > 0 {
        assert(!filter_matches(f, s[s.len() - 1]));
        let t = s.drop_last();
        let p = |d: SessionView| filter_matches(f, d);
        assert(s.filter(p) == t.filter(p));
        assert forall|i: int| 0 <= i < t.len() implies !filter_matches(f, #[trigger] t[i]) by {
            assert(t[i] == s[i]);
        }
        lemma_filter_count_zero(t, f);
    }
}

proof fn lemma_filter_count_one(s: Seq<SessionView>, f: SessionFilter, k: int)
    requires
        0 <= k < s.len(),
        filter_matches(f, s[k]),
        forall|i: int| 0 <= i < s.len() && i != k ==> !filter_matches(f, #[trigger] s[i]),
    ensures
        count_matching(s, f) == 1,
    decreases s.len(),
{
    reveal(Seq::filter);
    let t = s.drop_last();
    let p = |d: SessionView| filter_matches(f, d);
    if k == s.len() - 1 {
        assert(s.filter(p) == t.filter(p).push(s.last()));
        assert forall|i: int| 0 <= i < t.len() implies !filter_matches(f, #[trigger] t[i]) by {
            assert(t[i] == s[i]);
        }
        lemma_filter_count_zero(t, f);
    } else {
        assert(!filter_matches(f, s[s.len() - 1]));
        assert(s.filter(p) == t.filter(p));
        assert(t[k] == s[k]);
        assert forall|i: int| 0 <= i < t.len() && i != k implies !filter_matches(f, #[trigger] t[i]) by {
            assert(t[i] == s[i]);
        }
        lemma_filter_count_one(t, f, k);
    }
}

/// While live tokens are unique, the verification query of every live stored session answers
/// exactly one stored session.
pub proof fn lemma_live_session_found_once(docs: Seq<SessionView>, k: int, f: SessionFilter)
    requires
        live_tokens_unique(docs),
        0 <= k < docs.len(),
        !docs[k].is_revoked,
        is_verify_query_for(f, docs[k]),
    ensures
        count_matching(docs, f) == 1,
{
    assert forall|i: int| 0 <= i < docs.len() && i != k implies !filter_matches(f, #[trigger] docs[i]) by {
        assert(!holds_live_token(docs[k], docs[i]));
    }
    lemma_filter_count_one(docs, f, k);
}

/// Once a live session's ID token is rotated to another one, verifying the old token finds no
/// stored session at all, while live tokens were unique before.
pub proof fn lemma_old_token_finds_nothing_after_rotation(
    docs: Seq<SessionView>,
    k: int,
    u: SessionUpdate,
    check: SessionFilter,
)
    requires
        live_tokens_unique(docs),
        0 <= k < docs.len(),
        !docs[k].is_revoked,
        is_verify_query_for(check, docs[k]),
        u.id_token is Some,
        opt_text(u.id_token) != Some(docs[k].id_token),
    ensures
        count_matching(docs.update(k, apply_update(u, docs[k])), check) == 0,
{
    let e = docs.update(k, apply_update(u, docs[k]));
    assert forall|i: int| 0 <= i < e.len() implies !filter_matches(check, #[trigger] e[i]) by {
        if i != k {
            assert(!holds_live_token(docs[k], docs[i]));
        }
    }
    lemma_filter_count_zero(e, check);
}

} // verus!
