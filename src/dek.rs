use vstd::prelude::*;
use vstd::string::StringSliceAdditionalSpecFns;
use crate::crypto::{create_kek, is_key_string, key_parts, opened_text, sealed_text};
use crate::error::Error;
use crate::user::{open_field, seal_field, sealable};
use crate::validation::{is_email_identifier, lookup_email_shape};

verus! {

/// A user's data encryption key together with the two identities it is found by.
#[derive(Clone, Debug)]
pub struct Dek {
    pub uid: String,
    pub email: String,
    pub dek: String,
    pub created_at: i64,
    pub updated_at: i64,
}

pub struct DekView {
    pub uid: Seq<char>,
    pub email: Seq<char>,
    pub dek: Seq<char>,
    pub created_at: i64,
    pub updated_at: i64,
}

impl View for Dek {
    type V = DekView;

    open spec fn view(&self) -> DekView {
        DekView {
            uid: self.uid@,
            email: self.email@,
            dek: self.dek@,
            created_at: self.created_at,
            updated_at: self.updated_at,
        }
    }
}

/// Every field of a key record fits in one AES-GCM message.
pub open spec fn dek_sealable(d: DekView) -> bool {
    sealable(d.uid) && sealable(d.email) && sealable(d.dek)
}

/// The stored form of a key record: uid, email and key each encrypted under the service key.
pub open spec fn seal_dek(d: DekView, kek: Seq<u8>) -> Option<DekView> {
    match (sealed_text(d.uid, kek), sealed_text(d.email, kek), sealed_text(d.dek, kek)) {
        (Some(u), Some(e), Some(k)) => Some(DekView { uid: u, email: e, dek: k, ..d }),
        _ => None,
    }
}

/// The plain form of a stored key record.
pub open spec fn open_dek(d: DekView, kek: Seq<u8>) -> Option<DekView> {
    match (opened_text(d.uid, kek), opened_text(d.email, kek), opened_text(d.dek, kek)) {
        (Some(u), Some(e), Some(k)) => Some(DekView { uid: u, email: e, dek: k, ..d }),
        _ => None,
    }
}

/// The field of a stored key record that a lookup compares.
#[derive(Clone, Copy, Debug, PartialEq, Eq, Structural)]
pub enum DekField {
    Uid,
    Email,
}

/// A query on the key records: the stored `field` must equal `value`.
#[derive(Clone, Debug)]
pub struct DekLookup {
    pub field: DekField,
    pub value: String,
}

/// The query for an identifier: by encrypted email when it has the email shape, else by
/// encrypted uid.
pub open spec fn dek_lookup_of(identifier: Seq<char>, kek: Seq<u8>) -> Option<(DekField, Seq<char>)> {
    match sealed_text(identifier, kek) {
        Some(c) => Some(
            (
                if lookup_email_shape(identifier) {
                    DekField::Email
                } else {
                    DekField::Uid
                },
                c,
            ),
        ),
        None => None,
    }
}

/// A stored key record answers a query.
pub open spec fn dek_lookup_matches(field: DekField, value: Seq<char>, stored: DekView) -> bool {
    match field {
        DekField::Uid => stored.uid == value,
        DekField::Email => stored.email == value,
    }
}

impl Dek {
    /// A key record for a user, created at `now`.
    pub fn new(uid: &str, email: &str, dek: &str, now: i64) -> (r: Dek)
        ensures
            r.uid@ == uid@,
            r.email@ == email@,
            r.dek@ == dek@,
            r.created_at == now,
            r.updated_at == now,
    {
        Dek {
            uid: uid.to_string(),
            email: email.to_string(),
            dek: dek.to_string(),
            created_at: now,
            updated_at: now,
        }
    }

    /// A fresh data key in the composite `<key>.<nonce>` form.
    pub fn generate() -> (r: String)
        ensures
            is_key_string(r@),
    {
        create_kek()
    }

    /// The stored form of this record under the service key.
    pub fn encrypt(&self, kek: &str) -> (r: Result<Dek, Error>)
        ensures
            r matches Ok(d) ==> seal_dek(self@, kek.spec_bytes()) == Some(d@),
            key_parts(kek.spec_bytes()) is None ==> r is Err,
            key_parts(kek.spec_bytes()) is Some && sealable(self.uid@) && sealable(self.email@)
                && sealable(self.dek@) ==> r is Ok,
    {
        let uid = seal_field(&self.uid, kek)?;
        let email = seal_field(&self.email, kek)?;
        let dek = seal_field(&self.dek, kek)?;
        Ok(Dek { uid, email, dek, created_at: self.created_at, updated_at: self.updated_at })
    }

    /// The plain form of a stored record; a record encrypted under the same key comes back
    /// unchanged.
    pub fn decrypt(&self, kek: &str) -> (r: Result<Dek, Error>)
        ensures
            match open_dek(self@, kek.spec_bytes()) {
                Some(v) => r is Ok && r->Ok_0@ == v,
                None => r is Err,
            },
            forall|v: DekView|
                dek_sealable(v) && #[trigger] seal_dek(v, kek.spec_bytes()) == Some(self@) ==> r
                    is Ok && r->Ok_0@ == v,
    {
        let uid = open_field(&self.uid, kek)?;
        let email = open_field(&self.email, kek)?;
        let dek = open_field(&self.dek, kek)?;
        Ok(Dek { uid, email, dek, created_at: self.created_at, updated_at: self.updated_at })
    }

    /// The query that finds the key record of a user by uid or by email.
    pub fn lookup(identifier: &str, kek: &str) -> (r: Result<DekLookup, Error>)
        ensures
            r matches Ok(q) ==> dek_lookup_of(identifier@, kek.spec_bytes()) == Some(
                (q.field, q.value@),
            ),
            key_parts(kek.spec_bytes()) is None ==> r is Err,
            key_parts(kek.spec_bytes()) is Some && sealable(identifier@) ==> r is Ok,
    {
        let value = crate::crypto::Encryption::encrypt_data(identifier, kek)?;
        let field = if is_email_identifier(identifier) {
            DekField::Email
        } else {
            DekField::Uid
        };
        Ok(DekLookup { field, value })
    }

    /// The key record a lookup found, decrypted; `KeyNotFound` when there was none.
    pub fn from_found(found: Option<Dek>, kek: &str) -> (r: Result<Dek, Error>)
        ensures
            found is None ==> r matches Err(Error::KeyNotFound { .. }),
            found matches Some(d) ==> match open_dek(d@, kek.spec_bytes()) {
                Some(v) => r is Ok && r->Ok_0@ == v,
                None => r is Err,
            },
            forall|v: DekView|
                found is Some && dek_sealable(v) && #[trigger] seal_dek(v, kek.spec_bytes()) == Some(
                    found->0@,
                ) ==> r is Ok && r->Ok_0@ == v,
    {
        match found {
            None => Err(Error::KeyNotFound { message: "DEK not found".to_string() }),
            Some(d) => d.decrypt(kek),
        }
    }
}

/// A user's key record is found alike by email and by uid: both queries select its stored form,
/// which then decrypts to one and the same record, and so to one and the same key.
pub proof fn lemma_dek_found_by_uid_or_email(rec: DekView, kek: Seq<u8>)
    requires
        seal_dek(rec, kek) is Some,
        lookup_email_shape(rec.email),
        !lookup_email_shape(rec.uid),
    ensures
        dek_lookup_of(rec.email, kek) matches Some((f, v)) && f == DekField::Email
            && dek_lookup_matches(f, v, seal_dek(rec, kek)->0),
        dek_lookup_of(rec.uid, kek) matches Some((f, v)) && f == DekField::Uid
            && dek_lookup_matches(f, v, seal_dek(rec, kek)->0),
{
}

} // verus!
