//! The user entity and its mapping to and from storage items.
//!
//! Persisted layout (part of the wire contract): `id`, `email`,
//! `password_hash`, `first_name`, `last_name`, `pantry_id` (optional, absent
//! rather than empty), `created_at`, `updated_at` (RFC 3339 strings).

use vstd::prelude::*;

use crate::item::{lemma_sget_push, sget, sget_s, AttrMap, AttrValV};
use crate::password::{check_password, hash_password, verifies};
use crate::time::{read_timestamp_attr, rfc3339_of, rfc3339_parse, timestamp_attr, valid_timestamp};
use crate::time::format_rfc3339;

verus! {

/// Spec-level user record.
pub ghost struct UserV {
    pub id: Seq<char>,
    pub email: Seq<char>,
    pub password_hash: Seq<char>,
    pub first_name: Seq<char>,
    pub last_name: Seq<char>,
    pub pantry_id: Option<Seq<char>>,
    pub created_at: int,
    pub updated_at: int,
}

impl UserV {
    /// Well-formedness: both timestamps are storable.
    pub open spec fn wf(&self) -> bool {
        valid_timestamp(self.created_at) && valid_timestamp(self.updated_at)
    }
}

/// A user of the system.
#[derive(Debug, Clone, PartialEq, Eq)]
pub struct User {
    pub id: String,
    pub email: String,
    pub password_hash: String,
    pub first_name: String,
    pub last_name: String,
    pub pantry_id: Option<String>,
    pub created_at: i64,
    pub updated_at: i64,
}

impl View for User {
    type V = UserV;

    open spec fn view(&self) -> UserV {
        UserV {
            id: self.id@,
            email: self.email@,
            password_hash: self.password_hash@,
            first_name: self.first_name@,
            last_name: self.last_name@,
            pantry_id: match self.pantry_id {
                Some(p) => Some(p@),
                None => None,
            },
            created_at: self.created_at as int,
            updated_at: self.updated_at as int,
        }
    }
}

/// The storage item a user is persisted as. The optional pantry reference is
/// omitted when absent, never written as an empty string.
pub open spec fn user_to_item_spec(u: UserV) -> Seq<(Seq<char>, AttrValV)> {
    let base = Seq::<(Seq<char>, AttrValV)>::empty().push(("id"@, AttrValV::S(u.id))).push(
        ("email"@, AttrValV::S(u.email)),
    ).push(("password_hash"@, AttrValV::S(u.password_hash))).push(
        ("first_name"@, AttrValV::S(u.first_name)),
    ).push(("last_name"@, AttrValV::S(u.last_name)));
    let with_pantry = match u.pantry_id {
        Some(p) => base.push(("pantry_id"@, AttrValV::S(p))),
        None => base,
    };
    with_pantry.push(("created_at"@, AttrValV::S(rfc3339_of(u.created_at)))).push(
        ("updated_at"@, AttrValV::S(rfc3339_of(u.updated_at))),
    )
}

/// The user an item denotes: every required field present and string-typed,
/// the pantry reference absent when missing, timestamps degrading to `now`.
pub open spec fn user_from_item_spec(m: Seq<(Seq<char>, AttrValV)>, now: int) -> Option<UserV> {
    match (
        sget_s(m, "id"@),
        sget_s(m, "email"@),
        sget_s(m, "password_hash"@),
        sget_s(m, "first_name"@),
        sget_s(m, "last_name"@),
    ) {
        (Some(id), Some(email), Some(password_hash), Some(first_name), Some(last_name)) => Some(
            UserV {
                id,
                email,
                password_hash,
                first_name,
                last_name,
                pantry_id: sget_s(m, "pantry_id"@),
                created_at: timestamp_attr(m, "created_at"@, now),
                updated_at: timestamp_attr(m, "updated_at"@, now),
            },
        ),
        _ => None,
    }
}

/// The attribute names of a user item denote eight distinct keys.
proof fn lemma_user_keys_distinct()
    ensures
        "id"@ != "email"@ && "id"@ != "password_hash"@ && "id"@ != "first_name"@ && "id"@
            != "last_name"@ && "id"@ != "pantry_id"@ && "id"@ != "created_at"@ && "id"@
            != "updated_at"@,
        "email"@ != "password_hash"@ && "email"@ != "first_name"@ && "email"@ != "last_name"@
            && "email"@ != "pantry_id"@ && "email"@ != "created_at"@ && "email"@ != "updated_at"@,
        "password_hash"@ != "first_name"@ && "password_hash"@ != "last_name"@ && "password_hash"@
            != "pantry_id"@ && "password_hash"@ != "created_at"@ && "password_hash"@
            != "updated_at"@,
        "first_name"@ != "last_name"@ && "first_name"@ != "pantry_id"@ && "first_name"@
            != "created_at"@ && "first_name"@ != "updated_at"@,
        "last_name"@ != "pantry_id"@ && "last_name"@ != "created_at"@ && "last_name"@
            != "updated_at"@,
        "pantry_id"@ != "created_at"@ && "pantry_id"@ != "updated_at"@,
        "created_at"@ != "updated_at"@,
{
    reveal_strlit("id");
    reveal_strlit("email");
    reveal_strlit("password_hash");
    reveal_strlit("first_name");
    reveal_strlit("last_name");
    reveal_strlit("pantry_id");
    reveal_strlit("created_at");
    reveal_strlit("updated_at");
    assert("id"@.len() == 2 && "email"@.len() == 5 && "password_hash"@.len() == 13);
    assert("first_name"@.len() == 10 && "last_name"@.len() == 9 && "pantry_id"@.len() == 9);
    assert("created_at"@.len() == 10 && "updated_at"@.len() == 10);
    assert("first_name"@[0] == 'f' && "created_at"@[0] == 'c' && "updated_at"@[0] == 'u');
    assert("last_name"@[0] == 'l' && "pantry_id"@[0] == 'p');
}

/// Mapping a valid user to an item and back returns the same user, for any
/// fallback instant. The two parse hypotheses are what the serializer
/// guarantees for the two timestamps it wrote.
pub proof fn lemma_user_roundtrip(u: UserV, now: int)
    requires
        u.wf(),
        rfc3339_parse(rfc3339_of(u.created_at)) == Some(u.created_at),
        rfc3339_parse(rfc3339_of(u.updated_at)) == Some(u.updated_at),
    ensures
        user_from_item_spec(user_to_item_spec(u), now) == Some(u),
{
    broadcast use lemma_sget_push;

    lemma_user_keys_distinct();
    let m = user_to_item_spec(u);
    assert(sget_s(m, "id"@) == Some(u.id));
    assert(sget_s(m, "email"@) == Some(u.email));
    assert(sget_s(m, "password_hash"@) == Some(u.password_hash));
    assert(sget_s(m, "first_name"@) == Some(u.first_name));
    assert(sget_s(m, "last_name"@) == Some(u.last_name));
    assert(sget_s(m, "pantry_id"@) == u.pantry_id);
    assert(timestamp_attr(m, "created_at"@, now) == u.created_at);
    assert(timestamp_attr(m, "updated_at"@, now) == u.updated_at);
}

/// An item without an `email` attribute denotes no user.
pub proof fn lemma_user_missing_email(m: Seq<(Seq<char>, AttrValV)>, now: int)
    requires
        sget_s(m, "email"@) is None,
    ensures
        user_from_item_spec(m, now) is None,
{
}

impl User {
    /// Creates a user with a freshly hashed password and no pantry
    /// reference; both timestamps are the creation instant.
    pub fn new(
        id: String,
        email: String,
        password: &str,
        first_name: String,
        last_name: String,
        now: i64,
    ) -> (r: Result<User, String>)
        requires
            valid_timestamp(now as int),
        ensures
            match r {
                Ok(u) => u@.id == id@ && u@.email == email@ && u@.first_name == first_name@
                    && u@.last_name == last_name@ && u@.pantry_id is None && u@.created_at
                    == now as int && u@.updated_at == now as int && verifies(
                    password@,
                    u@.password_hash,
                ) && u@.wf(),
                Err(e) => e@ == "Failed to hash password"@,
            },
    {
        match hash_password(password) {
            Some(password_hash) => Ok(
                User {
                    id,
                    email,
                    password_hash,
                    first_name,
                    last_name,
                    pantry_id: None,
                    created_at: now,
                    updated_at: now,
                },
            ),
            None => Err("Failed to hash password".to_owned()),
        }
    }

    /// Maps a storage item to a user. Total and non-panicking: a missing or
    /// non-string required field yields no result; a missing pantry
    /// reference is parsed as absent; timestamps degrade to `now`.
    pub fn from_item(item: &AttrMap, now: i64) -> (r: Option<User>)
        requires
            valid_timestamp(now as int),
        ensures
            match r {
                Some(u) => user_from_item_spec(item@, now as int) == Some(u@) && u@.wf(),
                None => user_from_item_spec(item@, now as int) is None,
            },
    {
        let id = match item.get_s("id") {
            Some(s) => s.clone(),
            None => {
                return None;
            },
        };
        let email = match item.get_s("email") {
            Some(s) => s.clone(),
            None => {
                return None;
            },
        };
        let password_hash = match item.get_s("password_hash") {
            Some(s) => s.clone(),
            None => {
                return None;
            },
        };
        let first_name = match item.get_s("first_name") {
            Some(s) => s.clone(),
            None => {
                return None;
            },
        };
        let last_name = match item.get_s("last_name") {
            Some(s) => s.clone(),
            None => {
                return None;
            },
        };
        let pantry_id = match item.get_s("pantry_id") {
            Some(s) => Some(s.clone()),
            None => None,
        };
        let created_at = read_timestamp_attr(item, "created_at", now);
        let updated_at = read_timestamp_attr(item, "updated_at", now);
        Some(User { id, email, password_hash, first_name, last_name, pantry_id, created_at, updated_at })
    }

    /// Maps the user to its storage item. The item round-trips: reading it
    /// back returns this user, whatever fallback instant the reader uses.
    pub fn to_item(&self) -> (r: AttrMap)
        requires
            self@.wf(),
        ensures
            r@ == user_to_item_spec(self@),
            forall|now: int| user_from_item_spec(r@, now) == Some(self@),
    {
        let mut item = AttrMap::new();
        item.insert_s("id", self.id.clone());
        item.insert_s("email", self.email.clone());
        item.insert_s("password_hash", self.password_hash.clone());
        item.insert_s("first_name", self.first_name.clone());
        item.insert_s("last_name", self.last_name.clone());
        match &self.pantry_id {
            Some(p) => item.insert_s("pantry_id", p.clone()),
            None => (),
        }
        item.insert_s("created_at", format_rfc3339(self.created_at));
        item.insert_s("updated_at", format_rfc3339(self.updated_at));
        proof {
            assert(item@ == user_to_item_spec(self@));
            assert forall|now: int| user_from_item_spec(item@, now) == Some(self@) by {
                lemma_user_roundtrip(self@, now);
            }
        }
        item
    }

    /// The pantry reference as shown to API clients: the empty string when
    /// the user has none.
    pub fn pantry_name(&self) -> (r: &str)
        ensures
            match self@.pantry_id {
                Some(p) => r@ == p,
                None => r@ == Seq::<char>::empty(),
            },
    {
        proof {
            reveal_strlit("");
        }
        match &self.pantry_id {
            Some(p) => p.as_str(),
            None => "",
        }
    }

    /// Whether `password` matches this user's stored credential. A malformed
    /// stored hash matches nothing.
    pub fn verify_password(&self, password: &str) -> (r: bool)
        ensures
            r == verifies(password@, self.password_hash@),
    {
        check_password(password, self.password_hash.as_str())
    }

    /// Replaces the credential with a fresh hash of `password` (new random
    /// salt) and refreshes the update instant; nothing else changes. On
    /// failure the user is left as it was.
    pub fn update_password(&mut self, password: &str, now: i64) -> (r: Result<(), String>)
        requires
            valid_timestamp(now as int),
        ensures
            match r {
                Ok(()) => {
                    &&& verifies(password@, final(self).password_hash@)
                    &&& final(self).updated_at == now
                    &&& final(self).id == old(self).id
                    &&& final(self).email == old(self).email
                    &&& final(self).first_name == old(self).first_name
                    &&& final(self).last_name == old(self).last_name
                    &&& final(self).pantry_id == old(self).pantry_id
                    &&& final(self).created_at == old(self).created_at
                },
                Err(e) => *final(self) == *old(self) && e@ == "Failed to hash password"@,
            },
    {
        match hash_password(password) {
            Some(h) => {
                self.password_hash = h;
                self.updated_at = now;
                Ok(())
            },
            None => Err("Failed to hash password".to_owned()),
        }
    }
}

} // verus!
