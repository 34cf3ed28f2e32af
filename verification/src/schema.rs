//! The operations behind the API surface, split at the storage boundary:
//! each operation here either prepares what is sent to the store (keys,
//! query shapes, items to write) or interprets what came back. The caller
//! performs the single storage round-trip in between and hands the response
//! in as plain values.

use vstd::prelude::*;

use crate::error::AppError;
use crate::item::{AttrMap, AttrValV};
use crate::jwt::{claims_of, create_token, token_of, validate_spec, ClaimsV, TOKEN_TTL_SECS};
use crate::pantry::{Address, OptStatus, Pantry, pantry_to_item_spec, pantry_from_item_spec};
use crate::pantry_access::{access_level_code, AccessLevel};
use crate::password::verifies;
use crate::time::valid_timestamp;
use crate::user::{user_from_item_spec, user_to_item_spec, User, UserV};

verus! {

/// Relies on `uuid::Uuid::new_v4` and its hyphenated `Display` form: a
/// random identifier rendered as 36 characters.
#[verifier::external_body]
fn new_uuid() -> (r: String)
    ensures
        r@.len() == 36,
{
    uuid::Uuid::new_v4().to_string()
}

/// Spec-level secondary-index query shape.
pub ghost struct QueryRequestV {
    pub table: Seq<char>,
    pub index: Seq<char>,
    pub key_condition: Seq<char>,
    pub params: Seq<(Seq<char>, Seq<char>)>,
}

/// One secondary-index query shape: table, index, key condition expression
/// and the values bound to its placeholders.
#[derive(Debug, Clone, PartialEq, Eq)]
pub struct QueryRequest {
    pub table: String,
    pub index: String,
    pub key_condition: String,
    pub params: Vec<(String, String)>,
}

impl View for QueryRequest {
    type V = QueryRequestV;

    open spec fn view(&self) -> QueryRequestV {
        QueryRequestV {
            table: self.table@,
            index: self.index@,
            key_condition: self.key_condition@,
            params: self.params@.map_values(|p: (String, String)| (p.0@, p.1@)),
        }
    }
}

/// The users a scan response denotes, in response order: each item that
/// maps to a user contributes it, and an item that does not is skipped,
/// never aborting the whole list.
pub open spec fn users_from_items_spec(items: Seq<AttrMap>, now: int) -> Seq<UserV>
    decreases items.len(),
{
    if items.len() == 0 {
        Seq::empty()
    } else {
        let rest = users_from_items_spec(items.drop_first(), now);
        match user_from_item_spec(items[0]@, now) {
            Some(u) => seq![u] + rest,
            None => rest,
        }
    }
}

/// Root of the read operations.
#[derive(Debug)]
pub struct QueryRoot;

/// Root of the write operations.
#[derive(Debug)]
pub struct MutationRoot;

impl QueryRoot {
    /// Interprets a full-table scan of the Users table: every item that
    /// maps to a user, in response order; unmappable records are skipped.
    pub fn users(items: &Vec<AttrMap>, now: i64) -> (r: Vec<User>)
        requires
            valid_timestamp(now as int),
        ensures
            r@.map_values(|u: User| u@) == users_from_items_spec(items@, now as int),
    {
        let mut out: Vec<User> = Vec::new();
        let n = items.len();
        let mut i: usize = 0;
        proof {
            assert(items@.skip(0) =~= items@);
            assert(out@.map_values(|u: User| u@) =~= Seq::<UserV>::empty());
        }
        while i < n
            invariant
                n == items@.len(),
                i <= n,
                valid_timestamp(now as int),
                users_from_items_spec(items@, now as int) == out@.map_values(|u: User| u@)
                    + users_from_items_spec(items@.skip(i as int), now as int),
            decreases n - i,
        {
            let ghost prev = out@.map_values(|u: User| u@);
            let ghost tail = items@.skip(i as int);
            proof {
                assert(tail[0] == items@[i as int]);
                assert(tail.drop_first() =~= items@.skip(i + 1));
            }
            match User::from_item(&items[i], now) {
                Some(u) => {
                    out.push(u);
                    proof {
                        assert(out@.map_values(|u: User| u@) =~= prev.push(out@.last()@));
                        assert(seq![out@.last()@] + users_from_items_spec(
                            items@.skip(i + 1),
                            now as int,
                        ) =~= users_from_items_spec(tail, now as int));
                        assert(prev.push(out@.last()@) + users_from_items_spec(
                            items@.skip(i + 1),
                            now as int,
                        ) =~= prev + users_from_items_spec(tail, now as int));
                    }
                },
                None => (),
            }
            i = i + 1;
        }
        proof {
            assert(items@.skip(n as int) =~= Seq::<AttrMap>::empty());
            assert(out@.map_values(|u: User| u@) + Seq::<UserV>::empty() =~= out@.map_values(
                |u: User| u@,
            ));
        }
        out
    }

    /// The point-lookup key of a user: its primary identifier.
    pub fn user_id_key(user_id: String) -> (r: AttrMap)
        ensures
            r@ =~= Seq::<(Seq<char>, AttrValV)>::empty().push(("id"@, AttrValV::S(user_id@))),
    {
        let mut key = AttrMap::new();
        key.insert_s("id", user_id);
        key
    }

    /// Interprets a point lookup of a user: no item is a normal missing
    /// record, while an item that no longer maps to a user is a storage
    /// failure (data corruption), not a silent missing record.
    pub fn user_by_id(item: Option<&AttrMap>, now: i64) -> (r: Result<User, AppError>)
        requires
            valid_timestamp(now as int),
        ensures
            match item {
                None => r matches Err(AppError::NotFound(_)),
                Some(m) => match user_from_item_spec(m@, now as int) {
                    Some(u) => r matches Ok(ru) && ru@ == u,
                    None => r matches Err(AppError::DatabaseError(_)),
                },
            },
    {
        match item {
            None => Err(AppError::NotFound("No user found with that ID".to_owned())),
            Some(m) => match User::from_item(m, now) {
                Some(u) => Ok(u),
                None => Err(
                    AppError::DatabaseError("Stored user item could not be mapped".to_owned()),
                ),
            },
        }
    }

    /// The secondary-index query shape that looks a user up by email.
    pub fn user_by_email_query(email: String) -> (r: QueryRequest)
        ensures
            r@.table == "Users"@,
            r@.index == "EmailIndex"@,
            r@.key_condition == "email = :email"@,
            r@.params =~= Seq::<(Seq<char>, Seq<char>)>::empty().push((":email"@, email@)),
    {
        QueryRequest {
            table: "Users".to_owned(),
            index: "EmailIndex".to_owned(),
            key_condition: "email = :email".to_owned(),
            params: vec![(":email".to_owned(), email)],
        }
    }

    /// Interprets an email-index query: the first returned item (tolerating
    /// duplicates gracefully), a missing record being normal and an
    /// unmappable one a storage failure.
    pub fn user_by_email(items: &Vec<AttrMap>, now: i64) -> (r: Result<User, AppError>)
        requires
            valid_timestamp(now as int),
        ensures
            match r {
                Ok(u) => items@.len() > 0 && user_from_item_spec(items@[0]@, now as int) == Some(
                    u@,
                ),
                Err(AppError::NotFound(_)) => items@.len() == 0,
                Err(AppError::DatabaseError(_)) => items@.len() > 0 && user_from_item_spec(
                    items@[0]@,
                    now as int,
                ) is None,
                Err(_) => false,
            },
    {
        if items.len() == 0 {
            return Err(AppError::NotFound("No user found with that email address".to_owned()));
        }
        match User::from_item(&items[0], now) {
            Some(u) => Ok(u),
            None => Err(AppError::DatabaseError("Stored user item could not be mapped".to_owned())),
        }
    }

    /// The secondary-index query shape that lists users holding a role.
    pub fn users_by_role_query(role: String) -> (r: QueryRequest)
        ensures
            r@.table == "Users"@,
            r@.index == "RoleIndex"@,
            r@.key_condition == "role = :role"@,
            r@.params =~= Seq::<(Seq<char>, Seq<char>)>::empty().push((":role"@, role@)),
    {
        QueryRequest {
            table: "Users".to_owned(),
            index: "RoleIndex".to_owned(),
            key_condition: "role = :role".to_owned(),
            params: vec![(":role".to_owned(), role)],
        }
    }

    /// The secondary-index query shape that lists pantries by their
    /// self-managed flag.
    pub fn self_managed_pantries_query(flag: String) -> (r: QueryRequest)
        ensures
            r@.table == "Pantries"@,
            r@.index == "SelfManagedIndex"@,
            r@.key_condition == "is_self_managed = :flag"@,
            r@.params =~= Seq::<(Seq<char>, Seq<char>)>::empty().push((":flag"@, flag@)),
    {
        QueryRequest {
            table: "Pantries".to_owned(),
            index: "SelfManagedIndex".to_owned(),
            key_condition: "is_self_managed = :flag".to_owned(),
            params: vec![(":flag".to_owned(), flag)],
        }
    }

    /// The secondary-index query shape that lists the pantries a user can
    /// reach.
    pub fn pantries_by_user_query(user_id: String) -> (r: QueryRequest)
        ensures
            r@.table == "PantryAccess"@,
            r@.index == "UserAccessIndex"@,
            r@.key_condition == "user_id = :user_id"@,
            r@.params =~= Seq::<(Seq<char>, Seq<char>)>::empty().push((":user_id"@, user_id@)),
    {
        QueryRequest {
            table: "PantryAccess".to_owned(),
            index: "UserAccessIndex".to_owned(),
            key_condition: "user_id = :user_id".to_owned(),
            params: vec![(":user_id".to_owned(), user_id)],
        }
    }

    /// The secondary-index query shape that lists users with a given access
    /// level on a pantry.
    pub fn users_by_access_level_query(pantry_id: String, level: &AccessLevel) -> (r: QueryRequest)
        ensures
            r@.table == "PantryAccess"@,
            r@.index == "AccessLevelIndex"@,
            r@.key_condition == "pantry_id = :pantry_id AND access_level = :access_level"@,
            r@.params =~= Seq::<(Seq<char>, Seq<char>)>::empty().push((":pantry_id"@, pantry_id@))
                .push((":access_level"@, access_level_code(*level))),
    {
        QueryRequest {
            table: "PantryAccess".to_owned(),
            index: "AccessLevelIndex".to_owned(),
            key_condition: "pantry_id = :pantry_id AND access_level = :access_level".to_owned(),
            params: vec![
                (":pantry_id".to_owned(), pantry_id),
                (":access_level".to_owned(), level.to_str().to_owned()),
            ],
        }
    }

    /// The secondary-index query shape that finds the contact agents of a
    /// pantry.
    pub fn contact_agents_query(pantry_id: String) -> (r: QueryRequest)
        ensures
            r@.table == "PantryAccess"@,
            r@.index == "ContactAgentIndex"@,
            r@.key_condition == "pantry_id = :pantry_id AND is_contact_agent = :flag"@,
            r@.params =~= Seq::<(Seq<char>, Seq<char>)>::empty().push((":pantry_id"@, pantry_id@))
                .push((":flag"@, "true"@)),
    {
        QueryRequest {
            table: "PantryAccess".to_owned(),
            index: "ContactAgentIndex".to_owned(),
            key_condition: "pantry_id = :pantry_id AND is_contact_agent = :flag".to_owned(),
            params: vec![(":pantry_id".to_owned(), pantry_id), (":flag".to_owned(), "true".to_owned())],
        }
    }
}

impl MutationRoot {
    /// Builds a new user and the storage item to write for it: a fresh
    /// random identifier, a freshly salted password hash, both timestamps
    /// set to `now`, and an item that maps back to exactly this user.
    pub fn create_user(
        email: String,
        password: &str,
        first_name: String,
        last_name: String,
        now: i64,
    ) -> (r: Result<(User, AttrMap), AppError>)
        requires
            valid_timestamp(now as int),
        ensures
            match r {
                Ok((u, item)) => {
                    &&& u@.email == email@
                    &&& u@.first_name == first_name@
                    &&& u@.last_name == last_name@
                    &&& u@.pantry_id is None
                    &&& u@.created_at == now as int
                    &&& u@.updated_at == now as int
                    &&& u@.id.len() == 36
                    &&& verifies(password@, u@.password_hash)
                    &&& item@ == user_to_item_spec(u@)
                    &&& forall|later: int| user_from_item_spec(item@, later) == Some(u@)
                },
                Err(e) => e matches AppError::InternalServerError(_),
            },
    {
        let id = new_uuid();
        let user = match User::new(id, email, password, first_name, last_name, now) {
            Ok(u) => u,
            Err(e) => {
                return Err(AppError::InternalServerError(e));
            },
        };
        let item = user.to_item();
        Ok((user, item))
    }

    /// Builds a new pantry and the storage item to write for it: a fresh
    /// random identifier, both timestamps set to `now`, and an item that
    /// maps back to exactly this pantry. Building always succeeds.
    pub fn create_pantry(
        name: String,
        opt_status: OptStatus,
        address: Address,
        is_self_managed: bool,
        phone: String,
        email: String,
        now: i64,
    ) -> (r: Result<(Pantry, AttrMap), AppError>)
        requires
            valid_timestamp(now as int),
        ensures
            r is Ok,
            match r {
                Ok((p, item)) => {
                    &&& p@.name == name@
                    &&& p@.opt_status == opt_status
                    &&& p@.address == address@
                    &&& p@.is_self_managed == if is_self_managed {
                        "true"@
                    } else {
                        "false"@
                    }
                    &&& p@.phone == phone@
                    &&& p@.email == email@
                    &&& p@.created_at == now as int
                    &&& p@.updated_at == now as int
                    &&& p@.id.len() == 36
                    &&& item@ == pantry_to_item_spec(p@)
                    &&& forall|later: int| pantry_from_item_spec(item@, later) == Some(p@)
                },
                Err(_) => false,
            },
    {
        let id = new_uuid();
        let pantry = match Pantry::new(
            id,
            name,
            opt_status,
            address,
            is_self_managed,
            phone,
            email,
            now,
        ) {
            Ok(p) => p,
            Err(e) => {
                return Err(AppError::InternalServerError(e));
            },
        };
        let item = pantry.to_item();
        Ok((pantry, item))
    }

    /// Checks a login against the user the email lookup returned (if any)
    /// and issues a token: the subject id and the signed token exactly when
    /// the user is known and the password verifies, `Unauthorized` otherwise.
    /// The returned token validates to the subject's id and email at any
    /// instant within the 24-hour window, and to nothing after it.
    pub fn login(user: Option<&User>, password: &str, secret: &str, now: u64) -> (r: Result<
        (String, String),
        AppError,
    >)
        requires
            now + TOKEN_TTL_SECS <= u64::MAX,
        ensures
            match r {
                Ok((id, token)) => {
                    &&& user matches Some(u) && id@ == u.id@ && verifies(
                        password@,
                        u.password_hash@,
                    ) && token@ == token_of(
                        secret@,
                        u.id@,
                        u.email@,
                        (now + TOKEN_TTL_SECS) as u64,
                    ) && claims_of(secret@, token@) == Some(
                        (u.id@, u.email@, (now + TOKEN_TTL_SECS) as u64),
                    ) && (forall|later: u64|
                        validate_spec(secret@, token@, later) == (if later < now
                            + TOKEN_TTL_SECS {
                            Some(
                                ClaimsV {
                                    sub: u.id@,
                                    email: u.email@,
                                    exp: (now + TOKEN_TTL_SECS) as u64,
                                },
                            )
                        } else {
                            None::<ClaimsV>
                        }))
                },
                Err(e) => {
                    &&& e matches AppError::Unauthorized(_)
                    &&& match user {
                        Some(u) => !verifies(password@, u.password_hash@),
                        None => true,
                    }
                },
            },
    {
        let u = match user {
            Some(u) => u,
            None => {
                return Err(AppError::Unauthorized("Invalid email or password".to_owned()));
            },
        };
        if !u.verify_password(password) {
            return Err(AppError::Unauthorized("Invalid email or password".to_owned()));
        }
        let token = create_token(secret, u.id.as_str(), u.email.as_str(), now)?;
        Ok((u.id.clone(), token))
    }

    /// The deletion key of a user: records are deleted by email.
    pub fn delete_user_key(email: String) -> (r: AttrMap)
        ensures
            r@ =~= Seq::<(Seq<char>, AttrValV)>::empty().push(("email"@, AttrValV::S(email@))),
    {
        let mut key = AttrMap::new();
        key.insert_s("email", email);
        key
    }
}

} // verus!
