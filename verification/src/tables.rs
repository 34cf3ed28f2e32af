//! Key schemas of the backing store: for each table its attribute
//! definitions, primary key and secondary indexes, and the decision which
//! tables a fresh environment still has to create.
//!
//! Every key attribute is string-typed and every table is billed on demand,
//! so neither is modelled per attribute. The caller turns a returned spec
//! into the store's table-creation call.

use vstd::prelude::*;
use vstd::string::StringExecFns;

use crate::error::AppError;
use crate::item::str_eq;

verus! {

/// Spec-level secondary index: name, hash key, optional range key. Every
/// index projects all attributes.
pub ghost struct IndexSpecV {
    pub name: Seq<char>,
    pub hash_key: Seq<char>,
    pub range_key: Option<Seq<char>>,
}

/// One secondary index of a table.
#[derive(Debug, Clone, PartialEq, Eq)]
pub struct IndexSpec {
    pub name: String,
    pub hash_key: String,
    pub range_key: Option<String>,
}

impl View for IndexSpec {
    type V = IndexSpecV;

    open spec fn view(&self) -> IndexSpecV {
        IndexSpecV {
            name: self.name@,
            hash_key: self.hash_key@,
            range_key: match self.range_key {
                Some(k) => Some(k@),
                None => None,
            },
        }
    }
}

/// Spec-level table: name, key attribute definitions, primary key and
/// secondary indexes.
pub ghost struct TableSpecV {
    pub name: Seq<char>,
    pub attrs: Seq<Seq<char>>,
    pub hash_key: Seq<char>,
    pub range_key: Option<Seq<char>>,
    pub indexes: Seq<IndexSpecV>,
}

/// One table of the backing store.
#[derive(Debug, Clone, PartialEq, Eq)]
pub struct TableSpec {
    pub name: String,
    pub attrs: Vec<String>,
    pub hash_key: String,
    pub range_key: Option<String>,
    pub indexes: Vec<IndexSpec>,
}

impl View for TableSpec {
    type V = TableSpecV;

    open spec fn view(&self) -> TableSpecV {
        TableSpecV {
            name: self.name@,
            attrs: self.attrs@.map_values(|s: String| s@),
            hash_key: self.hash_key@,
            range_key: match self.range_key {
                Some(k) => Some(k@),
                None => None,
            },
            indexes: self.indexes@.map_values(|ix: IndexSpec| ix@),
        }
    }
}

/// The single-table design: composite primary key (entity-prefixed
/// partition and sort keys) and four secondary indexes covering user
/// access, pantry management, self-managed pantries and email lookup.
pub open spec fn pantry_system_spec() -> TableSpecV {
    TableSpecV {
        name: "PantrySystem"@,
        attrs: seq!["PK"@, "SK"@, "USER_ID"@, "access_level"@, "is_self_managed"@, "email"@],
        hash_key: "PK"@,
        range_key: Some("SK"@),
        indexes: seq![
            IndexSpecV { name: "UserAccessIndex"@, hash_key: "USER_ID"@, range_key: Some("PK"@) },
            IndexSpecV {
                name: "PantryManagementIndex"@,
                hash_key: "PK"@,
                range_key: Some("access_level"@),
            },
            IndexSpecV {
                name: "SelfManagedPantryIndex"@,
                hash_key: "is_self_managed"@,
                range_key: Some("PK"@),
            },
            IndexSpecV { name: "EmailLookupIndex"@, hash_key: "email"@, range_key: None },
        ],
    }
}

/// The dedicated Users table: keyed by user id, with email and role
/// lookup indexes.
pub open spec fn users_spec() -> TableSpecV {
    TableSpecV {
        name: "Users"@,
        attrs: seq!["user_id"@, "email"@, "role"@],
        hash_key: "user_id"@,
        range_key: None,
        indexes: seq![
            IndexSpecV { name: "EmailIndex"@, hash_key: "email"@, range_key: None },
            IndexSpecV { name: "RoleIndex"@, hash_key: "role"@, range_key: None },
        ],
    }
}

/// The dedicated Pantries table: keyed by pantry id, with a self-managed
/// lookup index.
pub open spec fn pantries_spec() -> TableSpecV {
    TableSpecV {
        name: "Pantries"@,
        attrs: seq!["pantry_id"@, "is_self_managed"@],
        hash_key: "pantry_id"@,
        range_key: None,
        indexes: seq![
            IndexSpecV {
                name: "SelfManagedIndex"@,
                hash_key: "is_self_managed"@,
                range_key: None,
            },
        ],
    }
}

/// The access-control table: composite identity (pantry, user) and three
/// indexes covering the three access directions — by user, by access level
/// and by contact agent.
pub open spec fn pantry_access_spec() -> TableSpecV {
    TableSpecV {
        name: "PantryAccess"@,
        attrs: seq!["pantry_id"@, "user_id"@, "access_level"@, "is_contact_agent"@],
        hash_key: "pantry_id"@,
        range_key: Some("user_id"@),
        indexes: seq![
            IndexSpecV {
                name: "UserAccessIndex"@,
                hash_key: "user_id"@,
                range_key: Some("pantry_id"@),
            },
            IndexSpecV {
                name: "AccessLevelIndex"@,
                hash_key: "pantry_id"@,
                range_key: Some("access_level"@),
            },
            IndexSpecV {
                name: "ContactAgentIndex"@,
                hash_key: "pantry_id"@,
                range_key: Some("is_contact_agent"@),
            },
        ],
    }
}

/// The early single-purpose Users layout: keyed by the record's own `id`
/// attribute, with only the email lookup index. The point lookups of the
/// read operations are written against this layout.
pub open spec fn usertt_spec() -> TableSpecV {
    TableSpecV {
        name: "Users"@,
        attrs: seq!["id"@, "email"@],
        hash_key: "id"@,
        range_key: None,
        indexes: seq![IndexSpecV { name: "EmailIndex"@, hash_key: "email"@, range_key: None }],
    }
}

/// Wraps a fallible build step, adding its context to the failure message.
pub fn build<T>(builder_result: Result<T, String>, context: &str) -> (r: Result<T, AppError>)
    ensures
        match builder_result {
            Ok(v) => r == Ok::<T, AppError>(v),
            Err(e) => r matches Err(AppError::DatabaseError(m)) && m@ == context@ + ": "@ + e@,
        },
{
    match builder_result {
        Ok(v) => Ok(v),
        Err(e) => {
            let mut m = context.to_owned();
            m.append(": ");
            m.append(e.as_str());
            proof {
                assert(m@ =~= context@ + ": "@ + e@);
            }
            Err(AppError::DatabaseError(m))
        },
    }
}

/// Builds the single-table design.
pub fn pantry_system() -> (r: TableSpec)
    ensures
        r@ == pantry_system_spec(),
{
    let t = TableSpec {
        name: "PantrySystem".to_owned(),
        attrs: vec![
            "PK".to_owned(),
            "SK".to_owned(),
            "USER_ID".to_owned(),
            "access_level".to_owned(),
            "is_self_managed".to_owned(),
            "email".to_owned(),
        ],
        hash_key: "PK".to_owned(),
        range_key: Some("SK".to_owned()),
        indexes: vec![
            IndexSpec {
                name: "UserAccessIndex".to_owned(),
                hash_key: "USER_ID".to_owned(),
                range_key: Some("PK".to_owned()),
            },
            IndexSpec {
                name: "PantryManagementIndex".to_owned(),
                hash_key: "PK".to_owned(),
                range_key: Some("access_level".to_owned()),
            },
            IndexSpec {
                name: "SelfManagedPantryIndex".to_owned(),
                hash_key: "is_self_managed".to_owned(),
                range_key: Some("PK".to_owned()),
            },
            IndexSpec {
                name: "EmailLookupIndex".to_owned(),
                hash_key: "email".to_owned(),
                range_key: None,
            },
        ],
    };
    proof {
        assert(t@.attrs =~= pantry_system_spec().attrs);
        assert(t@.indexes =~= pantry_system_spec().indexes);
    }
    t
}

/// Builds the dedicated Users table.
pub fn users() -> (r: TableSpec)
    ensures
        r@ == users_spec(),
{
    let t = TableSpec {
        name: "Users".to_owned(),
        attrs: vec!["user_id".to_owned(), "email".to_owned(), "role".to_owned()],
        hash_key: "user_id".to_owned(),
        range_key: None,
        indexes: vec![
            IndexSpec { name: "EmailIndex".to_owned(), hash_key: "email".to_owned(), range_key: None },
            IndexSpec { name: "RoleIndex".to_owned(), hash_key: "role".to_owned(), range_key: None },
        ],
    };
    proof {
        assert(t@.attrs =~= users_spec().attrs);
        assert(t@.indexes =~= users_spec().indexes);
    }
    t
}

/// Builds the dedicated Pantries table.
pub fn pantries() -> (r: TableSpec)
    ensures
        r@ == pantries_spec(),
{
    let t = TableSpec {
        name: "Pantries".to_owned(),
        attrs: vec!["pantry_id".to_owned(), "is_self_managed".to_owned()],
        hash_key: "pantry_id".to_owned(),
        range_key: None,
        indexes: vec![
            IndexSpec {
                name: "SelfManagedIndex".to_owned(),
                hash_key: "is_self_managed".to_owned(),
                range_key: None,
            },
        ],
    };
    proof {
        assert(t@.attrs =~= pantries_spec().attrs);
        assert(t@.indexes =~= pantries_spec().indexes);
    }
    t
}

/// Builds the access-control table.
pub fn pantry_access() -> (r: TableSpec)
    ensures
        r@ == pantry_access_spec(),
{
    let t = TableSpec {
        name: "PantryAccess".to_owned(),
        attrs: vec![
            "pantry_id".to_owned(),
            "user_id".to_owned(),
            "access_level".to_owned(),
            "is_contact_agent".to_owned(),
        ],
        hash_key: "pantry_id".to_owned(),
        range_key: Some("user_id".to_owned()),
        indexes: vec![
            IndexSpec {
                name: "UserAccessIndex".to_owned(),
                hash_key: "user_id".to_owned(),
                range_key: Some("pantry_id".to_owned()),
            },
            IndexSpec {
                name: "AccessLevelIndex".to_owned(),
                hash_key: "pantry_id".to_owned(),
                range_key: Some("access_level".to_owned()),
            },
            IndexSpec {
                name: "ContactAgentIndex".to_owned(),
                hash_key: "pantry_id".to_owned(),
                range_key: Some("is_contact_agent".to_owned()),
            },
        ],
    };
    proof {
        assert(t@.attrs =~= pantry_access_spec().attrs);
        assert(t@.indexes =~= pantry_access_spec().indexes);
    }
    t
}

/// Builds the early single-purpose Users layout.
pub fn usertt() -> (r: TableSpec)
    ensures
        r@ == usertt_spec(),
{
    let t = TableSpec {
        name: "Users".to_owned(),
        attrs: vec!["id".to_owned(), "email".to_owned()],
        hash_key: "id".to_owned(),
        range_key: None,
        indexes: vec![
            IndexSpec { name: "EmailIndex".to_owned(), hash_key: "email".to_owned(), range_key: None },
        ],
    };
    proof {
        assert(t@.attrs =~= usertt_spec().attrs);
        assert(t@.indexes =~= usertt_spec().indexes);
    }
    t
}

/// Whether some element of `v` reads as `s`.
pub fn contains_str(v: &Vec<String>, s: &str) -> (r: bool)
    ensures
        r == v@.map_values(|x: String| x@).contains(s@),
{
    let n = v.len();
    let mut i: usize = 0;
    while i < n
        invariant
            n == v@.len(),
            i <= n,
            forall|j: int| 0 <= j < i ==> #[trigger] v@[j]@ != s@,
        decreases n - i,
    {
        if str_eq(v[i].as_str(), s) {
            assert(v@.map_values(|x: String| x@)[i as int] == s@);
            return true;
        }
        i = i + 1;
    }
    proof {
        let mapped = v@.map_values(|x: String| x@);
        assert(forall|j: int| 0 <= j < n ==> #[trigger] mapped[j] == v@[j]@);
        assert(!mapped.contains(s@));
    }
    false
}

/// The tables a fresh environment still has to create, given the names
/// that already exist: each of the four required tables whose name is
/// missing, in the canonical provisioning order.
pub open spec fn tables_to_create_spec(existing: Seq<Seq<char>>) -> Seq<TableSpecV> {
    let s0 = Seq::<TableSpecV>::empty();
    let s1 = if existing.contains(pantry_system_spec().name) {
        s0
    } else {
        s0.push(pantry_system_spec())
    };
    let s2 = if existing.contains(users_spec().name) {
        s1
    } else {
        s1.push(users_spec())
    };
    let s3 = if existing.contains(pantries_spec().name) {
        s2
    } else {
        s2.push(pantries_spec())
    };
    if existing.contains(pantry_access_spec().name) {
        s3
    } else {
        s3.push(pantry_access_spec())
    }
}

/// Decides which tables to create: exactly those of the four whose name is
/// not among the existing ones, in the canonical provisioning order.
pub fn tables_to_create(existing: &Vec<String>) -> (r: Vec<TableSpec>)
    ensures
        r@.map_values(|t: TableSpec| t@) == tables_to_create_spec(
            existing@.map_values(|x: String| x@),
        ),
{
    let mut out: Vec<TableSpec> = Vec::new();
    if !contains_str(existing, "PantrySystem") {
        out.push(pantry_system());
    }
    if !contains_str(existing, "Users") {
        out.push(users());
    }
    if !contains_str(existing, "Pantries") {
        out.push(pantries());
    }
    if !contains_str(existing, "PantryAccess") {
        out.push(pantry_access());
    }
    proof {
        assert(out@.map_values(|t: TableSpec| t@) =~= tables_to_create_spec(
            existing@.map_values(|x: String| x@),
        ));
    }
    out
}

} // verus!
