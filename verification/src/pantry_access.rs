//! Access-control relationship between users and pantries: role-carrying
//! user records and the tiered access levels, with the exhaustive string
//! codec the storage layer persists them under.

use vstd::prelude::*;

use crate::error::AppError;
use crate::item::str_eq;
use crate::time::valid_timestamp;

verus! {

/// Spec-level role-carrying user record.
pub ghost struct UserV {
    pub user_id: Seq<char>,
    pub email: Seq<char>,
    pub password_hash: Seq<char>,
    pub first_name: Seq<char>,
    pub last_name: Seq<char>,
    pub role: Seq<char>,
    pub created_at: int,
    pub updated_at: int,
}

impl UserV {
    /// Well-formedness: both timestamps are storable.
    pub open spec fn wf(&self) -> bool {
        valid_timestamp(self.created_at) && valid_timestamp(self.updated_at)
    }
}

/// A user as the role-based access tables see it.
#[derive(Debug, Clone, PartialEq, Eq)]
pub struct User {
    pub user_id: String,
    pub email: String,
    pub password_hash: String,
    pub first_name: String,
    pub last_name: String,
    pub role: String,
    pub created_at: i64,
    pub updated_at: i64,
}

impl View for User {
    type V = UserV;

    open spec fn view(&self) -> UserV {
        UserV {
            user_id: self.user_id@,
            email: self.email@,
            password_hash: self.password_hash@,
            first_name: self.first_name@,
            last_name: self.last_name@,
            role: self.role@,
            created_at: self.created_at as int,
            updated_at: self.updated_at as int,
        }
    }
}

/// Access a user holds on a pantry, from full control down to read-only.
#[derive(Debug, Clone, PartialEq, Eq)]
pub enum AccessLevel {
    Admin,
    Manager,
    Staff,
    Viewer,
}

/// Canonical short code of an access level.
pub open spec fn access_level_code(a: AccessLevel) -> Seq<char> {
    match a {
        AccessLevel::Admin => "Admin"@,
        AccessLevel::Manager => "Manager"@,
        AccessLevel::Staff => "Staff"@,
        AccessLevel::Viewer => "Viewer"@,
    }
}

/// The access level a short code denotes; unknown codes denote none.
pub open spec fn access_level_from_code(s: Seq<char>) -> Option<AccessLevel> {
    if s == "Admin"@ {
        Some(AccessLevel::Admin)
    } else if s == "Manager"@ {
        Some(AccessLevel::Manager)
    } else if s == "Staff"@ {
        Some(AccessLevel::Staff)
    } else if s == "Viewer"@ {
        Some(AccessLevel::Viewer)
    } else {
        None
    }
}

/// The short codes name their levels one to one.
pub proof fn lemma_access_level_codec(a: AccessLevel)
    ensures
        access_level_from_code(access_level_code(a)) == Some(a),
{
    reveal_strlit("Admin");
    reveal_strlit("Manager");
    reveal_strlit("Staff");
    reveal_strlit("Viewer");
    assert("Admin"@.len() == 5 && "Manager"@.len() == 7 && "Staff"@.len() == 5 && "Viewer"@.len()
        == 6);
    assert("Admin"@[0] == 'A' && "Staff"@[0] == 'S');
}

impl AccessLevel {
    /// The canonical short code, borrowed.
    pub fn to_str(&self) -> (r: &'static str)
        ensures
            r@ == access_level_code(*self),
    {
        match self {
            AccessLevel::Admin => "Admin",
            AccessLevel::Manager => "Manager",
            AccessLevel::Staff => "Staff",
            AccessLevel::Viewer => "Viewer",
        }
    }

    /// Parses a short code; an unknown code is rejected, never defaulted.
    pub fn from_string(s: &str) -> (r: Result<AccessLevel, AppError>)
        ensures
            match access_level_from_code(s@) {
                Some(a) => r == Ok::<AccessLevel, AppError>(a),
                None => r matches Err(AppError::ValidationError(_)),
            },
    {
        if str_eq(s, "Admin") {
            Ok(AccessLevel::Admin)
        } else if str_eq(s, "Manager") {
            Ok(AccessLevel::Manager)
        } else if str_eq(s, "Staff") {
            Ok(AccessLevel::Staff)
        } else if str_eq(s, "Viewer") {
            Ok(AccessLevel::Viewer)
        } else {
            Err(AppError::ValidationError("Invalid access level".to_owned()))
        }
    }
}

} // verus!
