//! Food-pantry entity: opt status, address and the pantry record itself,
//! with its mapping to and from storage items.

use vstd::prelude::*;

use crate::error::AppError;
use crate::item::{lemma_sget_push, sget, sget_m, sget_s, str_eq, AttrMap, AttrValV, StrMap};
use crate::time::{read_timestamp_attr, rfc3339_of, rfc3339_parse, timestamp_attr, valid_timestamp};
use crate::time::format_rfc3339;

verus! {

/// Tiered enrollment level of a pantry.
///
/// * `T1` - opted out; no feature flags and no inventory
/// * `T2` - opted in with feature flags; no inventory
/// * `T3` - fully opted in, with feature flags and inventory
#[derive(Debug, Clone, PartialEq, Eq)]
pub enum OptStatus {
    T1,
    T2,
    T3,
}

/// Canonical short code of an opt status.
pub open spec fn opt_status_code(o: OptStatus) -> Seq<char> {
    match o {
        OptStatus::T1 => "T1"@,
        OptStatus::T2 => "T2"@,
        OptStatus::T3 => "T3"@,
    }
}

/// The opt status a short code denotes; unknown codes denote none.
pub open spec fn opt_status_from_code(s: Seq<char>) -> Option<OptStatus> {
    if s == "T1"@ {
        Some(OptStatus::T1)
    } else if s == "T2"@ {
        Some(OptStatus::T2)
    } else if s == "T3"@ {
        Some(OptStatus::T3)
    } else {
        None
    }
}

/// The short codes name their levels one to one.
pub proof fn lemma_opt_status_codec(o: OptStatus)
    ensures
        opt_status_from_code(opt_status_code(o)) == Some(o),
{
    reveal_strlit("T1");
    reveal_strlit("T2");
    reveal_strlit("T3");
    assert("T1"@[1] == '1' && "T2"@[1] == '2' && "T3"@[1] == '3');
    assert("T1"@ != "T2"@ && "T1"@ != "T3"@ && "T2"@ != "T3"@);
}

impl OptStatus {
    /// The canonical short code, as an owned string.
    pub fn to_string(&self) -> (r: String)
        ensures
            r@ == opt_status_code(*self),
    {
        match self {
            OptStatus::T1 => "T1".to_owned(),
            OptStatus::T2 => "T2".to_owned(),
            OptStatus::T3 => "T3".to_owned(),
        }
    }

    /// The canonical short code, borrowed.
    pub fn to_str(&self) -> (r: &'static str)
        ensures
            r@ == opt_status_code(*self),
    {
        match self {
            OptStatus::T1 => "T1",
            OptStatus::T2 => "T2",
            OptStatus::T3 => "T3",
        }
    }

    /// Parses a short code; an unknown code is rejected, never defaulted.
    pub fn from_string(s: &str) -> (r: Result<OptStatus, AppError>)
        ensures
            match opt_status_from_code(s@) {
                Some(o) => r == Ok::<OptStatus, AppError>(o),
                None => r matches Err(AppError::DatabaseError(_)),
            },
    {
        if str_eq(s, "T1") {
            Ok(OptStatus::T1)
        } else if str_eq(s, "T2") {
            Ok(OptStatus::T2)
        } else if str_eq(s, "T3") {
            Ok(OptStatus::T3)
        } else {
            Err(AppError::DatabaseError("Invalid opt status from pantry item".to_owned()))
        }
    }
}

/// Spec-level street address.
pub ghost struct AddressV {
    pub street: Seq<char>,
    pub unit: Option<Seq<char>>,
    pub city: Seq<char>,
    pub state: Seq<char>,
    pub zipcode: Seq<char>,
}

/// A physical street address in the United States format. The unit is
/// optional.
#[derive(Debug, Clone, PartialEq, Eq)]
pub struct Address {
    pub street: String,
    pub unit: Option<String>,
    pub city: String,
    pub state: String,
    pub zipcode: String,
}

impl View for Address {
    type V = AddressV;

    open spec fn view(&self) -> AddressV {
        AddressV {
            street: self.street@,
            unit: match self.unit {
                Some(u) => Some(u@),
                None => None,
            },
            city: self.city@,
            state: self.state@,
            zipcode: self.zipcode@,
        }
    }
}

/// The sub-object an address is persisted as. A missing unit is omitted,
/// never written as an empty string.
pub open spec fn address_to_map_spec(a: AddressV) -> Seq<(Seq<char>, Seq<char>)> {
    let base = Seq::<(Seq<char>, Seq<char>)>::empty().push(("street"@, a.street));
    let with_unit = match a.unit {
        Some(u) => base.push(("unit"@, u)),
        None => base,
    };
    with_unit.push(("city"@, a.city)).push(("state"@, a.state)).push(("zipcode"@, a.zipcode))
}

/// The address a sub-object denotes: street, city, state and zipcode are
/// required; a missing unit is parsed as absent.
pub open spec fn address_from_map_spec(m: Seq<(Seq<char>, Seq<char>)>) -> Option<AddressV> {
    match (sget(m, "street"@), sget(m, "city"@), sget(m, "state"@), sget(m, "zipcode"@)) {
        (Some(street), Some(city), Some(state), Some(zipcode)) => Some(
            AddressV { street, unit: sget(m, "unit"@), city, state, zipcode },
        ),
        _ => None,
    }
}

/// The field names of an address sub-object denote five distinct keys.
proof fn lemma_address_keys_distinct()
    ensures
        "street"@ != "unit"@ && "street"@ != "city"@ && "street"@ != "state"@ && "street"@
            != "zipcode"@,
        "unit"@ != "city"@ && "unit"@ != "state"@ && "unit"@ != "zipcode"@,
        "city"@ != "state"@ && "city"@ != "zipcode"@,
        "state"@ != "zipcode"@,
{
    reveal_strlit("street");
    reveal_strlit("unit");
    reveal_strlit("city");
    reveal_strlit("state");
    reveal_strlit("zipcode");
    assert("street"@.len() == 6 && "unit"@.len() == 4 && "city"@.len() == 4);
    assert("state"@.len() == 5 && "zipcode"@.len() == 7);
    assert("unit"@[0] == 'u' && "city"@[0] == 'c');
}

/// Mapping an address to its sub-object and back returns the same address,
/// whether or not the unit is present.
pub proof fn lemma_address_roundtrip(a: AddressV)
    ensures
        address_from_map_spec(address_to_map_spec(a)) == Some(a),
{
    broadcast use lemma_sget_push;

    lemma_address_keys_distinct();
    let m = address_to_map_spec(a);
    assert(sget(m, "street"@) == Some(a.street));
    assert(sget(m, "unit"@) == a.unit);
    assert(sget(m, "city"@) == Some(a.city));
    assert(sget(m, "state"@) == Some(a.state));
    assert(sget(m, "zipcode"@) == Some(a.zipcode));
}

/// Spec-level pantry record.
pub ghost struct PantryV {
    pub id: Seq<char>,
    pub name: Seq<char>,
    pub is_self_managed: Seq<char>,
    pub opt_status: OptStatus,
    pub phone: Seq<char>,
    pub email: Seq<char>,
    pub address: AddressV,
    pub created_at: int,
    pub updated_at: int,
}

impl PantryV {
    /// Well-formedness: both timestamps are storable.
    pub open spec fn wf(&self) -> bool {
        valid_timestamp(self.created_at) && valid_timestamp(self.updated_at)
    }
}

/// A food pantry involved in the program. The self-managed flag is
/// persisted as a string, as the stored layout requires.
#[derive(Debug, Clone, PartialEq, Eq)]
pub struct Pantry {
    pub id: String,
    pub name: String,
    pub is_self_managed: String,
    pub opt_status: OptStatus,
    pub phone: String,
    pub email: String,
    pub address: Address,
    pub created_at: i64,
    pub updated_at: i64,
}

impl View for Pantry {
    type V = PantryV;

    open spec fn view(&self) -> PantryV {
        PantryV {
            id: self.id@,
            name: self.name@,
            is_self_managed: self.is_self_managed@,
            opt_status: self.opt_status,
            phone: self.phone@,
            email: self.email@,
            address: self.address@,
            created_at: self.created_at as int,
            updated_at: self.updated_at as int,
        }
    }
}

/// The storage item a pantry is persisted as: flat string attributes, a
/// nested address sub-object, and the opt status as its canonical code.
pub open spec fn pantry_to_item_spec(p: PantryV) -> Seq<(Seq<char>, AttrValV)> {
    Seq::<(Seq<char>, AttrValV)>::empty().push(("id"@, AttrValV::S(p.id))).push(
        ("name"@, AttrValV::S(p.name)),
    ).push(("is_self_managed"@, AttrValV::S(p.is_self_managed))).push(
        ("phone"@, AttrValV::S(p.phone)),
    ).push(("email"@, AttrValV::S(p.email))).push(
        ("address"@, AttrValV::M(address_to_map_spec(p.address))),
    ).push(("opt_status"@, AttrValV::S(opt_status_code(p.opt_status)))).push(
        ("created_at"@, AttrValV::S(rfc3339_of(p.created_at))),
    ).push(("updated_at"@, AttrValV::S(rfc3339_of(p.updated_at))))
}

/// The pantry an item denotes: every required field present and of the
/// right shape, an unknown opt status code rejected rather than defaulted,
/// timestamps degrading to `now`.
pub open spec fn pantry_from_item_spec(m: Seq<(Seq<char>, AttrValV)>, now: int) -> Option<
    PantryV,
> {
    match (
        sget_s(m, "id"@),
        sget_s(m, "name"@),
        sget_m(m, "address"@),
        sget_s(m, "is_self_managed"@),
        sget_s(m, "phone"@),
        sget_s(m, "email"@),
        sget_s(m, "opt_status"@),
    ) {
        (
            Some(id),
            Some(name),
            Some(am),
            Some(is_self_managed),
            Some(phone),
            Some(email),
            Some(code),
        ) => match (address_from_map_spec(am), opt_status_from_code(code)) {
            (Some(address), Some(opt_status)) => Some(
                PantryV {
                    id,
                    name,
                    is_self_managed,
                    opt_status,
                    phone,
                    email,
                    address,
                    created_at: timestamp_attr(m, "created_at"@, now),
                    updated_at: timestamp_attr(m, "updated_at"@, now),
                },
            ),
            _ => None,
        },
        _ => None,
    }
}

/// The attribute names of a pantry item denote nine distinct keys.
proof fn lemma_pantry_keys_distinct()
    ensures
        "id"@ != "name"@ && "id"@ != "is_self_managed"@ && "id"@ != "phone"@ && "id"@ != "email"@
            && "id"@ != "address"@ && "id"@ != "opt_status"@ && "id"@ != "created_at"@ && "id"@
            != "updated_at"@,
        "name"@ != "is_self_managed"@ && "name"@ != "phone"@ && "name"@ != "email"@ && "name"@
            != "address"@ && "name"@ != "opt_status"@ && "name"@ != "created_at"@ && "name"@
            != "updated_at"@,
        "is_self_managed"@ != "phone"@ && "is_self_managed"@ != "email"@ && "is_self_managed"@
            != "address"@ && "is_self_managed"@ != "opt_status"@ && "is_self_managed"@
            != "created_at"@ && "is_self_managed"@ != "updated_at"@,
        "phone"@ != "email"@ && "phone"@ != "address"@ && "phone"@ != "opt_status"@ && "phone"@
            != "created_at"@ && "phone"@ != "updated_at"@,
        "email"@ != "address"@ && "email"@ != "opt_status"@ && "email"@ != "created_at"@ && "email"@
            != "updated_at"@,
        "address"@ != "opt_status"@ && "address"@ != "created_at"@ && "address"@ != "updated_at"@,
        "opt_status"@ != "created_at"@ && "opt_status"@ != "updated_at"@,
        "created_at"@ != "updated_at"@,
{
    reveal_strlit("id");
    reveal_strlit("name");
    reveal_strlit("is_self_managed");
    reveal_strlit("phone");
    reveal_strlit("email");
    reveal_strlit("address");
    reveal_strlit("opt_status");
    reveal_strlit("created_at");
    reveal_strlit("updated_at");
    assert("id"@.len() == 2 && "name"@.len() == 4 && "is_self_managed"@.len() == 15);
    assert("phone"@.len() == 5 && "email"@.len() == 5 && "address"@.len() == 7);
    assert("opt_status"@.len() == 10 && "created_at"@.len() == 10 && "updated_at"@.len() == 10);
    assert("phone"@[0] == 'p' && "email"@[0] == 'e');
    assert("opt_status"@[0] == 'o' && "created_at"@[0] == 'c' && "updated_at"@[0] == 'u');
}

/// Mapping a valid pantry to an item and back returns the same pantry, for
/// any fallback instant and whether or not the address unit is present. The
/// two parse hypotheses are what the serializer guarantees for the two
/// timestamps it wrote.
pub proof fn lemma_pantry_roundtrip(p: PantryV, now: int)
    requires
        p.wf(),
        rfc3339_parse(rfc3339_of(p.created_at)) == Some(p.created_at),
        rfc3339_parse(rfc3339_of(p.updated_at)) == Some(p.updated_at),
    ensures
        pantry_from_item_spec(pantry_to_item_spec(p), now) == Some(p),
{
    broadcast use lemma_sget_push;

    lemma_pantry_keys_distinct();
    lemma_address_roundtrip(p.address);
    lemma_opt_status_codec(p.opt_status);
    let m = pantry_to_item_spec(p);
    assert(sget_s(m, "id"@) == Some(p.id));
    assert(sget_s(m, "name"@) == Some(p.name));
    assert(sget_m(m, "address"@) == Some(address_to_map_spec(p.address)));
    assert(sget_s(m, "is_self_managed"@) == Some(p.is_self_managed));
    assert(sget_s(m, "phone"@) == Some(p.phone));
    assert(sget_s(m, "email"@) == Some(p.email));
    assert(sget_s(m, "opt_status"@) == Some(opt_status_code(p.opt_status)));
    assert(timestamp_attr(m, "created_at"@, now) == p.created_at);
    assert(timestamp_attr(m, "updated_at"@, now) == p.updated_at);
}

/// An item whose opt status code is present but unknown denotes no pantry:
/// the record is rejected, not defaulted.
pub proof fn lemma_pantry_unknown_opt_status(m: Seq<(Seq<char>, AttrValV)>, now: int)
    requires
        sget_s(m, "opt_status"@) matches Some(code) && opt_status_from_code(code) is None,
    ensures
        pantry_from_item_spec(m, now) is None,
{
}

impl Address {
    /// The unit as shown to API clients: the empty string when absent.
    pub fn unit(&self) -> (r: &str)
        ensures
            match self@.unit {
                Some(u) => r@ == u,
                None => r@ == Seq::<char>::empty(),
            },
    {
        proof {
            reveal_strlit("");
        }
        match &self.unit {
            Some(u) => u.as_str(),
            None => "",
        }
    }

    /// Maps the address to its sub-object.
    pub fn to_map(&self) -> (r: StrMap)
        ensures
            r@ == address_to_map_spec(self@),
    {
        let mut m = StrMap::new();
        m.insert("street", self.street.clone());
        match &self.unit {
            Some(u) => m.insert("unit", u.clone()),
            None => (),
        }
        m.insert("city", self.city.clone());
        m.insert("state", self.state.clone());
        m.insert("zipcode", self.zipcode.clone());
        m
    }

    /// Maps a sub-object back to an address; street, city, state and
    /// zipcode are required, a missing unit is parsed as absent.
    pub fn from_map(m: &StrMap) -> (r: Option<Address>)
        ensures
            match r {
                Some(a) => address_from_map_spec(m@) == Some(a@),
                None => address_from_map_spec(m@) is None,
            },
    {
        let street = match m.get("street") {
            Some(s) => s.clone(),
            None => {
                return None;
            },
        };
        let unit = match m.get("unit") {
            Some(s) => Some(s.clone()),
            None => None,
        };
        let city = match m.get("city") {
            Some(s) => s.clone(),
            None => {
                return None;
            },
        };
        let state = match m.get("state") {
            Some(s) => s.clone(),
            None => {
                return None;
            },
        };
        let zipcode = match m.get("zipcode") {
            Some(s) => s.clone(),
            None => {
                return None;
            },
        };
        Some(Address { street, unit, city, state, zipcode })
    }
}

impl Pantry {
    /// Creates a pantry; both timestamps are the creation instant and the
    /// self-managed flag is stored as the string the layout requires.
    pub fn new(
        id: String,
        name: String,
        opt_status: OptStatus,
        address: Address,
        is_self_managed: bool,
        phone: String,
        email: String,
        now: i64,
    ) -> (r: Result<Pantry, String>)
        requires
            valid_timestamp(now as int),
        ensures
            match r {
                Ok(p) => {
                    &&& p@.id == id@
                    &&& p@.name == name@
                    &&& p@.opt_status == opt_status
                    &&& p@.address == address@
                    &&& p@.is_self_managed == if is_self_managed {
                        "true"@
                    } else {
                        "false"@
                    }
                    &&& p@.phone == phone@
                    &&& p@.email == email@
                    &&& p@.created_at == now as int
                    &&& p@.updated_at == now as int
                    &&& p@.wf()
                },
                Err(_) => false,
            },
    {
        let is_self_managed_str: &str = if is_self_managed {
            "true"
        } else {
            "false"
        };
        Ok(
            Pantry {
                id,
                name,
                opt_status,
                address,
                is_self_managed: is_self_managed_str.to_owned(),
                phone,
                email,
                created_at: now,
                updated_at: now,
            },
        )
    }

    /// Maps a storage item to a pantry. Total and non-panicking: a missing
    /// or ill-shaped required field, or an unknown opt status code, yields
    /// no result; timestamps degrade to `now`.
    pub fn from_item(item: &AttrMap, now: i64) -> (r: Option<Pantry>)
        requires
            valid_timestamp(now as int),
        ensures
            match r {
                Some(p) => pantry_from_item_spec(item@, now as int) == Some(p@) && p@.wf(),
                None => pantry_from_item_spec(item@, now as int) is None,
            },
    {
        let id = match item.get_s("id") {
            Some(s) => s.clone(),
            None => {
                return None;
            },
        };
        let name = match item.get_s("name") {
            Some(s) => s.clone(),
            None => {
                return None;
            },
        };
        let address = match item.get_m("address") {
            Some(am) => match Address::from_map(am) {
                Some(a) => a,
                None => {
                    return None;
                },
            },
            None => {
                return None;
            },
        };
        let is_self_managed = match item.get_s("is_self_managed") {
            Some(s) => s.clone(),
            None => {
                return None;
            },
        };
        let phone = match item.get_s("phone") {
            Some(s) => s.clone(),
            None => {
                return None;
            },
        };
        let email = match item.get_s("email") {
            Some(s) => s.clone(),
            None => {
                return None;
            },
        };
        let opt_status = match item.get_s("opt_status") {
            Some(code) => match OptStatus::from_string(code.as_str()) {
                Ok(o) => o,
                Err(_) => {
                    return None;
                },
            },
            None => {
                return None;
            },
        };
        let created_at = read_timestamp_attr(item, "created_at", now);
        let updated_at = read_timestamp_attr(item, "updated_at", now);
        Some(
            Pantry {
                id,
                name,
                is_self_managed,
                opt_status,
                phone,
                email,
                address,
                created_at,
                updated_at,
            },
        )
    }

    /// Maps the pantry to its storage item. The item round-trips: reading
    /// it back returns this pantry, whatever fallback instant the reader
    /// uses.
    pub fn to_item(&self) -> (r: AttrMap)
        requires
            self@.wf(),
        ensures
            r@ == pantry_to_item_spec(self@),
            forall|now: int| pantry_from_item_spec(r@, now) == Some(self@),
    {
        let mut item = AttrMap::new();
        item.insert_s("id", self.id.clone());
        item.insert_s("name", self.name.clone());
        item.insert_s("is_self_managed", self.is_self_managed.clone());
        item.insert_s("phone", self.phone.clone());
        item.insert_s("email", self.email.clone());
        item.insert_m("address", self.address.to_map());
        item.insert_s("opt_status", self.opt_status.to_string());
        item.insert_s("created_at", format_rfc3339(self.created_at));
        item.insert_s("updated_at", format_rfc3339(self.updated_at));
        proof {
            assert(item@ == pantry_to_item_spec(self@));
            assert forall|now: int| pantry_from_item_spec(item@, now) == Some(self@) by {
                lemma_pantry_roundtrip(self@, now);
            }
        }
        item
    }
}

} // verus!
