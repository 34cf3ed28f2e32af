use pantry_service::item::{AttrMap, AttrVal};
use pantry_service::pantry::{Address, OptStatus, Pantry};
use pantry_service::user::User;

const NOW: i64 = 1704164645; // 2024-01-02T03:04:05Z

fn sample_user(pantry_id: Option<String>) -> User {
    User {
        id: "11111111-2222-3333-4444-555555555555".to_string(),
        email: "a@b.com".to_string(),
        password_hash: "$argon2id$v=19$m=19456,t=2,p=1$c29tZXNhbHQ$AAAA".to_string(),
        first_name: "Ada".to_string(),
        last_name: "Lovelace".to_string(),
        pantry_id,
        created_at: NOW,
        updated_at: NOW + 60,
    }
}

fn sample_address(unit: Option<String>) -> Address {
    Address {
        street: "1 Main St".to_string(),
        unit,
        city: "Springfield".to_string(),
        state: "IL".to_string(),
        zipcode: "62701".to_string(),
    }
}

fn sample_pantry(unit: Option<String>) -> Pantry {
    Pantry {
        id: "99999999-8888-7777-6666-555555555555".to_string(),
        name: "North Pantry".to_string(),
        is_self_managed: "true".to_string(),
        opt_status: OptStatus::T2,
        phone: "555-0100".to_string(),
        email: "pantry@example.org".to_string(),
        address: sample_address(unit),
        created_at: NOW,
        updated_at: NOW,
    }
}

#[test]
fn user_roundtrip_without_pantry() {
    let u = sample_user(None);
    let item = u.to_item();
    assert_eq!(User::from_item(&item, 0), Some(u));
}

#[test]
fn user_roundtrip_with_pantry() {
    let u = sample_user(Some("pantry-42".to_string()));
    let item = u.to_item();
    assert_eq!(User::from_item(&item, 12345), Some(u));
}

#[test]
fn user_item_timestamps_are_rfc3339() {
    let u = sample_user(None);
    let item = u.to_item();
    let created = item.get_s("created_at").expect("created_at stored");
    assert_eq!(created.as_str(), "2024-01-02T03:04:05+00:00");
}

#[test]
fn user_item_omits_absent_pantry_reference() {
    let u = sample_user(None);
    let item = u.to_item();
    assert!(item.get("pantry_id").is_none());
}

#[test]
fn user_missing_email_maps_to_none() {
    let u = sample_user(None);
    let mut item = AttrMap::new();
    item.insert_s("id", u.id.clone());
    item.insert_s("password_hash", u.password_hash.clone());
    item.insert_s("first_name", u.first_name.clone());
    item.insert_s("last_name", u.last_name.clone());
    assert_eq!(User::from_item(&item, NOW), None);
}

#[test]
fn user_malformed_timestamp_falls_back_to_now() {
    let u = sample_user(None);
    let mut item = u.to_item();
    // overwrite by building a fresh item with a bad created_at
    let mut bad = AttrMap::new();
    for (k, v) in item.entries.drain(..) {
        if k == "created_at" {
            bad.insert_s("created_at", "not-a-date".to_string());
        } else {
            bad.entries.push((k, v));
        }
    }
    let read = User::from_item(&bad, 777).expect("still maps");
    assert_eq!(read.created_at, 777);
    assert_eq!(read.updated_at, u.updated_at);
}

#[test]
fn pantry_roundtrip_with_unit() {
    let p = sample_pantry(Some("Apt 3".to_string()));
    let item = p.to_item();
    assert_eq!(Pantry::from_item(&item, 0), Some(p));
}

#[test]
fn pantry_roundtrip_without_unit() {
    let p = sample_pantry(None);
    let item = p.to_item();
    assert_eq!(Pantry::from_item(&item, 0), Some(p));
}

#[test]
fn pantry_item_omits_absent_unit() {
    let p = sample_pantry(None);
    let item = p.to_item();
    match item.get("address") {
        Some(AttrVal::M(address)) => {
            assert!(address.get("unit").is_none());
            assert_eq!(address.get("street").map(|s| s.as_str()), Some("1 Main St"));
        }
        other => panic!("address stored wrong: {:?}", other),
    }
    let read = Pantry::from_item(&item, 0).expect("maps back");
    assert_eq!(read.address.unit, None);
}

#[test]
fn pantry_unknown_opt_status_rejected() {
    let p = sample_pantry(None);
    let mut bad = AttrMap::new();
    let mut item = p.to_item();
    for (k, v) in item.entries.drain(..) {
        if k == "opt_status" {
            bad.insert_s("opt_status", "T9".to_string());
        } else {
            bad.entries.push((k, v));
        }
    }
    assert_eq!(Pantry::from_item(&bad, NOW), None);
}

#[test]
fn pantry_stores_opt_status_code() {
    let p = sample_pantry(None);
    let item = p.to_item();
    assert_eq!(item.get_s("opt_status").map(|s| s.as_str()), Some("T2"));
}

#[test]
fn pantry_new_sets_flag_and_timestamps() {
    let p = Pantry::new(
        "id-1".to_string(),
        "South Pantry".to_string(),
        OptStatus::T3,
        sample_address(None),
        false,
        "555-0101".to_string(),
        "south@example.org".to_string(),
        NOW,
    )
    .expect("new pantry");
    assert_eq!(p.is_self_managed.as_str(), "false");
    assert_eq!(p.created_at, NOW);
    assert_eq!(p.updated_at, NOW);
}

#[test]
fn opt_status_codec_exact() {
    assert_eq!(OptStatus::T1.to_str(), "T1");
    assert_eq!(OptStatus::T2.to_string(), "T2".to_string());
    assert_eq!(OptStatus::from_string("T3"), Ok(OptStatus::T3));
    assert!(OptStatus::from_string("T9").is_err());
    assert!(OptStatus::from_string("t1").is_err());
}

#[test]
fn address_unit_accessor() {
    let a = sample_address(Some("Apt 9".to_string()));
    assert_eq!(a.unit(), "Apt 9");
    let b = sample_address(None);
    assert_eq!(b.unit(), "");
}

#[test]
fn user_pantry_name_accessor() {
    let u = sample_user(Some("pantry-7".to_string()));
    assert_eq!(u.pantry_name(), "pantry-7");
    let v = sample_user(None);
    assert_eq!(v.pantry_name(), "");
}
