use ephemeride_backend::services::invite;
use ephemeride_backend::store::Store;
use uuid::Uuid;

#[test]
fn generates_an_invite() {
    let mut store = Store::new();
    let code = invite::generate_invite(&mut store, None);
    assert!(code.is_ok());
}

#[test]
fn generates_unique_invites() {
    let mut store = Store::new();
    let code1 = invite::generate_invite(&mut store, None).unwrap();
    let code2 = invite::generate_invite(&mut store, None).unwrap();
    assert_ne!(code1.code, code2.code);
}

#[test]
fn generates_an_invite_with_code() {
    let mut store = Store::new();
    let value = Uuid::new_v4().to_string();
    let code = invite::generate_invite(&mut store, Some(&value)).unwrap();
    assert_eq!(code.code, value);
}

#[test]
fn generates_unique_invites_with_code() {
    let mut store = Store::new();
    let value = Uuid::new_v4().to_string();
    let code1 = invite::generate_invite(&mut store, Some(&value)).unwrap();
    let code2 = invite::generate_invite(&mut store, Some(&value)).unwrap();
    assert_ne!(code1.code, code2.code);
}
