use pam_keepassxc::handoff::CredentialHandoff;
use secrecy::{ExposeSecret, SecretString};

#[test]
fn new_slot_is_empty() {
    let mut slot: CredentialHandoff<String> = CredentialHandoff::new();
    assert!(slot.is_empty());
    assert_eq!(slot.take(), None);
}

#[test]
fn take_hands_out_what_was_stored() {
    let mut slot = CredentialHandoff::new();
    slot.store("hunter2".to_string());
    assert!(!slot.is_empty());
    assert_eq!(slot.take(), Some("hunter2".to_string()));
}

#[test]
fn second_take_hands_out_nothing() {
    let mut slot = CredentialHandoff::new();
    slot.store("hunter2".to_string());
    assert!(slot.take().is_some());
    assert!(slot.is_empty());
    assert_eq!(slot.take(), None);
    assert_eq!(slot.take(), None);
}

#[test]
fn store_replaces_what_was_there() {
    let mut slot = CredentialHandoff::new();
    slot.store("old".to_string());
    slot.store("new".to_string());
    assert_eq!(slot.take(), Some("new".to_string()));
    assert_eq!(slot.take(), None);
}

#[test]
fn store_after_take_is_delivered_once() {
    let mut slot = CredentialHandoff::new();
    slot.store(1u8);
    assert_eq!(slot.take(), Some(1));
    slot.store(2u8);
    assert_eq!(slot.take(), Some(2));
    assert_eq!(slot.take(), None);
}

#[test]
fn slot_holds_a_secret() {
    let mut slot: CredentialHandoff<SecretString> = CredentialHandoff::new();
    slot.store(SecretString::from("hunter2"));
    let secret = slot.take().unwrap();
    assert_eq!(secret.expose_secret(), "hunter2");
    assert!(slot.take().is_none());
}

#[test]
fn copy_of_a_slot_is_taken_from_separately() {
    let mut slot = CredentialHandoff::new();
    slot.store("hunter2".to_string());
    let mut copy = slot.clone();
    assert_eq!(copy.take(), Some("hunter2".to_string()));
    assert_eq!(copy.take(), None);
    assert_eq!(slot.take(), Some("hunter2".to_string()));
}
