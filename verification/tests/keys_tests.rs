//! Tests of the decisions of `keys`.

use chio::content::templates::{declare_id_invocation, entrypoint_rs};
use chio::keys::{
    check_keypair_overwrite, declared_address_from_capture, declared_program_address,
    sync_action, update_declared_id, KeysError, SyncAction,
};

#[test]
fn reads_the_address_a_new_entrypoint_declares() {
    let address = "11111111111111111111111111111112";
    assert_eq!(declared_program_address(&entrypoint_rs(address)), Ok(address.to_string()));
}

#[test]
fn reads_an_empty_or_spaced_declaration() {
    assert_eq!(declared_program_address("declare_id!(\"\");"), Ok(String::new()));
    assert_eq!(
        declared_program_address("x::declare_id! ( \"abc\" ) ;"),
        Ok("abc".to_string())
    );
}

#[test]
fn missing_declaration_is_an_error() {
    assert_eq!(
        declared_program_address("fn main() {}"),
        Err(KeysError::DeclareIdMissing)
    );
    assert_eq!(declared_address_from_capture(None), Err(KeysError::DeclareIdMissing));
    assert_eq!(declared_address_from_capture(Some(None)), Ok(String::new()));
    assert_eq!(
        declared_address_from_capture(Some(Some("k".to_string()))),
        Ok("k".to_string())
    );
}

#[test]
fn update_rewrites_the_declared_address() {
    let before = entrypoint_rs("OLDADDRESS");
    let after = update_declared_id(&before, "NEWADDRESS").expect("pattern compiles");
    assert!(after.contains("declare_id!(\"NEWADDRESS\")"));
    assert!(!after.contains("OLDADDRESS"));
    assert_eq!(after, entrypoint_rs("NEWADDRESS"));
    assert_eq!(declared_program_address(&after), Ok("NEWADDRESS".to_string()));
}

#[test]
fn update_without_declaration_keeps_the_text() {
    assert_eq!(update_declared_id("no macro here", "A"), Ok("no macro here".to_string()));
}

#[test]
fn declare_id_invocation_text() {
    assert_eq!(declare_id_invocation("abc"), "declare_id!(\"abc\")");
}

#[test]
fn sync_decision() {
    assert_eq!(sync_action("abc", "abc"), SyncAction::AlreadySynced);
    assert_eq!(sync_action("abc", "abd"), SyncAction::UpdateDeclaredId);
    assert_eq!(sync_action("", ""), SyncAction::UpdateDeclaredId);
    assert_eq!(sync_action("", "abc"), SyncAction::UpdateDeclaredId);
}

#[test]
fn keypair_overwrite_needs_force() {
    assert_eq!(check_keypair_overwrite(true, false), Err(KeysError::KeypairExists));
    assert_eq!(check_keypair_overwrite(true, true), Ok(()));
    assert_eq!(check_keypair_overwrite(false, false), Ok(()));
    assert_eq!(check_keypair_overwrite(false, true), Ok(()));
}
