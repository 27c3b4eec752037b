use account_factory::ident::{AccountIdentifier, OriginTrace};
use account_factory::predict::{account_salt, predict_account_addresses};

fn local_id(sequence: u64) -> AccountIdentifier {
    AccountIdentifier { sequence, origin: OriginTrace::Local }
}

fn remote_id(sequence: u64, path: &[&str]) -> AccountIdentifier {
    AccountIdentifier {
        sequence,
        origin: OriginTrace::Remote { path: path.iter().map(|s| s.to_string()).collect() },
    }
}

#[test]
fn salt_is_deterministic_and_fixed_length() {
    let a = account_salt(&local_id(5));
    let b = account_salt(&local_id(5));
    assert_eq!(a, b);
    assert_eq!(a.len(), 32);
}

#[test]
fn salt_distinguishes_identifiers() {
    assert_ne!(account_salt(&local_id(1)), account_salt(&local_id(2)));
    assert_ne!(account_salt(&local_id(7)), account_salt(&remote_id(7, &["juno"])));
    assert_ne!(
        account_salt(&remote_id(7, &["juno"])),
        account_salt(&remote_id(7, &["osmosis"]))
    );
}

#[test]
fn prediction_is_reproducible() {
    let salt = account_salt(&local_id(5));
    let controller_checksum = vec![0x11u8; 32];
    let proxy_checksum = vec![0x22u8; 32];
    let creator = vec![0x07u8; 20];
    let first =
        predict_account_addresses(&controller_checksum, &proxy_checksum, &creator, &salt).unwrap();
    let second =
        predict_account_addresses(&controller_checksum, &proxy_checksum, &creator, &salt).unwrap();
    assert_eq!(first.controller, second.controller);
    assert_eq!(first.proxy, second.proxy);
}

#[test]
fn prediction_depends_on_the_checksum() {
    let salt = account_salt(&local_id(5));
    let creator = vec![0x07u8; 20];
    let base =
        predict_account_addresses(&vec![0x11u8; 32], &vec![0x22u8; 32], &creator, &salt).unwrap();
    // Different checksums give different addresses, and the derivation is no
    // passthrough of any input.
    assert_ne!(base.controller, base.proxy);
    assert_ne!(base.controller, vec![0x11u8; 32]);
    assert_ne!(base.controller, salt);
}

#[test]
fn prediction_rejects_wrong_checksum_length() {
    let salt = account_salt(&local_id(5));
    let creator = vec![0x07u8; 20];
    assert!(predict_account_addresses(&vec![0x11u8; 31], &vec![0x22u8; 32], &creator, &salt)
        .is_none());
}

#[test]
fn trace_verification_accepts_well_formed_remote_paths() {
    let id = remote_id(7, &["juno", "osmosis-1"]);
    assert!(id.origin.verify_remote().is_ok());
}

#[test]
fn trace_verification_rejects_local_and_malformed_paths() {
    assert!(local_id(7).origin.verify_remote().is_err());
    assert!(remote_id(7, &[]).origin.verify_remote().is_err());
    assert!(remote_id(7, &["JUNO"]).origin.verify_remote().is_err());
    assert!(remote_id(7, &[""]).origin.verify_remote().is_err());
}
