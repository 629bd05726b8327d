//! Behavior of the in-memory key identity mapping against the contract.

use parsec_core::authenticators::ApplicationName;
use parsec_core::key_id_managers::in_memory::InMemoryKeyIDManager;
use parsec_core::key_id_managers::{
    KeyAttributes, KeyInfo, KeyPolicy, KeyTriple, KeyType, ManageKeyIDs, UsageFlags,
    to_response_status,
};
use parsec_core::requests::{ProviderID, ResponseStatus};

fn flags() -> UsageFlags {
    UsageFlags {
        export: false,
        copy: false,
        cache: false,
        encrypt: true,
        decrypt: true,
        sign_message: false,
        verify_message: false,
        sign_hash: false,
        verify_hash: false,
        key_derivation: false,
    }
}

fn info(id: Vec<u8>, bits: u32) -> KeyInfo {
    KeyInfo {
        id,
        attributes: KeyAttributes {
            key_type: KeyType::Aes,
            key_bits: bits,
            policy: KeyPolicy { usage_flags: flags(), permitted_algorithm: 9 },
        },
    }
}

fn triple(app: &str, provider: ProviderID, key: &str) -> KeyTriple {
    KeyTriple::new(ApplicationName::new(app.to_string()), provider, key.to_string())
}

#[test]
fn insert_then_get_returns_record() {
    let mut manager = InMemoryKeyIDManager::new();
    let record = info(vec![1, 2, 3], 128);
    let prior = manager.insert(triple("app", ProviderID::MbedCrypto, "key"), record.clone());
    assert_eq!(prior, Ok(None));
    let got = manager.get(&triple("app", ProviderID::MbedCrypto, "key")).unwrap();
    assert_eq!(got, Some(&record));
}

#[test]
fn insert_replaces_and_returns_prior() {
    let mut manager = InMemoryKeyIDManager::new();
    let first = info(vec![1], 128);
    let second = info(vec![2], 256);
    let t = triple("app", ProviderID::Pkcs11, "key");
    assert_eq!(manager.insert(t.clone(), first.clone()), Ok(None));
    let prior = manager.insert(t.clone(), second.clone()).unwrap();
    assert_eq!(prior, Some(first));
    assert_eq!(manager.get(&t).unwrap(), Some(&second));
}

#[test]
fn absent_triple_remove_and_exists() {
    let mut manager = InMemoryKeyIDManager::new();
    let t = triple("app", ProviderID::Tpm, "never-inserted");
    assert_eq!(manager.remove(&t), Ok(None));
    assert_eq!(manager.exists_key(&t), Ok(false));
}

#[test]
fn get_all_is_isolated_per_provider() {
    let mut manager = InMemoryKeyIDManager::new();
    let mbed_one = triple("app", ProviderID::MbedCrypto, "one");
    let mbed_two = triple("other", ProviderID::MbedCrypto, "two");
    let tpm_one = triple("app", ProviderID::Tpm, "one");
    manager.insert(mbed_one.clone(), info(vec![1], 128)).unwrap();
    manager.insert(mbed_two.clone(), info(vec![2], 128)).unwrap();
    manager.insert(tpm_one.clone(), info(vec![3], 128)).unwrap();
    let mbed_triples = manager.get_all(ProviderID::MbedCrypto).unwrap();
    assert_eq!(mbed_triples.len(), 2);
    for t in &mbed_triples {
        assert!(t.belongs_to_provider(ProviderID::MbedCrypto));
    }
    assert!(mbed_triples.contains(&&mbed_one));
    assert!(mbed_triples.contains(&&mbed_two));
    assert!(!mbed_triples.contains(&&tpm_one));
    assert!(manager.get_all(ProviderID::Core).unwrap().is_empty());
}

#[test]
fn insert_then_remove_round_trip() {
    let mut manager = InMemoryKeyIDManager::new();
    let t = triple("app", ProviderID::MbedCrypto, "key");
    let record = info(vec![7, 7], 192);
    manager.insert(t.clone(), record.clone()).unwrap();
    let removed = manager.remove(&t).unwrap();
    assert_eq!(removed, Some(record));
    assert_eq!(manager.get(&t).unwrap(), None);
    assert_eq!(manager.exists_key(&t), Ok(false));
}

#[test]
fn exists_after_insert() {
    let mut manager = InMemoryKeyIDManager::new();
    let t = triple("app", ProviderID::MbedCrypto, "key");
    manager.insert(t.clone(), info(vec![4], 128)).unwrap();
    assert_eq!(manager.exists_key(&t), Ok(true));
}

#[test]
fn triples_differing_in_one_field_are_distinct() {
    let mut manager = InMemoryKeyIDManager::new();
    let t = triple("app", ProviderID::MbedCrypto, "key");
    let other_app = triple("App", ProviderID::MbedCrypto, "key");
    let other_name = triple("app", ProviderID::MbedCrypto, "Key");
    assert_ne!(t, other_app);
    assert_ne!(t, other_name);
    manager.insert(t.clone(), info(vec![1], 128)).unwrap();
    assert_eq!(manager.get(&other_app).unwrap(), None);
    assert_eq!(manager.get(&other_name).unwrap(), None);
    assert_eq!(manager.exists_key(&t), Ok(true));
}

#[test]
fn triple_accessors_return_the_constructed_fields() {
    let t = triple("app", ProviderID::Pkcs11, "key");
    assert_eq!(t.app_name().name(), "app");
    assert_eq!(t.provider_id(), ProviderID::Pkcs11);
    assert_eq!(t.key_name(), "key");
    assert_eq!(t, t.clone());
}

#[test]
fn triple_description_renders_all_three_fields() {
    let t = triple("main-client", ProviderID::MbedCrypto, "rsa-signing-key");
    assert_eq!(
        t.description(),
        "Application Name: \"main-client\", Provider ID: MbedCrypto, Key Name: \"rsa-signing-key\"",
    );
    assert_eq!(ProviderID::Tpm.name(), "Tpm");
}

#[test]
fn backend_error_becomes_generic_status() {
    let status = to_response_status("underlying storage failed".to_string());
    assert_eq!(status, ResponseStatus::KeyIDManagerError);
}
