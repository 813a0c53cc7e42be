use move_core_types::account_address::AccountAddress;
use native_bridge::bcs::{make_all, BcsNative};
use native_bridge::natives::{all_natives, registrations, NativeModule, TableError};
use native_bridge::table::{DispatchEntry, DuplicateKey, NativeTableBuilder};

fn framework() -> AccountAddress {
    AccountAddress::from_hex_literal("0x1").unwrap()
}

fn named(names: &[&str], first: u32) -> Vec<(String, u32)> {
    let mut natives = Vec::new();
    for (at, name) in names.iter().enumerate() {
        natives.push((name.to_string(), first + at as u32));
    }
    natives
}

fn entry(module: &str, function: &str, native: u32) -> DispatchEntry<u32> {
    DispatchEntry { module: module.to_string(), function: function.to_string(), native }
}

fn key(module: &str, function: &str) -> DuplicateKey {
    DuplicateKey { module: module.to_string(), function: function.to_string() }
}

#[test]
fn empty_builder_makes_an_empty_table() {
    let table = NativeTableBuilder::<u32>::new().finalize(framework()).unwrap();
    assert!(table.entries().is_empty());
    assert_eq!(table.lookup("util", "from_bytes"), None);
    assert_eq!(*table.framework_address(), framework());
}

#[test]
fn table_keeps_the_order_of_registration() {
    let mut builder = NativeTableBuilder::new();
    builder.register("hash", named(&["sha2_256", "sha3_256"], 10));
    builder.register("bcs", named(&["to_bytes"], 20));
    let table = builder.finalize(framework()).unwrap();
    assert_eq!(
        *table.entries(),
        vec![
            entry("hash", "sha2_256", 10),
            entry("hash", "sha3_256", 11),
            entry("bcs", "to_bytes", 20),
        ]
    );
}

#[test]
fn table_is_published_under_the_address_given() {
    let address = AccountAddress::from_hex_literal("0xcafe").unwrap();
    let mut builder = NativeTableBuilder::new();
    builder.register("bcs", named(&["to_bytes"], 1));
    let table = builder.finalize(address).unwrap();
    assert_eq!(*table.framework_address(), address);
    assert_ne!(*table.framework_address(), framework());
}

#[test]
fn lookup_finds_the_native_under_its_key() {
    let mut builder = NativeTableBuilder::new();
    builder.register("hash", named(&["sha2_256", "sha3_256"], 10));
    builder.register("bcs", named(&["to_bytes", "sha2_256"], 20));
    let table = builder.finalize(framework()).unwrap();
    assert_eq!(table.lookup("hash", "sha2_256"), Some(&10));
    assert_eq!(table.lookup("hash", "sha3_256"), Some(&11));
    assert_eq!(table.lookup("bcs", "to_bytes"), Some(&20));
    assert_eq!(table.lookup("bcs", "sha2_256"), Some(&21));
    assert_eq!(table.lookup("bcs", "sha3_256"), None);
    assert_eq!(table.lookup("hash", "to_bytes"), None);
    assert_eq!(table.lookup("", ""), None);
    assert_eq!(table.lookup("hash", "sha2_25"), None);
}

#[test]
fn one_implementation_under_two_labels_is_accepted() {
    let mut builder = NativeTableBuilder::new();
    builder.register("util", named(&["from_bytes"], 5));
    builder.register("from_bcs", named(&["from_bytes"], 5));
    let table = builder.finalize(framework()).unwrap();
    assert_eq!(table.lookup("util", "from_bytes"), Some(&5));
    assert_eq!(table.lookup("from_bcs", "from_bytes"), Some(&5));
    assert_eq!(table.entries().len(), 2);
}

#[test]
fn same_key_twice_is_rejected() {
    let mut builder = NativeTableBuilder::new();
    builder.register("util", named(&["from_bytes"], 5));
    builder.register("util", named(&["from_bytes"], 6));
    assert_eq!(builder.finalize(framework()).err(), Some(key("util", "from_bytes")));
}

#[test]
fn same_key_twice_with_one_implementation_is_rejected_too() {
    let mut builder = NativeTableBuilder::new();
    builder.register("util", named(&["from_bytes"], 5));
    builder.register("util", named(&["from_bytes"], 5));
    assert_eq!(builder.finalize(framework()).err(), Some(key("util", "from_bytes")));
}

#[test]
fn same_name_twice_in_one_group_is_rejected() {
    let mut builder = NativeTableBuilder::new();
    builder.register("hash", named(&["sha2_256", "sha3_256", "sha2_256"], 1));
    assert_eq!(builder.finalize(framework()).err(), Some(key("hash", "sha2_256")));
}

#[test]
fn first_repeated_key_is_the_one_reported() {
    let mut builder = NativeTableBuilder::new();
    builder.register("a", named(&["x", "y", "z"], 1));
    builder.register("a", named(&["z", "y", "x"], 4));
    assert_eq!(builder.finalize(framework()).err(), Some(key("a", "z")));
    let mut builder = NativeTableBuilder::new();
    builder.register("a", named(&["x", "y"], 1));
    builder.register("b", named(&["x"], 3));
    builder.register("b", named(&["x"], 4));
    builder.register("a", named(&["x"], 5));
    assert_eq!(builder.finalize(framework()).err(), Some(key("b", "x")));
}

#[test]
fn plan_lists_every_label_in_order() {
    let plan = registrations();
    let labels: Vec<&str> = plan.iter().map(|registration| registration.label.as_str()).collect();
    assert_eq!(
        labels,
        vec![
            "account",
            "create_signer",
            "ed25519",
            "crypto_algebra",
            "genesis",
            "multi_ed25519",
            "bls12381",
            "secp256k1",
            "endless_hash",
            "ristretto255",
            "type_info",
            "util",
            "from_bcs",
            "randomness",
            "ristretto255_bulletproofs",
            "transaction_context",
            "code",
            "event",
            "state_storage",
            "aggregator",
            "aggregator_factory",
            "aggregator_v2",
            "object",
            "debug",
            "string_utils",
            "consensus_config",
            "poly_commit_ipa",
            "poly_commit_fk20",
        ]
    );
}

#[test]
fn plan_puts_two_implementations_under_two_labels_each() {
    let plan = registrations();
    let labels_of = |source: NativeModule| -> Vec<String> {
        plan.iter()
            .filter(|registration| registration.source == source)
            .map(|registration| registration.label.clone())
            .collect()
    };
    assert_eq!(labels_of(NativeModule::CreateSigner), vec!["create_signer", "genesis"]);
    assert_eq!(labels_of(NativeModule::Util), vec!["util", "from_bcs"]);
    assert_eq!(labels_of(NativeModule::Account), vec!["account"]);
    assert_eq!(labels_of(NativeModule::Hash), vec!["endless_hash"]);
    assert_eq!(labels_of(NativeModule::Algebra), vec!["crypto_algebra"]);
    assert_eq!(labels_of(NativeModule::Bulletproofs), vec!["ristretto255_bulletproofs"]);
    assert_eq!(labels_of(NativeModule::PolyCommitFk20), vec!["poly_commit_fk20"]);
}

fn groups_of_the_plan() -> Vec<Vec<(String, u32)>> {
    let mut groups = Vec::new();
    for registration in registrations() {
        let natives = match registration.source {
            NativeModule::CreateSigner => named(&["create_signer"], 100),
            NativeModule::Util => named(&["from_bytes"], 200),
            NativeModule::Hash => named(&["sip_hash", "keccak256"], 300),
            NativeModule::Debug => vec![],
            _ => named(&["first", "second", "third"], 0),
        };
        groups.push(natives);
    }
    groups
}

#[test]
fn all_natives_gathers_every_group_under_its_label() {
    let table = all_natives(framework(), groups_of_the_plan()).unwrap();
    assert_eq!(*table.framework_address(), framework());
    assert_eq!(table.entries().len(), 22 * 3 + 2 + 2 + 2);
    assert_eq!(table.entries()[0], entry("account", "first", 0));
    assert_eq!(table.entries()[3], entry("create_signer", "create_signer", 100));
    assert_eq!(table.lookup("create_signer", "create_signer"), Some(&100));
    assert_eq!(table.lookup("genesis", "create_signer"), Some(&100));
    assert_eq!(table.lookup("util", "from_bytes"), Some(&200));
    assert_eq!(table.lookup("from_bcs", "from_bytes"), Some(&200));
    assert_eq!(table.lookup("endless_hash", "keccak256"), Some(&301));
    assert_eq!(table.lookup("poly_commit_fk20", "third"), Some(&2));
    assert_eq!(table.lookup("debug", "first"), None);
    assert_eq!(table.lookup("hash", "keccak256"), None);
    let last = table.entries().len() - 1;
    assert_eq!(table.entries()[last], entry("poly_commit_fk20", "third", 2));
}

#[test]
fn all_natives_wants_one_group_for_each_registration() {
    let mut groups = groups_of_the_plan();
    groups.pop();
    assert_eq!(
        all_natives(framework(), groups).err(),
        Some(TableError::GroupCount { expected: 28, found: 27 })
    );
    let mut groups = groups_of_the_plan();
    groups.push(vec![]);
    assert_eq!(
        all_natives(framework(), groups).err(),
        Some(TableError::GroupCount { expected: 28, found: 29 })
    );
    assert_eq!(
        all_natives::<u32>(framework(), vec![]).err(),
        Some(TableError::GroupCount { expected: 28, found: 0 })
    );
}

#[test]
fn all_natives_rejects_a_group_that_names_a_native_twice() {
    let mut groups = groups_of_the_plan();
    groups[11] = named(&["from_bytes", "to_address", "from_bytes"], 7);
    assert_eq!(
        all_natives(framework(), groups).err(),
        Some(TableError::DuplicateKey(key("util", "from_bytes")))
    );
}

#[test]
fn serialization_natives_are_named() {
    assert_eq!(
        make_all(),
        vec![
            ("to_bytes".to_string(), BcsNative::ToBytes),
            ("constant_serialized_size".to_string(), BcsNative::ConstantSerializedSize),
        ]
    );
}

#[test]
fn serialization_natives_can_be_registered() {
    let mut builder = NativeTableBuilder::new();
    builder.register("bcs", make_all());
    let table = builder.finalize(framework()).unwrap();
    assert_eq!(table.lookup("bcs", "to_bytes"), Some(&BcsNative::ToBytes));
    assert_eq!(
        table.lookup("bcs", "constant_serialized_size"),
        Some(&BcsNative::ConstantSerializedSize)
    );
    assert_eq!(table.lookup("bcs", "from_bytes"), None);
}
