//! The framework's natives: which groups of natives make up the table, and
//! under which labels.

use vstd::prelude::*;
use move_core_types::account_address::AccountAddress;
use crate::table::{
    first_repeat, keys_unique, labelled, named_view, same_key, DispatchEntryView, DuplicateKey,
    NativeTable, NativeTableBuilder,
};

verus! {

/// The implementations that contribute natives to the framework's table.
#[derive(Clone, Copy, Debug, PartialEq, Eq, Structural)]
pub enum NativeModule {
    Account,
    CreateSigner,
    Ed25519,
    Algebra,
    MultiEd25519,
    Bls12381,
    Secp256k1,
    Hash,
    Ristretto255,
    TypeInfo,
    Util,
    Randomness,
    Bulletproofs,
    TransactionContext,
    Code,
    Event,
    StateStorage,
    Aggregator,
    AggregatorFactory,
    AggregatorV2,
    Object,
    Debug,
    StringUtils,
    ConsensusConfig,
    PolyCommitIpa,
    PolyCommitFk20,
}

/// One group of the table: the label its natives are addressed under and
/// the implementation they come from.
#[derive(Debug, PartialEq, Eq)]
pub struct Registration {
    pub label: String,
    pub source: NativeModule,
}

/// The groups of the framework's table, in the order they are registered.
/// An implementation may stand under more than one label.
pub open spec fn registration_plan() -> Seq<(Seq<char>, NativeModule)> {
    seq![
        ("account"@, NativeModule::Account),
        ("create_signer"@, NativeModule::CreateSigner),
        ("ed25519"@, NativeModule::Ed25519),
        ("crypto_algebra"@, NativeModule::Algebra),
        ("genesis"@, NativeModule::CreateSigner),
        ("multi_ed25519"@, NativeModule::MultiEd25519),
        ("bls12381"@, NativeModule::Bls12381),
        ("secp256k1"@, NativeModule::Secp256k1),
        ("endless_hash"@, NativeModule::Hash),
        ("ristretto255"@, NativeModule::Ristretto255),
        ("type_info"@, NativeModule::TypeInfo),
        ("util"@, NativeModule::Util),
        ("from_bcs"@, NativeModule::Util),
        ("randomness"@, NativeModule::Randomness),
        ("ristretto255_bulletproofs"@, NativeModule::Bulletproofs),
        ("transaction_context"@, NativeModule::TransactionContext),
        ("code"@, NativeModule::Code),
        ("event"@, NativeModule::Event),
        ("state_storage"@, NativeModule::StateStorage),
        ("aggregator"@, NativeModule::Aggregator),
        ("aggregator_factory"@, NativeModule::AggregatorFactory),
        ("aggregator_v2"@, NativeModule::AggregatorV2),
        ("object"@, NativeModule::Object),
        ("debug"@, NativeModule::Debug),
        ("string_utils"@, NativeModule::StringUtils),
        ("consensus_config"@, NativeModule::ConsensusConfig),
        ("poly_commit_ipa"@, NativeModule::PolyCommitIpa),
        ("poly_commit_fk20"@, NativeModule::PolyCommitFk20),
    ]
}

/// The mathematical values of registrations, in order: each label with its
/// source.
pub open spec fn registrations_view(plan: Seq<Registration>) -> Seq<(Seq<char>, NativeModule)> {
    plan.map_values(|registration: Registration| (registration.label@, registration.source))
}

fn registration(label: &str, source: NativeModule) -> (made: Registration)
    ensures
        made.label@ == label@,
        made.source == source,
{
    Registration { label: label.to_owned(), source }
}

/// The groups of the framework's table, in the order they are registered.
pub fn registrations() -> (plan: Vec<Registration>)
    ensures
        registrations_view(plan@) == registration_plan(),
{
    let mut plan: Vec<Registration> = Vec::new();
    plan.push(registration("account", NativeModule::Account));
    plan.push(registration("create_signer", NativeModule::CreateSigner));
    plan.push(registration("ed25519", NativeModule::Ed25519));
    plan.push(registration("crypto_algebra", NativeModule::Algebra));
    plan.push(registration("genesis", NativeModule::CreateSigner));
    plan.push(registration("multi_ed25519", NativeModule::MultiEd25519));
    plan.push(registration("bls12381", NativeModule::Bls12381));
    plan.push(registration("secp256k1", NativeModule::Secp256k1));
    plan.push(registration("endless_hash", NativeModule::Hash));
    plan.push(registration("ristretto255", NativeModule::Ristretto255));
    plan.push(registration("type_info", NativeModule::TypeInfo));
    plan.push(registration("util", NativeModule::Util));
    plan.push(registration("from_bcs", NativeModule::Util));
    plan.push(registration("randomness", NativeModule::Randomness));
    plan.push(registration("ristretto255_bulletproofs", NativeModule::Bulletproofs));
    plan.push(registration("transaction_context", NativeModule::TransactionContext));
    plan.push(registration("code", NativeModule::Code));
    plan.push(registration("event", NativeModule::Event));
    plan.push(registration("state_storage", NativeModule::StateStorage));
    plan.push(registration("aggregator", NativeModule::Aggregator));
    plan.push(registration("aggregator_factory", NativeModule::AggregatorFactory));
    plan.push(registration("aggregator_v2", NativeModule::AggregatorV2));
    plan.push(registration("object", NativeModule::Object));
    plan.push(registration("debug", NativeModule::Debug));
    plan.push(registration("string_utils", NativeModule::StringUtils));
    plan.push(registration("consensus_config", NativeModule::ConsensusConfig));
    plan.push(registration("poly_commit_ipa", NativeModule::PolyCommitIpa));
    plan.push(registration("poly_commit_fk20", NativeModule::PolyCommitFk20));
    assert(registrations_view(plan@) =~= registration_plan());
    plan
}

/// Why the framework's table could not be made.
#[derive(Debug, PartialEq, Eq)]
pub enum TableError {
    /// The groups handed over are not one for each registration.
    GroupCount { expected: usize, found: usize },
    /// Two entries claim one key.
    DuplicateKey(DuplicateKey),
}

/// The mathematical values of groups of named natives, in order.
pub open spec fn groups_view<F>(groups: Seq<Vec<(String, F)>>) -> Seq<Seq<(Seq<char>, F)>> {
    groups.map_values(|group: Vec<(String, F)>| named_view(group@))
}

/// The entries that the first `n` groups make, each under the label that the
/// plan gives its place: one group's entries after the other's, each group
/// in its own order.
pub open spec fn gathered<F>(
    plan: Seq<(Seq<char>, NativeModule)>,
    groups: Seq<Seq<(Seq<char>, F)>>,
    n: nat,
) -> Seq<DispatchEntryView<F>>
    decreases n,
{
    if n == 0 || n > plan.len() || n > groups.len() {
        Seq::empty()
    } else {
        gathered(plan, groups, (n - 1) as nat) + labelled(plan[n - 1].0, groups[n - 1])
    }
}

/// Makes the framework's table, published under `framework_addr`, from the
/// groups of natives that the implementations contribute: `groups` holds one
/// group for each registration of the plan, in the plan's order.
pub fn all_natives<F>(framework_addr: AccountAddress, groups: Vec<Vec<(String, F)>>) -> (made:
    Result<NativeTable<F>, TableError>)
    ensures
        match made {
            Ok(table) => {
                &&& groups@.len() == registration_plan().len()
                &&& table@ == gathered(
                    registration_plan(),
                    groups_view(groups@),
                    registration_plan().len(),
                )
                &&& keys_unique(table@)
                &&& table.address() == framework_addr
            },
            Err(TableError::GroupCount { expected, found }) => {
                &&& expected == registration_plan().len()
                &&& found == groups@.len()
                &&& found != expected
            },
            Err(TableError::DuplicateKey(key)) => {
                let entries = gathered(
                    registration_plan(),
                    groups_view(groups@),
                    registration_plan().len(),
                );
                &&& groups@.len() == registration_plan().len()
                &&& !keys_unique(entries)
                &&& exists|at: int|
                    {
                        &&& first_repeat(entries, at)
                        &&& key.module@ == entries[at].module
                        &&& key.function@ == entries[at].function
                    }
            },
        },
{
    let plan = registrations();
    assert(plan@.len() == registrations_view(plan@).len());
    if groups.len() != plan.len() {
        return Err(TableError::GroupCount { expected: plan.len(), found: groups.len() });
    }
    let mut builder: NativeTableBuilder<F> = NativeTableBuilder::new();
    let mut at: usize = 0;
    for group in iter: groups
        invariant
            iter.seq() == groups@,
            at == iter.index(),
            groups@.len() == plan@.len(),
            registrations_view(plan@) == registration_plan(),
            builder@ == gathered(registration_plan(), groups_view(groups@), at as nat),
    {
        assert(group == groups@[at as int]);
        assert(registrations_view(plan@)[at as int].0 == plan@[at as int].label@);
        builder.register(plan[at].label.as_str(), group);
        at += 1;
    }
    match builder.finalize(framework_addr) {
        Ok(table) => Ok(table),
        Err(key) => Err(TableError::DuplicateKey(key)),
    }
}

/// Whether no two of the named natives have the same name.
pub open spec fn names_unique<F>(natives: Seq<(Seq<char>, F)>) -> bool {
    forall|i: int, j: int|
        0 <= i < j < natives.len() ==> (#[trigger] natives[i]).0 != (#[trigger] natives[j]).0
}

/// The length and the first character of the label at each place of the
/// plan: no two places have the same.
spec fn label_signature(place: int) -> (nat, char) {
    if place == 0 {
        (7, 'a')
    } else if place == 1 {
        (13, 'c')
    } else if place == 2 {
        (7, 'e')
    } else if place == 3 {
        (14, 'c')
    } else if place == 4 {
        (7, 'g')
    } else if place == 5 {
        (13, 'm')
    } else if place == 6 {
        (8, 'b')
    } else if place == 7 {
        (9, 's')
    } else if place == 8 {
        (12, 'e')
    } else if place == 9 {
        (12, 'r')
    } else if place == 10 {
        (9, 't')
    } else if place == 11 {
        (4, 'u')
    } else if place == 12 {
        (8, 'f')
    } else if place == 13 {
        (10, 'r')
    } else if place == 14 {
        (25, 'r')
    } else if place == 15 {
        (19, 't')
    } else if place == 16 {
        (4, 'c')
    } else if place == 17 {
        (5, 'e')
    } else if place == 18 {
        (13, 's')
    } else if place == 19 {
        (10, 'a')
    } else if place == 20 {
        (18, 'a')
    } else if place == 21 {
        (13, 'a')
    } else if place == 22 {
        (6, 'o')
    } else if place == 23 {
        (5, 'd')
    } else if place == 24 {
        (12, 's')
    } else if place == 25 {
        (16, 'c')
    } else if place == 26 {
        (15, 'p')
    } else {
        (16, 'p')
    }
}

/// The label at each place of the plan has the length and the first
/// character that [`label_signature`] gives.
proof fn lemma_label_signature(place: int)
    requires
        0 <= place < registration_plan().len(),
    ensures
        registration_plan()[place].0.len() == label_signature(place).0,
        registration_plan()[place].0[0] == label_signature(place).1,
{
    if place == 0 {
        reveal_strlit("account");
    } else if place == 1 {
        reveal_strlit("create_signer");
    } else if place == 2 {
        reveal_strlit("ed25519");
    } else if place == 3 {
        reveal_strlit("crypto_algebra");
    } else if place == 4 {
        reveal_strlit("genesis");
    } else if place == 5 {
        reveal_strlit("multi_ed25519");
    } else if place == 6 {
        reveal_strlit("bls12381");
    } else if place == 7 {
        reveal_strlit("secp256k1");
    } else if place == 8 {
        reveal_strlit("endless_hash");
    } else if place == 9 {
        reveal_strlit("ristretto255");
    } else if place == 10 {
        reveal_strlit("type_info");
    } else if place == 11 {
        reveal_strlit("util");
    } else if place == 12 {
        reveal_strlit("from_bcs");
    } else if place == 13 {
        reveal_strlit("randomness");
    } else if place == 14 {
        reveal_strlit("ristretto255_bulletproofs");
    } else if place == 15 {
        reveal_strlit("transaction_context");
    } else if place == 16 {
        reveal_strlit("code");
    } else if place == 17 {
        reveal_strlit("event");
    } else if place == 18 {
        reveal_strlit("state_storage");
    } else if place == 19 {
        reveal_strlit("aggregator");
    } else if place == 20 {
        reveal_strlit("aggregator_factory");
    } else if place == 21 {
        reveal_strlit("aggregator_v2");
    } else if place == 22 {
        reveal_strlit("object");
    } else if place == 23 {
        reveal_strlit("debug");
    } else if place == 24 {
        reveal_strlit("string_utils");
    } else if place == 25 {
        reveal_strlit("consensus_config");
    } else if place == 26 {
        reveal_strlit("poly_commit_ipa");
    } else {
        reveal_strlit("poly_commit_fk20");
    }
}

/// No two registrations of the plan have the same label.
pub proof fn lemma_labels_are_distinct()
    ensures
        forall|i: int, j: int|
            0 <= i < j < registration_plan().len() ==> (#[trigger] registration_plan()[i]).0 != (
            #[trigger] registration_plan()[j]).0,
{
    assert forall|i: int, j: int| 0 <= i < j < registration_plan().len() implies (
    #[trigger] registration_plan()[i]).0 != (#[trigger] registration_plan()[j]).0 by {
        lemma_label_signature(i);
        lemma_label_signature(j);
    }
}

/// Whether `module` is the label of one of the first `n` registrations of
/// the plan.
pub open spec fn among_labels(module: Seq<char>, n: nat) -> bool {
    exists|k: int| 0 <= k < n && (#[trigger] registration_plan()[k]).0 == module
}

/// Where no group names a native twice, no two entries of the table claim
/// one key, though one implementation may stand under two labels.
pub proof fn lemma_unique_names_make_unique_keys<F>(groups: Seq<Seq<(Seq<char>, F)>>, n: nat)
    requires
        n <= registration_plan().len(),
        n <= groups.len(),
        forall|k: int| 0 <= k < n ==> names_unique(#[trigger] groups[k]),
    ensures
        keys_unique(gathered(registration_plan(), groups, n)),
        forall|p: int|
            0 <= p < gathered(registration_plan(), groups, n).len() ==> among_labels(
                (#[trigger] gathered(registration_plan(), groups, n)[p]).module,
                n,
            ),
    decreases n,
{
    if n > 0 {
        let plan = registration_plan();
        let before = gathered(plan, groups, (n - 1) as nat);
        let group = labelled(plan[n - 1].0, groups[n - 1]);
        let entries = gathered(plan, groups, n);
        lemma_unique_names_make_unique_keys(groups, (n - 1) as nat);
        lemma_labels_are_distinct();
        assert(entries == before + group);
        assert(names_unique(groups[n - 1]));
        assert forall|p: int| 0 <= p < entries.len() implies among_labels(
            (#[trigger] entries[p]).module,
            n,
        ) by {
            if p < before.len() {
                assert(among_labels(before[p].module, (n - 1) as nat));
                let k = choose|k: int| 0 <= k < n - 1 && (#[trigger] plan[k]).0 == before[p].module;
                assert(plan[k].0 == entries[p].module);
            } else {
                assert(entries[p] == group[p - before.len()]);
                assert(plan[n - 1].0 == entries[p].module);
            }
        }
        assert forall|i: int, j: int| 0 <= i < j < entries.len() implies !same_key(
            #[trigger] entries[i],
            #[trigger] entries[j],
        ) by {
            if j < before.len() {
                assert(!same_key(before[i], before[j]));
            } else if i < before.len() {
                assert(among_labels(before[i].module, (n - 1) as nat));
                let k = choose|k: int| 0 <= k < n - 1 && (#[trigger] plan[k]).0 == before[i].module;
                assert(plan[k].0 != plan[n - 1].0);
                assert(entries[j] == group[j - before.len()]);
            } else {
                assert(entries[i] == group[i - before.len()]);
                assert(entries[j] == group[j - before.len()]);
                assert(groups[n - 1][i - before.len()].0 != groups[n - 1][j - before.len()].0);
            }
        }
    }
}

} // verus!
