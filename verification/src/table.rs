//! The native dispatch table: named natives, gathered group by group under
//! the labels they are addressed by, and checked for colliding keys.

use vstd::prelude::*;
use move_core_types::account_address::AccountAddress;

verus! {

/// `AccountAddress` of move-core-types: the address a table is published
/// under. The table carries it and never looks inside.
#[verifier::external_type_specification]
#[verifier::external_body]
pub struct ExAccountAddress(AccountAddress);

/// A native under the key it is addressed by.
#[derive(Debug, PartialEq, Eq)]
pub struct DispatchEntry<F> {
    /// The label of the module the native is registered under.
    pub module: String,
    /// The native's name within the module.
    pub function: String,
    /// The native itself.
    pub native: F,
}

/// The mathematical value of a [`DispatchEntry`].
pub struct DispatchEntryView<F> {
    pub module: Seq<char>,
    pub function: Seq<char>,
    pub native: F,
}

impl<F> View for DispatchEntry<F> {
    type V = DispatchEntryView<F>;

    open spec fn view(&self) -> DispatchEntryView<F> {
        DispatchEntryView { module: self.module@, function: self.function@, native: self.native }
    }
}

/// The mathematical values of entries, in order.
pub open spec fn entries_view<F>(entries: Seq<DispatchEntry<F>>) -> Seq<DispatchEntryView<F>> {
    entries.map_values(|entry: DispatchEntry<F>| entry@)
}

/// The mathematical values of named natives, in order: each name with its
/// native.
pub open spec fn named_view<F>(natives: Seq<(String, F)>) -> Seq<(Seq<char>, F)> {
    natives.map_values(|named: (String, F)| (named.0@, named.1))
}

/// The entries that a group of named natives makes under a label.
pub open spec fn labelled<F>(label: Seq<char>, natives: Seq<(Seq<char>, F)>) -> Seq<
    DispatchEntryView<F>,
> {
    natives.map_values(
        |named: (Seq<char>, F)|
            DispatchEntryView { module: label, function: named.0, native: named.1 },
    )
}

/// Whether two entries are addressed by the same module and function.
pub open spec fn same_key<F>(left: DispatchEntryView<F>, right: DispatchEntryView<F>) -> bool {
    left.module == right.module && left.function == right.function
}

/// Whether no two of the entries are addressed by the same key.
pub open spec fn keys_unique<F>(entries: Seq<DispatchEntryView<F>>) -> bool {
    forall|i: int, j: int|
        0 <= i < j < entries.len() ==> !same_key(#[trigger] entries[i], #[trigger] entries[j])
}

/// Whether the entry at `at` has the key of an entry before it.
pub open spec fn repeats_key<F>(entries: Seq<DispatchEntryView<F>>, at: int) -> bool {
    exists|i: int| 0 <= i < at && same_key(#[trigger] entries[i], entries[at])
}

/// Whether `at` is the first place in `entries` whose key an earlier entry
/// has.
pub open spec fn first_repeat<F>(entries: Seq<DispatchEntryView<F>>, at: int) -> bool {
    &&& 0 <= at < entries.len()
    &&& repeats_key(entries, at)
    &&& forall|k: int| 0 <= k < at ==> !repeats_key(entries, k)
}

/// A key that two entries claim.
#[derive(Debug, PartialEq, Eq)]
pub struct DuplicateKey {
    pub module: String,
    pub function: String,
}

/// Collects entries until the table is made.
pub struct NativeTableBuilder<F> {
    entries: Vec<DispatchEntry<F>>,
}

impl<F> View for NativeTableBuilder<F> {
    type V = Seq<DispatchEntryView<F>>;

    closed spec fn view(&self) -> Seq<DispatchEntryView<F>> {
        entries_view(self.entries@)
    }
}

impl<F> NativeTableBuilder<F> {
    /// A builder that holds no entry.
    pub fn new() -> (builder: Self)
        ensures
            builder@ == Seq::<DispatchEntryView<F>>::empty(),
    {
        let builder = NativeTableBuilder { entries: Vec::new() };
        assert(builder@ =~= Seq::<DispatchEntryView<F>>::empty());
        builder
    }

    /// Adds a group of named natives under `module_label`, after the entries
    /// held so far and in the group's order.
    pub fn register(&mut self, module_label: &str, natives: Vec<(String, F)>)
        ensures
            final(self)@ == old(self)@ + labelled(module_label@, named_view(natives@)),
    {
        let ghost before = self@;
        let ghost group = labelled(module_label@, named_view(natives@));
        for named in iter: natives
            invariant
                iter.seq() == natives@,
                group == labelled(module_label@, named_view(natives@)),
                self@ == before + group.take(iter.index() as int),
        {
            let ghost held = self@;
            let (function, native) = named;
            let entry = DispatchEntry { module: module_label.to_owned(), function, native };
            assert(entry@ == group[iter.index() as int]);
            assert(group.take(iter.index() as int).len() == iter.index());
            self.entries.push(entry);
            assert(self@ =~= held.push(entry@));
            assert(self@ =~= before + group.take(iter.index() + 1));
        }
        assert(self@ =~= before + group);
    }

    /// Makes the table of the entries held, published under
    /// `framework_addr`, unless two entries claim one key: then the key of
    /// the first entry that repeats an earlier one is handed back.
    pub fn finalize(self, framework_addr: AccountAddress) -> (made: Result<
        NativeTable<F>,
        DuplicateKey,
    >)
        ensures
            match made {
                Ok(table) => {
                    &&& keys_unique(self@)
                    &&& table@ == self@
                    &&& table.address() == framework_addr
                },
                Err(key) => {
                    &&& !keys_unique(self@)
                    &&& exists|at: int|
                        {
                            &&& first_repeat(self@, at)
                            &&& key.module@ == self@[at].module
                            &&& key.function@ == self@[at].function
                        }
                },
            },
    {
        let mut at: usize = 0;
        while at < self.entries.len()
            invariant
                at <= self.entries.len(),
                forall|k: int| 0 <= k < at ==> !repeats_key(self@, k),
            decreases self.entries.len() - at,
        {
            let mut earlier: usize = 0;
            while earlier < at
                invariant
                    earlier <= at < self.entries.len(),
                    self@.len() == self.entries.len(),
                    forall|k: int| 0 <= k < at ==> !repeats_key(self@, k),
                    forall|i: int|
                        0 <= i < earlier ==> !same_key(#[trigger] self@[i], self@[at as int]),
                decreases at - earlier,
            {
                if self.entries[earlier].module == self.entries[at].module
                    && self.entries[earlier].function == self.entries[at].function {
                    let key = DuplicateKey {
                        module: self.entries[at].module.clone(),
                        function: self.entries[at].function.clone(),
                    };
                    assert(same_key(self@[earlier as int], self@[at as int]));
                    assert(first_repeat(self@, at as int));
                    return Err(key);
                }
                earlier += 1;
            }
            at += 1;
        }
        assert(keys_unique(self@)) by {
            assert forall|i: int, j: int| 0 <= i < j < self@.len() implies !same_key(
                #[trigger] self@[i],
                #[trigger] self@[j],
            ) by {
                assert(!repeats_key(self@, j));
            }
        }
        Ok(NativeTable { address: framework_addr, entries: self.entries })
    }
}

/// The dispatch table: entries in the order they were registered, no two of
/// them under one key.
pub struct NativeTable<F> {
    address: AccountAddress,
    entries: Vec<DispatchEntry<F>>,
}

impl<F> View for NativeTable<F> {
    type V = Seq<DispatchEntryView<F>>;

    closed spec fn view(&self) -> Seq<DispatchEntryView<F>> {
        entries_view(self.entries@)
    }
}

impl<F> NativeTable<F> {
    #[verifier::type_invariant]
    spec fn unique(&self) -> bool {
        keys_unique(entries_view(self.entries@))
    }

    /// The address the table is published under.
    pub closed spec fn address(&self) -> AccountAddress {
        self.address
    }

    /// The address the table is published under.
    pub fn framework_address(&self) -> (address: &AccountAddress)
        ensures
            *address == self.address(),
    {
        &self.address
    }

    /// The entries, in the order they were registered. No two of them have
    /// the same key.
    pub fn entries(&self) -> (entries: &Vec<DispatchEntry<F>>)
        ensures
            entries_view(entries@) == self@,
            keys_unique(self@),
    {
        proof {
            use_type_invariant(self);
        }
        &self.entries
    }

    /// The native registered under `module` and `function`, if there is one.
    /// There is never more than one.
    pub fn lookup(&self, module: &str, function: &str) -> (found: Option<&F>)
        ensures
            keys_unique(self@),
            match found {
                Some(native) => exists|i: int|
                    {
                        &&& 0 <= i < self@.len()
                        &&& (#[trigger] self@[i]).module == module@
                        &&& self@[i].function == function@
                        &&& self@[i].native == *native
                    },
                None => forall|i: int|
                    0 <= i < self@.len() ==> !((#[trigger] self@[i]).module == module@
                        && self@[i].function == function@),
            },
    {
        proof {
            use_type_invariant(self);
        }
        let wanted_module = module.to_owned();
        let wanted_function = function.to_owned();
        let mut at: usize = 0;
        while at < self.entries.len()
            invariant
                at <= self.entries.len(),
                self@.len() == self.entries.len(),
                keys_unique(self@),
                wanted_module@ == module@,
                wanted_function@ == function@,
                forall|i: int|
                    0 <= i < at ==> !((#[trigger] self@[i]).module == module@ && self@[i].function
                        == function@),
            decreases self.entries.len() - at,
        {
            if self.entries[at].module == wanted_module && self.entries[at].function
                == wanted_function {
                assert(self@[at as int] == self.entries[at as int]@);
                return Some(&self.entries[at].native);
            }
            at += 1;
        }
        None
    }
}

} // verus!
