use vstd::prelude::*;

use bevy::platform::collections::HashMap;
use bevy::platform::hash::FixedHasher;

verus! {

#[verifier::external_type_specification]
#[verifier::external_body]
#[verifier::reject_recursive_types(K)]
#[verifier::reject_recursive_types(V)]
#[verifier::reject_recursive_types(S)]
pub struct ExHashMap<K, V, S>(HashMap<K, V, S>);

#[verifier::external_type_specification]
#[verifier::external_body]
pub struct ExFixedHasher(FixedHasher);

/// A map from names to handles.
pub type HandleMap = HashMap<String, u64>;

/// What a map from names to handles holds: each name, by its characters,
/// with the handle stored under it.
pub uninterp spec fn handles_of(m: HandleMap) -> Map<Seq<char>, u64>;

/// Relies on bevy's `HashMap::new`: a new map is empty.
#[verifier::external_body]
fn empty_handles() -> (r: HandleMap)
    ensures
        handles_of(r).dom() == Set::<Seq<char>>::empty(),
{
    HashMap::new()
}

/// Relies on bevy's `HashMap::insert`: the handle is stored under the name,
/// replacing what was stored there; every other entry stays.
#[verifier::external_body]
fn insert_handle(m: &mut HandleMap, name: String, handle: u64)
    ensures
        handles_of(*final(m)) == handles_of(*old(m)).insert(name@, handle),
{
    m.insert(name, handle);
}

/// Relies on bevy's `HashMap::get`: the handle stored under the name, if any.
#[verifier::external_body]
fn get_handle(m: &HandleMap, name: &str) -> (r: Option<u64>)
    ensures
        handles_of(*m).contains_key(name@) ==> r == Some(handles_of(*m)[name@]),
        !handles_of(*m).contains_key(name@) ==> r is None,
{
    m.get(name).copied()
}

/// Relies on bevy's `HashMap::iter`: every entry once, in an order that the
/// map chooses.
#[verifier::external_body]
fn handle_entries(m: &HandleMap) -> (r: Vec<(String, u64)>)
    ensures
        forall|i: int|
            0 <= i < r@.len() ==> #[trigger] handles_of(*m).contains_key(r@[i].0@)
                && handles_of(*m)[r@[i].0@] == r@[i].1,
        forall|k: Seq<char>|
            #[trigger] handles_of(*m).contains_key(k) ==> exists|i: int|
                0 <= i < r@.len() && #[trigger] r@[i].0@ == k,
        forall|i: int, j: int| 0 <= i < j < r@.len() ==> #[trigger] r@[i].0@ != #[trigger] r@[j].0@,
{
    m.iter().map(|(k, v)| (k.clone(), *v)).collect()
}

/// A table from script-visible names to host handles, each name at most
/// once.
pub struct SystemTable {
    handles: HandleMap,
}

impl View for SystemTable {
    type V = Map<Seq<char>, u64>;

    closed spec fn view(&self) -> Map<Seq<char>, u64> {
        handles_of(self.handles)
    }
}

impl SystemTable {
    /// An empty table.
    pub fn new() -> (r: Self)
        ensures
            r@ == Map::<Seq<char>, u64>::empty(),
    {
        let t = SystemTable { handles: empty_handles() };
        assert(t@ =~= Map::<Seq<char>, u64>::empty());
        t
    }

    /// Registers `handle` under `name`, replacing the handle that the name
    /// had.
    pub fn register(&mut self, name: &str, handle: u64)
        ensures
            final(self)@ == old(self)@.insert(name@, handle),
    {
        insert_handle(&mut self.handles, name.to_owned(), handle);
    }

    /// The handle registered under `name`, if any.
    pub fn get(&self, name: &str) -> (r: Option<u64>)
        ensures
            self@.contains_key(name@) ==> r == Some(self@[name@]),
            !self@.contains_key(name@) ==> r is None,
    {
        get_handle(&self.handles, name)
    }

    /// Every registered name with its handle, each name once, in no
    /// particular order.
    pub fn entries(&self) -> (r: Vec<(String, u64)>)
        ensures
            forall|i: int|
                0 <= i < r@.len() ==> #[trigger] self@.contains_key(r@[i].0@) && self@[r@[i].0@]
                    == r@[i].1,
            forall|k: Seq<char>|
                #[trigger] self@.contains_key(k) ==> exists|i: int|
                    0 <= i < r@.len() && #[trigger] r@[i].0@ == k,
            forall|i: int, j: int|
                0 <= i < j < r@.len() ==> #[trigger] r@[i].0@ != #[trigger] r@[j].0@,
    {
        handle_entries(&self.handles)
    }
}

/// Registering a handle under a name, then looking the name up, gives that
/// handle; every other name keeps what it had.
pub proof fn lemma_register_lookup(
    before: Map<Seq<char>, u64>,
    name: Seq<char>,
    handle: u64,
    other: Seq<char>,
)
    ensures
        before.insert(name, handle).contains_key(name),
        before.insert(name, handle)[name] == handle,
        other != name ==> (before.insert(name, handle).contains_key(other) == before.contains_key(
            other,
        )),
        other != name && before.contains_key(other) ==> before.insert(name, handle)[other]
            == before[other],
{
}

} // verus!
