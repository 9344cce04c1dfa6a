use std::collections::HashMap;

use vstd::prelude::*;

use crate::error::AwsError;
use crate::runtime::{compile_metered, compiles, CompiledModule};

verus! {

broadcast use vstd::std_specs::hash::group_hash_axioms;

/// Compiled modules by module id. Entries are only added or removed whole.
pub struct ModuleCache {
    entries: HashMap<i32, CompiledModule>,
}

/// One `get_or_insert` step from `old` to `new` for `id` and `code`: a hit leaves the
/// cache as it was and succeeds; a miss succeeds exactly when the code compiles, and
/// then adds one entry under `id`, compiled from that code; a failed miss changes
/// nothing.
pub open spec fn cache_step(
    old: Map<i32, CompiledModule>,
    id: i32,
    code: Seq<u8>,
    new: Map<i32, CompiledModule>,
    ok: bool,
) -> bool {
    if old.contains_key(id) {
        ok && new == old
    } else if compiles(code) {
        &&& ok
        &&& new.contains_key(id)
        &&& new == old.insert(id, new[id])
        &&& new[id].code() == code
    } else {
        !ok && new == old
    }
}

impl View for ModuleCache {
    type V = Map<i32, CompiledModule>;

    closed spec fn view(&self) -> Map<i32, CompiledModule> {
        self.entries@
    }
}

impl ModuleCache {
    pub fn new() -> (r: ModuleCache)
        ensures
            r@ == Map::<i32, CompiledModule>::empty(),
    {
        ModuleCache { entries: HashMap::new() }
    }

    /// The compiled module cached under `id`.
    pub fn get(&self, id: i32) -> (r: Option<&CompiledModule>)
        ensures
            match r {
                Some(m) => self@.contains_key(id) && self@[id] == *m,
                None => !self@.contains_key(id),
            },
    {
        self.entries.get(&id)
    }

    /// Makes sure a compiled module is cached under `id`: on a hit the code is not
    /// looked at; on a miss it is compiled and cached, or refused as an invalid module.
    pub fn get_or_insert(&mut self, id: i32, wasm_code: &Vec<u8>) -> (r: Result<(), AwsError>)
        ensures
            cache_step(old(self)@, id, wasm_code@, final(self)@, r is Ok),
            r matches Err(e) ==> e is InvalidWasmModule,
    {
        if self.entries.contains_key(&id) {
            return Ok(());
        }
        match compile_metered(wasm_code) {
            Some(m) => {
                self.entries.insert(id, m);
                Ok(())
            },
            None => Err(AwsError::InvalidWasmModule),
        }
    }

    /// Drops whatever is cached under `id`.
    pub fn remove(&mut self, id: i32)
        ensures
            final(self)@ == old(self)@.remove(id),
    {
        self.entries.remove(&id);
    }
}

/// Cold and warm paths meet: once a miss has compiled `code` into the entry for `id`, a
/// later lookup for `id`, with whatever code, is a hit on that very entry, compiled from
/// `code`, and leaves the cache as it was.
pub proof fn lemma_warm_path_serves_cold_entry(
    m0: Map<i32, CompiledModule>,
    id: i32,
    code: Seq<u8>,
    m1: Map<i32, CompiledModule>,
    later: Seq<u8>,
    m2: Map<i32, CompiledModule>,
    ok2: bool,
)
    requires
        !m0.contains_key(id),
        cache_step(m0, id, code, m1, true),
        cache_step(m1, id, later, m2, ok2),
    ensures
        ok2,
        m2 == m1,
        m2.contains_key(id) && m2[id].code() == code,
{
}

} // verus!
