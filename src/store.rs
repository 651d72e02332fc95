use vstd::prelude::*;
use crate::file_format::{Address, CompiledModule, ModuleId};

verus! {

#[verifier::external_type_specification]
#[verifier::external_body]
pub struct ExStructTag(move_core_types::language_storage::StructTag);

/// What a module identity is compared by: its address bytes and its name.
pub type ModuleKey = (Seq<u8>, Seq<char>);

impl ModuleId {
    pub open spec fn key(&self) -> ModuleKey {
        (self.address.bytes@, self.name@)
    }

    /// Whether two identities are the same, by address and name.
    pub fn same_as(&self, o: &ModuleId) -> (r: bool)
        ensures
            r == (self.key() == o.key()),
    {
        self.address.same_as(&o.address) && self.name == o.name
    }
}

/// A byte-for-byte copy of `v`.
fn copy_bytes(v: &Vec<u8>) -> (r: Vec<u8>)
    ensures
        r@ == v@,
{
    let r = v.clone();
    assert(r@ =~= v@);
    r
}

/// Serialized modules held in memory, keyed by module identity; no resources.
#[derive(Debug)]
pub struct RemoteStore {
    pub modules: Vec<(ModuleId, Vec<u8>)>,
}

impl RemoteStore {
    pub open spec fn key_at(&self, i: int) -> ModuleKey {
        self.modules@[i].0.key()
    }

    pub open spec fn holds_at(&self, k: ModuleKey, i: int) -> bool {
        0 <= i < self.modules@.len() && self.key_at(i) == k
    }

    /// No identity is held twice.
    pub open spec fn wf(&self) -> bool {
        forall|i: int, j: int|
            0 <= i < j < self.modules@.len() ==> #[trigger] self.key_at(i) != #[trigger] self.key_at(j)
    }

    /// The modules held, as a map from identity to serialized bytes.
    pub open spec fn view(&self) -> Map<ModuleKey, Seq<u8>> {
        Map::new(
            |k: ModuleKey| exists|i: int| self.holds_at(k, i),
            |k: ModuleKey| self.modules@[choose|i: int| self.holds_at(k, i)].1@,
        )
    }

    proof fn lemma_lookup(&self, k: ModuleKey, i: int)
        requires
            self.wf(),
            self.holds_at(k, i),
        ensures
            self.view().contains_key(k),
            self.view()[k] == self.modules@[i].1@,
    {
        let c = choose|j: int| self.holds_at(k, j);
        assert(self.holds_at(k, c));
        if c != i {
            if c < i {
                assert(self.key_at(c) != self.key_at(i));
            } else {
                assert(self.key_at(i) != self.key_at(c));
            }
        }
    }

    /// An empty store.
    pub fn new() -> (r: RemoteStore)
        ensures
            r.wf(),
            r.view() == Map::<ModuleKey, Seq<u8>>::empty(),
    {
        let r = RemoteStore { modules: Vec::new() };
        assert(r.view() =~= Map::<ModuleKey, Seq<u8>>::empty());
        r
    }

    /// Holds `bytes` under the module's identity, in place of anything held
    /// under that identity before.
    pub fn add_module(&mut self, compiled_module: &CompiledModule, bytes: Vec<u8>)
        requires
            old(self).wf(),
            compiled_module.indices_valid(),
        ensures
            final(self).wf(),
            final(self).view() == old(self).view().insert(
                (compiled_module.id_spec().0.bytes@, compiled_module.id_spec().1),
                bytes@,
            ),
    {
        let id = compiled_module.self_id();
        self.insert(id, bytes);
    }

    /// Holds `bytes` under `id`, in place of anything held under `id` before.
    pub fn insert(&mut self, id: ModuleId, bytes: Vec<u8>)
        requires
            old(self).wf(),
        ensures
            final(self).wf(),
            final(self).view() == old(self).view().insert(id.key(), bytes@),
    {
        let ghost k = id.key();
        let ghost b = bytes@;
        let n = self.modules.len();
        let mut i: usize = 0;
        while i < n
            invariant
                n == self.modules.len(),
                i <= n,
                *self == *old(self),
                self.wf(),
                k == id.key(),
                b == bytes@,
                forall|j: int| 0 <= j < i ==> self.key_at(j) != k,
            decreases n - i,
        {
            let same = self.modules[i].0.same_as(&id);
            assert(same == (self.key_at(i as int) == k));
            if same {
                let ghost before = *self;
                self.modules.set(i, (id, bytes));
                assert forall|a: int, c: int|
                    0 <= a < c < self.modules@.len() implies #[trigger] self.key_at(a)
                    != #[trigger] self.key_at(c) by {
                    assert(before.key_at(a) != before.key_at(c));
                    if a == i as int {
                        assert(before.key_at(a) == k);
                    }
                    if c == i as int {
                        assert(before.key_at(c) == k);
                    }
                }
                assert forall|k2: ModuleKey| #[trigger]
                    self.view().contains_key(k2) == before.view().insert(k, b).contains_key(k2)
                    && (self.view().contains_key(k2) ==> self.view()[k2] == before.view().insert(
                    k, b)[k2]) by {
                    if k2 == k {
                        self.lemma_lookup(k, i as int);
                    } else {
                        if exists|j: int| before.holds_at(k2, j) {
                            let j = choose|j: int| before.holds_at(k2, j);
                            assert(j != i);
                            assert(self.holds_at(k2, j));
                            self.lemma_lookup(k2, j);
                            before.lemma_lookup(k2, j);
                        }
                        if exists|j: int| self.holds_at(k2, j) {
                            let j = choose|j: int| self.holds_at(k2, j);
                            assert(j != i);
                            assert(before.holds_at(k2, j));
                        }
                    }
                }
                assert(self.view() =~= before.view().insert(k, b));
                return;
            }
            assert(self.key_at(i as int) != k);
            i = i + 1;
        }
        let ghost before = *self;
        self.modules.push((id, bytes));
        assert forall|a: int, c: int|
            0 <= a < c < self.modules@.len() implies #[trigger] self.key_at(a)
            != #[trigger] self.key_at(c) by {
            if c == n as int {
                assert(before.key_at(a) != k);
            } else {
                assert(before.key_at(a) != before.key_at(c));
            }
        }
        assert forall|k2: ModuleKey| #[trigger]
            self.view().contains_key(k2) == before.view().insert(k, b).contains_key(k2)
            && (self.view().contains_key(k2) ==> self.view()[k2] == before.view().insert(
            k, b)[k2]) by {
            if k2 == k {
                self.lemma_lookup(k, n as int);
            } else {
                if exists|j: int| before.holds_at(k2, j) {
                    let j = choose|j: int| before.holds_at(k2, j);
                    assert(self.holds_at(k2, j));
                    self.lemma_lookup(k2, j);
                    before.lemma_lookup(k2, j);
                }
                if exists|j: int| self.holds_at(k2, j) {
                    let j = choose|j: int| self.holds_at(k2, j);
                    assert(j != n);
                    assert(before.holds_at(k2, j));
                }
            }
        }
        assert(self.view() =~= before.view().insert(k, b));
    }

    /// A copy of the bytes held under `module_id`, if any.
    pub fn get_module(&self, module_id: &ModuleId) -> (r: Option<Vec<u8>>)
        requires
            self.wf(),
        ensures
            match r {
                Some(v) => self.view().contains_key(module_id.key()) && v@ == self.view()[module_id.key()],
                None => !self.view().contains_key(module_id.key()),
            },
    {
        let mut i: usize = 0;
        while i < self.modules.len()
            invariant
                i <= self.modules.len(),
                self.wf(),
                forall|j: int| 0 <= j < i ==> self.key_at(j) != module_id.key(),
            decreases self.modules.len() - i,
        {
            if self.modules[i].0.same_as(module_id) {
                proof {
                    self.lemma_lookup(module_id.key(), i as int);
                }
                return Some(copy_bytes(&self.modules[i].1));
            }
            i = i + 1;
        }
        None
    }

    /// Resources are not kept: every lookup finds nothing.
    pub fn get_resource(&self, address: &Address, tag: &move_core_types::language_storage::StructTag) -> (r: Option<Vec<u8>>)
        ensures
            r is None,
    {
        None
    }
}

} // verus!
