use vstd::prelude::*;
use crate::signature::{BaseType, SignatureTable, SignatureToken};

verus! {

/// The number of bytes in an account address.
pub const ADDRESS_LENGTH: usize = 16;

/// The highest bytecode version that descriptors are built for.
pub const VERSION_MAX: u32 = 6;

/// An account address.
#[derive(Debug, Clone, Copy)]
pub struct Address {
    pub bytes: [u8; 16],
}

impl Address {
    /// Byte-for-byte equality of two addresses.
    pub fn same_as(&self, o: &Address) -> (r: bool)
        ensures
            r == (self.bytes@ == o.bytes@),
    {
        let mut i: usize = 0;
        while i < ADDRESS_LENGTH
            invariant
                i <= ADDRESS_LENGTH,
                self.bytes@.len() == ADDRESS_LENGTH,
                o.bytes@.len() == ADDRESS_LENGTH,
                forall|j: int| 0 <= j < i ==> self.bytes@[j] == o.bytes@[j],
            decreases ADDRESS_LENGTH - i,
        {
            if self.bytes[i] != o.bytes[i] {
                return false;
            }
            i = i + 1;
        }
        assert(self.bytes@ =~= o.bytes@);
        true
    }
}

impl PartialEq for Address {
    fn eq(&self, o: &Address) -> (r: bool) {
        self.same_as(o)
    }
}

impl vstd::std_specs::cmp::PartialEqSpecImpl for Address {
    open spec fn obeys_eq_spec() -> bool {
        true
    }

    open spec fn eq_spec(&self, o: &Address) -> bool {
        self.bytes@ == o.bytes@
    }
}

/// Who may call a function.
#[derive(Debug, Clone, Copy, PartialEq, Eq, Structural)]
pub enum Visibility {
    Private,
    Public,
    Friend,
}

/// A set of abilities, one bit each; passed through as it is given.
#[derive(Debug, Clone, Copy, PartialEq, Eq, Structural)]
pub struct AbilitySet {
    pub bits: u8,
}

impl AbilitySet {
    pub fn empty() -> (r: AbilitySet)
        ensures
            r.bits == 0,
    {
        AbilitySet { bits: 0 }
    }
}

#[derive(Debug, Clone, Copy, PartialEq, Eq, Structural)]
pub struct ModuleHandle {
    /// Index into the address pool.
    pub address: u16,
    /// Index into the identifier pool.
    pub name: u16,
}

#[derive(Debug, Clone)]
pub struct StructHandle {
    /// Index into the module handle table.
    pub module: u16,
    /// Index into the identifier pool.
    pub name: u16,
    pub abilities: AbilitySet,
    pub type_parameters: Vec<AbilitySet>,
}

#[derive(Debug, Clone)]
pub struct FunctionHandle {
    /// Index into the module handle table.
    pub module: u16,
    /// Index into the identifier pool.
    pub name: u16,
    /// Index into the signature table.
    pub parameters: u16,
    /// Index into the signature table.
    pub return_: u16,
    pub type_parameters: Vec<AbilitySet>,
}

#[derive(Debug, Clone, Copy, PartialEq, Eq, Structural)]
pub struct FieldDefinition {
    /// Index into the identifier pool.
    pub name: u16,
    pub signature: SignatureToken,
}

#[derive(Debug, Clone)]
pub struct StructDefinition {
    /// Index into the struct handle table.
    pub struct_handle: u16,
    pub fields: Vec<FieldDefinition>,
}

/// The instructions that a descriptor's body is made of.
#[derive(Debug, Clone, Copy, PartialEq, Eq, Structural)]
pub enum Bytecode {
    LdU64(u64),
    Abort,
}

#[derive(Debug, Clone)]
pub struct CodeUnit {
    /// Index into the signature table.
    pub locals: u16,
    pub code: Vec<Bytecode>,
}

#[derive(Debug, Clone)]
pub struct FunctionDefinition {
    /// Index into the function handle table.
    pub function: u16,
    pub visibility: Visibility,
    pub is_entry: bool,
    pub code: CodeUnit,
}

/// A module: its own identity, its handle tables and its definitions.
#[derive(Debug)]
pub struct CompiledModule {
    pub version: u32,
    /// Index into the module handle table.
    pub self_module_handle_idx: u16,
    pub module_handles: Vec<ModuleHandle>,
    pub struct_handles: Vec<StructHandle>,
    pub function_handles: Vec<FunctionHandle>,
    pub signatures: SignatureTable,
    pub identifiers: Vec<String>,
    pub address_identifiers: Vec<Address>,
    pub struct_defs: Vec<StructDefinition>,
    pub function_defs: Vec<FunctionDefinition>,
}

/// A script: one anonymous entry point with a parameter signature.
#[derive(Debug)]
pub struct CompiledScript {
    pub version: u32,
    pub signatures: SignatureTable,
    pub type_parameters: Vec<AbilitySet>,
    /// Index into the signature table.
    pub parameters: u16,
    pub code: CodeUnit,
}

/// The identity of a module: its address and its name.
#[derive(Debug, Clone)]
pub struct ModuleId {
    pub address: Address,
    pub name: String,
}

/// The body that every descriptor carries: load a 64-bit zero, then abort.
pub open spec fn is_sentinel_body(code: Seq<Bytecode>) -> bool {
    code == seq![Bytecode::LdU64(0), Bytecode::Abort]
}

/// Whether a struct handle index resolves in a table of `n` struct handles,
/// for every token of a signature.
pub open spec fn token_indices_valid(t: SignatureToken, n: nat) -> bool {
    match t.base {
        BaseType::Struct(i) => i < n,
        _ => true,
    }
}

/// Every token of the signature names a struct handle below `n`, if any.
pub open spec fn signature_indices_valid(s: Seq<SignatureToken>, n: nat) -> bool {
    forall|j: int| 0 <= j < s.len() ==> token_indices_valid(#[trigger] s[j], n)
}

impl CompiledModule {
    /// Every index that the module stores is below the length of the table it
    /// points into.
    pub open spec fn indices_valid(&self) -> bool {
        let n_mod = self.module_handles@.len();
        let n_struct = self.struct_handles@.len();
        let n_fun = self.function_handles@.len();
        let n_sig = self.signatures@.len();
        let n_id = self.identifiers@.len();
        let n_addr = self.address_identifiers@.len();
        &&& self.self_module_handle_idx < n_mod
        &&& forall|i: int|
            0 <= i < n_mod ==> {
                &&& (#[trigger] self.module_handles@[i]).address < n_addr
                &&& self.module_handles@[i].name < n_id
            }
        &&& forall|i: int|
            0 <= i < n_struct ==> {
                &&& (#[trigger] self.struct_handles@[i]).module < n_mod
                &&& self.struct_handles@[i].name < n_id
            }
        &&& forall|i: int|
            0 <= i < n_fun ==> {
                &&& (#[trigger] self.function_handles@[i]).module < n_mod
                &&& self.function_handles@[i].name < n_id
                &&& self.function_handles@[i].parameters < n_sig
                &&& self.function_handles@[i].return_ < n_sig
            }
        &&& forall|i: int|
            0 <= i < self.struct_defs@.len() ==> {
                &&& (#[trigger] self.struct_defs@[i]).struct_handle < n_struct
                &&& forall|j: int|
                    0 <= j < self.struct_defs@[i].fields@.len() ==> {
                        &&& (#[trigger] self.struct_defs@[i].fields@[j]).name < n_id
                        &&& token_indices_valid(self.struct_defs@[i].fields@[j].signature, n_struct)
                    }
            }
        &&& forall|i: int|
            0 <= i < self.function_defs@.len() ==> {
                &&& (#[trigger] self.function_defs@[i]).function < n_fun
                &&& self.function_defs@[i].code.locals < n_sig
            }
        &&& forall|i: int, j: int|
            0 <= i < n_sig && 0 <= j < self.signatures@[i].len() ==> token_indices_valid(
                #[trigger] self.signatures@[i][j],
                n_struct,
            )
    }

    /// The identity of the module, where its own handle resolves.
    pub open spec fn id_spec(&self) -> (Address, Seq<char>) {
        let h = self.module_handles@[self.self_module_handle_idx as int];
        (self.address_identifiers@[h.address as int], self.identifiers@[h.name as int]@)
    }

    /// The address and name that the module's own handle points to.
    pub fn self_id(&self) -> (r: ModuleId)
        requires
            self.indices_valid(),
        ensures
            (r.address, r.name@) == self.id_spec(),
    {
        let h = self.module_handles[self.self_module_handle_idx as usize];
        ModuleId {
            address: self.address_identifiers[h.address as usize],
            name: self.identifiers[h.name as usize].clone(),
        }
    }
}

impl CompiledScript {
    /// Every index that the script stores is below the length of the table it
    /// points into; a script has no struct handles, so its tokens name no struct.
    pub open spec fn indices_valid(&self) -> bool {
        let n_sig = self.signatures@.len();
        &&& self.parameters < n_sig
        &&& self.code.locals < n_sig
        &&& forall|i: int, j: int|
            0 <= i < n_sig && 0 <= j < self.signatures@[i].len() ==> token_indices_valid(
                #[trigger] self.signatures@[i][j],
                0,
            )
    }
}

} // verus!
