use vstd::prelude::*;
use vstd::string::StringExecFns;
use crate::file_format::{
    signature_indices_valid, is_sentinel_body, AbilitySet, Address, Bytecode, CodeUnit,
    CompiledModule, CompiledScript, FieldDefinition, FunctionDefinition, FunctionHandle,
    ModuleHandle, StructDefinition, StructHandle, Visibility, VERSION_MAX,
};
use crate::signature::{interned, position_of, BaseType, Signature, SignatureTable, SignatureToken};

verus! {

/// The signature table of a module or script whose function takes `params`
/// and returns `ret`: the empty signature, then each of the two where it is new.
pub open spec fn module_signatures(params: Seq<SignatureToken>, ret: Seq<SignatureToken>) -> Seq<
    Seq<SignatureToken>,
> {
    interned(interned(seq![Seq::empty()], params).0, ret).0
}

/// A module or script table holds the empty signature, plus the parameters
/// where they are not empty, plus the return signature where it is neither
/// empty nor equal to the parameters: three entries for two distinct non-empty
/// signatures, two where they are equal.
pub proof fn lemma_module_signature_count(params: Seq<SignatureToken>, ret: Seq<SignatureToken>)
    ensures
        module_signatures(params, ret).len() == 1 + (if params.len() > 0 {
            1int
        } else {
            0int
        }) + (if ret.len() > 0 && ret != params {
            1int
        } else {
            0int
        }),
        module_signatures(params, ret)[0] == Seq::<SignatureToken>::empty(),
        module_signatures(params, ret).contains(params),
        module_signatures(params, ret).contains(ret),
{
    let e = Seq::<SignatureToken>::empty();
    let t0 = seq![e];
    let t1 = interned(t0, params).0;
    if params.len() > 0 {
        assert(!t0.contains(params)) by {
            if t0.contains(params) {
                let k = choose|k: int| 0 <= k < t0.len() && t0[k] == params;
                assert(k == 0);
            }
        }
        assert(t1 == t0.push(params));
        assert(t1[1] == params);
    } else {
        assert(params =~= e);
        assert(t0[0] == e);
        assert(t1 == t0);
    }
    assert(t1[0] == e);
    assert(t1.contains(params));
    let t2 = interned(t1, ret).0;
    if ret.len() > 0 && ret != params {
        assert(!t1.contains(ret)) by {
            if t1.contains(ret) {
                let k = choose|k: int| 0 <= k < t1.len() && t1[k] == ret;
                assert(t1[k] == e || t1[k] == params);
            }
        }
        assert(t2 == t1.push(ret));
        assert(t2[t1.len() as int] == ret);
    } else {
        if ret.len() == 0 {
            assert(ret =~= e);
        }
        assert(t1.contains(ret)) by {
            if ret.len() == 0 {
                assert(t1[0] == ret);
            } else {
                assert(ret == params);
            }
        }
        assert(t2 == t1);
    }
    assert(t2[0] == e);
    assert(t2.contains(params)) by {
        let k = choose|k: int| 0 <= k < t1.len() && t1[k] == params;
        assert(t2[k] == params);
    }
    assert(t2.contains(ret)) by {
        if !t1.contains(ret) {
            assert(t2[t1.len() as int] == ret);
        }
    }
}

/// The fixed body: load a 64-bit zero, then abort.
fn sentinel_code() -> (r: CodeUnit)
    ensures
        r.locals == 0,
        is_sentinel_body(r.code@),
{
    let r = CodeUnit { locals: 0, code: vec![Bytecode::LdU64(0), Bytecode::Abort] };
    assert(r.code@ =~= seq![Bytecode::LdU64(0), Bytecode::Abort]);
    r
}

/// What every module built here is, whatever its address: version, tables,
/// identifiers `M`, `X`, `foo`, one struct `X` with one boolean field, and one
/// function `foo` with the given flags and signatures, whose body loads zero
/// and aborts. `name` is the function's name.
pub open spec fn module_shape(
    m: CompiledModule,
    name: String,
    visibility: Visibility,
    is_entry: bool,
    params: Seq<SignatureToken>,
    ret: Seq<SignatureToken>,
    type_parameters: Seq<AbilitySet>,
) -> bool {
    &&& m.indices_valid()
    &&& m.version == VERSION_MAX
    &&& m.signatures@ == module_signatures(params, ret)
    &&& m.signatures.wf()
    &&& name@ == "foo"@
    &&& m.identifiers@.map_values(|s: String| s@) == seq!["M"@, "X"@, "foo"@]
    &&& m.address_identifiers@.len() == 1
    &&& m.id_spec() == (m.address_identifiers@[0], "M"@)
    &&& m.self_module_handle_idx == 0
    &&& m.module_handles@ == seq![ModuleHandle { address: 0, name: 0 }]
    &&& m.struct_handles@.len() == 1
    &&& m.struct_handles@[0].module == 0 && m.struct_handles@[0].name == 1
    &&& m.struct_handles@[0].abilities.bits == 0
    &&& m.struct_handles@[0].type_parameters@.len() == 0
    &&& m.struct_defs@.len() == 1
    &&& m.struct_defs@[0].struct_handle == 0
    &&& m.struct_defs@[0].fields@ == seq![
        FieldDefinition { name: 1, signature: SignatureToken { vector_depth: 0, base: BaseType::Bool } },
    ]
    &&& m.function_handles@.len() == 1
    &&& m.function_handles@[0].module == 0 && m.function_handles@[0].name == 2
    &&& m.signatures@[m.function_handles@[0].parameters as int] == params
    &&& m.signatures@[m.function_handles@[0].return_ as int] == ret
    &&& m.function_handles@[0].parameters == interned(seq![Seq::empty()], params).1
    &&& m.function_handles@[0].return_ == interned(interned(seq![Seq::empty()], params).0, ret).1
    &&& m.function_handles@[0].type_parameters@ == type_parameters
    &&& m.function_defs@.len() == 1
    &&& m.function_defs@[0].function == 0
    &&& m.function_defs@[0].visibility == visibility
    &&& m.function_defs@[0].is_entry == is_entry
    &&& m.function_defs@[0].code.locals == 0
    &&& is_sentinel_body(m.function_defs@[0].code.code@)
}

/// Relies on move_core_types' AccountAddress::random: a fresh address drawn
/// from the operating system's random source. Nothing is known of its bytes.
#[verifier::external_body]
pub(crate) fn fresh_address() -> (r: Address) {
    Address { bytes: move_core_types::account_address::AccountAddress::random().into_bytes() }
}

/// Builds a module at `address` with one struct `X` (one boolean field) and one
/// function `foo` of the given visibility, entry flag, parameters, return and
/// type parameters, whose body loads zero and aborts. Returns the module and
/// the function's name.
pub fn make_module_at(
    address: Address,
    visibility: Visibility,
    is_entry: bool,
    parameters: Signature,
    return_: Signature,
    type_parameters: Vec<AbilitySet>,
) -> (r: (CompiledModule, String))
    requires
        signature_indices_valid(parameters@, 1),
        signature_indices_valid(return_@, 1),
    ensures
        module_shape(r.0, r.1, visibility, is_entry, parameters@, return_@, type_parameters@),
        r.0.address_identifiers@ == seq![address],
        r.0.id_spec() == (address, "M"@),
{
    let ghost p = parameters@;
    let ghost q = return_@;
    let mut signatures = SignatureTable::new();
    let parameters_idx = signatures.intern(parameters);
    let ghost t1 = signatures@;
    let return_idx = signatures.intern(return_);
    let ghost t2 = signatures@;
    assert forall|i: int| 0 <= i < t2.len() implies signature_indices_valid(t2[i], 1) by {
        assert(t2[i] == Seq::<SignatureToken>::empty() || t2[i] == p || t2[i] == q);
    }
    proof {
        reveal_strlit("M");
        reveal_strlit("X");
        reveal_strlit("foo");
    }
    let function_name = String::from_str("foo");
    let identifiers = vec![String::from_str("M"), String::from_str("X"), function_name.clone()];
    let field = FieldDefinition { name: 1, signature: SignatureToken::of(BaseType::Bool) };
    let module = CompiledModule {
        version: VERSION_MAX,
        self_module_handle_idx: 0,
        module_handles: vec![ModuleHandle { address: 0, name: 0 }],
        struct_handles: vec![
            StructHandle { module: 0, name: 1, abilities: AbilitySet::empty(), type_parameters: vec![] },
        ],
        function_handles: vec![
            FunctionHandle {
                module: 0,
                name: 2,
                parameters: parameters_idx,
                return_: return_idx,
                type_parameters,
            },
        ],
        signatures,
        identifiers,
        address_identifiers: vec![address],
        struct_defs: vec![StructDefinition { struct_handle: 0, fields: vec![field] }],
        function_defs: vec![
            FunctionDefinition {
                function: 0,
                visibility,
                is_entry,
                code: sentinel_code(),
            },
        ],
    };
    assert(module.identifiers@.map_values(|s: String| s@) =~= seq!["M"@, "X"@, "foo"@]);
    assert(module.address_identifiers@ =~= seq![address]);
    assert(module.module_handles@ =~= seq![ModuleHandle { address: 0, name: 0 }]);
    assert(module.struct_defs@[0].fields@ =~= seq![field]);
    (module, function_name)
}

/// Builds a module as `make_module_at` does, at a freshly drawn address, so
/// that modules built one after another do not share an identity.
pub fn make_module_with_function(
    visibility: Visibility,
    is_entry: bool,
    parameters: Signature,
    return_: Signature,
    type_parameters: Vec<AbilitySet>,
) -> (r: (CompiledModule, String))
    requires
        signature_indices_valid(parameters@, 1),
        signature_indices_valid(return_@, 1),
    ensures
        module_shape(r.0, r.1, visibility, is_entry, parameters@, return_@, type_parameters@),
{
    let address = fresh_address();
    make_module_at(address, visibility, is_entry, parameters, return_, type_parameters)
}

/// A public entry function `foo` that takes `signature` and returns nothing.
pub fn make_script_function(signature: Signature) -> (r: (CompiledModule, String))
    requires
        signature_indices_valid(signature@, 1),
    ensures
        module_shape(
            r.0,
            r.1,
            Visibility::Public,
            true,
            signature@,
            Seq::empty(),
            Seq::empty(),
        ),
        r.0.function_handles@[0].return_ == 0,
{
    let empty = Signature { tokens: Vec::new() };
    assert(empty@ =~= Seq::<SignatureToken>::empty());
    let no_type_parameters: Vec<AbilitySet> = Vec::new();
    assert(no_type_parameters@ =~= Seq::<AbilitySet>::empty());
    let r = make_module_with_function(Visibility::Public, true, signature, empty, no_type_parameters);
    proof {
        lemma_module_signature_count(signature@, Seq::empty());
        let t1 = interned(seq![Seq::<SignatureToken>::empty()], signature@).0;
        let e = Seq::<SignatureToken>::empty();
        assert(t1[0] == e);
        assert(t1.contains(e));
        let p = position_of(t1, e);
        assert(t1[p] == e);
        if p != 0 {
            if signature@.len() > 0 {
                assert(t1 == seq![e].push(signature@));
                assert(t1[1] == signature@);
            } else {
                assert(t1 == seq![e]);
            }
        }
    }
    r
}

/// Builds a script whose single entry point takes `parameters`, has no type
/// parameters, and whose body loads zero and aborts.
pub fn make_script(parameters: Signature) -> (r: CompiledScript)
    requires
        signature_indices_valid(parameters@, 0),
    ensures
        r.indices_valid(),
        r.version == VERSION_MAX,
        r.signatures.wf(),
        r.signatures@ == interned(seq![Seq::empty()], parameters@).0,
        r.parameters == interned(seq![Seq::empty()], parameters@).1,
        r.signatures@[r.parameters as int] == parameters@,
        r.type_parameters@.len() == 0,
        r.code.locals == 0,
        is_sentinel_body(r.code.code@),
{
    let ghost p = parameters@;
    let mut signatures = SignatureTable::new();
    let parameters_idx = signatures.intern(parameters);
    let ghost t = signatures@;
    assert forall|i: int| 0 <= i < t.len() implies signature_indices_valid(t[i], 0) by {
        assert(t[i] == Seq::<SignatureToken>::empty() || t[i] == p);
    }
    CompiledScript {
        version: VERSION_MAX,
        signatures,
        type_parameters: Vec::new(),
        parameters: parameters_idx,
        code: sentinel_code(),
    }
}

} // verus!
