use move0::assembler::{make_module_at, make_module_with_function, make_script, make_script_function};
use move0::file_format::{AbilitySet, Address, Bytecode, Visibility, VERSION_MAX};
use move0::signature::{BaseType, Signature, SignatureToken};

fn sig(tokens: Vec<SignatureToken>) -> Signature {
    Signature { tokens }
}

fn prim(b: BaseType) -> SignatureToken {
    SignatureToken::of(b)
}

fn addr(b: u8) -> Address {
    Address { bytes: [b; 16] }
}

#[test]
fn module_with_two_distinct_signatures_has_three_entries() {
    let (m, name) = make_module_at(
        addr(1),
        Visibility::Public,
        true,
        sig(vec![prim(BaseType::U8)]),
        sig(vec![prim(BaseType::U64)]),
        vec![],
    );
    assert_eq!(name, "foo");
    assert_eq!(m.signatures.len(), 3);
    assert_eq!(m.function_handles[0].parameters, 1);
    assert_eq!(m.function_handles[0].return_, 2);
}

#[test]
fn module_with_equal_parameters_and_return_has_two_entries() {
    let (m, _) = make_module_at(
        addr(1),
        Visibility::Private,
        false,
        sig(vec![prim(BaseType::U8)]),
        sig(vec![prim(BaseType::U8)]),
        vec![],
    );
    assert_eq!(m.signatures.len(), 2);
    assert_eq!(m.function_handles[0].parameters, 1);
    assert_eq!(m.function_handles[0].return_, 1);
}

#[test]
fn module_tables_and_body_are_as_built() {
    let (m, _) = make_module_at(
        addr(7),
        Visibility::Friend,
        false,
        sig(vec![prim(BaseType::Bool)]),
        sig(vec![]),
        vec![AbilitySet { bits: 3 }],
    );
    assert_eq!(m.version, VERSION_MAX);
    assert_eq!(m.identifiers, vec!["M".to_string(), "X".to_string(), "foo".to_string()]);
    assert!(m.address_identifiers[0] == addr(7));
    assert_eq!(m.module_handles.len(), 1);
    assert_eq!(m.struct_handles.len(), 1);
    assert_eq!(m.struct_handles[0].name, 1);
    assert_eq!(m.struct_defs[0].fields.len(), 1);
    assert_eq!(m.struct_defs[0].fields[0].signature, prim(BaseType::Bool));
    assert_eq!(m.function_handles[0].name, 2);
    assert_eq!(m.function_handles[0].return_, 0);
    assert_eq!(m.function_handles[0].type_parameters, vec![AbilitySet { bits: 3 }]);
    assert_eq!(m.function_defs[0].visibility, Visibility::Friend);
    assert!(!m.function_defs[0].is_entry);
    assert_eq!(m.function_defs[0].code.code, vec![Bytecode::LdU64(0), Bytecode::Abort]);
    let id = m.self_id();
    assert!(id.address == addr(7));
    assert_eq!(id.name, "M");
}

#[test]
fn every_module_index_resolves() {
    let (m, _) = make_module_at(
        addr(2),
        Visibility::Public,
        true,
        sig(vec![prim(BaseType::U8), prim(BaseType::Struct(0))]),
        sig(vec![prim(BaseType::U128)]),
        vec![],
    );
    assert!((m.self_module_handle_idx as usize) < m.module_handles.len());
    for h in &m.module_handles {
        assert!((h.address as usize) < m.address_identifiers.len());
        assert!((h.name as usize) < m.identifiers.len());
    }
    for h in &m.function_handles {
        assert!((h.parameters as usize) < m.signatures.len());
        assert!((h.return_ as usize) < m.signatures.len());
        assert!((h.name as usize) < m.identifiers.len());
    }
    for d in &m.function_defs {
        assert!((d.function as usize) < m.function_handles.len());
        assert!((d.code.locals as usize) < m.signatures.len());
    }
}

#[test]
fn fresh_modules_get_different_addresses() {
    let (a, _) = make_module_with_function(Visibility::Public, true, sig(vec![]), sig(vec![]), vec![]);
    let (b, _) = make_module_with_function(Visibility::Public, true, sig(vec![]), sig(vec![]), vec![]);
    assert!(a.address_identifiers[0] != b.address_identifiers[0]);
    assert_eq!(a.signatures.len(), 1);
}

#[test]
fn script_function_takes_signature_and_returns_nothing() {
    let (m, name) = make_script_function(sig(vec![prim(BaseType::Address)]));
    assert_eq!(name, "foo");
    assert_eq!(m.signatures.len(), 2);
    assert_eq!(m.function_handles[0].parameters, 1);
    assert_eq!(m.function_handles[0].return_, 0);
    assert_eq!(m.function_defs[0].visibility, Visibility::Public);
    assert!(m.function_defs[0].is_entry);
}

#[test]
fn script_with_u8_parameter() {
    let s = make_script(sig(vec![prim(BaseType::U8)]));
    assert_eq!(s.signatures.len(), 2);
    assert_eq!(s.parameters, 1);
    assert!(s.signatures.entries[1] == sig(vec![prim(BaseType::U8)]));
    assert_eq!(s.code.locals, 0);
    assert_eq!(s.code.code, vec![Bytecode::LdU64(0), Bytecode::Abort]);
    assert!(s.type_parameters.is_empty());
}

#[test]
fn script_with_vector_of_address_parameter() {
    let p = sig(vec![SignatureToken::vector_of(prim(BaseType::Address))]);
    let s = make_script(p.clone());
    assert_eq!(s.parameters, 1);
    assert!(s.signatures.entries[1] == p);
}

#[test]
fn script_with_no_parameters_reuses_the_empty_signature() {
    let s = make_script(sig(vec![]));
    assert_eq!(s.signatures.len(), 1);
    assert_eq!(s.parameters, 0);
}

#[test]
fn equal_bool_signatures_share_index_one() {
    let (m, _) = make_module_with_function(
        Visibility::Public,
        false,
        sig(vec![prim(BaseType::Bool)]),
        sig(vec![prim(BaseType::Bool)]),
        vec![],
    );
    assert_eq!(m.signatures.len(), 2);
    assert!(m.signatures.entries[0] == sig(vec![]));
    assert!(m.signatures.entries[1] == sig(vec![prim(BaseType::Bool)]));
    assert_eq!(m.function_handles[0].parameters, 1);
    assert_eq!(m.function_handles[0].return_, 1);
    assert_eq!(m.struct_defs.len(), 1);
    assert_eq!(m.identifiers, vec!["M".to_string(), "X".to_string(), "foo".to_string()]);
    assert_eq!(m.function_defs[0].function, 0);
    assert_eq!(m.function_defs[0].code.locals, 0);
}

#[test]
fn script_function_with_empty_signature_has_one_entry() {
    let (m, _) = make_script_function(sig(vec![]));
    assert_eq!(m.signatures.len(), 1);
    assert_eq!(m.function_handles[0].parameters, 0);
    assert_eq!(m.function_handles[0].return_, 0);
    assert_eq!(m.self_id().name, "M");
}
