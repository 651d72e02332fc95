use move0::assembler::make_module_at;
use move0::file_format::{Address, ModuleId, Visibility};
use move0::signature::Signature;
use move0::store::RemoteStore;
use move_core_types::account_address::AccountAddress;
use move_core_types::identifier::Identifier;
use move_core_types::language_storage::StructTag;

fn id(b: u8, name: &str) -> ModuleId {
    ModuleId { address: Address { bytes: [b; 16] }, name: name.to_string() }
}

#[test]
fn empty_store_finds_nothing() {
    let s = RemoteStore::new();
    assert!(s.get_module(&id(1, "M")).is_none());
}

#[test]
fn inserted_module_is_found() {
    let mut s = RemoteStore::new();
    s.insert(id(1, "M"), vec![1, 2, 3]);
    s.insert(id(2, "M"), vec![4]);
    assert_eq!(s.get_module(&id(1, "M")), Some(vec![1, 2, 3]));
    assert_eq!(s.get_module(&id(2, "M")), Some(vec![4]));
    assert!(s.get_module(&id(1, "N")).is_none());
}

#[test]
fn inserting_the_same_identity_overwrites() {
    let mut s = RemoteStore::new();
    s.insert(id(1, "M"), vec![1]);
    s.insert(id(1, "M"), vec![2]);
    assert_eq!(s.get_module(&id(1, "M")), Some(vec![2]));
    assert_eq!(s.modules.len(), 1);
}

#[test]
fn added_module_is_found_under_its_identity() {
    let (m, _) = make_module_at(
        Address { bytes: [5; 16] },
        Visibility::Public,
        true,
        Signature { tokens: vec![] },
        Signature { tokens: vec![] },
        vec![],
    );
    let mut s = RemoteStore::new();
    s.add_module(&m, vec![0xa1, 0x1c]);
    assert_eq!(s.get_module(&id(5, "M")), Some(vec![0xa1, 0x1c]));
}

#[test]
fn resources_are_never_found() {
    let s = RemoteStore::new();
    let tag = StructTag {
        address: AccountAddress::ZERO,
        module: Identifier::new("M").unwrap(),
        name: Identifier::new("X").unwrap(),
        type_params: vec![],
    };
    assert!(s.get_resource(&Address { bytes: [0; 16] }, &tag).is_none());
}
