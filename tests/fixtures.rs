use move0::args::{serialize_values, ArgValue};
use move0::file_format::Address;
use move0::fixtures::{good_signatures_and_arguments, last_case_inputs, prepare_case};
use move0::signature::{BaseType, Signature, SignatureToken};

#[test]
fn primitive_values_serialize_little_endian() {
    let vals = vec![
        ArgValue::U8(0),
        ArgValue::Bool(true),
        ArgValue::U64(1),
        ArgValue::U128(2),
    ];
    let out = serialize_values(&vals).unwrap();
    assert_eq!(out[0], vec![0u8]);
    assert_eq!(out[1], vec![1u8]);
    assert_eq!(out[2], vec![1u8, 0, 0, 0, 0, 0, 0, 0]);
    let mut two = vec![0u8; 16];
    two[0] = 2;
    assert_eq!(out[3], two);
}

#[test]
fn vectors_serialize_with_their_length_first() {
    let v = ArgValue::Vector(vec![ArgValue::U8(7), ArgValue::U8(9)]);
    let empty = ArgValue::Vector(vec![]);
    let out = serialize_values(&vec![v, empty]).unwrap();
    assert_eq!(out, vec![vec![2u8, 7, 9], vec![0u8]]);
}

#[test]
fn addresses_serialize_as_their_bytes() {
    let a = Address { bytes: [3; 16] };
    let out = serialize_values(&vec![ArgValue::Address(a), ArgValue::Signer(a)]).unwrap();
    assert_eq!(out, vec![vec![3u8; 16], vec![3u8; 16]]);
}

#[test]
fn values_without_an_encoder_give_nothing() {
    assert!(serialize_values(&vec![ArgValue::U16(0)]).is_none());
    assert!(serialize_values(&vec![ArgValue::U8(0), ArgValue::U32(0)]).is_none());
    assert!(serialize_values(&vec![ArgValue::Vector(vec![ArgValue::U256(0, 0)])]).is_none());
}

#[test]
fn fixture_table_has_thirteen_cases() {
    let cases = good_signatures_and_arguments();
    assert_eq!(cases.len(), 13);
    for (sig, args) in &cases {
        assert_eq!(sig.tokens.len(), args.len());
    }
    assert_eq!(cases[1].0.tokens, vec![SignatureToken::of(BaseType::U8)]);
}

#[test]
fn u8_case_prepares_script_and_argument() {
    let sig = Signature { tokens: vec![SignatureToken::of(BaseType::U8)] };
    let (script, blobs) = prepare_case(sig.clone(), &vec![ArgValue::U8(0)]).unwrap();
    assert!(script.signatures.entries[script.parameters as usize] == sig);
    assert_eq!(blobs, vec![vec![0u8]]);
}

#[test]
fn empty_address_vector_case_prepares_empty_blob() {
    let sig = Signature {
        tokens: vec![SignatureToken::vector_of(SignatureToken::of(BaseType::Address))],
    };
    let (script, blobs) = prepare_case(sig.clone(), &vec![ArgValue::Vector(vec![])]).unwrap();
    assert!(script.signatures.entries[script.parameters as usize] == sig);
    assert_eq!(blobs, vec![vec![0u8]]);
}

#[test]
fn last_case_is_a_vector_of_byte_vectors() {
    let (script, blobs) = last_case_inputs().unwrap();
    let t = &script.signatures.entries[script.parameters as usize].tokens;
    assert_eq!(t.len(), 1);
    assert_eq!(t[0].vector_depth, 2);
    assert_eq!(t[0].base, BaseType::U8);
    assert_eq!(blobs, vec![vec![3u8, 2, 0, 1, 2, 2, 3, 2, 4, 5]]);
}

#[test]
fn fixture_arguments_are_as_listed() {
    let cases = good_signatures_and_arguments();
    assert!(matches!(cases[0].1[0], ArgValue::U128(0)));
    assert!(matches!(cases[1].1[0], ArgValue::U8(0)));
    assert!(matches!(&cases[8].1[0], ArgValue::Vector(v) if v.is_empty()));
    assert!(matches!(&cases[10].1[0], ArgValue::Vector(v) if v.len() == 5));
    assert!(matches!(&cases[11].1[0], ArgValue::Vector(v) if v.is_empty()));
}

#[test]
fn long_vectors_carry_a_multi_byte_length() {
    let v = ArgValue::Vector((0..200).map(|_| ArgValue::U8(1)).collect());
    let out = serialize_values(&vec![v]).unwrap();
    assert_eq!(out[0].len(), 202);
    assert_eq!(&out[0][..3], &[0xc8u8, 0x01, 1]);
}
