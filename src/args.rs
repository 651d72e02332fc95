use vstd::prelude::*;
use move_core_types::account_address::AccountAddress;
use move_core_types::value::MoveValue as OutsideValue;
use crate::file_format::Address;
use crate::signature::{BaseType, SignatureToken};

verus! {

#[verifier::external_type_specification]
#[verifier::external_body]
pub struct ExOutsideValue(move_core_types::value::MoveValue);

/// A value handed to a script as an argument.
#[derive(Debug)]
pub enum ArgValue {
    Bool(bool),
    U8(u8),
    U16(u16),
    U32(u32),
    U64(u64),
    U128(u128),
    /// A 256-bit integer as its high and low halves.
    U256(u128, u128),
    Address(Address),
    Signer(Address),
    Vector(Vec<ArgValue>),
}

/// Whether `v` is a value of type `t`.
pub open spec fn has_type(v: ArgValue, t: SignatureToken) -> bool
    decreases v,
{
    if t.vector_depth == 0 {
        match (v, t.base) {
            (ArgValue::Bool(_), BaseType::Bool) => true,
            (ArgValue::U8(_), BaseType::U8) => true,
            (ArgValue::U16(_), BaseType::U16) => true,
            (ArgValue::U32(_), BaseType::U32) => true,
            (ArgValue::U64(_), BaseType::U64) => true,
            (ArgValue::U128(_), BaseType::U128) => true,
            (ArgValue::U256(_, _), BaseType::U256) => true,
            (ArgValue::Address(_), BaseType::Address) => true,
            (ArgValue::Signer(_), BaseType::Signer) => true,
            _ => false,
        }
    } else {
        match v {
            ArgValue::Vector(items) => forall|i: int|
                0 <= i < items@.len() ==> has_type(
                    #[trigger] items@[i],
                    SignatureToken { vector_depth: (t.vector_depth - 1) as u32, base: t.base },
                ),
            _ => false,
        }
    }
}

/// Whether the values match the signature position by position.
pub open spec fn args_match(vals: Seq<ArgValue>, sig: Seq<SignatureToken>) -> bool {
    &&& vals.len() == sig.len()
    &&& forall|i: int| 0 <= i < vals.len() ==> has_type(#[trigger] vals[i], sig[i])
}

/// Whether the value holds no 16-, 32- or 256-bit integer, at any depth: the
/// values that the outside encoder knows.
pub open spec fn encodable(v: ArgValue) -> bool
    decreases v,
{
    match v {
        ArgValue::U16(_) => false,
        ArgValue::U32(_) => false,
        ArgValue::U256(_, _) => false,
        ArgValue::Vector(items) => forall|i: int|
            0 <= i < items@.len() ==> encodable(#[trigger] items@[i]),
        _ => true,
    }
}

/// The `n` lowest bytes of `x`, least significant first.
pub open spec fn le_bytes(x: nat, n: nat) -> Seq<u8>
    decreases n,
{
    if n == 0 {
        Seq::empty()
    } else {
        seq![(x % 256) as u8] + le_bytes(x / 256, (n - 1) as nat)
    }
}

/// `x` in seven-bit groups, least significant first, each but the last with
/// its high bit set.
pub open spec fn uleb128(x: nat) -> Seq<u8>
    decreases x,
{
    if x < 128 {
        seq![x as u8]
    } else {
        seq![((x % 128) + 128) as u8] + uleb128(x / 128)
    }
}

/// The bytes that the encoder writes for a value: a boolean as 0 or 1,
/// integers little-endian in their width, an address or signer as its bytes,
/// a vector as its length and then each item's bytes.
pub open spec fn encoding_of(v: ArgValue) -> Seq<u8>
    decreases v, 1nat, 0nat,
{
    match v {
        ArgValue::Bool(b) => seq![if b { 1u8 } else { 0u8 }],
        ArgValue::U8(x) => seq![x],
        ArgValue::U16(x) => le_bytes(x as nat, 2),
        ArgValue::U32(x) => le_bytes(x as nat, 4),
        ArgValue::U64(x) => le_bytes(x as nat, 8),
        ArgValue::U128(x) => le_bytes(x as nat, 16),
        ArgValue::U256(hi, lo) => le_bytes(lo as nat, 16) + le_bytes(hi as nat, 16),
        ArgValue::Address(a) => a.bytes@,
        ArgValue::Signer(a) => a.bytes@,
        ArgValue::Vector(items) => uleb128(items@.len()) + items_encoding(v, 0),
    }
}

/// The bytes of the items of vector `v` from position `i` on, one after the other.
pub open spec fn items_encoding(v: ArgValue, i: nat) -> Seq<u8>
    decreases v, 0nat, (match v {
        ArgValue::Vector(items) => items@.len(),
        _ => 0,
    }) - i,
{
    match v {
        ArgValue::Vector(items) => if i < items@.len() {
            encoding_of(items@[i as int]) + items_encoding(v, i + 1)
        } else {
            Seq::empty()
        },
        _ => Seq::empty(),
    }
}

/// Relies on move_core_types' MoveValue constructors and AccountAddress::new:
/// the outside value that `v` stands for, where that version has one.
#[verifier::external_body]
fn to_outside_value(v: &ArgValue) -> (r: Option<OutsideValue>) {
    match v {
        ArgValue::Bool(b) => Some(OutsideValue::Bool(*b)),
        ArgValue::U8(x) => Some(OutsideValue::U8(*x)),
        ArgValue::U64(x) => Some(OutsideValue::U64(*x)),
        ArgValue::U128(x) => Some(OutsideValue::U128(*x)),
        ArgValue::Address(a) => Some(OutsideValue::Address(AccountAddress::new(a.bytes))),
        ArgValue::Signer(a) => Some(OutsideValue::Signer(AccountAddress::new(a.bytes))),
        ArgValue::Vector(items) => {
            items.iter().map(to_outside_value).collect::<Option<Vec<_>>>().map(OutsideValue::Vector)
        },
        _ => None,
    }
}

/// Relies on move_core_types' MoveValue::simple_serialize, that is bcs's
/// to_bytes: the value's encoding where the value has an outside counterpart,
/// else nothing. bcs counts only named containers against its depth limit and
/// refuses only sequences longer than 2^31 - 1, which no memory holds.
#[verifier::external_body]
fn serialize_value(v: &ArgValue) -> (r: Option<Vec<u8>>)
    ensures
        r is Some <==> encodable(*v),
        r matches Some(b) ==> b@ == encoding_of(*v),
{
    to_outside_value(v).and_then(|m| m.simple_serialize())
}

/// Serializes each value in order; nothing where a value cannot be serialized.
pub fn serialize_values(vals: &Vec<ArgValue>) -> (r: Option<Vec<Vec<u8>>>)
    ensures
        r is Some <==> forall|i: int| 0 <= i < vals@.len() ==> encodable(#[trigger] vals@[i]),
        r matches Some(out) ==> {
            &&& out@.len() == vals@.len()
            &&& forall|i: int| 0 <= i < vals@.len() ==> (#[trigger] out@[i])@ == encoding_of(vals@[i])
        },
{
    let mut out: Vec<Vec<u8>> = Vec::new();
    let mut i: usize = 0;
    while i < vals.len()
        invariant
            i <= vals@.len(),
            out@.len() == i,
            forall|j: int| 0 <= j < i ==> encodable(#[trigger] vals@[j]),
            forall|j: int| 0 <= j < i ==> (#[trigger] out@[j])@ == encoding_of(vals@[j]),
        decreases vals@.len() - i,
    {
        match serialize_value(&vals[i]) {
            Some(b) => {
                out.push(b);
            },
            None => {
                assert(!encodable(vals@[i as int]));
                return None;
            },
        }
        i = i + 1;
    }
    Some(out)
}

} // verus!
