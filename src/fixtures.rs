use vstd::prelude::*;
use crate::args::{args_match, encodable, encoding_of, has_type, serialize_values, ArgValue};
use crate::assembler::{fresh_address, make_script};
use crate::file_format::{is_sentinel_body, signature_indices_valid, CompiledScript};
use crate::signature::{interned, BaseType, Signature, SignatureToken};

verus! {

/// `v` is a vector of the given bytes, each an 8-bit integer value.
pub open spec fn is_byte_vector(v: ArgValue, bytes: Seq<u8>) -> bool {
    match v {
        ArgValue::Vector(items) => {
            &&& items@.len() == bytes.len()
            &&& forall|i: int| 0 <= i < bytes.len() ==> #[trigger] items@[i] == ArgValue::U8(bytes[i])
        },
        _ => false,
    }
}

/// `v` is a vector of `n` addresses.
pub open spec fn is_address_vector(v: ArgValue, n: nat) -> bool {
    match v {
        ArgValue::Vector(items) => {
            &&& items@.len() == n
            &&& forall|i: int| 0 <= i < n ==> #[trigger] items@[i] is Address
        },
        _ => false,
    }
}

/// `v` is a vector of `m` vectors of `n` addresses each.
pub open spec fn is_address_rows(v: ArgValue, m: nat, n: nat) -> bool {
    match v {
        ArgValue::Vector(items) => {
            &&& items@.len() == m
            &&& forall|i: int| 0 <= i < m ==> is_address_vector(#[trigger] items@[i], n)
        },
        _ => false,
    }
}

/// `v` is a vector of byte vectors, one for each of `rows`.
pub open spec fn is_byte_rows(v: ArgValue, rows: Seq<Seq<u8>>) -> bool {
    match v {
        ArgValue::Vector(items) => {
            &&& items@.len() == rows.len()
            &&& forall|i: int| 0 <= i < rows.len() ==> is_byte_vector(#[trigger] items@[i], rows[i])
        },
        _ => false,
    }
}

/// The arguments of the case table, in order; addresses are drawn afresh, so
/// of them only how many there are is fixed.
pub open spec fn fixture_arguments(c: Seq<(Signature, Vec<ArgValue>)>) -> bool {
    &&& c[0].1@ == seq![ArgValue::U128(0)]
    &&& c[1].1@ == seq![ArgValue::U8(0)]
    &&& c[2].1@ == seq![ArgValue::U16(0)]
    &&& c[3].1@ == seq![ArgValue::U32(0)]
    &&& c[4].1@ == seq![ArgValue::U256(0, 0)]
    &&& c[5].1@.len() == 1
    &&& (c[5].1@[0] matches ArgValue::Vector(items) && items@ == seq![
        ArgValue::Bool(false),
        ArgValue::Bool(true),
    ])
    &&& c[6].1@.len() == 3
    &&& c[6].1@[0] == ArgValue::Bool(true)
    &&& is_byte_vector(c[6].1@[1], seq![0u8, 1u8])
    &&& c[6].1@[2] is Address
    &&& c[7].1@.len() == 3
    &&& c[7].1@[0] == ArgValue::Bool(true)
    &&& is_byte_vector(c[7].1@[1], seq![0u8, 1u8])
    &&& is_address_rows(c[7].1@[2], 3, 2)
    &&& c[8].1@.len() == 1 && is_address_vector(c[8].1@[0], 0)
    &&& c[9].1@.len() == 1 && is_address_vector(c[9].1@[0], 1)
    &&& c[10].1@.len() == 1 && is_address_vector(c[10].1@[0], 5)
    &&& c[11].1@.len() == 1 && is_byte_rows(c[11].1@[0], seq![])
    &&& c[12].1@.len() == 1 && is_byte_rows(
        c[12].1@[0],
        seq![seq![0u8, 1u8], seq![2u8, 3u8], seq![4u8, 5u8]],
    )
}

/// A vector of byte vectors holds no value that the encoder lacks.
proof fn lemma_byte_rows_encodable(v: ArgValue, rows: Seq<Seq<u8>>)
    requires
        is_byte_rows(v, rows),
    ensures
        encodable(v),
{
    reveal_with_fuel(encodable, 3);
    if let ArgValue::Vector(items) = v {
        assert forall|i: int| 0 <= i < items@.len() implies encodable(#[trigger] items@[i]) by {
            assert(is_byte_vector(items@[i], rows[i]));
            if let ArgValue::Vector(inner) = items@[i] {
                assert forall|j: int| 0 <= j < inner@.len() implies encodable(#[trigger] inner@[j]) by {
                    assert(inner@[j] == ArgValue::U8(rows[i][j]));
                }
            }
        }
    }
}

/// A signature of one token.
fn single(t: SignatureToken) -> (r: Signature)
    ensures
        r@ == seq![t],
{
    let r = Signature { tokens: vec![t] };
    assert(r@ =~= seq![t]);
    r
}

/// `vector<t>`, for a token that is not nested deeper than twice.
fn vec_of(t: SignatureToken) -> (r: SignatureToken)
    requires
        t.vector_depth < 3,
    ensures
        r == (SignatureToken { vector_depth: (t.vector_depth + 1) as u32, base: t.base }),
{
    SignatureToken::vector_of(t)
}

/// A vector of the given bytes, each as an 8-bit integer value.
fn vector_u8(bytes: Vec<u8>) -> (r: ArgValue)
    ensures
        has_type(r, SignatureToken { vector_depth: 1, base: BaseType::U8 }),
        is_byte_vector(r, bytes@),
{
    let mut items: Vec<ArgValue> = Vec::new();
    let mut i: usize = 0;
    while i < bytes.len()
        invariant
            i <= bytes@.len(),
            items@.len() == i,
            forall|j: int| 0 <= j < i ==> #[trigger] items@[j] == ArgValue::U8(bytes@[j]),
        decreases bytes@.len() - i,
    {
        items.push(ArgValue::U8(bytes[i]));
        i = i + 1;
    }
    let r = ArgValue::Vector(items);
    assert forall|j: int| 0 <= j < items@.len() implies has_type(
        #[trigger] items@[j],
        SignatureToken { vector_depth: 0, base: BaseType::U8 },
    ) by {
        assert(items@[j] == ArgValue::U8(bytes@[j]));
    }
    r
}

/// A vector of `n` freshly drawn addresses.
fn random_addresses(n: usize) -> (r: ArgValue)
    ensures
        has_type(r, SignatureToken { vector_depth: 1, base: BaseType::Address }),
        is_address_vector(r, n as nat),
{
    let mut items: Vec<ArgValue> = Vec::new();
    let mut i: usize = 0;
    while i < n
        invariant
            i <= n,
            items@.len() == i,
            forall|j: int| 0 <= j < i ==> #[trigger] items@[j] is Address,
        decreases n - i,
    {
        items.push(ArgValue::Address(fresh_address()));
        i = i + 1;
    }
    assert forall|j: int| 0 <= j < items@.len() implies has_type(
        #[trigger] items@[j],
        SignatureToken { vector_depth: 0, base: BaseType::Address },
    ) by {
        assert(items@[j] is Address);
    }
    ArgValue::Vector(items)
}

/// One case: a signature, and arguments that match it.
fn case(sig: Signature, vals: Vec<ArgValue>) -> (r: (Signature, Vec<ArgValue>))
    requires
        args_match(vals@, sig@),
        signature_indices_valid(sig@, 0),
    ensures
        r.0@ == sig@,
        r.1@ == vals@,
{
    (sig, vals)
}

/// Whether every case is fit to run: its signature names no struct, and its
/// arguments match it.
pub open spec fn cases_well_typed(cases: Seq<(Signature, Vec<ArgValue>)>) -> bool {
    forall|k: int|
        0 <= k < cases.len() ==> {
            &&& signature_indices_valid((#[trigger] cases[k]).0@, 0)
            &&& args_match(cases[k].1@, cases[k].0@)
        }
}

/// A token of the given vector depth over a base type.
pub open spec fn tok(depth: u32, base: BaseType) -> SignatureToken {
    SignatureToken { vector_depth: depth, base }
}

/// The signatures of the case table, in order.
pub open spec fn fixture_signatures() -> Seq<Seq<SignatureToken>> {
    seq![
        seq![tok(0, BaseType::U128)],
        seq![tok(0, BaseType::U8)],
        seq![tok(0, BaseType::U16)],
        seq![tok(0, BaseType::U32)],
        seq![tok(0, BaseType::U256)],
        seq![tok(1, BaseType::Bool)],
        seq![tok(0, BaseType::Bool), tok(1, BaseType::U8), tok(0, BaseType::Address)],
        seq![tok(0, BaseType::Bool), tok(1, BaseType::U8), tok(2, BaseType::Address)],
        seq![tok(1, BaseType::Address)],
        seq![tok(1, BaseType::Address)],
        seq![tok(1, BaseType::Address)],
        seq![tok(2, BaseType::U8)],
        seq![tok(2, BaseType::U8)],
    ]
}

/// The signatures, with matching arguments, that every script built from them
/// must accept: each primitive, vectors of booleans, bytes and addresses
/// (empty, one, several), and vectors of vectors.
pub fn good_signatures_and_arguments() -> (r: Vec<(Signature, Vec<ArgValue>)>)
    ensures
        r@.len() == fixture_signatures().len(),
        forall|k: int| 0 <= k < r@.len() ==> (#[trigger] r@[k]).0@ == fixture_signatures()[k],
        cases_well_typed(r@),
        fixture_arguments(r@),
{
    let u8_t = SignatureToken::of(BaseType::U8);
    let bool_t = SignatureToken::of(BaseType::Bool);
    let addr_t = SignatureToken::of(BaseType::Address);
    let mut r: Vec<(Signature, Vec<ArgValue>)> = Vec::new();
    r.push(case(single(SignatureToken::of(BaseType::U128)), vec![ArgValue::U128(0)]));
    r.push(case(single(u8_t), vec![ArgValue::U8(0)]));
    r.push(case(single(SignatureToken::of(BaseType::U16)), vec![ArgValue::U16(0)]));
    r.push(case(single(SignatureToken::of(BaseType::U32)), vec![ArgValue::U32(0)]));
    r.push(case(single(SignatureToken::of(BaseType::U256)), vec![ArgValue::U256(0, 0)]));
    let bools = ArgValue::Vector(vec![ArgValue::Bool(false), ArgValue::Bool(true)]);
    proof {
        reveal_with_fuel(has_type, 2);
    }
    r.push(case(single(vec_of(bool_t)), vec![bools]));
    let three = Signature { tokens: vec![bool_t, vec_of(u8_t), addr_t] };
    assert(three@ =~= fixture_signatures()[6]);
    r.push(case(
        three,
        vec![ArgValue::Bool(true), vector_u8(vec![0, 1]), ArgValue::Address(fresh_address())],
    ));
    let nested = Signature { tokens: vec![bool_t, vec_of(u8_t), vec_of(vec_of(addr_t))] };
    assert(nested@ =~= fixture_signatures()[7]);
    let rows = vec![random_addresses(2), random_addresses(2), random_addresses(2)];
    let rows_v = ArgValue::Vector(rows);
    assert(is_address_rows(rows_v, 3, 2));
    assert(has_type(rows_v, SignatureToken { vector_depth: 2, base: BaseType::Address }));
    r.push(case(nested, vec![ArgValue::Bool(true), vector_u8(vec![0, 1]), rows_v]));
    r.push(case(single(vec_of(addr_t)), vec![ArgValue::Vector(Vec::new())]));
    r.push(case(single(vec_of(addr_t)), vec![random_addresses(1)]));
    r.push(case(single(vec_of(addr_t)), vec![random_addresses(5)]));
    r.push(case(single(vec_of(vec_of(u8_t))), vec![ArgValue::Vector(Vec::new())]));
    let byte_rows = ArgValue::Vector(
        vec![vector_u8(vec![0, 1]), vector_u8(vec![2, 3]), vector_u8(vec![4, 5])],
    );
    assert(has_type(byte_rows, SignatureToken { vector_depth: 2, base: BaseType::U8 }));
    assert(is_byte_rows(byte_rows, seq![seq![0u8, 1u8], seq![2u8, 3u8], seq![4u8, 5u8]]));
    r.push(case(single(vec_of(vec_of(u8_t))), vec![byte_rows]));
    assert(r@.len() == 13);
    let ghost c = r@;
    assert(c[0].1@ == seq![ArgValue::U128(0)]);
    assert(c[1].1@ == seq![ArgValue::U8(0)]);
    assert(c[2].1@ == seq![ArgValue::U16(0)]);
    assert(c[3].1@ == seq![ArgValue::U32(0)]);
    assert(c[4].1@ == seq![ArgValue::U256(0, 0)]);
    assert(c[5].1@.len() == 1);
    assert(c[5].1@[0] matches ArgValue::Vector(items) && items@ == seq![ArgValue::Bool(false), ArgValue::Bool(true)]);
    assert(c[6].1@.len() == 3 && c[6].1@[0] == ArgValue::Bool(true));
    assert(is_byte_vector(c[6].1@[1], seq![0u8, 1u8]));
    assert(c[6].1@[2] is Address);
    assert(is_address_rows(c[7].1@[2], 3, 2));
    assert(is_address_vector(c[8].1@[0], 0));
    assert(is_address_vector(c[9].1@[0], 1));
    assert(is_byte_rows(c[11].1@[0], seq![]));
    r
}

/// The script for a case and its serialized arguments; nothing where an
/// argument cannot be serialized.
pub fn prepare_case(parameters: Signature, args: &Vec<ArgValue>) -> (r: Option<(CompiledScript, Vec<Vec<u8>>)>)
    requires
        signature_indices_valid(parameters@, 0),
    ensures
        r is Some <==> forall|i: int| 0 <= i < args@.len() ==> encodable(#[trigger] args@[i]),
        r matches Some((script, blobs)) ==> {
            &&& script.indices_valid()
            &&& script.signatures@ == interned(seq![Seq::empty()], parameters@).0
            &&& script.parameters == interned(seq![Seq::empty()], parameters@).1
            &&& script.type_parameters@.len() == 0
            &&& script.code.locals == 0
            &&& is_sentinel_body(script.code.code@)
            &&& script.signatures@[script.parameters as int] == parameters@
            &&& blobs@.len() == args@.len()
            &&& forall|i: int| 0 <= i < args@.len() ==> (#[trigger] blobs@[i])@ == encoding_of(args@[i])
        },
{
    match serialize_values(args) {
        Some(blobs) => Some((make_script(parameters), blobs)),
        None => None,
    }
}

/// The inputs of the case that is proved: the last of the table.
pub fn last_case_inputs() -> (r: Option<(CompiledScript, Vec<Vec<u8>>)>)
    ensures
        r matches Some((script, blobs)) ==> {
            &&& script.indices_valid()
            &&& script.signatures@[script.parameters as int] == seq![
                SignatureToken { vector_depth: 2, base: BaseType::U8 },
            ]
            &&& blobs@.len() == 1
        },
        r is Some,
{
    let mut cases = good_signatures_and_arguments();
    let ghost all = cases@;
    let (parameters, args) = cases.pop().unwrap();
    proof {
        assert(args@ == all[12].1@);
        lemma_byte_rows_encodable(args@[0], seq![seq![0u8, 1u8], seq![2u8, 3u8], seq![4u8, 5u8]]);
        assert forall|i: int| 0 <= i < args@.len() implies encodable(#[trigger] args@[i]) by {
            assert(i == 0);
        }
    }
    prepare_case(parameters, &args)
}

} // verus!
