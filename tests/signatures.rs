use move0::signature::{BaseType, Signature, SignatureTable, SignatureToken};

fn sig(tokens: Vec<SignatureToken>) -> Signature {
    Signature { tokens }
}

fn prim(b: BaseType) -> SignatureToken {
    SignatureToken::of(b)
}

#[test]
fn new_table_holds_only_the_empty_signature() {
    let t = SignatureTable::new();
    assert_eq!(t.len(), 1);
    assert!(t.entries[0].tokens.is_empty());
}

#[test]
fn interning_twice_gives_the_same_index() {
    let mut t = SignatureTable::new();
    let a = t.intern(sig(vec![prim(BaseType::U8)]));
    let b = t.intern(sig(vec![prim(BaseType::U8)]));
    assert_eq!(a, 1);
    assert_eq!(a, b);
    assert_eq!(t.len(), 2);
}

#[test]
fn interning_distinct_signatures_gives_distinct_indices() {
    let mut t = SignatureTable::new();
    let a = t.intern(sig(vec![prim(BaseType::U8)]));
    let b = t.intern(sig(vec![prim(BaseType::U64)]));
    assert_ne!(a, b);
    assert_eq!(b, 2);
    assert_eq!(t.len(), 3);
}

#[test]
fn interning_the_empty_signature_finds_index_zero() {
    let mut t = SignatureTable::new();
    assert_eq!(t.intern(sig(vec![])), 0);
    assert_eq!(t.len(), 1);
}

#[test]
fn vector_depth_distinguishes_signatures() {
    let mut t = SignatureTable::new();
    let v = SignatureToken::vector_of(prim(BaseType::Address));
    let vv = SignatureToken::vector_of(v);
    assert_eq!(vv.vector_depth, 2);
    let a = t.intern(sig(vec![v]));
    let b = t.intern(sig(vec![vv]));
    let c = t.intern(sig(vec![v]));
    assert_ne!(a, b);
    assert_eq!(a, c);
}

#[test]
fn signature_equality_is_structural() {
    let a = sig(vec![prim(BaseType::Bool), SignatureToken::vector_of(prim(BaseType::U8))]);
    let b = sig(vec![prim(BaseType::Bool), SignatureToken::vector_of(prim(BaseType::U8))]);
    let c = sig(vec![prim(BaseType::Bool), prim(BaseType::U8)]);
    assert!(a == b);
    assert!(a != c);
    assert!(a != sig(vec![prim(BaseType::Bool)]));
}
