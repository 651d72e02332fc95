use vstd::prelude::*;

verus! {

/// The innermost type of a signature token.
#[derive(Debug, Clone, Copy, PartialEq, Eq, Structural)]
pub enum BaseType {
    Bool,
    U8,
    U16,
    U32,
    U64,
    U128,
    U256,
    Address,
    Signer,
    /// A struct, by its index in the struct handle table.
    Struct(u16),
}

/// A type token: `vector_depth` vectors wrapped around a base type
/// (depth 0 is the base type itself, depth 2 is `vector<vector<base>>`).
#[derive(Debug, Clone, Copy, PartialEq, Eq, Structural)]
pub struct SignatureToken {
    pub vector_depth: u32,
    pub base: BaseType,
}

impl SignatureToken {
    pub fn of(base: BaseType) -> (r: SignatureToken)
        ensures
            r == (SignatureToken { vector_depth: 0, base }),
    {
        SignatureToken { vector_depth: 0, base }
    }

    pub fn vector_of(elem: SignatureToken) -> (r: SignatureToken)
        requires
            elem.vector_depth < u32::MAX,
        ensures
            r == (SignatureToken { vector_depth: (elem.vector_depth + 1) as u32, base: elem.base }),
    {
        SignatureToken { vector_depth: elem.vector_depth + 1, base: elem.base }
    }
}

/// An ordered list of type tokens.
#[derive(Debug, Clone)]
pub struct Signature {
    pub tokens: Vec<SignatureToken>,
}

impl View for Signature {
    type V = Seq<SignatureToken>;

    open spec fn view(&self) -> Seq<SignatureToken> {
        self.tokens@
    }
}

/// Structural equality of two signatures, token by token.
pub fn signature_eq(a: &Signature, b: &Signature) -> (r: bool)
    ensures
        r == (a@ == b@),
{
    if a.tokens.len() != b.tokens.len() {
        return false;
    }
    let mut i: usize = 0;
    while i < a.tokens.len()
        invariant
            a.tokens.len() == b.tokens.len(),
            i <= a.tokens.len(),
            forall|j: int| 0 <= j < i ==> a@[j] == b@[j],
        decreases a.tokens.len() - i,
    {
        if a.tokens[i] != b.tokens[i] {
            return false;
        }
        i = i + 1;
    }
    assert(a@ =~= b@);
    true
}

impl PartialEq for Signature {
    fn eq(&self, o: &Signature) -> (r: bool) {
        signature_eq(self, o)
    }
}

impl vstd::std_specs::cmp::PartialEqSpecImpl for Signature {
    open spec fn obeys_eq_spec() -> bool {
        true
    }

    open spec fn eq_spec(&self, o: &Signature) -> bool {
        self@ == o@
    }
}

/// No entry of the table occurs twice.
pub open spec fn no_duplicates(t: Seq<Seq<SignatureToken>>) -> bool {
    forall|i: int, j: int| 0 <= i < j < t.len() ==> t[i] != t[j]
}

/// The position of `s` in `t`; meaningful where `t` contains `s`.
pub open spec fn position_of(t: Seq<Seq<SignatureToken>>, s: Seq<SignatureToken>) -> int {
    choose|i: int| 0 <= i < t.len() && t[i] == s
}

/// The table and the index that interning `s` into `t` gives: the index of the
/// equal entry where there is one, else `t` with `s` appended and its new index.
pub open spec fn interned(t: Seq<Seq<SignatureToken>>, s: Seq<SignatureToken>) -> (Seq<
    Seq<SignatureToken>,
>, int) {
    if t.contains(s) {
        (t, position_of(t, s))
    } else {
        (t.push(s), t.len() as int)
    }
}

/// A deduplicating table of signatures, addressed by 16-bit indices.
#[derive(Debug)]
pub struct SignatureTable {
    pub entries: Vec<Signature>,
}

impl View for SignatureTable {
    type V = Seq<Seq<SignatureToken>>;

    open spec fn view(&self) -> Seq<Seq<SignatureToken>> {
        self.entries@.map_values(|s: Signature| s@)
    }
}

impl SignatureTable {
    pub open spec fn wf(&self) -> bool {
        no_duplicates(self@)
    }

    /// A table that holds the empty signature alone, at index 0.
    pub fn new() -> (r: SignatureTable)
        ensures
            r.wf(),
            r@ == seq![Seq::<SignatureToken>::empty()],
    {
        let r = SignatureTable { entries: vec![Signature { tokens: Vec::new() }] };
        assert(r@ =~= seq![Seq::<SignatureToken>::empty()]);
        r
    }

    pub fn len(&self) -> (r: usize)
        ensures
            r == self@.len(),
    {
        self.entries.len()
    }

    /// Returns the index of the entry equal to `sig`, appending `sig` first
    /// where no entry equals it.
    pub fn intern(&mut self, sig: Signature) -> (idx: u16)
        requires
            old(self).wf(),
            old(self)@.len() <= u16::MAX,
        ensures
            final(self).wf(),
            (final(self)@, idx as int) == interned(old(self)@, sig@),
            idx < final(self)@.len(),
            final(self)@[idx as int] == sig@,
    {
        let n = self.entries.len();
        let mut i: usize = 0;
        while i < n
            invariant
                n == self.entries.len(),
                n == self@.len(),
                n <= u16::MAX,
                self@ == old(self)@,
                self.wf(),
                i <= n,
                forall|j: int| 0 <= j < i ==> self@[j] != sig@,
            decreases n - i,
        {
            assert(self@[i as int] == self.entries@[i as int]@);
            if signature_eq(&self.entries[i], &sig) {
                assert(self@.contains(sig@) && self@[i as int] == sig@);
                assert(position_of(self@, sig@) == i as int) by {
                    let p = position_of(self@, sig@);
                    assert(0 <= p < self@.len() && self@[p] == sig@);
                    if p != i as int {
                        assert(self@[p] == self@[i as int]);
                    }
                }
                return i as u16;
            }
            i = i + 1;
        }
        assert(!self@.contains(sig@));
        let ghost before = self@;
        self.entries.push(sig);
        assert(self@ =~= before.push(sig@));
        n as u16
    }
}

/// Interning a signature twice into one table gives the same index both times,
/// and leaves the table as the first call left it.
pub proof fn lemma_intern_same_twice(t: Seq<Seq<SignatureToken>>, s: Seq<SignatureToken>)
    requires
        no_duplicates(t),
    ensures
        interned(interned(t, s).0, s).1 == interned(t, s).1,
        interned(interned(t, s).0, s).0 == interned(t, s).0,
{
    let (t1, i1) = interned(t, s);
    if !t.contains(s) {
        assert(t1[i1] == s);
    }
    assert(t1.contains(s));
    assert(0 <= i1 < t1.len() && t1[i1] == s);
    let p = position_of(t1, s);
    assert(0 <= p < t1.len() && t1[p] == s);
    if t.contains(s) {
        let q = position_of(t, s);
        assert(t[q] == s);
    }
    assert(p == i1) by {
        if p != i1 {
            if t.contains(s) {
                assert(t[p] == t[i1]);
            } else {
                assert(p < t.len());
                assert(t.contains(s));
            }
        }
    }
}

/// Interning two different signatures one after the other gives two
/// different indices.
pub proof fn lemma_intern_distinct(
    t: Seq<Seq<SignatureToken>>,
    s1: Seq<SignatureToken>,
    s2: Seq<SignatureToken>,
)
    requires
        no_duplicates(t),
        s1 != s2,
    ensures
        interned(interned(t, s1).0, s2).1 != interned(t, s1).1,
{
    let (t1, i1) = interned(t, s1);
    assert(0 <= i1 < t1.len() && t1[i1] == s1) by {
        if t.contains(s1) {
            let q = position_of(t, s1);
            assert(t[q] == s1);
        }
    }
    let (t2, i2) = interned(t1, s2);
    if t1.contains(s2) {
        let p = position_of(t1, s2);
        assert(t1[p] == s2);
    }
}

} // verus!
