use vstd::prelude::*;
use crate::file_format::Address;

verus! {

/// Relies on move_core_types' MoveValue::simple_serialize on a signer value:
/// a signer is written as its address, and an address as its bytes, one after
/// the other with no length before them; this cannot fail.
#[verifier::external_body]
fn serialize_signer(s: &Address) -> (r: Option<Vec<u8>>)
    ensures
        r is Some,
        r.unwrap()@ == s.bytes@,
{
    let a = move_core_types::account_address::AccountAddress::new(s.bytes);
    move_core_types::value::MoveValue::Signer(a).simple_serialize()
}

/// Relies on move_core_types' StatusCode::ABORTED and its conversion to the
/// major status number.
#[verifier::external_body]
fn aborted_status() -> (r: u64)
    ensures
        r == 4016,
{
    u64::from(move_core_types::vm_status::StatusCode::ABORTED)
}

/// The argument blobs of a call: one serialized signer for each signer address,
/// in order, and after them the caller's own arguments, in order.
pub open spec fn combined_args(signers: Seq<Address>, args: Seq<Seq<u8>>) -> Seq<Seq<u8>> {
    signers.map_values(|s: Address| s.bytes@) + args
}

/// With two signers and two other arguments, the call receives exactly the
/// first signer, the second signer, then the two arguments as given.
pub proof fn lemma_signers_then_args(s1: Address, s2: Address, a: Seq<u8>, b: Seq<u8>)
    ensures
        combined_args(seq![s1, s2], seq![a, b]) == seq![s1.bytes@, s2.bytes@, a, b],
{
    assert(combined_args(seq![s1, s2], seq![a, b]) =~= seq![s1.bytes@, s2.bytes@, a, b]);
}

/// Puts the serialized signers, in the order given, before the non-signer
/// arguments.
pub fn combine_signers_and_args(signers: Vec<Address>, non_signer_args: Vec<Vec<u8>>) -> (r: Vec<
    Vec<u8>,
>)
    ensures
        r@.map_values(|v: Vec<u8>| v@) == combined_args(
            signers@,
            non_signer_args@.map_values(|v: Vec<u8>| v@),
        ),
{
    let ghost want = combined_args(signers@, non_signer_args@.map_values(|v: Vec<u8>| v@));
    let mut r: Vec<Vec<u8>> = Vec::new();
    let mut i: usize = 0;
    while i < signers.len()
        invariant
            i <= signers.len(),
            r@.len() == i,
            forall|j: int| 0 <= j < i ==> (#[trigger] r@[j])@ == signers@[j].bytes@,
        decreases signers.len() - i,
    {
        let blob = serialize_signer(&signers[i]);
        r.push(blob.unwrap());
        i = i + 1;
    }
    let ghost n = signers@.len();
    let ghost front = r@;
    let mut args = non_signer_args;
    let ghost a = args@;
    r.append(&mut args);
    assert(r@ == front + a);
    let ghost got = r@.map_values(|v: Vec<u8>| v@);
    assert forall|j: int| 0 <= j < want.len() implies #[trigger] got[j] == want[j] by {
        if j < n {
            assert(r@[j] == front[j]);
        } else {
            assert(r@[j] == a[j - n]);
        }
    }
    assert(got =~= want);
    r
}

/// What one execution of a script came to: success, or the major status code
/// it stopped with.
pub open spec fn is_expected_outcome_spec(outcome: Result<(), u64>) -> bool {
    outcome == Err::<(), u64>(4016)
}

/// Whether an execution ended as every assembled body must: by aborting. Any
/// other ending, success included, is a failure of the case.
pub fn is_expected_outcome(outcome: &Result<(), u64>) -> (r: bool)
    ensures
        r == is_expected_outcome_spec(*outcome),
{
    match outcome {
        Ok(()) => false,
        Err(code) => *code == aborted_status(),
    }
}

} // verus!
