//! The Soroban host values that the library handles: the environment handle
//! and the host vector in which a contract returns a list of numbers.
use vstd::prelude::*;

verus! {

/// The Soroban environment handle, carried through unread.
#[verifier::external_type_specification]
#[verifier::external_body]
pub struct ExEnv(soroban_sdk::Env);

/// A vector that lives in the Soroban host.
#[verifier::external_type_specification]
#[verifier::external_body]
#[verifier::reject_recursive_types(T)]
pub struct ExHostVec<T>(soroban_sdk::Vec<T>);

/// The numbers that a host vector holds, in order.
pub uninterp spec fn host_vec_items(v: soroban_sdk::Vec<i128>) -> Seq<i128>;

/// Calls `soroban_sdk::Vec::from_array`, which converts each item to a host
/// value and creates a host vector holding them in the order given; the
/// contract claims that the vector holds exactly the four numbers, in order.
#[verifier::external_body]
pub(crate) fn host_vec_of_four(env: &soroban_sdk::Env, items: [i128; 4]) -> (v: soroban_sdk::Vec<i128>)
    ensures
        host_vec_items(v) == items@,
{
    soroban_sdk::Vec::from_array(env, items)
}

} // verus!
