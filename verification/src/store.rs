//! The concurrent map that holds the pending authorizations, and what the
//! relay takes for granted of it.
//!
//! Every operation that changes the map is given exclusive access, so that
//! its effect can be stated against the contents before and after.

use crate::models::{OAuthState, OAuthStateView};
use dashmap::DashMap;
use vstd::prelude::*;

verus! {

/// `DashMap` of the `dashmap` crate. Nothing inside it is visible here;
/// what it holds is named by `held`.
#[verifier::external_type_specification]
#[verifier::external_body]
#[verifier::reject_recursive_types(K)]
#[verifier::reject_recursive_types(V)]
#[verifier::reject_recursive_types(S)]
pub struct ExDashMap<K, V, S>(DashMap<K, V, S>);

/// Model of a store's contents: state token to record.
pub type Records = Map<Seq<char>, OAuthStateView>;

/// The records a map holds, by state token.
pub uninterp spec fn held(map: DashMap<String, OAuthState>) -> Map<Seq<char>, OAuthStateView>;

/// `DashMap::new`: a fresh map holds nothing.
#[verifier::external_body]
pub(crate) fn map_new() -> (fresh: DashMap<String, OAuthState>)
    ensures
        held(fresh) == Records::empty(),
{
    DashMap::new()
}

/// `DashMap::insert`: afterwards the key maps to the given record, and
/// every other key is as before. The record that was replaced, if there
/// was one, is dropped. The call does not unwind.
#[verifier::external_body]
pub(crate) fn map_insert(map: &mut DashMap<String, OAuthState>, key: String, value: OAuthState)
    ensures
        held(*final(map)) == held(*old(map)).insert(key@, value@),
    no_unwind
{
    map.insert(key, value);
}

/// `DashMap::get`, with the record cloned out of the guard: `Some` exactly
/// for a key that is held, and then a copy of its record.
#[verifier::external_body]
pub(crate) fn map_get(map: &DashMap<String, OAuthState>, key: &str) -> (found: Option<OAuthState>)
    ensures
        found is Some <==> held(*map).contains_key(key@),
        found matches Some(record) ==> record@ == held(*map)[key@],
{
    match map.get(key) {
        Some(entry) => Some(entry.value().clone()),
        None => None,
    }
}

/// `DashMap::remove`: afterwards the key is not held, and every other key
/// is as before. Removing a key that is not held changes nothing. The call
/// does not unwind.
#[verifier::external_body]
pub(crate) fn map_remove(map: &mut DashMap<String, OAuthState>, key: &str)
    ensures
        held(*final(map)) == held(*old(map)).remove(key@),
    no_unwind
{
    map.remove(key);
}

/// `DashMap::len`: the number of keys held.
#[verifier::external_body]
pub(crate) fn map_len(map: &DashMap<String, OAuthState>) -> (count: usize)
    ensures
        count == held(*map).len(),
{
    map.len()
}

/// `DashMap::iter`, with each entry's key cloned out: every key that is
/// held, once, in no particular order.
#[verifier::external_body]
pub(crate) fn map_keys(map: &DashMap<String, OAuthState>) -> (keys: Vec<String>)
    ensures
        forall|i: int| 0 <= i < keys@.len() ==> held(*map).contains_key(#[trigger] keys@[i]@),
        forall|key: Seq<char>| #[trigger]
            held(*map).contains_key(key) ==> exists|i: int|
                0 <= i < keys@.len() && #[trigger] keys@[i]@ == key,
        forall|i: int, j: int|
            0 <= i < j < keys@.len() ==> #[trigger] keys@[i]@ != #[trigger] keys@[j]@,
{
    map.iter().map(|entry| entry.key().clone()).collect()
}

} // verus!
