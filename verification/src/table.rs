//! The persisted tables: ordered maps in stable memory, from a key to the
//! bytes of a record.
//!
//! The maps themselves are `ic_stable_structures::StableBTreeMap`s, which
//! the verifier does not read. No function here that calls one is proved:
//! each states what the map's source shows of the method that it calls,
//! over the map's contents as a mathematical map.
use vstd::prelude::*;
use vstd::seq_lib::seq_to_set_is_finite;
use candid::Principal;
use ic_stable_structures::memory_manager::{MemoryId, MemoryManager, VirtualMemory};
use ic_stable_structures::{DefaultMemoryImpl, StableBTreeMap};

verus! {

/// The order of text keys: by code point, a proper prefix before its
/// extensions.
pub open spec fn text_before(a: Seq<char>, b: Seq<char>) -> bool
    decreases a.len(),
{
    if b.len() == 0 {
        false
    } else if a.len() == 0 {
        true
    } else if a[0] == b[0] {
        text_before(a.drop_first(), b.drop_first())
    } else {
        (a[0] as u32) < (b[0] as u32)
    }
}

/// No text comes before itself.
pub proof fn lemma_text_before_irreflexive(a: Seq<char>)
    ensures
        !text_before(a, a),
    decreases a.len(),
{
    if a.len() > 0 {
        lemma_text_before_irreflexive(a.drop_first());
    }
}

/// The order of byte strings of one length: by the first byte that differs.
pub open spec fn bytes_before(a: Seq<u8>, b: Seq<u8>) -> bool
    decreases a.len(),
{
    if a.len() == 0 || b.len() == 0 {
        false
    } else if a[0] == b[0] {
        bytes_before(a.drop_first(), b.drop_first())
    } else {
        a[0] < b[0]
    }
}

/// The order of principals: the shorter first, and of two of one length the
/// one with the smaller bytes.
pub open spec fn principal_before(a: Seq<u8>, b: Seq<u8>) -> bool {
    a.len() < b.len() || (a.len() == b.len() && bytes_before(a, b))
}

/// A table whose keys are texts.
#[verifier::external_body]
pub struct TextTable {
    inner: StableBTreeMap<String, Vec<u8>, VirtualMemory<DefaultMemoryImpl>>,
}

/// A table whose keys are principals.
#[verifier::external_body]
pub struct PrincipalTable {
    inner: StableBTreeMap<Principal, Vec<u8>, VirtualMemory<DefaultMemoryImpl>>,
}

/// What a text table holds.
pub uninterp spec fn text_entries(t: TextTable) -> Map<Seq<char>, Seq<u8>>;

/// What a principal table holds, each principal by its bytes.
pub uninterp spec fn principal_entries(t: PrincipalTable) -> Map<Seq<u8>, Seq<u8>>;

/// Whether `s` lists every entry of `m` once, in the order of the keys.
pub open spec fn lists_text(s: Seq<(String, Vec<u8>)>, m: Map<Seq<char>, Seq<u8>>) -> bool {
    &&& forall|i: int| 0 <= i < s.len() ==> #[trigger] m.contains_pair(s[i].0@, s[i].1@)
    &&& forall|k: Seq<char>| #[trigger]
        m.contains_key(k) ==> exists|i: int| 0 <= i < s.len() && #[trigger] s[i].0@ == k
    &&& forall|i: int, j: int|
        0 <= i < j < s.len() ==> text_before(#[trigger] s[i].0@, #[trigger] s[j].0@)
}

/// Whether `s` lists every entry of `m` once, in the order of the keys.
pub open spec fn lists_principals(s: Seq<(Vec<u8>, Vec<u8>)>, m: Map<Seq<u8>, Seq<u8>>) -> bool {
    &&& forall|i: int| 0 <= i < s.len() ==> #[trigger] m.contains_pair(s[i].0@, s[i].1@)
    &&& forall|k: Seq<u8>| #[trigger]
        m.contains_key(k) ==> exists|i: int| 0 <= i < s.len() && #[trigger] s[i].0@ == k
    &&& forall|i: int, j: int|
        0 <= i < j < s.len() ==> principal_before(#[trigger] s[i].0@, #[trigger] s[j].0@)
}

/// A table that a sequence lists has finitely many keys.
pub proof fn lemma_listed_text_finite(s: Seq<(String, Vec<u8>)>, m: Map<Seq<char>, Seq<u8>>)
    requires
        lists_text(s, m),
    ensures
        m.dom().finite(),
{
    let keys = Seq::new(s.len(), |i: int| s[i].0@);
    assert(m.dom() =~= keys.to_set()) by {
        assert forall|k: Seq<char>| m.dom().contains(k) implies keys.to_set().contains(k) by {
            let i = choose|i: int| 0 <= i < s.len() && #[trigger] s[i].0@ == k;
            assert(keys[i] == k);
        }
        assert forall|k: Seq<char>| keys.to_set().contains(k) implies m.dom().contains(k) by {
            let i = choose|i: int| 0 <= i < keys.len() && keys[i] == k;
            assert(m.contains_pair(s[i].0@, s[i].1@));
        }
    }
    seq_to_set_is_finite(keys);
}

/// A table that a sequence lists has finitely many keys.
pub proof fn lemma_listed_principals_finite(
    s: Seq<(Vec<u8>, Vec<u8>)>,
    m: Map<Seq<u8>, Seq<u8>>,
)
    requires
        lists_principals(s, m),
    ensures
        m.dom().finite(),
{
    let keys = Seq::new(s.len(), |i: int| s[i].0@);
    assert(m.dom() =~= keys.to_set()) by {
        assert forall|k: Seq<u8>| m.dom().contains(k) implies keys.to_set().contains(k) by {
            let i = choose|i: int| 0 <= i < s.len() && #[trigger] s[i].0@ == k;
            assert(keys[i] == k);
        }
        assert forall|k: Seq<u8>| keys.to_set().contains(k) implies m.dom().contains(k) by {
            let i = choose|i: int| 0 <= i < keys.len() && keys[i] == k;
            assert(m.contains_pair(s[i].0@, s[i].1@));
        }
    }
    seq_to_set_is_finite(keys);
}

/// `MemoryManager::init` over `DefaultMemoryImpl::default()`, and on four of
/// its virtual memories (`MemoryManager::get`, `MemoryId::new`, which
/// refuses 255) `StableBTreeMap::init`: each loads the map that its memory
/// holds, or makes an empty one. Nothing is claimed of the contents, which
/// are whatever the memory held.
#[verifier::external_body]
pub(crate) fn open_tables(users: u8, offers: u8, requests: u8, transactions: u8) -> (r: (
    PrincipalTable,
    TextTable,
    TextTable,
    TextTable,
))
    requires
        users < 255 && offers < 255 && requests < 255 && transactions < 255,
        users != offers && users != requests && users != transactions,
        offers != requests && offers != transactions && requests != transactions,
{
    let memories = MemoryManager::init(DefaultMemoryImpl::default());
    (
        PrincipalTable { inner: StableBTreeMap::init(memories.get(MemoryId::new(users))) },
        TextTable { inner: StableBTreeMap::init(memories.get(MemoryId::new(offers))) },
        TextTable { inner: StableBTreeMap::init(memories.get(MemoryId::new(requests))) },
        TextTable { inner: StableBTreeMap::init(memories.get(MemoryId::new(transactions))) },
    )
}

/// `StableBTreeMap::get`: the value under the key, if the key is there.
#[verifier::external_body]
pub(crate) fn text_get(t: &TextTable, key: &String) -> (r: Option<Vec<u8>>)
    ensures
        r is Some <==> text_entries(*t).contains_key(key@),
        r matches Some(v) ==> v@ == text_entries(*t)[key@],
{
    t.inner.get(key)
}

/// `StableBTreeMap::insert`: puts the value under the key, in place of the
/// value that was there, and leaves every other entry. It is taken not to
/// unwind: where stable memory cannot grow, the canister traps.
#[verifier::external_body]
pub(crate) fn text_insert(t: &mut TextTable, key: String, value: Vec<u8>)
    ensures
        text_entries(*final(t)) == text_entries(*old(t)).insert(key@, value@),
    no_unwind
{
    t.inner.insert(key, value);
}

/// `StableBTreeMap::len`: the number of entries.
#[verifier::external_body]
pub(crate) fn text_len(t: &TextTable) -> (r: u64)
    ensures
        r == text_entries(*t).dom().len(),
{
    t.inner.len()
}

/// `StableBTreeMap::iter`, collected: every entry once, sorted by key.
#[verifier::external_body]
pub(crate) fn text_scan(t: &TextTable) -> (r: Vec<(String, Vec<u8>)>)
    ensures
        lists_text(r@, text_entries(*t)),
{
    t.inner.iter().collect()
}

/// `StableBTreeMap::get` under `Principal::from_slice(key)`, which takes
/// at most 29 bytes: the value under the key, if the key is there.
#[verifier::external_body]
pub(crate) fn principal_get(t: &PrincipalTable, key: &Vec<u8>) -> (r: Option<Vec<u8>>)
    requires
        key@.len() <= 29,
    ensures
        r is Some <==> principal_entries(*t).contains_key(key@),
        r matches Some(v) ==> v@ == principal_entries(*t)[key@],
{
    t.inner.get(&Principal::from_slice(key))
}

/// `StableBTreeMap::insert` under `Principal::from_slice(key)`: puts the
/// value under the key, in place of the value that was there, and leaves
/// every other entry. It is taken not to unwind, as `text_insert`.
#[verifier::external_body]
pub(crate) fn principal_insert(t: &mut PrincipalTable, key: &Vec<u8>, value: Vec<u8>)
    requires
        key@.len() <= 29,
    ensures
        principal_entries(*final(t)) == principal_entries(*old(t)).insert(key@, value@),
    no_unwind
{
    t.inner.insert(Principal::from_slice(key), value);
}

/// `StableBTreeMap::len`: the number of entries.
#[verifier::external_body]
pub(crate) fn principal_len(t: &PrincipalTable) -> (r: u64)
    ensures
        r == principal_entries(*t).dom().len(),
{
    t.inner.len()
}

/// `StableBTreeMap::iter`, collected, each key by `Principal::as_slice`:
/// every entry once, sorted by key.
#[verifier::external_body]
pub(crate) fn principal_scan(t: &PrincipalTable) -> (r: Vec<(Vec<u8>, Vec<u8>)>)
    ensures
        lists_principals(r@, principal_entries(*t)),
{
    t.inner.iter().map(|(k, v)| (k.as_slice().to_vec(), v)).collect()
}

/// `Principal::anonymous`, by `Principal::as_slice`: the one byte 4.
#[verifier::external_body]
pub(crate) fn anonymous_bytes() -> (r: Vec<u8>)
    ensures
        r@ == seq![4u8],
{
    Principal::anonymous().as_slice().to_vec()
}

} // verus!
