//! The fixed-capacity vectors of `heapless` that the protocol logic fills, and what is assumed of
//! the few of their methods that it calls.
//!
//! A `heapless::Vec<T, N>` holds at most `N` items inline. Its contents are named per use: the
//! SDO information payload and the sync manager list of an EEPROM.
use vstd::prelude::*;
use crate::eeprom::types::SyncManager;

verus! {

/// `heapless::Vec`, a vector of at most `N` items stored inline.
#[verifier::external_type_specification]
#[verifier::external_body]
#[verifier::reject_recursive_types(T)]
pub struct ExHeaplessVec<T, const N: usize>(heapless::Vec<T, N>);

/// The bytes an SDO information payload buffer holds, in order.
pub uninterp spec fn info_payload(v: heapless::Vec<u8, 0x1fffe>) -> Seq<u8>;

/// The sync managers a sync manager list holds, in order.
pub uninterp spec fn sync_manager_list(v: heapless::Vec<SyncManager, 8>) -> Seq<SyncManager>;

/// `heapless::Vec::new` for an SDO information payload buffer: it starts empty.
#[verifier::external_body]
pub(crate) fn info_payload_new() -> (r: heapless::Vec<u8, 0x1fffe>)
    ensures
        info_payload(r) == Seq::<u8>::empty(),
{
    heapless::Vec::new()
}

/// `heapless::Vec::extend_from_slice` on an SDO information payload buffer: when the bytes fit
/// in the capacity they are appended and `Ok` is returned; otherwise nothing changes and `Err` is
/// returned.
#[verifier::external_body]
pub(crate) fn info_payload_extend(v: &mut heapless::Vec<u8, 0x1fffe>, other: &[u8]) -> (r: Result<
    (),
    (),
>)
    ensures
        info_payload(*old(v)).len() + other@.len() <= 0x1fffe ==> r is Ok && info_payload(*final(v))
            == info_payload(*old(v)) + other@,
        info_payload(*old(v)).len() + other@.len() > 0x1fffe ==> r is Err && info_payload(*final(v))
            == info_payload(*old(v)),
{
    v.extend_from_slice(other)
}

/// `heapless::Vec::new` for a sync manager list: it starts empty.
#[verifier::external_body]
pub(crate) fn sync_manager_list_new() -> (r: heapless::Vec<SyncManager, 8>)
    ensures
        sync_manager_list(r) == Seq::<SyncManager>::empty(),
{
    heapless::Vec::new()
}

/// `heapless::Vec::push` on a sync manager list: below the capacity of eight the item is
/// appended and `Ok` is returned; a full list is left as it is and the item handed back.
#[verifier::external_body]
pub(crate) fn sync_manager_list_push(
    v: &mut heapless::Vec<SyncManager, 8>,
    item: SyncManager,
) -> (r: Result<(), SyncManager>)
    ensures
        sync_manager_list(*old(v)).len() < 8 ==> r is Ok && sync_manager_list(*final(v))
            == sync_manager_list(*old(v)).push(item),
        sync_manager_list(*old(v)).len() >= 8 ==> (r matches Err(back) && back == item)
            && sync_manager_list(*final(v)) == sync_manager_list(*old(v)),
{
    v.push(item)
}

} // verus!
