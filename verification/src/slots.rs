//! The keyed slot collection that backs the instance store, and what is
//! taken on trust about it.

use slotmap::{DefaultKey, Key, KeyData, SlotMap};
use vstd::prelude::*;

use crate::rectangle::Rectangle;

verus! {

/// A slot map of rectangles under its default keys. Verus sees nothing
/// inside it: all that is known of one is what the functions of this file
/// state.
#[verifier::external_body]
pub struct SlotTable {
    inner: SlotMap<DefaultKey, Rectangle>,
}

/// The live entries of a slot map in the order in which it walks them, each
/// key as the 64-bit number that `KeyData::as_ffi` gives for it.
pub uninterp spec fn slot_entries(map: SlotTable) -> Seq<(u64, Rectangle)>;

/// How many further insertions a slot map takes before it is full: the
/// vacant slots on its free list plus the slots it may still create.
pub uninterp spec fn slot_headroom(map: SlotTable) -> nat;

/// Headroom of a map that holds nothing and has created no slot.
pub const FRESH_HEADROOM: u32 = 0xFFFF_FFFE;

/// Whether some entry of `entries` has the key `key`.
pub open spec fn has_key(entries: Seq<(u64, Rectangle)>, key: u64) -> bool {
    exists|i: int| 0 <= i < entries.len() && (#[trigger] entries[i]).0 == key
}

/// The key that a lookup with the number `raw` asks for. The upper half of
/// the number is the key's version, which is always odd: `KeyData::from_ffi`
/// sets its lowest bit.
pub open spec fn lookup_key(raw: u64) -> u64 {
    raw | 0x1_0000_0000
}

/// `SlotMap::new`: the map holds nothing and has all its headroom.
#[verifier::external_body]
pub(crate) fn slots_new() -> (map: SlotTable)
    ensures
        slot_entries(map) == Seq::<(u64, Rectangle)>::empty(),
        slot_headroom(map) == FRESH_HEADROOM,
{
    SlotTable { inner: SlotMap::new() }
}

/// `SlotMap::len`: the number of live entries, which the map counts in 32
/// bits.
#[verifier::external_body]
pub(crate) fn slots_len(map: &SlotTable) -> (n: usize)
    ensures
        n == slot_entries(*map).len(),
        n <= u32::MAX,
{
    map.inner.len()
}

/// `SlotMap::insert`, which panics on a full map; the key comes back as the
/// number that `KeyData::as_ffi` gives for it. The new entry takes a vacant
/// slot or a new one, so it may land anywhere in the walk; its key has an
/// odd version and belongs to no other live entry.
#[verifier::external_body]
pub(crate) fn slots_insert(map: &mut SlotTable, value: Rectangle) -> (raw: u64)
    requires
        slot_headroom(*old(map)) > 0,
    ensures
        lookup_key(raw) == raw,
        !has_key(slot_entries(*old(map)), raw),
        exists|i: int|
            0 <= i <= slot_entries(*old(map)).len() && slot_entries(*final(map))
                == #[trigger] slot_entries(*old(map)).insert(i, (raw, value)),
        slot_headroom(*final(map)) == slot_headroom(*old(map)) - 1,
{
    map.inner.insert(value).data().as_ffi()
}

/// `SlotMap::remove`, with the key that `KeyData::from_ffi` makes of `raw`:
/// takes out the entry under the key, if it is live, and frees its slot
/// for reuse.
#[verifier::external_body]
pub(crate) fn slots_remove(map: &mut SlotTable, raw: u64) -> (removed: Option<
    Rectangle,
>)
    ensures
        match removed {
            Some(value) => exists|i: int|
                0 <= i < slot_entries(*old(map)).len() && slot_entries(*old(map))[i] == (
                    lookup_key(raw),
                    value,
                ) && slot_entries(*final(map)) == #[trigger] slot_entries(*old(map)).remove(i),
            None => !has_key(slot_entries(*old(map)), lookup_key(raw)) && slot_entries(*final(map))
                == slot_entries(*old(map)),
        },
        slot_headroom(*final(map)) == slot_headroom(*old(map)) + (if removed.is_some() {
            1nat
        } else {
            0nat
        }),
{
    map.inner.remove(DefaultKey::from(KeyData::from_ffi(raw)))
}

/// `SlotMap::get_mut`, with the key that `KeyData::from_ffi` makes of
/// `raw`: a handle on the value under the key, if it is live. Whatever is
/// written through the handle replaces that value and nothing else.
#[verifier::external_body]
pub(crate) fn slots_get_mut(map: &mut SlotTable, raw: u64) -> (found: Option<
    &mut Rectangle,
>)
    ensures
        found.is_some() ==> exists|i: int|
            0 <= i < slot_entries(*old(map)).len() && slot_entries(*old(map))[i] == (
                lookup_key(raw),
                *found.unwrap(),
            ) && slot_entries(*final(map)) == #[trigger] slot_entries(*old(map)).update(
                i,
                (lookup_key(raw), *final(found.unwrap())),
            ),
        found.is_none() ==> !has_key(slot_entries(*old(map)), lookup_key(raw)) && slot_entries(
            *final(map),
        ) == slot_entries(*old(map)),
        slot_headroom(*final(map)) == slot_headroom(*old(map)),
{
    map.inner.get_mut(DefaultKey::from(KeyData::from_ffi(raw)))
}

/// `SlotMap::values`, collected: the live values in the order of the walk.
#[verifier::external_body]
pub(crate) fn slots_values(map: &SlotTable) -> (values: Vec<Rectangle>)
    ensures
        values@ == slot_entries(*map).map_values(|entry: (u64, Rectangle)| entry.1),
{
    map.inner.values().copied().collect()
}

} // verus!
