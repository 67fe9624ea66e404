//! Where a user's PIN lives in the NV storage of the TPM.
use crate::pinconstants::{PIN_NV_INDEX_BASE, PIN_VERSION_NV_INDEX_OFFSET, PIN_VERSION_UID_MAX};
use crate::pinerror::{PinError, PinResult};
use vstd::prelude::*;

verus! {

/// True of a handle in the range that the TPM reserves for NV indices.
pub open spec fn nv_handle(index: u32) -> bool {
    0x0100_0000 <= index <= 0x01FF_FFFF
}

/// The NV index of the PIN slot of `uid`.
pub open spec fn slot_index(uid: u32) -> u32 {
    (PIN_NV_INDEX_BASE + uid) as u32
}

/// The NV index of the version tag of `uid`.
pub open spec fn tag_index(uid: u32) -> u32 {
    (PIN_NV_INDEX_BASE + PIN_VERSION_NV_INDEX_OFFSET + uid) as u32
}

/// The NV index of the PIN slot of a user.
pub fn nv_index_for_uid(uid: u32) -> (r: PinResult<u32>)
    ensures
        match r {
            Ok(index) => uid <= PIN_VERSION_UID_MAX && index == slot_index(uid),
            Err(e) => uid > PIN_VERSION_UID_MAX && e@ == PinError::<Seq<char>>::UidOverflow(uid),
        },
{
    // PIN slots live in [BASE, BASE + OFFSET), and the version tags occupy
    // [BASE + OFFSET, BASE + 2 * OFFSET). Bounding the uid keeps the two regions
    // disjoint.
    if uid > PIN_VERSION_UID_MAX {
        return Err(PinError::UidOverflow(uid));
    }
    Ok(PIN_NV_INDEX_BASE + uid)
}

/// The NV index of the version tag of a user.
pub fn version_nv_index_for_uid(uid: u32) -> (r: PinResult<u32>)
    ensures
        match r {
            Ok(index) => uid <= PIN_VERSION_UID_MAX && index == tag_index(uid),
            Err(e) => uid > PIN_VERSION_UID_MAX && e@ == PinError::<Seq<char>>::UidOverflow(uid),
        },
{
    if uid > PIN_VERSION_UID_MAX {
        return Err(PinError::UidOverflow(uid));
    }
    Ok(PIN_NV_INDEX_BASE + PIN_VERSION_NV_INDEX_OFFSET + uid)
}

/// Every PIN slot and every version tag has an NV index of its own: no two
/// users share one, and no slot is any user's version tag.
pub proof fn law_indices_are_disjoint(a: u32, b: u32)
    requires
        a <= PIN_VERSION_UID_MAX,
        b <= PIN_VERSION_UID_MAX,
    ensures
        nv_handle(slot_index(a)),
        nv_handle(tag_index(a)),
        slot_index(a) != tag_index(b),
        a != b ==> slot_index(a) != slot_index(b),
        a != b ==> tag_index(a) != tag_index(b),
{
}

/// The slot of a user is at a fixed place for the uid, and the version tag at a fixed
/// distance from it.
pub proof fn law_layout(uid: u32)
    requires
        uid <= 0xF_FFFF,
    ensures
        slot_index(uid) == 0x0150_0000 + uid,
        tag_index(uid) == slot_index(uid) + 0x10_0000,
{
}

} // verus!
