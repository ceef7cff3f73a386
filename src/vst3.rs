use vstd::prelude::*;

use crate::platform::Platform;
use crate::plugin::Plugin;

verus! {

/// Where the byte at position `i` of a platform-ordered VST3 class identifier comes from in the
/// identifier as written: the first four bytes are reversed, and so are the two pairs after them.
pub open spec fn vst3_uid_source_index(i: int) -> int {
    if i == 0 {
        3
    } else if i == 1 {
        2
    } else if i == 2 {
        1
    } else if i == 3 {
        0
    } else if i == 4 {
        5
    } else if i == 5 {
        4
    } else if i == 6 {
        7
    } else if i == 7 {
        6
    } else {
        i
    }
}

/// A VST3 class identifier in the byte order that hosts on `platform` use.
pub open spec fn platform_vst3_uid(uid: Seq<u8>, platform: Platform) -> Seq<u8> {
    if platform.swaps_vst3_uid() {
        Seq::new(uid.len(), |i: int| uid[vst3_uid_source_index(i)])
    } else {
        uid
    }
}

/// Provides auxiliary metadata needed for a VST3 plugin.
pub trait Vst3Plugin<B>: Plugin<B> {
    /// The unique class ID that identifies this particular plugin. You can use the
    /// `*b"fooofooofooofooo"` syntax for this. It is shuffled into a different byte order on
    /// Windows for project compatibility; see `platform_vst3_class_id`.
    const VST3_CLASS_ID: [u8; 16];
    /// One or more categories, separated by pipe characters (`|`), up to 127 characters.
    /// Anything longer than that will be truncated.
    const VST3_CATEGORIES: &'static str;

    /// `VST3_CLASS_ID` in the correct order for `platform`, so that projects and presets can be
    /// shared between platforms. This should not be overridden.
    fn platform_vst3_class_id(platform: Platform) -> (r: [u8; 16])
        ensures
            r@ == platform_vst3_uid(Self::VST3_CLASS_ID@, platform),
    {
        swap_vst3_uid_byte_order(Self::VST3_CLASS_ID, platform)
    }
}

/// Put a VST3 class identifier in the byte order of `platform`, so that projects and presets
/// can be shared between platforms. On Windows the identifier's first field is stored as a
/// little-endian 32-bit integer and the next two as little-endian 16-bit integers; everywhere
/// else the bytes stay as they are.
pub fn swap_vst3_uid_byte_order(uid: [u8; 16], platform: Platform) -> (r: [u8; 16])
    ensures
        r@ == platform_vst3_uid(uid@, platform),
{
    match platform {
        Platform::Windows => {
            let r = [
                uid[3],
                uid[2],
                uid[1],
                uid[0],
                uid[5],
                uid[4],
                uid[7],
                uid[6],
                uid[8],
                uid[9],
                uid[10],
                uid[11],
                uid[12],
                uid[13],
                uid[14],
                uid[15],
            ];
            assert(r@ =~= platform_vst3_uid(uid@, platform));
            r
        },
        _ => uid,
    }
}

/// The platform transform undoes itself: applying it twice gives back the identifier as
/// written, on every platform; and on a platform that keeps the written order it changes
/// nothing.
pub proof fn lemma_platform_vst3_uid_involution(uid: [u8; 16], platform: Platform)
    ensures
        platform_vst3_uid(platform_vst3_uid(uid@, platform), platform) == uid@,
        !platform.swaps_vst3_uid() ==> platform_vst3_uid(uid@, platform) == uid@,
{
    let once = platform_vst3_uid(uid@, platform);
    assert(platform_vst3_uid(once, platform) =~= uid@);
}

} // verus!
