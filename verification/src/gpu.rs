//! The GPU utilisation reading: which performance counter instances count and
//! when a counter array is worth reading.

use vstd::prelude::*;

use crate::text::{chars_of, contains_chars, has_substring};

verus! {

/// Instances of the GPU engine counter that belong to 3D engines.
pub open spec fn is_3d_engine(name: Seq<char>) -> bool {
    has_substring(name, seq!['e', 'n', 'g', 't', 'y', 'p', 'e', '_', '3', 'D'])
}

/// An instance counts toward the 3D usage exactly when its name contains
/// "engtype_3D" somewhere; instances of other engines (video decode, copy, ...)
/// whose names lack it never count.
pub proof fn lemma_3d_engine_means_engtype_3d(name: Seq<char>)
    ensures
        is_3d_engine(name) <==> exists|i: int|
            0 <= i && i + 10 <= name.len() && #[trigger] name.subrange(i, i + 10) == seq!['e', 'n', 'g', 't', 'y', 'p', 'e', '_', '3', 'D'],
{
    if exists|i: int| 0 <= i && i + 10 <= name.len() && #[trigger] name.subrange(i, i + 10) == seq!['e', 'n', 'g', 't', 'y', 'p', 'e', '_', '3', 'D'] {
        let i = choose|i: int| 0 <= i && i + 10 <= name.len() && #[trigger] name.subrange(i, i + 10) == seq!['e', 'n', 'g', 't', 'y', 'p', 'e', '_', '3', 'D'];
        assert(crate::text::occurs_at(name, seq!['e', 'n', 'g', 't', 'y', 'p', 'e', '_', '3', 'D'], i));
    }
}

/// Whether a counter instance (named like `pid_…_luid_…_eng_0_engtype_3D`)
/// is a 3D engine, whose utilisation is summed.
pub fn is_3d_engine_instance(name: &str) -> (is_3d: bool)
    ensures
        is_3d == is_3d_engine(name@),
        is_3d <==> exists|i: int|
            0 <= i && i + 10 <= name@.len() && #[trigger] name@.subrange(i, i + 10) == seq!['e', 'n', 'g', 't', 'y', 'p', 'e', '_', '3', 'D'],
{
    proof {
        lemma_3d_engine_means_engtype_3d(name@);
    }
    let chars = chars_of(name);
    let tag: [char; 10] = ['e', 'n', 'g', 't', 'y', 'p', 'e', '_', '3', 'D'];
    assert(tag@ =~= seq!['e', 'n', 'g', 't', 'y', 'p', 'e', '_', '3', 'D']);
    contains_chars(chars.as_slice(), &tag)
}

/// The status with which a counter array query asks for a larger buffer.
pub const PDH_MORE_DATA: u32 = 0x8000_07D2;

/// After the sizing query of the counter array, whether to go on and read it:
/// a failed status ends the reading only when no buffer size came back, and
/// an empty buffer or an empty array always ends it. Taken together, the
/// status does not matter: the reading goes on exactly when both the buffer
/// size and the item count are non-zero.
pub fn counter_array_readable(status: u32, buffer_size: u32, item_count: u32) -> (readable: bool)
    ensures
        readable == (buffer_size != 0 && item_count != 0),
{
    if status != 0 && status != PDH_MORE_DATA {
        if buffer_size == 0 {
            return false;
        }
    }
    if buffer_size == 0 || item_count == 0 {
        return false;
    }
    true
}

} // verus!
