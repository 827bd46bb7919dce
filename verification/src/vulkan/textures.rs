//! Moving pixels into device images: the barriers around the copy.

use vstd::prelude::*;

verus! {

/// The layout of an image whose contents do not matter.
pub const LAYOUT_UNDEFINED: i32 = 0;

/// The layout of an image that shaders read.
pub const LAYOUT_SHADER_READ_ONLY_OPTIMAL: i32 = 5;

/// The layout of an image that a transfer writes to.
pub const LAYOUT_TRANSFER_DST_OPTIMAL: i32 = 7;

/// Access by a shader that reads.
pub const ACCESS_SHADER_READ: u32 = 0x20;

/// Access by a transfer that writes.
pub const ACCESS_TRANSFER_WRITE: u32 = 0x1000;

/// The start of the pipeline.
pub const STAGE_TOP_OF_PIPE: u32 = 0x1;

/// The fragment shader stage of the pipeline.
pub const STAGE_FRAGMENT_SHADER: u32 = 0x80;

/// The transfer stage of the pipeline.
pub const STAGE_TRANSFER: u32 = 0x1000;

/// What an image barrier waits for and what it holds back.
#[derive(Clone, Copy, Debug, PartialEq, Eq, Structural)]
pub struct TransitionMasks {
    pub src_access_mask: u32,
    pub dst_access_mask: u32,
    pub src_stage_mask: u32,
    pub dst_stage_mask: u32,
}

/// The masks of the barrier that takes an image from `old_layout` to
/// `new_layout`. Two transitions are known: from undefined to transfer
/// destination, before the copy, and from transfer destination to shader
/// read, after it.
pub fn transition_masks(old_layout: i32, new_layout: i32) -> (masks: Option<TransitionMasks>)
    ensures
        masks == if old_layout == LAYOUT_UNDEFINED && new_layout == LAYOUT_TRANSFER_DST_OPTIMAL {
            Some(
                TransitionMasks {
                    src_access_mask: 0,
                    dst_access_mask: ACCESS_TRANSFER_WRITE,
                    src_stage_mask: STAGE_TOP_OF_PIPE,
                    dst_stage_mask: STAGE_TRANSFER,
                },
            )
        } else if old_layout == LAYOUT_TRANSFER_DST_OPTIMAL && new_layout
            == LAYOUT_SHADER_READ_ONLY_OPTIMAL {
            Some(
                TransitionMasks {
                    src_access_mask: ACCESS_TRANSFER_WRITE,
                    dst_access_mask: ACCESS_SHADER_READ,
                    src_stage_mask: STAGE_TRANSFER,
                    dst_stage_mask: STAGE_FRAGMENT_SHADER,
                },
            )
        } else {
            None::<TransitionMasks>
        },
{
    if old_layout == LAYOUT_UNDEFINED && new_layout == LAYOUT_TRANSFER_DST_OPTIMAL {
        Some(
            TransitionMasks {
                src_access_mask: 0,
                dst_access_mask: ACCESS_TRANSFER_WRITE,
                src_stage_mask: STAGE_TOP_OF_PIPE,
                dst_stage_mask: STAGE_TRANSFER,
            },
        )
    } else if old_layout == LAYOUT_TRANSFER_DST_OPTIMAL && new_layout
        == LAYOUT_SHADER_READ_ONLY_OPTIMAL {
        Some(
            TransitionMasks {
                src_access_mask: ACCESS_TRANSFER_WRITE,
                dst_access_mask: ACCESS_SHADER_READ,
                src_stage_mask: STAGE_TRANSFER,
                dst_stage_mask: STAGE_FRAGMENT_SHADER,
            },
        )
    } else {
        None
    }
}

} // verus!
