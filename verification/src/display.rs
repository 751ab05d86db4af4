//! Display stream types: frames from screen capture, window capture, scrcpy.
//!
//! Published on `nexox/up/display/<node>/<display_id>`.
//! Consumed by minox (VLM input) and argox (live view).
use vstd::prelude::*;

use crate::text::{is_non_empty, non_empty};
use crate::validate::PayloadValidation;

pub mod base64_bytes;

verus! {

/// Video/image codec for display frames.
#[derive(Debug, Clone, Copy, PartialEq, Eq, Structural)]
pub enum Codec {
    Jpeg,
    H264,
    Vp9,
    Raw,
}

/// A single captured display frame.
#[derive(Debug, Clone, PartialEq, Eq)]
pub struct DisplayFrame {
    pub display_id: String,
    pub width: u32,
    pub height: u32,
    pub codec: Codec,
    pub timestamp_us: u64,
    pub sequence: u64,
    /// Encoded frame data (JPEG bytes, H264 NAL, etc.).
    /// Base64 encoded when serialized to JSON (see `base64_bytes`).
    pub data: Vec<u8>,
}

impl DisplayFrame {
    /// A frame has a non-zero size, some data, and names its display.
    pub open spec fn valid(&self) -> bool {
        &&& self.width > 0
        &&& self.height > 0
        &&& self.data@.len() > 0
        &&& non_empty(self.display_id@)
    }
}

impl PayloadValidation for DisplayFrame {
    fn is_valid(&self) -> (b: bool)
        ensures
            b == self.valid(),
    {
        self.width > 0 && self.height > 0 && !self.data.is_empty() && is_non_empty(
            &self.display_id,
        )
    }
}

/// Static metadata about a display source (published on discovery).
#[derive(Debug, Clone, PartialEq, Eq)]
pub struct DisplayInfo {
    pub display_id: String,
    pub name: String,
    pub width: u32,
    pub height: u32,
    pub source_type: DisplaySourceType,
}

#[derive(Debug, Clone, Copy, PartialEq, Eq, Structural)]
pub enum DisplaySourceType {
    NativeScreen,
    NativeWindow,
    ScrcpyTablet,
    VirtualDisplay,
}

impl DisplayInfo {
    /// A display source names itself and has a non-zero size.
    pub open spec fn valid(&self) -> bool {
        non_empty(self.display_id@) && self.width > 0 && self.height > 0
    }
}

impl PayloadValidation for DisplayInfo {
    fn is_valid(&self) -> (b: bool)
        ensures
            b == self.valid(),
    {
        is_non_empty(&self.display_id) && self.width > 0 && self.height > 0
    }
}

/// A frame is valid exactly when its width, height, data and display id
/// are all non-empty; any one of them empty or zero makes it invalid.
pub proof fn lemma_display_frame_rule(f: DisplayFrame)
    ensures
        f.width == 0 ==> !f.valid(),
        f.height == 0 ==> !f.valid(),
        f.data@.len() == 0 ==> !f.valid(),
        f.display_id@.len() == 0 ==> !f.valid(),
        f.width > 0 && f.height > 0 && f.data@.len() > 0 && f.display_id@.len() > 0 ==> f.valid(),
{
}

/// A display source is valid exactly when it is named and has a non-zero
/// width and height; its display name and kind are free.
pub proof fn lemma_display_info_rule(i: DisplayInfo)
    ensures
        i.display_id@.len() == 0 ==> !i.valid(),
        i.width == 0 ==> !i.valid(),
        i.height == 0 ==> !i.valid(),
        i.display_id@.len() > 0 && i.width > 0 && i.height > 0 ==> i.valid(),
{
}

} // verus!
