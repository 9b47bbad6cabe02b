//! A frame-transform stage: reads a source frame, applies a crop, and
//! writes a destination frame in the encoder's configured output format.
//!
//! The encoder allocates its own free-standing destination frames and takes
//! no part in the host/client sharing protocol.  Its transform reports a
//! status code instead of failing: zero for success and a negative class
//! for bad geometry, a format mismatch, or an unmappable frame.

use vstd::prelude::*;

use crate::error::VsError;
use crate::frame::{Backing, Frame};

verus! {

/// The transform succeeded.
pub const ENC_OK: i32 = 0;

/// The crop rectangle is empty or falls outside the source frame.
pub const ENC_BAD_GEOMETRY: i32 = -1;

/// The destination frame's format is not the encoder's output format.
pub const ENC_BAD_FORMAT: i32 = -2;

/// The source or destination frame has no backing store to map.
pub const ENC_NOT_MAPPABLE: i32 = -3;

/// A crop rectangle: the region of the source frame the transform reads.
pub struct VSLRect {
    pub x: i32,
    pub y: i32,
    pub width: i32,
    pub height: i32,
}

impl VSLRect {
    /// A rectangle with the given origin and extent.
    pub fn new(x: i32, y: i32, width: i32, height: i32) -> (r: Self)
        ensures
            r.x == x && r.y == y && r.width == width && r.height == height,
    {
        VSLRect { x, y, width, height }
    }

    pub fn get_width(&self) -> (r: i32)
        ensures
            r == self.width,
    {
        self.width
    }

    pub fn get_height(&self) -> (r: i32)
        ensures
            r == self.height,
    {
        self.height
    }

    pub fn get_x(&self) -> (r: i32)
        ensures
            r == self.x,
    {
        self.x
    }

    pub fn get_y(&self) -> (r: i32)
        ensures
            r == self.y,
    {
        self.y
    }
}

/// Whether the crop rectangle is non-empty and lies inside the source.
pub open spec fn crop_ok(crop: VSLRect, src: Frame) -> bool {
    &&& 0 <= crop.x
    &&& 0 <= crop.y
    &&& 0 < crop.width
    &&& 0 < crop.height
    &&& crop.x + crop.width <= src.width
    &&& crop.y + crop.height <= src.height
}

/// A configured transform context: a profile from a closed set of named
/// configurations, a fixed output format, a frame rate, and the number of
/// frames transformed so far.
pub struct Encoder {
    pub profile: u32,
    pub code: u32,
    pub fps: i32,
    pub frames_done: u64,
}

impl Encoder {
    /// Configures an encoder bound to one output format and frame rate.
    pub fn create(profile: u32, output_fourcc: u32, fps: i32) -> (r: Encoder)
        ensures
            r.profile == profile,
            r.code == output_fourcc,
            r.fps == fps,
            r.frames_done == 0,
    {
        Encoder { profile, code: output_fourcc, fps, frames_done: 0 }
    }

    /// Allocates a free-standing destination frame in the encoder's output
    /// format, sized `width` by `height` with a row stride of `width`, and
    /// carrying the given timing.  Fails with `AllocationFailed` if and
    /// only if either dimension is not positive.
    pub fn new_output_frame(
        &self,
        width: i32,
        height: i32,
        duration: i64,
        pts: i64,
        dts: i64,
    ) -> (r: Result<Frame, VsError>)
        ensures
            width <= 0 || height <= 0 <==> r == Err::<Frame, VsError>(VsError::AllocationFailed),
            r is Err ==> r == Err::<Frame, VsError>(VsError::AllocationFailed),
            r matches Ok(f) ==> f.wf() && f.spec_width() == width as u32 && f.spec_height()
                == height as u32 && f.spec_stride() == width as u32 && f.spec_fourcc() == self.code
                && f.spec_duration() == duration && f.spec_pts() == pts && f.spec_dts() == dts
                && f.spec_backing() == (Backing::Memory {
                size: (width as u64 * height as u64) as u64,
            }) && f.spec_lock() is None && !f.spec_mapped() && f.spec_serial() == 0
                && f.spec_expires() == 0 && f.spec_timestamp() == 0,
    {
        if width <= 0 || height <= 0 {
            return Err(VsError::AllocationFailed);
        }
        let w: u32 = width as u32;
        let h: u32 = height as u32;
        proof {
            let wi = w as int;
            let hi = h as int;
            assert(wi * hi <= 0xffff_ffff * 0xffff_ffff) by (nonlinear_arith)
                requires
                    0 <= wi <= 0xffff_ffff,
                    0 <= hi <= 0xffff_ffff,
            ;
        }
        let size: u64 = (w as u64) * (h as u64);
        Ok(
            Frame {
                serial: 0,
                code: self.code,
                width: w,
                height: h,
                stride: w,
                timestamp: 0,
                pts,
                dts,
                duration,
                expires: 0,
                backing: Backing::Memory { size },
                lock: None,
                mapped: false,
            },
        )
    }

    /// Transforms `source` into `destination`, reading the crop region.
    /// Returns `ENC_BAD_GEOMETRY` if and only if the crop is empty or
    /// outside the source; else `ENC_BAD_FORMAT` if and only if the
    /// destination's format is not the encoder's output format; else
    /// `ENC_NOT_MAPPABLE` if and only if either frame has no backing store.
    /// On success — and only then — returns `ENC_OK`, counts the frame,
    /// and reports through `keyframe` whether the output is a sync point:
    /// the encoder's first output frame is one.
    pub fn frame(
        &mut self,
        source: &Frame,
        destination: &Frame,
        crop: &VSLRect,
        keyframe: &mut i32,
    ) -> (r: i32)
        ensures
            r == ENC_BAD_GEOMETRY <==> !crop_ok(*crop, *source),
            r == ENC_BAD_FORMAT <==> crop_ok(*crop, *source) && destination.spec_fourcc() != old(
                self,
            ).code,
            r == ENC_NOT_MAPPABLE <==> crop_ok(*crop, *source) && destination.spec_fourcc() == old(
                self,
            ).code && !(source.spec_backing().is_bound()
                && destination.spec_backing().is_bound()),
            r == ENC_OK <==> crop_ok(*crop, *source) && destination.spec_fourcc() == old(self).code
                && source.spec_backing().is_bound() && destination.spec_backing().is_bound(),
            r != ENC_OK ==> *final(self) == *old(self) && *final(keyframe) == *old(keyframe),
            r == ENC_OK ==> *final(keyframe) == (if old(self).frames_done == 0 {
                1i32
            } else {
                0i32
            }) && final(self).frames_done == (if old(self).frames_done == u64::MAX {
                u64::MAX
            } else {
                (old(self).frames_done + 1) as u64
            }) && final(self).profile == old(self).profile && final(self).code == old(self).code
                && final(self).fps == old(self).fps,
    {
        if !(crop.x >= 0 && crop.y >= 0 && crop.width > 0 && crop.height > 0 && (crop.x as i64)
            + (crop.width as i64) <= (source.width() as i64) && (crop.y as i64) + (crop.height
            as i64) <= (source.height() as i64)) {
            return ENC_BAD_GEOMETRY;
        }
        if destination.fourcc() != self.code {
            return ENC_BAD_FORMAT;
        }
        if !(source.is_bound() && destination.is_bound()) {
            return ENC_NOT_MAPPABLE;
        }
        *keyframe = if self.frames_done == 0 {
            1
        } else {
            0
        };
        if self.frames_done < u64::MAX {
            self.frames_done = self.frames_done + 1;
        }
        ENC_OK
    }
}

} // verus!
