//! Frames: lockable handles over a pixel buffer, with format, geometry
//! and timing metadata.
//!
//! A frame is created unbound, then bound once to backing storage — an
//! anonymous allocation, a file-backed mapping named by a path, or an
//! externally supplied buffer descriptor.  The backing never changes after
//! that; only the lock state and the presence of a mapped view do.  The lock
//! is advisory: acquiring it never blocks, and it fails immediately when any
//! other owner holds it.

use vstd::prelude::*;
use vstd::string::StringSliceAdditionalSpecFns;

use crate::error::VsError;
use crate::fourcc_of;

verus! {

/// The storage bound to a frame.  It is chosen once and never changes for
/// the life of the frame.
pub enum Backing {
    /// No storage yet: the frame was created but never allocated or attached.
    Unbound,
    /// An anonymous in-process allocation of `size` bytes.
    Memory { size: u64 },
    /// A file-backed shared mapping of `size` bytes at a filesystem path.
    Mapping { path: String, size: u64 },
    /// An externally supplied buffer descriptor (`fd`) of `size` bytes
    /// starting at `offset`.
    Dmabuf { fd: i32, size: u64, offset: u64 },
    /// A hardware buffer at a fixed physical address.
    Physical { paddr: u64, size: u64 },
}

impl Backing {
    /// Whether any storage is bound.
    pub open spec fn is_bound(self) -> bool {
        !(self is Unbound)
    }

    /// The number of bytes the backing holds; zero while unbound.
    pub open spec fn spec_size(self) -> u64 {
        match self {
            Backing::Unbound => 0,
            Backing::Memory { size } => size,
            Backing::Mapping { size, .. } => size,
            Backing::Dmabuf { size, .. } => size,
            Backing::Physical { size, .. } => size,
        }
    }
}

/// A frame handle: format and geometry, timing metadata, a backing
/// descriptor, a lock owner, and a mapped-view flag.
pub struct Frame {
    pub serial: i64,
    pub code: u32,
    pub width: u32,
    pub height: u32,
    pub stride: u32,
    pub timestamp: i64,
    pub pts: i64,
    pub dts: i64,
    pub duration: i64,
    pub expires: i64,
    pub backing: Backing,
    pub lock: Option<u64>,
    pub mapped: bool,
}

impl Frame {
    /// A frame is well formed when a mapped view exists only over bound
    /// backing storage.
    pub open spec fn wf(self) -> bool {
        self.mapped ==> self.backing.is_bound()
    }

    /// The serial assigned when the frame was published; zero before that.
    pub open spec fn spec_serial(self) -> i64 {
        self.serial
    }

    /// The packed 4-byte format code.
    pub open spec fn spec_fourcc(self) -> u32 {
        self.code
    }

    pub open spec fn spec_width(self) -> u32 {
        self.width
    }

    pub open spec fn spec_height(self) -> u32 {
        self.height
    }

    pub open spec fn spec_stride(self) -> u32 {
        self.stride
    }

    /// The size in bytes of the bound backing; zero while unbound.
    pub open spec fn spec_size(self) -> u64 {
        self.backing.spec_size()
    }

    pub open spec fn spec_backing(self) -> Backing {
        self.backing
    }

    /// The owner currently holding the advisory lock, if any.
    pub open spec fn spec_lock(self) -> Option<u64> {
        self.lock
    }

    pub open spec fn spec_mapped(self) -> bool {
        self.mapped
    }

    pub open spec fn spec_timestamp(self) -> i64 {
        self.timestamp
    }

    pub open spec fn spec_pts(self) -> i64 {
        self.pts
    }

    pub open spec fn spec_dts(self) -> i64 {
        self.dts
    }

    pub open spec fn spec_duration(self) -> i64 {
        self.duration
    }

    pub open spec fn spec_expires(self) -> i64 {
        self.expires
    }

    /// The frame with the same identity and metadata but possibly different
    /// lock and mapping state: what every access-path operation preserves.
    pub open spec fn same_buffer(self, other: Frame) -> bool {
        self.serial == other.serial && self.code == other.code && self.width == other.width
            && self.height == other.height && self.stride == other.stride && self.timestamp
            == other.timestamp && self.pts == other.pts && self.dts == other.dts && self.duration
            == other.duration && self.expires == other.expires && self.backing == other.backing
    }

    /// Creates an unbound frame.  Fails with `InvalidFormat` if and only if
    /// the format string is not exactly 4 bytes; otherwise the frame carries
    /// the packed code and the given geometry, no backing, no lock, no
    /// mapping, and zeroed timing.
    pub fn new(width: u32, height: u32, stride: u32, fourcc_str: &str) -> (r: Result<
        Frame,
        VsError,
    >)
        ensures
            fourcc_str.spec_bytes().len() != 4 <==> r == Err::<Frame, VsError>(
                VsError::InvalidFormat,
            ),
            r is Err ==> r == Err::<Frame, VsError>(VsError::InvalidFormat),
            r matches Ok(f) ==> f.wf() && f.spec_fourcc() == fourcc_of(fourcc_str.spec_bytes())
                && f.spec_width() == width && f.spec_height() == height && f.spec_stride()
                == stride && f.spec_backing() is Unbound && f.spec_lock() is None
                && !f.spec_mapped() && f.spec_serial() == 0 && f.spec_timestamp() == 0
                && f.spec_pts() == 0 && f.spec_dts() == 0 && f.spec_duration() == 0
                && f.spec_expires() == 0,
    {
        let bytes: &[u8] = fourcc_str.as_bytes();
        if bytes.len() != 4 {
            return Err(VsError::InvalidFormat);
        }
        let code: u32 = (bytes[0] as u32) | ((bytes[1] as u32) << 8) | ((bytes[2] as u32) << 16) | (
        (bytes[3] as u32) << 24);
        Ok(
            Frame {
                serial: 0,
                code,
                width,
                height,
                stride,
                timestamp: 0,
                pts: 0,
                dts: 0,
                duration: 0,
                expires: 0,
                backing: Backing::Unbound,
                lock: None,
                mapped: false,
            },
        )
    }

    /// Binds backing memory: an anonymous allocation, or a file-backed
    /// mapping at `path` when one is given, of `stride * height` bytes.
    /// Fails with `AllocationFailed` if and only if the frame is already
    /// bound; the frame is then unchanged.
    pub fn allocate(&mut self, path: Option<String>) -> (r: Result<(), VsError>)
        ensures
            old(self).spec_backing().is_bound() <==> r == Err::<(), VsError>(
                VsError::AllocationFailed,
            ),
            r is Err ==> r == Err::<(), VsError>(VsError::AllocationFailed) && *final(self)
                == *old(self),
            r is Ok ==> final(self).spec_size() == old(self).spec_stride() as u64 * old(
                self,
            ).spec_height() as u64 && final(self).same_buffer_except_backing(*old(self)) && (match (
                path,
                final(self).spec_backing(),
            ) {
                (Some(p), Backing::Mapping { path: q, size: _ }) => p@ == q@,
                (None, Backing::Memory { size: _ }) => true,
                _ => false,
            }),
            r is Ok ==> final(self).wf(),
    {
        if self.is_bound() {
            return Err(VsError::AllocationFailed);
        }
        proof {
            let s = self.stride as int;
            let h = self.height as int;
            assert(s * h <= 0xffff_ffff * 0xffff_ffff) by (nonlinear_arith)
                requires
                    0 <= s <= 0xffff_ffff,
                    0 <= h <= 0xffff_ffff,
            ;
        }
        let size: u64 = (self.stride as u64) * (self.height as u64);
        match path {
            Some(p) => {
                self.backing = Backing::Mapping { path: p, size };
            },
            None => {
                self.backing = Backing::Memory { size };
            },
        }
        Ok(())
    }

    /// The frame with everything but the backing descriptor unchanged: what
    /// the one-time binding operations preserve.
    pub open spec fn same_buffer_except_backing(self, other: Frame) -> bool {
        self.serial == other.serial && self.code == other.code && self.width == other.width
            && self.height == other.height && self.stride == other.stride && self.timestamp
            == other.timestamp && self.pts == other.pts && self.dts == other.dts && self.duration
            == other.duration && self.expires == other.expires && self.lock == other.lock
            && self.mapped == other.mapped
    }

    /// Binds the frame to an externally supplied buffer descriptor.  Fails
    /// with `InvalidDescriptor` if and only if the descriptor is negative,
    /// the size is zero, or the frame is already bound; the frame is then
    /// unchanged.
    pub fn attach(&mut self, fd: i32, size: u64, offset: u64) -> (r: Result<(), VsError>)
        ensures
            (fd < 0 || size == 0 || old(self).spec_backing().is_bound()) <==> r == Err::<
                (),
                VsError,
            >(VsError::InvalidDescriptor),
            r is Err ==> r == Err::<(), VsError>(VsError::InvalidDescriptor) && *final(self)
                == *old(self),
            r is Ok ==> final(self).spec_backing() == (Backing::Dmabuf { fd, size, offset })
                && final(self).same_buffer_except_backing(*old(self)) && final(self).wf(),
    {
        if fd < 0 || size == 0 || self.is_bound() {
            return Err(VsError::InvalidDescriptor);
        }
        self.backing = Backing::Dmabuf { fd, size, offset };
        Ok(())
    }

    /// Whether backing storage is bound.
    pub fn is_bound(&self) -> (r: bool)
        ensures
            r == self.spec_backing().is_bound(),
    {
        !matches!(self.backing, Backing::Unbound)
    }

    /// Non-blocking advisory lock acquire for `owner`.  Fails with
    /// `AlreadyLocked` if and only if any owner already holds the lock, and
    /// then changes nothing — the existing holder's state is untouched.
    pub fn trylock(&mut self, owner: u64) -> (r: Result<(), VsError>)
        ensures
            old(self).spec_lock() is Some <==> r == Err::<(), VsError>(VsError::AlreadyLocked),
            r is Err ==> r == Err::<(), VsError>(VsError::AlreadyLocked) && *final(self)
                == *old(self),
            r is Ok ==> final(self).spec_lock() == Some(owner) && final(self).same_buffer(
                *old(self),
            ) && final(self).spec_mapped() == old(self).spec_mapped(),
            final(self).wf() == old(self).wf(),
    {
        match self.lock {
            Some(_) => Err(VsError::AlreadyLocked),
            None => {
                self.lock = Some(owner);
                Ok(())
            },
        }
    }

    /// Releases the advisory lock held by `owner`.  Fails with `NotLocked`
    /// if and only if `owner` does not hold the lock; the frame is then
    /// unchanged.
    pub fn unlock(&mut self, owner: u64) -> (r: Result<(), VsError>)
        ensures
            old(self).spec_lock() == Some(owner) <==> r is Ok,
            r is Err ==> r == Err::<(), VsError>(VsError::NotLocked) && *final(self) == *old(self),
            r is Ok ==> final(self).spec_lock() is None && final(self).same_buffer(*old(self))
                && final(self).spec_mapped() == old(self).spec_mapped(),
            final(self).wf() == old(self).wf(),
    {
        let held: bool = match self.lock {
            Some(holder) => holder == owner,
            None => false,
        };
        if !held {
            return Err(VsError::NotLocked);
        }
        self.lock = None;
        Ok(())
    }

    /// Maps the backing store for reading and returns the view's length,
    /// which is exactly the frame's size.  Fails with `NotLockable` if and
    /// only if no backing store is bound; the frame is then unchanged.
    pub fn mmap(&mut self) -> (r: Result<u64, VsError>)
        requires
            old(self).wf(),
        ensures
            !old(self).spec_backing().is_bound() <==> r == Err::<u64, VsError>(
                VsError::NotLockable,
            ),
            r is Err ==> r == Err::<u64, VsError>(VsError::NotLockable) && *final(self)
                == *old(self),
            r matches Ok(n) ==> n == old(self).spec_size() && final(self).spec_mapped()
                && final(self).same_buffer(*old(self)) && final(self).spec_lock() == old(
                self,
            ).spec_lock(),
            final(self).wf(),
    {
        match self.backing {
            Backing::Unbound => Err(VsError::NotLockable),
            _ => {
                self.mapped = true;
                Ok(self.size())
            },
        }
    }

    /// Maps the backing store for writing.  Fails with `NotLockable` if and
    /// only if no backing store is bound, else with `NotLocked` if and only
    /// if `owner` does not hold the lock — a mutable view belongs to the
    /// exclusive lock holder alone.  On failure the frame is unchanged.
    pub fn mmap_mut(&mut self, owner: u64) -> (r: Result<u64, VsError>)
        requires
            old(self).wf(),
        ensures
            !old(self).spec_backing().is_bound() <==> r == Err::<u64, VsError>(
                VsError::NotLockable,
            ),
            old(self).spec_backing().is_bound() && old(self).spec_lock() != Some(owner) <==> r
                == Err::<u64, VsError>(VsError::NotLocked),
            r is Err ==> (r == Err::<u64, VsError>(VsError::NotLockable) || r == Err::<
                u64,
                VsError,
            >(VsError::NotLocked)) && *final(self) == *old(self),
            r matches Ok(n) ==> n == old(self).spec_size() && final(self).spec_mapped()
                && final(self).same_buffer(*old(self)) && final(self).spec_lock() == old(
                self,
            ).spec_lock(),
            final(self).wf(),
    {
        if !self.is_bound() {
            return Err(VsError::NotLockable);
        }
        let held: bool = match self.lock {
            Some(holder) => holder == owner,
            None => false,
        };
        if !held {
            return Err(VsError::NotLocked);
        }
        self.mapped = true;
        Ok(self.size())
    }

    /// Drops the mapped view, if any.  Nothing else changes.
    pub fn munmap(&mut self)
        ensures
            !final(self).spec_mapped(),
            final(self).same_buffer(*old(self)),
            final(self).spec_lock() == old(self).spec_lock(),
            final(self).wf(),
    {
        self.mapped = false;
    }

    /// Releases the frame: unmaps any view, drops any lock, and frees the
    /// backing storage, leaving the handle unbound.
    pub fn release(&mut self)
        ensures
            !final(self).spec_mapped(),
            final(self).spec_lock() is None,
            final(self).spec_backing() is Unbound,
            final(self).same_buffer_except_timing(*old(self)),
            final(self).wf(),
    {
        self.mapped = false;
        self.lock = None;
        self.backing = Backing::Unbound;
    }

    /// The frame with serial, format, geometry and timing unchanged: what a
    /// release preserves.
    pub open spec fn same_buffer_except_timing(self, other: Frame) -> bool {
        self.serial == other.serial && self.code == other.code && self.width == other.width
            && self.height == other.height && self.stride == other.stride && self.timestamp
            == other.timestamp && self.pts == other.pts && self.dts == other.dts && self.duration
            == other.duration && self.expires == other.expires
    }

    /// The serial assigned at publication; zero for an unpublished frame.
    pub fn serial(&self) -> (r: i64)
        ensures
            r == self.spec_serial(),
    {
        self.serial
    }

    /// The wall-clock creation timestamp recorded for this frame.
    pub fn timestamp(&self) -> (r: i64)
        ensures
            r == self.spec_timestamp(),
    {
        self.timestamp
    }

    /// The frame's duration.
    pub fn duration(&self) -> (r: i64)
        ensures
            r == self.spec_duration(),
    {
        self.duration
    }

    /// The presentation timestamp.
    pub fn pts(&self) -> (r: i64)
        ensures
            r == self.spec_pts(),
    {
        self.pts
    }

    /// The decode timestamp.
    pub fn dts(&self) -> (r: i64)
        ensures
            r == self.spec_dts(),
    {
        self.dts
    }

    /// The time after which the frame's slot may be force-reclaimed.
    pub fn expires(&self) -> (r: i64)
        ensures
            r == self.spec_expires(),
    {
        self.expires
    }

    /// The packed 4-byte format code.
    pub fn fourcc(&self) -> (r: u32)
        ensures
            r == self.spec_fourcc(),
    {
        self.code
    }

    /// The frame width in pixels.
    pub fn width(&self) -> (r: u32)
        ensures
            r == self.spec_width(),
    {
        self.width
    }

    /// The frame height in pixels.
    pub fn height(&self) -> (r: u32)
        ensures
            r == self.spec_height(),
    {
        self.height
    }

    /// The row stride in bytes.
    pub fn stride(&self) -> (r: u32)
        ensures
            r == self.spec_stride(),
    {
        self.stride
    }

    /// The size in bytes of the bound backing; zero while unbound.
    pub fn size(&self) -> (r: u64)
        ensures
            r == self.spec_size(),
    {
        match &self.backing {
            Backing::Unbound => 0,
            Backing::Memory { size } => *size,
            Backing::Mapping { size, .. } => *size,
            Backing::Dmabuf { size, .. } => *size,
            Backing::Physical { size, .. } => *size,
        }
    }

    /// The buffer descriptor, when the frame is descriptor-backed.
    pub fn handle(&self) -> (r: Option<i32>)
        ensures
            match self.spec_backing() {
                Backing::Dmabuf { fd, .. } => r == Some(fd),
                _ => r is None,
            },
    {
        match &self.backing {
            Backing::Dmabuf { fd, .. } => Some(*fd),
            _ => None,
        }
    }

    /// The physical address, when the frame is hardware-backed.
    pub fn paddr(&self) -> (r: Option<u64>)
        ensures
            match self.spec_backing() {
                Backing::Physical { paddr, .. } => r == Some(paddr),
                _ => r is None,
            },
    {
        match &self.backing {
            Backing::Physical { paddr, .. } => Some(*paddr),
            _ => None,
        }
    }

    /// The filesystem path, when the frame is backed by a shared mapping.
    pub fn path(&self) -> (r: Option<&String>)
        ensures
            match self.spec_backing() {
                Backing::Mapping { path, .. } => r matches Some(p) && p@ == path@,
                _ => r is None,
            },
    {
        match &self.backing {
            Backing::Mapping { path, .. } => Some(path),
            _ => None,
        }
    }

    /// Whether a mapped view is currently present.
    pub fn mapped(&self) -> (r: bool)
        ensures
            r == self.spec_mapped(),
    {
        self.mapped
    }
}

} // verus!
