//! The pixel-buffer pool: a model of the shared-memory region that backs
//! every drawn frame, and the buffers carved out of it.

use vstd::prelude::*;

verus! {

/// One drawable frame: a rectangular pixel region carved out of the pool.
/// Every pixel is four bytes wide (blue, green, red, alpha), so a row takes
/// `stride == 4 * width` bytes and the whole frame `height * stride` bytes.
pub struct PixelBuffer {
    pub width: u32,
    pub height: u32,
    pub stride: usize,
    pub data: Vec<u8>,
}

impl PixelBuffer {
    /// A buffer is well formed when its stride matches its width and its
    /// byte length matches its dimensions.
    pub open spec fn wf(self) -> bool {
        &&& self.stride == 4 * (self.width as int)
        &&& self.data@.len() == (self.height as int) * (self.stride as int)
    }
}

/// The model of the buffer pool: the byte size of the backing
/// shared-memory region. The region only ever grows.
#[derive(Clone, Copy)]
pub struct BufferPool {
    pub capacity: usize,
}

impl BufferPool {
    /// Create a pool whose region holds `initial` bytes.
    pub fn new(initial: usize) -> (p: BufferPool)
        ensures
            p.capacity == initial,
    {
        BufferPool { capacity: initial }
    }

    /// Grow the backing region to at least `bytes`; never shrink it.
    pub fn ensure_capacity(&mut self, bytes: usize)
        ensures
            final(self).capacity >= bytes,
            final(self).capacity >= old(self).capacity,
            final(self).capacity == if old(self).capacity >= bytes {
                old(self).capacity as int
            } else {
                bytes as int
            },
    {
        if self.capacity < bytes {
            self.capacity = bytes;
        }
    }

    /// Carve a fresh zero-filled buffer of `height * stride` bytes out of
    /// the pool. The pool must already be large enough; the router grows it
    /// with `ensure_capacity` before every draw.
    pub fn allocate(&self, width: u32, height: u32) -> (b: PixelBuffer)
        requires
            0 < width,
            0 < height,
            4 * (width as int) * (height as int) <= self.capacity,
        ensures
            b.wf(),
            b.width == width,
            b.height == height,
            b.data@.len() == 4 * (width as int) * (height as int),
            forall|j: int| 0 <= j < b.data@.len() ==> b.data@[j] == 0u8,
    {
        proof {
            assert(4 * (width as int) <= 4 * (width as int) * (height as int))
                by (nonlinear_arith)
                requires 1 <= height as int, 0 <= width as int;
        }
        let stride: usize = 4 * (width as usize);
        let len: usize = stride * (height as usize);
        let mut data: Vec<u8> = Vec::new();
        let mut i: usize = 0;
        while i < len
            invariant
                i <= len,
                data@.len() == i,
                forall|j: int| 0 <= j < i ==> data@[j] == 0u8,
            decreases len - i,
        {
            data.push(0u8);
            i = i + 1;
        }
        proof {
            assert((height as int) * (stride as int) == 4 * (width as int) * (height as int))
                by (nonlinear_arith)
                requires stride as int == 4 * (width as int);
        }
        PixelBuffer { width, height, stride, data }
    }
}

} // verus!
