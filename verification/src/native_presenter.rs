//! CPU writes into the hardware buffers of the Android native presenter.
//!
//! A buffer slot holds `height` rows; each row is `max(stride, width)`
//! pixels of four bytes. A CPU write either fills the visible part of every
//! row with one RGBA colour or copies an RGBA8888 frame, row by row, from a
//! source whose rows are `stride_bytes` apart. This module checks a write
//! against a slot and performs it on the locked buffer's bytes; locking the
//! buffer and presenting it are left to the caller.

use vstd::prelude::*;
use vstd::arithmetic::div_mod::{lemma_fundamental_div_mod, lemma_fundamental_div_mod_converse};

verus! {

/// Bytes per RGBA8 pixel.
pub const RGBA8_BYTES_PER_PIXEL: usize = 4;

/// A CPU write into a buffer slot.
pub enum CpuAhbWrite<'a> {
    /// Fill every visible pixel with one colour.
    SolidRgba([u8; 4]),
    /// Copy an RGBA8888 frame of `width` x `height` pixels whose rows start
    /// `stride_bytes` apart in `pixels`.
    Rgba8888 { pixels: &'a [u8], width: u32, height: u32, stride_bytes: usize },
}

/// Why a CPU write does not fit a slot.
#[derive(Debug, Clone, Copy, PartialEq, Eq, Structural)]
pub enum CpuWriteError {
    /// The frame is wider or taller than the slot.
    FrameExceedsSlot { width: u32, height: u32, slot_width: u32, slot_height: u32 },
    /// A row of the frame has more bytes than a `usize` holds.
    RowSizeOverflow,
    /// The source rows are closer together than a row is long.
    StrideTooSmall { stride_bytes: usize, row_bytes: usize },
    /// The bytes the frame spans do not fit in a `usize`.
    BufferSizeOverflow,
    /// The source holds fewer bytes than the frame spans.
    BufferTooSmall { len: usize, required: usize },
}

/// Bytes the frame spans in its source: every row but the last a full
/// stride, and the last row its pixels.
pub open spec fn required_source_len(width: u32, height: u32, stride_bytes: usize) -> int {
    if height == 0 {
        0
    } else {
        stride_bytes * (height - 1) + width * 4
    }
}

/// The outcome of checking `write` against a slot of `slot_width` x `slot_height`.
pub open spec fn cpu_write_check(slot_width: u32, slot_height: u32, write: CpuAhbWrite) -> Result<(), CpuWriteError> {
    match write {
        CpuAhbWrite::SolidRgba(_) => Ok(()),
        CpuAhbWrite::Rgba8888 { pixels, width, height, stride_bytes } => {
            if width > slot_width || height > slot_height {
                Err(
                    CpuWriteError::FrameExceedsSlot {
                        width,
                        height,
                        slot_width,
                        slot_height,
                    },
                )
            } else if width * 4 > usize::MAX {
                Err(CpuWriteError::RowSizeOverflow)
            } else if stride_bytes < width * 4 {
                Err(
                    CpuWriteError::StrideTooSmall {
                        stride_bytes,
                        row_bytes: (width * 4) as usize,
                    },
                )
            } else if required_source_len(width, height, stride_bytes) > usize::MAX {
                Err(CpuWriteError::BufferSizeOverflow)
            } else if pixels@.len() < required_source_len(width, height, stride_bytes) {
                Err(
                    CpuWriteError::BufferTooSmall {
                        len: pixels@.len() as usize,
                        required: required_source_len(width, height, stride_bytes) as usize,
                    },
                )
            } else {
                Ok(())
            }
        },
    }
}

/// Checks that `write` fits a slot of `slot_width` x `slot_height`: the
/// frame is no larger than the slot, its stride covers a row, and its
/// source holds every byte the frame spans.
pub fn validate_cpu_write(slot_width: u32, slot_height: u32, write: &CpuAhbWrite) -> (r: Result<
    (),
    CpuWriteError,
>)
    ensures
        r == cpu_write_check(slot_width, slot_height, *write),
{
    match write {
        CpuAhbWrite::SolidRgba(_) => Ok(()),
        CpuAhbWrite::Rgba8888 { pixels, width, height, stride_bytes } => {
            let width = *width;
            let height = *height;
            let stride_bytes = *stride_bytes;
            if width > slot_width || height > slot_height {
                return Err(
                    CpuWriteError::FrameExceedsSlot { width, height, slot_width, slot_height },
                );
            }
            let row_bytes = match (width as usize).checked_mul(RGBA8_BYTES_PER_PIXEL) {
                Some(b) => b,
                None => return Err(CpuWriteError::RowSizeOverflow),
            };
            if stride_bytes < row_bytes {
                return Err(CpuWriteError::StrideTooSmall { stride_bytes, row_bytes });
            }
            let required_len: usize = if height == 0 {
                0
            } else {
                match stride_bytes.checked_mul((height - 1) as usize) {
                    Some(base) => match base.checked_add(row_bytes) {
                        Some(n) => n,
                        None => return Err(CpuWriteError::BufferSizeOverflow),
                    },
                    None => {
                        assert(stride_bytes * (height - 1) + width * 4 > usize::MAX);
                        return Err(CpuWriteError::BufferSizeOverflow);
                    },
                }
            };
            if pixels.len() < required_len {
                return Err(CpuWriteError::BufferTooSmall { len: pixels.len(), required: required_len });
            }
            Ok(())
        },
    }
}

/// Whether byte `p` of a buffer whose rows are `row_stride` bytes apart
/// lies in the first `row_len` bytes of one of its first `rows` rows.
pub open spec fn in_rows(p: int, row_stride: int, row_len: int, rows: int) -> bool {
    &&& row_len > 0
    &&& 0 <= p
    &&& p / row_stride < rows
    &&& p % row_stride < row_len
}

/// Byte `p` of the buffer after `write` into a slot of `slot_width` x
/// `slot_height` whose rows are `row_stride` bytes apart; `before` is the
/// buffer before the write.
pub open spec fn written_byte(
    before: Seq<u8>,
    p: int,
    row_stride: int,
    slot_width: u32,
    slot_height: u32,
    write: CpuAhbWrite,
) -> u8 {
    match write {
        CpuAhbWrite::SolidRgba(rgba) => if in_rows(p, row_stride, slot_width * 4, slot_height as int) {
            rgba@[(p % row_stride) % 4]
        } else {
            before[p]
        },
        CpuAhbWrite::Rgba8888 { pixels, width, height, stride_bytes } => if in_rows(
            p,
            row_stride,
            width * 4,
            height as int,
        ) {
            pixels@[(p / row_stride) * stride_bytes + p % row_stride]
        } else {
            before[p]
        },
    }
}

/// Row length in pixels of a slot: its stride, or its width when that is larger.
pub open spec fn slot_row_pixels(slot_width: u32, slot_stride: u32) -> int {
    if slot_stride >= slot_width {
        slot_stride as int
    } else {
        slot_width as int
    }
}

proof fn lemma_row_step(p: int, r: int, y: int, x: int)
    requires
        r > 0,
        0 <= x < r,
        0 <= p,
    ensures
        (p / r == y && p % r == x) <==> p == y * r + x,
{
    lemma_fundamental_div_mod(p, r);
    if p == y * r + x {
        lemma_fundamental_div_mod_converse(p, r, y, x);
    }
    assert(r * (p / r) == (p / r) * r) by (nonlinear_arith);
}

/// Copies `len` bytes per row over `rows` rows: byte `x` of row `y` of the
/// buffer (rows `row_stride` apart) becomes `source(y, x)`.
fn write_rows(
    dst: &mut [u8],
    row_stride: usize,
    row_len: usize,
    rows: usize,
    write: &CpuAhbWrite,
    slot_width: u32,
    slot_height: u32,
)
    requires
        row_len <= row_stride,
        rows * row_stride <= old(dst)@.len(),
        cpu_write_check(slot_width, slot_height, *write) is Ok,
        match *write {
            CpuAhbWrite::SolidRgba(_) => row_len == slot_width * 4 && rows == slot_height,
            CpuAhbWrite::Rgba8888 { width, height, .. } => row_len == width * 4 && rows == height,
        },
    ensures
        final(dst)@.len() == old(dst)@.len(),
        forall|p: int|
            0 <= p < old(dst)@.len() ==> #[trigger] final(dst)@[p] == written_byte(
                old(dst)@,
                p,
                row_stride as int,
                slot_width,
                slot_height,
                *write,
            ),
{
    let ghost before = dst@;
    let total: usize = dst.len();
    let mut y: usize = 0;
    while y < rows
        invariant
            row_len <= row_stride,
            rows * row_stride <= before.len(),
            0 <= y <= rows,
            total == before.len(),
            dst@.len() == before.len(),
            cpu_write_check(slot_width, slot_height, *write) is Ok,
            match *write {
                CpuAhbWrite::SolidRgba(_) => row_len == slot_width * 4 && rows == slot_height,
                CpuAhbWrite::Rgba8888 { width, height, .. } => row_len == width * 4 && rows
                    == height,
            },
            forall|p: int|
                0 <= p < before.len() ==> #[trigger] dst@[p] == (if in_rows(
                    p,
                    row_stride as int,
                    row_len as int,
                    y as int,
                ) {
                    written_byte(before, p, row_stride as int, slot_width, slot_height, *write)
                } else {
                    before[p]
                }),
        decreases rows - y,
    {
        assert((y + 1) * row_stride <= rows * row_stride) by (nonlinear_arith)
            requires
                y + 1 <= rows,
        ;
        assert(y * row_stride + row_stride == (y + 1) * row_stride) by (nonlinear_arith);
        let base: usize = y * row_stride;
        let mut x: usize = 0;
        while x < row_len
            invariant
                row_len <= row_stride,
                rows * row_stride <= before.len(),
                0 <= y < rows,
                0 <= x <= row_len,
                base == y * row_stride,
                base + row_stride <= before.len(),
                dst@.len() == before.len(),
                cpu_write_check(slot_width, slot_height, *write) is Ok,
                match *write {
                    CpuAhbWrite::SolidRgba(_) => row_len == slot_width * 4 && rows == slot_height,
                    CpuAhbWrite::Rgba8888 { width, height, .. } => row_len == width * 4 && rows
                        == height,
                },
                forall|p: int|
                    0 <= p < before.len() ==> #[trigger] dst@[p] == (if in_rows(
                        p,
                        row_stride as int,
                        row_len as int,
                        y as int,
                    ) || (p / (row_stride as int) == y && p % (row_stride as int) < x) {
                        written_byte(before, p, row_stride as int, slot_width, slot_height, *write)
                    } else {
                        before[p]
                    }),
            decreases row_len - x,
        {
            let q: usize = base + x;
            proof {
                lemma_row_step(q as int, row_stride as int, y as int, x as int);
            }
            let v: u8 = match write {
                CpuAhbWrite::SolidRgba(rgba) => rgba[x % 4],
                CpuAhbWrite::Rgba8888 { pixels, stride_bytes, height, width } => {
                    assert(y * *stride_bytes + x < required_source_len(*width, *height, *stride_bytes))
                        by (nonlinear_arith)
                        requires
                            y < *height,
                            x < *width * 4,
                            required_source_len(*width, *height, *stride_bytes) == *stride_bytes
                                * (*height - 1) + *width * 4,
                    ;
                    pixels[y * *stride_bytes + x]
                },
            };
            let ghost prev = dst@;
            dst[q] = v;
            proof {
                assert forall|p: int| 0 <= p < before.len() implies #[trigger] dst@[p] == (if in_rows(
                    p,
                    row_stride as int,
                    row_len as int,
                    y as int,
                ) || (p / (row_stride as int) == y && p % (row_stride as int) < x + 1) {
                    written_byte(before, p, row_stride as int, slot_width, slot_height, *write)
                } else {
                    before[p]
                }) by {
                    lemma_row_step(p, row_stride as int, y as int, x as int);
                    if p == q {
                        assert(in_rows(p, row_stride as int, row_len as int, rows as int));
                    } else {
                        assert(dst@[p] == prev[p]);
                    }
                }
            }
            x = x + 1;
        }
        proof {
            assert forall|p: int| 0 <= p < before.len() implies #[trigger] dst@[p] == (if in_rows(
                p,
                row_stride as int,
                row_len as int,
                y + 1,
            ) {
                written_byte(before, p, row_stride as int, slot_width, slot_height, *write)
            } else {
                before[p]
            }) by {}
        }
        y = y + 1;
    }
    proof {
        assert forall|p: int| 0 <= p < before.len() implies #[trigger] dst@[p] == written_byte(
            before,
            p,
            row_stride as int,
            slot_width,
            slot_height,
            *write,
        ) by {}
    }
}

/// Performs `write` on the bytes of a locked slot of `slot_width` x
/// `slot_height` with a row stride of `slot_stride` pixels: `dst` is the
/// slot's memory, `max(slot_stride, slot_width)` pixels per row. Bytes
/// outside the written rows are left as they were.
pub fn write_cpu_pixels(
    dst: &mut [u8],
    slot_width: u32,
    slot_height: u32,
    slot_stride: u32,
    write: &CpuAhbWrite,
)
    requires
        cpu_write_check(slot_width, slot_height, *write) is Ok,
        slot_row_pixels(slot_width, slot_stride) * 4 <= usize::MAX,
        old(dst)@.len() == slot_row_pixels(slot_width, slot_stride) * slot_height * 4,
    ensures
        final(dst)@.len() == old(dst)@.len(),
        forall|p: int|
            0 <= p < old(dst)@.len() ==> #[trigger] final(dst)@[p] == written_byte(
                old(dst)@,
                p,
                slot_row_pixels(slot_width, slot_stride) * 4,
                slot_width,
                slot_height,
                *write,
            ),
{
    let row_pixels: usize = if slot_stride >= slot_width {
        slot_stride as usize
    } else {
        slot_width as usize
    };
    let row_stride: usize = row_pixels * RGBA8_BYTES_PER_PIXEL;
    assert(row_pixels * slot_height * 4 == slot_height * row_stride) by (nonlinear_arith)
        requires
            row_stride == row_pixels * 4,
    ;
    match write {
        CpuAhbWrite::SolidRgba(_) => {
            assert(slot_width * 4 <= row_stride);
            let row_len = (slot_width as usize) * RGBA8_BYTES_PER_PIXEL;
            write_rows(dst, row_stride, row_len, slot_height as usize, write, slot_width, slot_height);
        },
        CpuAhbWrite::Rgba8888 { width, height, .. } => {
            assert(*width * 4 <= row_stride);
            assert(*height * row_stride <= slot_height * row_stride) by (nonlinear_arith)
                requires
                    *height <= slot_height,
            ;
            let row_len = (*width as usize) * RGBA8_BYTES_PER_PIXEL;
            write_rows(dst, row_stride, row_len, *height as usize, write, slot_width, slot_height);
        },
    }
}

/// Why a CPU frame cannot be presented.
#[derive(Debug, Clone, Copy, PartialEq, Eq, Structural)]
pub enum CpuPresentError {
    /// The frame's size differs from the surface's.
    SizeMismatch { width: u32, height: u32, surface_width: u32, surface_height: u32 },
    /// The presenter has no buffers.
    NoBuffers,
}

/// The ring of buffers of the native presenter: the surface size, the ring
/// depth, the slot the next CPU frame goes to, how many CPU frames were
/// presented, and which one-off probes were submitted.
#[derive(Debug, Clone, Copy)]
pub struct PresenterRing {
    pub width: u32,
    pub height: u32,
    pub depth: usize,
    pub next_cpu_slot: usize,
    pub presented_cpu_frames: u64,
    pub submitted_probe: bool,
    pub submitted_gpu_probe: bool,
}

/// The slot a CPU frame goes to: the next slot, taken modulo the depth
/// (0 when there are no buffers).
pub open spec fn cpu_slot(next: usize, depth: usize) -> int {
    if depth == 0 {
        0
    } else {
        (next % depth) as int
    }
}

/// Whether the presented-frame count is one that gets logged: the first
/// frame and every 120th.
pub open spec fn logged_frame_count(count: u64) -> bool {
    count == 1 || count % 120 == 0
}

impl PresenterRing {
    /// A ring of `depth` buffers for a `width` x `height` surface, with no
    /// frame presented yet.
    pub fn new(width: u32, height: u32, depth: usize) -> (r: Self)
        ensures
            r == (PresenterRing {
                width,
                height,
                depth,
                next_cpu_slot: 0,
                presented_cpu_frames: 0,
                submitted_probe: false,
                submitted_gpu_probe: false,
            }),
    {
        PresenterRing {
            width,
            height,
            depth,
            next_cpu_slot: 0,
            presented_cpu_frames: 0,
            submitted_probe: false,
            submitted_gpu_probe: false,
        }
    }

    /// Whether a resize to `width` x `height` needs a new ring: the size changes.
    pub fn needs_resize(&self, width: u32, height: u32) -> (r: bool)
        ensures
            r == (self.width != width || self.height != height),
    {
        self.width != width || self.height != height
    }

    /// Records that the ring was reallocated with `depth` buffers for a
    /// `width` x `height` surface: the next CPU frame goes to the first slot
    /// and the probes may be submitted again. The frame count is kept.
    pub fn ring_reallocated(&mut self, width: u32, height: u32, depth: usize)
        ensures
            *final(self) == (PresenterRing {
                width,
                height,
                depth,
                next_cpu_slot: 0,
                submitted_probe: false,
                submitted_gpu_probe: false,
                ..*old(self)
            }),
    {
        self.width = width;
        self.height = height;
        self.depth = depth;
        self.next_cpu_slot = 0;
        self.submitted_probe = false;
        self.submitted_gpu_probe = false;
    }

    /// The slot for a CPU frame of `width` x `height`: an error when the
    /// size differs from the surface's or when there are no buffers.
    pub fn cpu_frame_slot(&self, width: u32, height: u32) -> (r: Result<usize, CpuPresentError>)
        ensures
            r == (if width != self.width || height != self.height {
                Err(
                    CpuPresentError::SizeMismatch {
                        width,
                        height,
                        surface_width: self.width,
                        surface_height: self.height,
                    },
                )
            } else if self.depth == 0 {
                Err(CpuPresentError::NoBuffers)
            } else {
                Ok(cpu_slot(self.next_cpu_slot, self.depth) as usize)
            }),
            r matches Ok(i) ==> i < self.depth,
    {
        if width != self.width || height != self.height {
            return Err(
                CpuPresentError::SizeMismatch {
                    width,
                    height,
                    surface_width: self.width,
                    surface_height: self.height,
                },
            );
        }
        let depth = if self.depth > 1 {
            self.depth
        } else {
            1
        };
        let slot_index = self.next_cpu_slot % depth;
        if slot_index >= self.depth {
            return Err(CpuPresentError::NoBuffers);
        }
        Ok(slot_index)
    }

    /// Records that a CPU frame was presented from `slot_index`: the next
    /// frame goes to the following slot, round the ring, and the frame count
    /// grows by one (saturating). The result tells whether this frame count
    /// is one to log.
    pub fn cpu_frame_presented(&mut self, slot_index: usize) -> (log: bool)
        requires
            slot_index < old(self).depth,
        ensures
            final(self).next_cpu_slot == (slot_index + 1) % (old(self).depth as int),
            final(self).presented_cpu_frames == (if old(self).presented_cpu_frames == u64::MAX {
                u64::MAX as int
            } else {
                old(self).presented_cpu_frames + 1
            }),
            final(self).width == old(self).width,
            final(self).height == old(self).height,
            final(self).depth == old(self).depth,
            final(self).submitted_probe == old(self).submitted_probe,
            final(self).submitted_gpu_probe == old(self).submitted_gpu_probe,
            log == logged_frame_count(final(self).presented_cpu_frames),
    {
        self.next_cpu_slot = (slot_index + 1) % self.depth;
        self.presented_cpu_frames = self.presented_cpu_frames.saturating_add(1);
        self.presented_cpu_frames == 1 || self.presented_cpu_frames % 120 == 0
    }
}

/// Presenting CPU frames walks the ring in order: after a frame from slot
/// `i`, the next frame goes to slot `i + 1`, and after the last slot back
/// to the first; every slot handed out is one of the ring's.
pub proof fn lemma_cpu_slots_cycle(next: usize, depth: usize)
    requires
        depth > 0,
    ensures
        0 <= cpu_slot(next, depth) < depth,
        ({
            let i = cpu_slot(next, depth);
            let after = (i + 1) % (depth as int);
            &&& cpu_slot(after as usize, depth) == after
            &&& (i + 1 < depth ==> after == i + 1)
            &&& (i + 1 == depth ==> after == 0)
        }),
{
    let i = cpu_slot(next, depth);
    let after = (i + 1) % (depth as int);
    assert(0 <= after < depth);
    assert((after as usize) % depth == after) by {
        vstd::arithmetic::div_mod::lemma_small_mod(after as nat, depth as nat);
    }
    if i + 1 < depth {
        vstd::arithmetic::div_mod::lemma_small_mod((i + 1) as nat, depth as nat);
    } else {
        vstd::arithmetic::div_mod::lemma_mod_self_0(depth as int);
    }
}

} // verus!
