//! Buffer manager: a CPU-mappable pixel buffer sized to a display mode,
//! its mapping lifecycle, and the deterministic test pattern.
//!
//! A buffer is owned exclusively by its allocator until explicitly
//! destroyed.  A mapping is a temporary borrowed view: `map` hands out a
//! [`MappedView`] token and `unmap` consumes it again, so release before
//! destruction is enforced by construction, and `destroy` additionally
//! refuses to run while a mapping is outstanding.

use vstd::prelude::*;

use crate::errors::HwError;

verus! {

/// Pixel format of a buffer.  The design uses one fixed 24-bit packed
/// format with blue in the lowest byte of each pixel.
#[derive(Clone, Copy, Debug, PartialEq, Eq, Structural)]
pub enum PixelFormat {
    /// Packed 24-bit, bytes in memory order blue-highest: red, green, blue.
    Bgr888,
}

/// Bytes per pixel of the fixed packed format.
pub const BYTES_PER_PIXEL: u32 = 3;

/// Row pitches are aligned up to this many bytes.
pub const PITCH_ALIGN: u32 = 4;

/// A kernel-backed, CPU-mappable pixel buffer.
#[derive(Clone, Copy, Debug, PartialEq, Eq, Structural)]
pub struct PixelBuffer {
    /// Width in pixels.
    pub width: u16,
    /// Height in pixels.
    pub height: u16,
    /// Bytes per row, as the device determined it; at least `width * 3`.
    pub pitch: u32,
    /// Color depth in bits.
    pub bit_depth: u32,
    /// Pixel format.
    pub format: PixelFormat,
    /// Kernel handle usable for framebuffer registration.
    pub handle: u32,
    /// Whether a mapping is currently outstanding.
    pub mapped: bool,
    /// Whether the buffer still exists kernel-side.
    pub alive: bool,
}

impl PixelBuffer {
    /// Structural soundness of the geometry: every row fits in its pitch.
    pub open spec fn wf(self) -> bool {
        self.pitch >= BYTES_PER_PIXEL * self.width
    }

    /// Total size of the backing allocation in bytes.
    pub open spec fn spec_size(self) -> int {
        self.height * self.pitch
    }
}

/// The device-determined pitch the simulated allocator reports: the packed
/// row size aligned up to [`PITCH_ALIGN`] bytes.
pub open spec fn spec_aligned_pitch(width: int) -> int {
    ((BYTES_PER_PIXEL * width + PITCH_ALIGN - 1) / (PITCH_ALIGN as int)) * (PITCH_ALIGN as int)
}

/// Allocates a buffer of the requested dimensions against a video memory
/// budget of `vram_bytes`, as the simulated device does; `handle` is the
/// kernel handle the allocation is known under.  Fails with
/// `OutOfVideoMemoryError` exactly when the buffer would exceed the
/// budget.  The new buffer is unmapped and alive.
pub fn allocate(width: u16, height: u16, format: PixelFormat, bit_depth: u32, vram_bytes: u64, handle: u32) -> (r:
    Result<PixelBuffer, HwError>)
    ensures
        match r {
            Ok(b) => {
                &&& b == (PixelBuffer {
                    width,
                    height,
                    pitch: spec_aligned_pitch(width as int) as u32,
                    bit_depth,
                    format,
                    handle,
                    mapped: false,
                    alive: true,
                })
                &&& b.wf()
                &&& b.spec_size() <= vram_bytes
            },
            Err(e) => e == HwError::OutOfVideoMemoryError && (height as int) * spec_aligned_pitch(
                width as int,
            ) > vram_bytes,
        },
{
    let row: u32 = BYTES_PER_PIXEL * (width as u32);
    let pitch: u32 = ((row + PITCH_ALIGN - 1) / PITCH_ALIGN) * PITCH_ALIGN;
    assert(pitch as int == spec_aligned_pitch(width as int));
    assert(pitch >= row) by {
        vstd::arithmetic::div_mod::lemma_fundamental_div_mod(row as int + 3, 4);
    };
    assert((height as int) * (pitch as int) <= 0xffff * 0xffff_ffff) by {
        vstd::arithmetic::mul::lemma_mul_upper_bound(height as int, 0xffff, pitch as int, 0xffff_ffff);
    };
    let size: u64 = (height as u64) * (pitch as u64);
    if size > vram_bytes {
        Err(HwError::OutOfVideoMemoryError)
    } else {
        Ok(
            PixelBuffer {
                width,
                height,
                pitch,
                bit_depth,
                format,
                handle,
                mapped: false,
                alive: true,
            },
        )
    }
}

/// Builds the model of a buffer the real device allocated, from the
/// values the kernel reported.  Returns `None` when the reported pitch
/// cannot hold a packed row, which no correct device reports.
pub fn from_device(width: u16, height: u16, pitch: u32, bit_depth: u32, format: PixelFormat, handle: u32) -> (r:
    Option<PixelBuffer>)
    ensures
        pitch >= BYTES_PER_PIXEL * width ==> r == Some(
            PixelBuffer { width, height, pitch, bit_depth, format, handle, mapped: false, alive: true },
        ),
        pitch < BYTES_PER_PIXEL * width ==> r is None,
        r is Some ==> r.unwrap().wf(),
{
    if pitch >= BYTES_PER_PIXEL * (width as u32) {
        Some(PixelBuffer { width, height, pitch, bit_depth, format, handle, mapped: false, alive: true })
    } else {
        None
    }
}

/// The writable view `map` hands out; it must be given back to `unmap`
/// before the buffer can be destroyed.
#[derive(Debug)]
pub struct MappedView {
    /// Handle of the buffer this view belongs to.
    pub buffer_handle: u32,
}

/// Maps the buffer, handing out the view token for it.
pub fn map(buffer: &mut PixelBuffer) -> (r: MappedView)
    requires
        old(buffer).alive,
        !old(buffer).mapped,
    ensures
        *final(buffer) == (PixelBuffer { mapped: true, ..*old(buffer) }),
        r.buffer_handle == old(buffer).handle,
{
    buffer.mapped = true;
    MappedView { buffer_handle: buffer.handle }
}

/// Releases a mapping, consuming the view token that `map` handed out.
pub fn unmap(buffer: &mut PixelBuffer, view: MappedView)
    requires
        old(buffer).mapped,
        view.buffer_handle == old(buffer).handle,
    ensures
        *final(buffer) == spec_unmap(*old(buffer)),
{
    buffer.mapped = false;
}

/// The buffer state after a release of its mapping.
pub open spec fn spec_unmap(b: PixelBuffer) -> PixelBuffer {
    PixelBuffer { mapped: false, ..b }
}

/// What a destroy does: it is refused with `BufferStillMappedError` while
/// a mapping is outstanding, and frees the buffer otherwise.
pub open spec fn spec_destroy(b: PixelBuffer) -> (PixelBuffer, Result<(), HwError>) {
    if b.mapped {
        (b, Err(HwError::BufferStillMappedError))
    } else {
        (PixelBuffer { alive: false, ..b }, Ok(()))
    }
}

/// Destroys the buffer.  Fails with `BufferStillMappedError`, leaving the
/// buffer untouched, exactly when a mapping is still outstanding.  Must be
/// called only after any framebuffer registered on the buffer has been
/// destroyed.
pub fn destroy(buffer: &mut PixelBuffer) -> (r: Result<(), HwError>)
    requires
        old(buffer).alive,
    ensures
        (*final(buffer), r) == spec_destroy(*old(buffer)),
        old(buffer).mapped ==> r == Err::<(), HwError>(HwError::BufferStillMappedError)
            && *final(buffer) == *old(buffer),
        !old(buffer).mapped ==> r == Ok::<(), HwError>(()) && !final(buffer).alive,
{
    if buffer.mapped {
        Err(HwError::BufferStillMappedError)
    } else {
        buffer.alive = false;
        Ok(())
    }
}

/// Red byte of the test pattern in row `y`: the low 8 bits of the row
/// number, inverted.
pub open spec fn spec_red(y: int) -> u8 {
    (255 - (y % 256)) as u8
}

/// Green byte of the test pattern in column `x`: the low 8 bits of the
/// column number.
pub open spec fn spec_green(x: int) -> u8 {
    (x % 256) as u8
}

/// Blue byte of the test pattern in row `y`: the low 8 bits of the row
/// number.
pub open spec fn spec_blue(y: int) -> u8 {
    (y % 256) as u8
}

/// The pattern byte at absolute buffer index `i`: with `y = i / pitch` the
/// row and `off = i % pitch` the offset inside it, the pixel at column
/// `off / 3` holds red, green, blue in that byte order.
pub open spec fn spec_pattern_value(i: int, pitch: int) -> u8
    recommends
        pitch > 0,
{
    let y = i / pitch;
    let off = i % pitch;
    if off % 3 == 0 {
        spec_red(y)
    } else if off % 3 == 1 {
        spec_green(off / 3)
    } else {
        spec_blue(y)
    }
}

/// Whether buffer index `i` falls on a pattern pixel: inside the first
/// `height` rows and inside the packed `3 * width` bytes of its row.
/// Row-padding bytes beyond `3 * width` are not part of any pixel.
pub open spec fn spec_in_pattern(i: int, width: int, height: int, pitch: int) -> bool {
    i / pitch < height && i % pitch < 3 * width
}

/// The byte at index `i` after the pattern writer ran: the pattern value
/// on a pixel byte, and the previous content everywhere else.
pub open spec fn spec_pattern_byte(old_byte: u8, i: int, width: int, height: int, pitch: int) -> u8 {
    if spec_in_pattern(i, width, height, pitch) {
        spec_pattern_value(i, pitch)
    } else {
        old_byte
    }
}

/// Progress predicate of the writer: whether index `i` has been painted
/// once rows before `y`, and columns before `x` of row `y`, are done.
spec fn spec_written(i: int, width: int, pitch: int, y: int, x: int) -> bool {
    i % pitch < 3 * width && (i / pitch < y || (i / pitch == y && i % pitch < 3 * x))
}

/// The byte at index `i` mid-run, with the writer at row `y`, column `x`.
spec fn spec_partial_byte(old_byte: u8, i: int, width: int, pitch: int, y: int, x: int) -> u8 {
    if spec_written(i, width, pitch, y, x) {
        spec_pattern_value(i, pitch)
    } else {
        old_byte
    }
}

/// One pixel write advances the progress predicate: painting the three
/// bytes of pixel `(y, x)` turns a buffer that matched column bound `x`
/// into one that matches column bound `x + 1`, and touches nothing else.
proof fn lemma_pattern_step(
    pre: Seq<u8>,
    post: Seq<u8>,
    orig: Seq<u8>,
    width: int,
    pitch: int,
    y: int,
    x: int,
)
    requires
        pitch >= 3 * width,
        pitch > 0,
        0 <= y,
        0 <= x < width,
        pre.len() == orig.len(),
        y * pitch + 3 * x + 2 < pre.len(),
        forall|i: int|
            0 <= i < pre.len() ==> pre[i] == spec_partial_byte(orig[i], i, width, pitch, y, x),
        post == pre.update(y * pitch + 3 * x, spec_red(y)).update(
            y * pitch + 3 * x + 1,
            spec_green(x),
        ).update(y * pitch + 3 * x + 2, spec_blue(y)),
    ensures
        post.len() == orig.len(),
        forall|i: int|
            0 <= i < post.len() ==> post[i] == spec_partial_byte(orig[i], i, width, pitch, y, x + 1),
{
    let base = y * pitch + 3 * x;
    vstd::arithmetic::div_mod::lemma_fundamental_div_mod_converse(base, pitch, y, 3 * x);
    vstd::arithmetic::div_mod::lemma_fundamental_div_mod_converse(base + 1, pitch, y, 3 * x + 1);
    vstd::arithmetic::div_mod::lemma_fundamental_div_mod_converse(base + 2, pitch, y, 3 * x + 2);
    vstd::arithmetic::div_mod::lemma_fundamental_div_mod_converse(3 * x, 3, x, 0);
    vstd::arithmetic::div_mod::lemma_fundamental_div_mod_converse(3 * x + 1, 3, x, 1);
    vstd::arithmetic::div_mod::lemma_fundamental_div_mod_converse(3 * x + 2, 3, x, 2);
    assert forall|i: int| 0 <= i < post.len() implies post[i] == spec_partial_byte(
        orig[i],
        i,
        width,
        pitch,
        y,
        x + 1,
    ) by {
        if i != base && i != base + 1 && i != base + 2 {
            if spec_written(i, width, pitch, y, x + 1) != spec_written(i, width, pitch, y, x) {
                assert(i / pitch == y);
                assert(3 * x <= i % pitch < 3 * x + 3);
                vstd::arithmetic::div_mod::lemma_fundamental_div_mod(i, pitch);
                assert(i == pitch * (i / pitch) + i % pitch);
                assert(pitch * y == y * pitch) by {
                    vstd::arithmetic::mul::lemma_mul_is_commutative(pitch, y);
                };
                assert(i == base + (i % pitch - 3 * x));
                assert(false);
            }
        }
    }
}

/// Writes the deterministic test pattern into a mapped buffer's bytes.
///
/// Every row is addressed through `pitch`, never through `width * 3`: the
/// pattern covers exactly the first `height` rows' packed pixels, and every
/// other byte — row padding and anything at or past `height * pitch` — is
/// left untouched.
pub fn fill_test_pattern(data: &mut Vec<u8>, width: u16, height: u16, pitch: u32)
    requires
        pitch as int >= 3 * (width as int),
        pitch > 0,
        old(data)@.len() >= (height as int) * (pitch as int),
    ensures
        final(data)@.len() == old(data)@.len(),
        forall|i: int|
            0 <= i < final(data)@.len() ==> final(data)@[i] == spec_pattern_byte(
                old(data)@[i],
                i,
                width as int,
                height as int,
                pitch as int,
            ),
{
    let w: usize = width as usize;
    let h: usize = height as usize;
    let p: usize = pitch as usize;
    let n: usize = data.len();
    let mut y: usize = 0;
    while y < h
        invariant
            w == width as int,
            h == height as int,
            p == pitch as int,
            p >= 3 * w,
            p > 0,
            n >= h * p,
            n == data@.len(),
            data@.len() == old(data)@.len(),
            0 <= y <= h,
            forall|i: int|
                0 <= i < data@.len() ==> data@[i] == spec_partial_byte(
                    old(data)@[i],
                    i,
                    w as int,
                    p as int,
                    y as int,
                    0,
                ),
        decreases h - y,
    {
        proof {
            vstd::arithmetic::mul::lemma_mul_inequality(y as int + 1, h as int, p as int);
            vstd::arithmetic::mul::lemma_mul_is_distributive_add_other_way(
                p as int,
                y as int,
                1,
            );
        }
        let row_base: usize = y * p;
        let mut x: usize = 0;
        while x < w
            invariant
                w == width as int,
                h == height as int,
                p == pitch as int,
                p >= 3 * w,
                p > 0,
                n >= h * p,
                n == data@.len(),
                data@.len() == old(data)@.len(),
                0 <= y < h,
                0 <= x <= w,
                row_base == (y as int) * (p as int),
                row_base + p <= data@.len(),
                forall|i: int|
                    0 <= i < data@.len() ==> data@[i] == spec_partial_byte(
                        old(data)@[i],
                        i,
                        w as int,
                        p as int,
                        y as int,
                        x as int,
                    ),
            decreases w - x,
        {
            let base: usize = row_base + 3 * x;
            let yl: u8 = (y % 256) as u8;
            let g: u8 = (x % 256) as u8;
            let r: u8 = 255 - yl;
            let ghost pre = data@;
            proof {
                assert(r == spec_red(y as int));
                assert(g == spec_green(x as int));
                assert(yl == spec_blue(y as int));
            }
            data[base] = r;
            data[base + 1] = g;
            data[base + 2] = yl;
            proof {
                lemma_pattern_step(
                    pre,
                    data@,
                    old(data)@,
                    w as int,
                    p as int,
                    y as int,
                    x as int,
                );
            }
            x += 1;
        }
        proof {
            assert(forall|i: int|
                0 <= i < data@.len() ==> spec_partial_byte(
                    old(data)@[i],
                    i,
                    w as int,
                    p as int,
                    y as int,
                    w as int,
                ) == spec_partial_byte(
                    old(data)@[i],
                    i,
                    w as int,
                    p as int,
                    y as int + 1,
                    0,
                ));
        }
        y += 1;
    }
    proof {
        assert(forall|i: int|
            0 <= i < data@.len() ==> spec_partial_byte(
                old(data)@[i],
                i,
                w as int,
                p as int,
                h as int,
                0,
            ) == spec_pattern_byte(old(data)@[i], i, w as int, h as int, p as int));
    }
}

/// Paints the test pattern through a mapping of the buffer: the byte view
/// must belong to the buffer and cover its full size.
pub fn paint(buffer: &PixelBuffer, view: &MappedView, data: &mut Vec<u8>)
    requires
        buffer.wf(),
        buffer.mapped,
        view.buffer_handle == buffer.handle,
        buffer.pitch > 0,
        old(data)@.len() >= buffer.spec_size(),
    ensures
        final(data)@.len() == old(data)@.len(),
        forall|i: int|
            0 <= i < final(data)@.len() ==> final(data)@[i] == spec_pattern_byte(
                old(data)@[i],
                i,
                buffer.width as int,
                buffer.height as int,
                buffer.pitch as int,
            ),
{
    fill_test_pattern(data, buffer.width, buffer.height, buffer.pitch);
}

/// The pattern writer never writes at or beyond `height * pitch`: every
/// byte there keeps its previous content.
pub proof fn lemma_pattern_stays_inside(
    old_byte: u8,
    i: int,
    width: int,
    height: int,
    pitch: int,
)
    requires
        pitch > 0,
        0 <= height,
        i >= height * pitch,
    ensures
        spec_pattern_byte(old_byte, i, width, height, pitch) == old_byte,
{
    vstd::arithmetic::div_mod::lemma_div_is_ordered(height * pitch, i, pitch);
    vstd::arithmetic::div_mod::lemma_div_by_multiple(height, pitch);
}

/// For every buffer geometry with `pitch >= width * 3`, the pattern
/// writer never writes outside `[0, height * pitch)`: a byte buffer that
/// meets the writer's postcondition agrees with the previous content on
/// every index at or past `height * pitch`.
pub proof fn lemma_writer_stays_inside(
    orig: Seq<u8>,
    data: Seq<u8>,
    width: int,
    height: int,
    pitch: int,
)
    requires
        pitch >= 3 * width,
        pitch > 0,
        0 <= height,
        data.len() == orig.len(),
        forall|i: int|
            0 <= i < data.len() ==> data[i] == spec_pattern_byte(orig[i], i, width, height, pitch),
    ensures
        forall|i: int| height * pitch <= i < data.len() ==> data[i] == orig[i],
{
    assert forall|i: int| height * pitch <= i < data.len() implies data[i] == orig[i] by {
        lemma_pattern_stays_inside(orig[i], i, width, height, pitch);
    }
}

/// Destroy while a mapping is live always fails with
/// `BufferStillMappedError` and changes nothing; once the mapping is
/// released, destroy succeeds.
pub proof fn lemma_destroy_after_unmap(b: PixelBuffer)
    ensures
        b.mapped ==> spec_destroy(b) == (b, Err::<(), HwError>(HwError::BufferStillMappedError)),
        spec_destroy(spec_unmap(b)).1 == Ok::<(), HwError>(()),
        !spec_destroy(spec_unmap(b)).0.alive,
{
}

} // verus!
