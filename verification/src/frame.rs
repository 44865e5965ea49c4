//! The frame generator: fills a buffer of four-byte pixels, row by row, from
//! the view, the frame counter and a source of shift amounts.

use crate::counter::{next_frame, FrameCounter};
use crate::pixel::{
    base_word, be_bytes, lemma_top_byte, pixel_word, shade, shift_key, smear, word_bytes,
};
use crate::view::{Triangles, ViewState, HEIGHT, WIDTH};
use vstd::prelude::*;

verus! {

/// The number of bytes in a frame of `WIDTH` by `HEIGHT` four-byte pixels.
pub const FRAME_BYTES: usize = 1_048_576;

/// The column of the pixel at `index` in row-major order.
pub open spec fn column(index: int) -> u32 {
    (index % (WIDTH as int)) as u32
}

/// The row of the pixel at `index` in row-major order, as a 32-bit value.
pub open spec fn row(index: int) -> u32 {
    (index / (WIDTH as int) % 0x1_0000_0000) as u32
}

/// One coordinate of a sample point: the pixel's place in the frame plus the
/// pan offset, wrapping modulo 2^32, divided by the zoom with truncation.
pub open spec fn sample(place: u32, offset: u32, zoom: u32) -> u32 {
    ((place + offset) % 0x1_0000_0000 / (zoom as int)) as u32
}

impl ViewState {
    /// The horizontal coordinate that the pixel at `index` samples.
    pub open spec fn sample_x(self, index: int) -> u32 {
        sample(column(index), self.x, self.zoom)
    }

    /// The vertical coordinate that the pixel at `index` samples.
    pub open spec fn sample_y(self, index: int) -> u32 {
        sample(row(index), self.y, self.zoom)
    }

    /// The base word of the pixel at `index` in the frame with counter value `f`.
    pub open spec fn base(self, f: u32, index: int) -> u32 {
        base_word(f, self.sample_x(index), self.sample_y(index))
    }

    /// The value handed to the shift source for the pixel at `index`.
    pub open spec fn key(self, index: int) -> u32 {
        shift_key(self.sample_x(index), self.sample_y(index))
    }

    /// The four bytes of the pixel at `index` in the frame with counter value
    /// `f`, when the shift source answers `shift` for that pixel.
    pub open spec fn pixel(self, f: u32, index: int, shift: u32) -> Seq<u8> {
        be_bytes(pixel_word(f, self.sample_x(index), self.sample_y(index), shift))
    }
}

/// The four bytes at pixel `index` of `bytes` are the pixel computed with a
/// shift amount that `shift_of` can answer for that pixel's key.
pub open spec fn pixel_drawn<F: Fn(u32) -> u32>(
    state: ViewState,
    f: u32,
    shift_of: F,
    bytes: Seq<u8>,
    index: int,
) -> bool {
    exists|shift: u32| #[trigger]
        shift_of.ensures((state.key(index),), shift) && bytes.subrange(4 * index, 4 * index + 4)
            == state.pixel(f, index, shift)
}

/// `after` is the frame that rendering writes over `before`: every whole
/// four-byte pixel is drawn, and the bytes left over at the end, fewer than
/// four, are untouched.
pub open spec fn rendered<F: Fn(u32) -> u32>(
    state: ViewState,
    f: u32,
    shift_of: F,
    before: Seq<u8>,
    after: Seq<u8>,
) -> bool {
    &&& after.len() == before.len()
    &&& forall|index: int|
        0 <= index < before.len() / 4 ==> #[trigger] pixel_drawn(state, f, shift_of, after, index)
    &&& forall|at: int| 4 * (before.len() / 4) <= at < before.len() ==> after[at] == before[at]
}

/// `shift_of` answers each key with one shift amount only.
pub open spec fn single_valued<F: Fn(u32) -> u32>(shift_of: F) -> bool {
    forall|key: u32, a: u32, b: u32|
        #![trigger shift_of.ensures((key,), a), shift_of.ensures((key,), b)]
        shift_of.ensures((key,), a) && shift_of.ensures((key,), b) ==> a == b
}

/// With a shift source that answers each key in one way only, a pixel's bytes
/// are fixed by the view, the counter value and the pixel's index.
pub proof fn lemma_pixel_deterministic<F: Fn(u32) -> u32>(
    state: ViewState,
    f: u32,
    shift_of: F,
    index: int,
    first: u32,
    second: u32,
)
    requires
        single_valued(shift_of),
        shift_of.ensures((state.key(index),), first),
        shift_of.ensures((state.key(index),), second),
    ensures
        state.pixel(f, index, first) == state.pixel(f, index, second),
{
}

/// With a shift source that answers each key in one way only, two frames
/// rendered over the same buffer from the same view and the same counter
/// value are equal byte for byte.
pub proof fn lemma_render_deterministic<F: Fn(u32) -> u32>(
    state: ViewState,
    f: u32,
    shift_of: F,
    before: Seq<u8>,
    first: Seq<u8>,
    second: Seq<u8>,
)
    requires
        single_valued(shift_of),
        rendered(state, f, shift_of, before, first),
        rendered(state, f, shift_of, before, second),
    ensures
        first == second,
{
    assert forall|at: int| 0 <= at < first.len() implies first[at] == second[at] by {
        let index = at / 4;
        if index < before.len() / 4 {
            assert(pixel_drawn(state, f, shift_of, first, index));
            assert(pixel_drawn(state, f, shift_of, second, index));
            let a = choose|shift: u32| #[trigger]
                shift_of.ensures((state.key(index),), shift) && first.subrange(
                    4 * index,
                    4 * index + 4,
                ) == state.pixel(f, index, shift);
            let b = choose|shift: u32| #[trigger]
                shift_of.ensures((state.key(index),), shift) && second.subrange(
                    4 * index,
                    4 * index + 4,
                ) == state.pixel(f, index, shift);
            assert(a == b);
            assert(first.subrange(4 * index, 4 * index + 4)[at - 4 * index] == first[at]);
            assert(second.subrange(4 * index, 4 * index + 4)[at - 4 * index] == second[at]);
        }
    }
    assert(first =~= second);
}

/// A buffer of exactly `FRAME_BYTES` bytes is written in full: it holds
/// `WIDTH * HEIGHT` pixels, each one drawn, at a column below `WIDTH` and a
/// row below `HEIGHT`, and no byte is left over.
pub proof fn lemma_whole_frame_written<F: Fn(u32) -> u32>(
    state: ViewState,
    f: u32,
    shift_of: F,
    before: Seq<u8>,
    after: Seq<u8>,
)
    requires
        before.len() == FRAME_BYTES,
        rendered(state, f, shift_of, before, after),
    ensures
        after.len() == WIDTH * HEIGHT * 4,
        forall|index: int|
            0 <= index < WIDTH * HEIGHT ==> #[trigger] pixel_drawn(
                state,
                f,
                shift_of,
                after,
                index,
            ),
        forall|index: int|
            0 <= index < WIDTH * HEIGHT ==> column(index) < WIDTH && #[trigger] row(index) < HEIGHT
                && index == row(index) * WIDTH + column(index),
{
}

/// Where no shift amount that the source can answer leaves a bit in the top
/// byte of a pixel's smear, the first byte of every pixel drawn is `0xFF`.
pub proof fn lemma_opaque_frame<F: Fn(u32) -> u32>(
    state: ViewState,
    f: u32,
    shift_of: F,
    before: Seq<u8>,
    after: Seq<u8>,
)
    requires
        rendered(state, f, shift_of, before, after),
        forall|index: int, shift: u32|
            0 <= index < before.len() / 4 && #[trigger] shift_of.ensures(
                (state.key(index),),
                shift,
            ) ==> be_bytes(smear(state.base(f, index), shift))[0] == 0,
    ensures
        forall|index: int| 0 <= index < before.len() / 4 ==> #[trigger] after[4 * index] == 0xFF,
{
    assert forall|index: int| 0 <= index < before.len() / 4 implies #[trigger] after[4 * index]
        == 0xFF by {
        assert(pixel_drawn(state, f, shift_of, after, index));
        let shift = choose|shift: u32| #[trigger]
            shift_of.ensures((state.key(index),), shift) && after.subrange(
                4 * index,
                4 * index + 4,
            ) == state.pixel(f, index, shift);
        lemma_top_byte(f, state.sample_x(index), state.sample_y(index), shift);
        assert(after.subrange(4 * index, 4 * index + 4)[0] == after[4 * index]);
    }
}

impl Triangles {
    fn sample_point(&self, index: usize) -> (point: (u32, u32))
        ensures
            point.0 == self@.sample_x(index as int),
            point.1 == self@.sample_y(index as int),
    {
        let state = self.state();
        let col: u32 = (index % (WIDTH as usize)) as u32;
        let line: u64 = (index / (WIDTH as usize)) as u64;
        assert(line as u32 == line % 0x1_0000_0000) by (bit_vector);
        let row: u32 = #[verifier::truncate] (line as u32);
        (col.wrapping_add(state.x) / state.zoom, row.wrapping_add(state.y) / state.zoom)
    }

    /// The value whose tangent picks the shift amount of the pixel at `index`.
    pub fn shift_key(&self, index: usize) -> (key: u32)
        ensures
            key == self@.key(index as int),
    {
        let (x, y) = self.sample_point(index);
        x | y
    }

    /// The four bytes of the pixel at `index` for counter value `f` and the
    /// given shift amount.
    pub fn pixel(&self, f: u32, index: usize, shift: u32) -> (bytes: [u8; 4])
        ensures
            bytes@ == self@.pixel(f, index as int, shift),
    {
        let (x, y) = self.sample_point(index);
        word_bytes(shade(f, x, y, shift))
    }

    /// Renders one frame into `frame` and advances `counter` by one.
    ///
    /// Every pixel is computed from the value `counter` holds on entry.
    /// `shift_of` is asked once per pixel, in row-major order, for the shift
    /// amount that belongs to the pixel's key.
    pub fn draw<F: Fn(u32) -> u32>(&self, frame: &mut [u8], counter: &mut FrameCounter, shift_of: F)
        requires
            forall|index: int|
                0 <= index < old(frame)@.len() / 4 ==> shift_of.requires((self@.key(index),)),
        ensures
            rendered(self@, old(counter)@, shift_of, old(frame)@, final(frame)@),
            final(counter)@ == next_frame(old(counter)@),
    {
        let f: u32 = counter.value();
        let pixels: usize = frame.len() / 4;
        let mut index: usize = 0;
        while index < pixels
            invariant
                pixels == old(frame)@.len() / 4,
                index <= pixels,
                frame@.len() == old(frame)@.len(),
                frame@.len() <= usize::MAX,
                forall|p: int| 0 <= p < index ==> #[trigger] pixel_drawn(self@, f, shift_of, frame@, p),
                forall|at: int| 4 * index <= at < frame@.len() ==> frame@[at] == old(frame)@[at],
                forall|p: int| 0 <= p < pixels ==> shift_of.requires((self@.key(p),)),
            decreases pixels - index,
        {
            let key: u32 = self.shift_key(index);
            let shift: u32 = shift_of(key);
            let bytes = self.pixel(f, index, shift);
            let at: usize = 4 * index;
            let ghost before = frame@;
            frame[at] = bytes[0];
            frame[at + 1] = bytes[1];
            frame[at + 2] = bytes[2];
            frame[at + 3] = bytes[3];
            proof {
                assert(frame@.subrange(4 * index, 4 * index + 4) =~= bytes@);
                assert forall|p: int| 0 <= p < index implies #[trigger] pixel_drawn(
                    self@,
                    f,
                    shift_of,
                    frame@,
                    p,
                ) by {
                    assert(pixel_drawn(self@, f, shift_of, before, p));
                    assert(frame@.subrange(4 * p, 4 * p + 4) =~= before.subrange(4 * p, 4 * p + 4));
                }
            }
            index += 1;
        }
        counter.advance();
    }
}

} // verus!
