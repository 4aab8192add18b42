//! The monochrome display: a 64x32 grid of cells, the sprite blit that is the
//! only way to light or erase a cell, and the dirty flag that tells the
//! presentation side whether there is anything new to show.

use vstd::prelude::*;

verus! {

pub const SCREEN_WIDTH: u8 = 64;

pub const SCREEN_HEIGHT: u8 = 32;

/// Number of cells of the grid.
pub const SCREEN_CELLS: usize = 2048;

/// A sprite has at most this many rows.
pub const MAX_SPRITE_LENGTH: u8 = 15;

pub const DEFAULT_VIDEO_SCALE: u8 = 8;

/// What the display holds: the cells in row-major order, `true` for lit, and
/// the dirty flag.
#[verifier::ext_equal]
pub struct Screen {
    pub pixels: Seq<bool>,
    pub dirty: bool,
}

/// A grid with no lit cell.
pub open spec fn blank() -> Seq<bool> {
    Seq::new(SCREEN_CELLS as nat, |k: int| false)
}

/// Whether a sprite row has the bit for its `column`-th cell set; column 0 is
/// the most significant bit.
pub open spec fn sprite_bit(row_bits: u8, column: int) -> bool {
    (row_bits >> ((7 - column) as u8)) & 0x1 == 1
}

/// Whether a sprite placed with its top left corner at (`x`, `y`) has a set
/// bit over the cell at (`column`, `row`).
pub open spec fn inked(sprite: Seq<u8>, x: int, y: int, column: int, row: int) -> bool {
    &&& y <= row < y + sprite.len()
    &&& x <= column < x + 8
    &&& sprite_bit(sprite[row - y], column - x)
}

/// `inked` for the cell at index `k` of the row-major grid.
pub open spec fn inked_at(sprite: Seq<u8>, x: int, y: int, k: int) -> bool {
    inked(sprite, x, y, k % (SCREEN_WIDTH as int), k / (SCREEN_WIDTH as int))
}

/// A blit is carried out only if its corner lies on the grid and the sprite
/// is no longer than the longest sprite of the architecture.
pub open spec fn drawable(x: u8, y: u8, sprite: Seq<u8>) -> bool {
    x < SCREEN_WIDTH && y < SCREEN_HEIGHT && sprite.len() <= MAX_SPRITE_LENGTH
}

/// The grid after a blit: every cell under a set sprite bit is flipped. Rows
/// and columns that would fall off the grid are clipped, not wrapped.
pub open spec fn drawn(pixels: Seq<bool>, x: u8, y: u8, sprite: Seq<u8>) -> Seq<bool> {
    if drawable(x, y, sprite) {
        Seq::new(
            SCREEN_CELLS as nat,
            |k: int| pixels[k] != inked_at(sprite, x as int, y as int, k),
        )
    } else {
        pixels
    }
}

/// Whether a blit turns off a cell that was lit.
pub open spec fn erases(pixels: Seq<bool>, x: u8, y: u8, sprite: Seq<u8>) -> bool {
    &&& drawable(x, y, sprite)
    &&& exists|k: int|
        0 <= k < SCREEN_CELLS && pixels[k] && #[trigger] inked_at(sprite, x as int, y as int, k)
}

/// Whether a blit lights a cell that was unlit.
pub open spec fn lights(pixels: Seq<bool>, x: u8, y: u8, sprite: Seq<u8>) -> bool {
    &&& drawable(x, y, sprite)
    &&& exists|k: int|
        0 <= k < SCREEN_CELLS && !pixels[k] && #[trigger] inked_at(sprite, x as int, y as int, k)
}

/// Drawing the same sprite twice at the same place gives back the grid as it
/// was, and the second blit reports an erasure exactly when the first one lit
/// a cell that was unlit.
pub proof fn lemma_draw_twice(pixels: Seq<bool>, x: u8, y: u8, sprite: Seq<u8>)
    requires
        pixels.len() == SCREEN_CELLS,
    ensures
        drawn(drawn(pixels, x, y, sprite), x, y, sprite) == pixels,
        erases(drawn(pixels, x, y, sprite), x, y, sprite) == lights(pixels, x, y, sprite),
{
}

/// The column and the row of the cell at `index` of the row-major grid, or
/// nothing if the grid has no such cell.
pub fn cell_position(index: usize) -> (position: Option<(u8, u8)>)
    ensures
        index < SCREEN_CELLS ==> position == Some(
            ((index % (SCREEN_WIDTH as usize)) as u8, (index / (SCREEN_WIDTH as usize)) as u8),
        ),
        index >= SCREEN_CELLS ==> position is None,
{
    if index < SCREEN_CELLS {
        let y = index / SCREEN_WIDTH as usize;
        let x = index % SCREEN_WIDTH as usize;
        Some((x as u8, y as u8))
    } else {
        None
    }
}

/// The display memory with its geometry and its dirty flag.
pub struct VideoSystem {
    width: u8,
    height: u8,
    scale_factor: u8,
    memory: Vec<bool>,
    draw: bool,
}

impl View for VideoSystem {
    type V = Screen;

    closed spec fn view(&self) -> Screen {
        Screen { pixels: self.memory@, dirty: self.draw }
    }
}

impl VideoSystem {
    /// The display keeps the geometry it was made with.
    pub closed spec fn wf(&self) -> bool {
        &&& self.width == SCREEN_WIDTH
        &&& self.height == SCREEN_HEIGHT
        &&& self.scale_factor == DEFAULT_VIDEO_SCALE
        &&& self.memory@.len() == SCREEN_CELLS
    }

    /// A well-formed display has one cell for each position of the grid.
    pub proof fn lemma_size(&self)
        requires
            self.wf(),
        ensures
            self@.pixels.len() == SCREEN_CELLS,
    {
    }

    /// A blank display that is due to be shown.
    pub fn default() -> (video: VideoSystem)
        ensures
            video.wf(),
            video@.pixels == blank(),
            video@.dirty,
    {
        let mut memory: Vec<bool> = Vec::new();
        let mut k: usize = 0;
        while k < SCREEN_CELLS
            invariant
                k <= SCREEN_CELLS,
                memory@.len() == k,
                forall|c: int| 0 <= c < k ==> !memory@[c],
            decreases SCREEN_CELLS - k,
        {
            memory.push(false);
            k += 1;
        }
        VideoSystem {
            width: SCREEN_WIDTH,
            height: SCREEN_HEIGHT,
            scale_factor: DEFAULT_VIDEO_SCALE,
            memory,
            draw: true,
        }
    }

    pub fn width(&self) -> (w: u8)
        requires
            self.wf(),
        ensures
            w == SCREEN_WIDTH,
    {
        self.width
    }

    pub fn height(&self) -> (h: u8)
        requires
            self.wf(),
        ensures
            h == SCREEN_HEIGHT,
    {
        self.height
    }

    /// Side of the square that one cell is shown as.
    pub fn scale_factor(&self) -> (s: u8)
        requires
            self.wf(),
        ensures
            s == DEFAULT_VIDEO_SCALE,
    {
        self.scale_factor
    }

    /// Whether the grid changed since it was last handed out for showing.
    pub fn is_dirty(&self) -> (dirty: bool)
        ensures
            dirty == self@.dirty,
    {
        self.draw
    }

    /// The cell at (`x`, `y`), or `None` off the grid.
    pub fn pixel(&self, x: u8, y: u8) -> (cell: Option<bool>)
        requires
            self.wf(),
        ensures
            x < SCREEN_WIDTH && y < SCREEN_HEIGHT ==> cell == Some(
                self@.pixels[y * SCREEN_WIDTH + x],
            ),
            !(x < SCREEN_WIDTH && y < SCREEN_HEIGHT) ==> cell is None,
    {
        if x < self.width && y < self.height {
            assert(y * self.width == y * 64) by (nonlinear_arith)
                requires
                    self.width == 64,
            ;
            Some(self.memory[y as usize * self.width as usize + x as usize])
        } else {
            None
        }
    }

    /// Blits `sprite`, one byte a row, with its top left corner at (`x`, `y`):
    /// each cell under a set bit is flipped, and the result says whether that
    /// turned a lit cell off. Rows below the grid and columns right of it are
    /// dropped. With the corner off the grid, or with more rows than a sprite
    /// may have, nothing happens at all.
    pub fn draw(&mut self, x: u8, y: u8, sprite: &[u8]) -> (erased: bool)
        requires
            old(self).wf(),
        ensures
            final(self).wf(),
            final(self)@.pixels == drawn(old(self)@.pixels, x, y, sprite@),
            erased == erases(old(self)@.pixels, x, y, sprite@),
            final(self)@.dirty == (old(self)@.dirty || drawable(x, y, sprite@)),
    {
        let mut erased = false;
        let sprite_len = sprite.len();
        if x >= self.width || y >= self.height || sprite_len > MAX_SPRITE_LENGTH as usize {
            return erased;
        }
        let ghost before = self.memory@;
        let ghost gx = x as int;
        let ghost gy = y as int;
        let mut i: u8 = y;
        while ((i - y) as usize) < sprite_len && i < self.height
            invariant
                self.wf(),
                self.draw == old(self).draw,
                before == old(self).memory@,
                before.len() == SCREEN_CELLS,
                gx == x,
                gy == y,
                x < SCREEN_WIDTH,
                y <= i <= SCREEN_HEIGHT,
                sprite_len == sprite@.len(),
                sprite_len <= MAX_SPRITE_LENGTH,
                i - y <= sprite_len,
                forall|k: int|
                    0 <= k < SCREEN_CELLS ==> #[trigger] self.memory@[k] == (if k / 64 < i {
                        before[k] != inked_at(sprite@, gx, gy, k)
                    } else {
                        before[k]
                    }),
                erased <==> exists|k: int|
                    0 <= k < SCREEN_CELLS && k / 64 < i && before[k] && #[trigger] inked_at(
                        sprite@,
                        gx,
                        gy,
                        k,
                    ),
            decreases SCREEN_HEIGHT - i,
        {
            let width: usize = self.width as usize;
            assert(i * width == i * 64) by (nonlinear_arith)
                requires
                    width == 64,
            ;
            let start: usize = i as usize * width + x as usize;
            let vidlim: usize = i as usize * width + width;
            let row_bits: u8 = sprite[(i - y) as usize];
            let ghost row_erased = erased;
            let mut j: usize = start;
            while j < start + 8 && j < vidlim
                invariant
                    self.wf(),
                    self.draw == old(self).draw,
                    before.len() == SCREEN_CELLS,
                    gx == x,
                    gy == y,
                    x < SCREEN_WIDTH,
                    y <= i < SCREEN_HEIGHT,
                    sprite_len == sprite@.len(),
                    i - y < sprite_len,
                    row_bits == sprite@[i - y],
                    start == i * 64 + x,
                    vidlim == i * 64 + 64,
                    start <= j <= start + 8,
                    j <= vidlim,
                    forall|k: int|
                        0 <= k < SCREEN_CELLS ==> #[trigger] self.memory@[k] == (if k / 64 < i || (k
                            / 64 == i && k < j) {
                            before[k] != inked_at(sprite@, gx, gy, k)
                        } else {
                            before[k]
                        }),
                    erased <==> (row_erased || exists|k: int|
                        start <= k < j && before[k] && #[trigger] inked_at(sprite@, gx, gy, k)),
                decreases vidlim - j,
            {
                let shifts: u8 = ((8 - (j - start)) - 1) as u8;
                let prev = self.memory[j];
                let new = ((row_bits >> shifts) & 0x1) == 1;
                proof {
                    let k = j as int;
                    assert(inked_at(sprite@, gx, gy, k) == new);
                }
                self.memory[j] = prev != new;
                erased = if prev && new { true } else { erased };
                j += 1;
            }
            i += 1
        }
        self.draw = true;
        erased
    }

    /// Hands out the grid for showing if it changed since the last time, and
    /// marks it shown; otherwise there is nothing to do.
    pub fn render_screen(&mut self) -> (frame: Option<Vec<bool>>)
        requires
            old(self).wf(),
        ensures
            final(self).wf(),
            final(self)@.pixels == old(self)@.pixels,
            !final(self)@.dirty,
            old(self)@.dirty ==> frame is Some && frame->0@ == old(self)@.pixels,
            !old(self)@.dirty ==> frame is None,
    {
        if !self.draw {
            return None;
        }
        let mut frame: Vec<bool> = Vec::new();
        let mut index: usize = 0;
        while index < self.memory.len()
            invariant
                index <= self.memory@.len(),
                frame@ == self.memory@.take(index as int),
            decreases self.memory@.len() - index,
        {
            frame.push(self.memory[index]);
            index += 1;
        }
        self.draw = false;
        Some(frame)
    }

    /// Turns every cell off and marks the grid as changed.
    pub fn clear_screen(&mut self)
        requires
            old(self).wf(),
        ensures
            final(self).wf(),
            final(self)@.pixels == blank(),
            final(self)@.dirty,
    {
        let mut idx: usize = 0;
        while idx < self.memory.len()
            invariant
                self.wf(),
                idx <= self.memory@.len(),
                forall|k: int| 0 <= k < idx ==> !self.memory@[k],
            decreases self.memory@.len() - idx,
        {
            self.memory[idx] = false;
            idx += 1;
        }
        self.draw = true;
    }
}

} // verus!
