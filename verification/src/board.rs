//! The automaton board: a W×H grid encoded as an RGBA pixel buffer, one
//! pixel per cell, 4 bytes per cell, together with the seed pattern that the
//! demo starts from.

use vstd::prelude::*;

use crate::rules::next_state;

verus! {

/// A board encoded exactly as the GPU textures hold it: row-major pixels,
/// 4 bytes (R, G, B, A) per cell. A cell's alive state is carried in the
/// alpha channel; the RGB channels are kept in sync with alpha so that a
/// live cell displays as a visible color.
pub struct Board {
    pub width: usize,
    pub height: usize,
    pub bytes: Vec<u8>,
}

/// `i + d` wrapped around into `0..n` (torus topology), for a shift `d`
/// of at most one row or column.
pub open spec fn wrap(i: int, d: int, n: int) -> int {
    if i + d < 0 {
        i + d + n
    } else if i + d >= n {
        i + d - n
    } else {
        i + d
    }
}

/// 1 if the cell state is alive, 0 otherwise.
pub open spec fn count_one(alive: bool) -> int {
    if alive {
        1
    } else {
        0
    }
}

impl Board {
    /// The flat, row-major pixel index of the cell at row `r`, column `c`.
    pub open spec fn pixel(self, r: int, c: int) -> int {
        r * self.width + c
    }

    /// The pixel at (`r`, `c`) is all-0 or all-255: its RGB bytes equal its
    /// alpha byte, and the alpha byte is 0 or 255.
    pub open spec fn pixel_wf(self, r: int, c: int) -> bool {
        let base = 4 * self.pixel(r, c);
        &&& self.bytes@[base] == self.bytes@[base + 3]
        &&& self.bytes@[base + 1] == self.bytes@[base + 3]
        &&& self.bytes@[base + 2] == self.bytes@[base + 3]
        &&& (self.bytes@[base + 3] == 0 || self.bytes@[base + 3] == 255)
    }

    /// Well-formed: positive dimensions, exactly 4 bytes per cell, and every
    /// pixel fully dead (all bytes 0) or fully live (all bytes 255).
    pub open spec fn wf(self) -> bool {
        &&& 0 < self.width
        &&& 0 < self.height
        &&& self.bytes@.len() == 4 * (self.width * self.height)
        &&& forall|r: int, c: int|
            0 <= r < self.height && 0 <= c < self.width ==> self.pixel_wf(r, c)
    }

    /// Whether the cell at row `r`, column `c` is alive: its alpha byte is
    /// nonzero.
    pub open spec fn cell(self, r: int, c: int) -> bool {
        self.bytes@[4 * self.pixel(r, c) + 3] != 0
    }

    /// The state of one torus neighbor of (`r`, `c`), at row offset `dr` and
    /// column offset `dc`.
    pub open spec fn neighbor(self, r: int, c: int, dr: int, dc: int) -> bool {
        self.cell(wrap(r, dr, self.height as int), wrap(c, dc, self.width as int))
    }

    /// How many of the 8 torus neighbors of (`r`, `c`) are alive.
    pub open spec fn live_neighbors(self, r: int, c: int) -> int {
        count_one(self.neighbor(r, c, -1, -1)) + count_one(self.neighbor(r, c, -1, 0))
            + count_one(self.neighbor(r, c, -1, 1)) + count_one(self.neighbor(r, c, 0, -1))
            + count_one(self.neighbor(r, c, 0, 1)) + count_one(self.neighbor(r, c, 1, -1))
            + count_one(self.neighbor(r, c, 1, 0)) + count_one(self.neighbor(r, c, 1, 1))
    }

    /// An all-dead board of the given dimensions.
    pub fn new(width: usize, height: usize) -> (board: Board)
        requires
            0 < width,
            0 < height,
            4 * (width * height) <= usize::MAX,
        ensures
            board.wf(),
            board.width == width,
            board.height == height,
            forall|r: int, c: int| 0 <= r < height && 0 <= c < width ==> !board.cell(r, c),
    {
        proof {
            assert(width * height >= 0 && width * height <= 4 * width * height)
                by (nonlinear_arith)
                requires 0 < width && 0 < height;
        }
        let n: usize = 4 * (width * height);
        let bytes: Vec<u8> = vec![0u8; n];
        let board = Board { width, height, bytes };
        proof {
            assert forall|r: int, c: int|
                0 <= r < height && 0 <= c < width implies board.pixel_wf(r, c) && !board.cell(
                r,
                c,
            ) by {
                lemma_pixel_in_bounds(width as int, height as int, r, c);
            }
        }
        board
    }

    /// Whether the cell at (`r`, `c`) is alive.
    pub fn alive(&self, r: usize, c: usize) -> (b: bool)
        requires
            self.wf(),
            r < self.height,
            c < self.width,
        ensures
            b == self.cell(r as int, c as int),
    {
        proof {
            vstd::std_specs::vec::axiom_spec_len(&self.bytes);
            lemma_pixel_in_bounds(
                self.width as int,
                self.height as int,
                r as int,
                c as int,
            );
        }
        let idx: usize = 4 * (r * self.width + c) + 3;
        self.bytes[idx] != 0
    }

    /// Marks the cell at (`r`, `c`) alive, setting all four of its channel
    /// bytes to 255 and touching no other pixel.
    pub fn set_alive(&mut self, r: usize, c: usize)
        requires
            old(self).wf(),
            r < old(self).height,
            c < old(self).width,
        ensures
            final(self).wf(),
            final(self).width == old(self).width,
            final(self).height == old(self).height,
            forall|i: int, j: int|
                0 <= i < old(self).height && 0 <= j < old(self).width ==> final(self).cell(i, j)
                    == ((i == r && j == c) || old(self).cell(i, j)),
    {
        proof {
            vstd::std_specs::vec::axiom_spec_len(&self.bytes);
            lemma_pixel_in_bounds(
                self.width as int,
                self.height as int,
                r as int,
                c as int,
            );
        }
        let base: usize = 4 * (r * self.width + c);
        self.bytes[base] = 255;
        self.bytes[base + 1] = 255;
        self.bytes[base + 2] = 255;
        self.bytes[base + 3] = 255;
        proof {
            assert forall|i: int, j: int|
                0 <= i < old(self).height && 0 <= j < old(self).width implies self.pixel_wf(i, j)
                    && self.cell(i, j) == ((i == r && j == c) || old(self).cell(i, j)) by {
                lemma_pixel_in_bounds(self.width as int, self.height as int, i, j);
                assert(old(self).pixel_wf(i, j));
                if i != r || j != c {
                    lemma_pixel_injective(
                        self.width as int,
                        self.height as int,
                        i,
                        j,
                        r as int,
                        c as int,
                    );
                    assert(4 * self.pixel(i, j) + 3 < 4 * self.pixel(r as int, c as int) || 4
                        * self.pixel(r as int, c as int) + 3 < 4 * self.pixel(i, j));
                }
            }
        }
    }

    /// An exact copy of the board, byte for byte.
    pub fn duplicate(&self) -> (copy: Board)
        ensures
            copy.width == self.width,
            copy.height == self.height,
            copy.bytes@ == self.bytes@,
    {
        let bytes = self.bytes.clone();
        proof {
            assert forall|k: int| 0 <= k < self.bytes@.len() implies bytes@[k]
                == self.bytes@[k] by {
                assert(cloned::<u8>(self.bytes@[k], bytes@[k]));
            }
            assert(bytes@ =~= self.bytes@);
        }
        Board { width: self.width, height: self.height, bytes }
    }

    /// Counts the live cells among the 8 torus neighbors of (`r`, `c`).
    #[verifier::rlimit(50)]
    pub fn count_neighbors(&self, r: usize, c: usize) -> (n: u8)
        requires
            self.wf(),
            r < self.height,
            c < self.width,
        ensures
            n as int == self.live_neighbors(r as int, c as int),
    {
        let up: usize = if r == 0 { self.height - 1 } else { r - 1 };
        let down: usize = if r + 1 == self.height { 0 } else { r + 1 };
        let left: usize = if c == 0 { self.width - 1 } else { c - 1 };
        let right: usize = if c + 1 == self.width { 0 } else { c + 1 };
        proof {
            assert(up as int == wrap(r as int, -1, self.height as int));
            assert(down as int == wrap(r as int, 1, self.height as int));
            assert(left as int == wrap(c as int, -1, self.width as int));
            assert(right as int == wrap(c as int, 1, self.width as int));
            assert(r as int == wrap(r as int, 0, self.height as int));
            assert(c as int == wrap(c as int, 0, self.width as int));
        }
        let mut n: u8 = 0;
        if self.alive(up, left) {
            n += 1;
        }
        if self.alive(up, c) {
            n += 1;
        }
        if self.alive(up, right) {
            n += 1;
        }
        if self.alive(r, left) {
            n += 1;
        }
        if self.alive(r, right) {
            n += 1;
        }
        if self.alive(down, left) {
            n += 1;
        }
        if self.alive(down, c) {
            n += 1;
        }
        if self.alive(down, right) {
            n += 1;
        }
        n
    }

    /// One synchronous update of the whole board: every cell's next state is
    /// the rule applied to its current state and its 8 torus neighbors. This
    /// is exactly the pass the step fragment stage performs on the GPU.
    pub fn step(&self) -> (next: Board)
        requires
            self.wf(),
        ensures
            next.wf(),
            next.width == self.width,
            next.height == self.height,
            forall|r: int, c: int|
                0 <= r < self.height && 0 <= c < self.width ==> next.cell(r, c) == next_state(
                    self.cell(r, c),
                    self.live_neighbors(r, c),
                ),
    {
        let w = self.width;
        let h = self.height;
        let mut bytes: Vec<u8> = Vec::new();
        let mut r: usize = 0;
        while r < h
            invariant
                self.wf(),
                w == self.width,
                h == self.height,
                r <= h,
                bytes@.len() == 4 * ((r as int) * w),
                forall|i: int, j: int|
                    0 <= i < r && 0 <= j < w ==> stepped_pixel(*self, bytes@, i, j),
            decreases h - r,
        {
            let mut c: usize = 0;
            while c < w
                invariant
                    self.wf(),
                    w == self.width,
                    h == self.height,
                    r < h,
                    c <= w,
                    bytes@.len() == 4 * ((r as int) * w + c),
                    forall|i: int, j: int|
                        0 <= i < r && 0 <= j < w ==> stepped_pixel(*self, bytes@, i, j),
                    forall|j: int| 0 <= j < c ==> stepped_pixel(*self, bytes@, r as int, j),
                decreases w - c,
            {
                proof {
                    lemma_pixel_in_bounds(w as int, h as int, r as int, c as int);
                }
                let count = self.count_neighbors(r, c);
                let was_alive = self.alive(r, c);
                let v: u8 = if crate::rules::step_cell(was_alive, count) {
                    255
                } else {
                    0
                };
                let ghost before = bytes@;
                bytes.push(v);
                bytes.push(v);
                bytes.push(v);
                bytes.push(v);
                proof {
                    assert forall|i: int, j: int|
                        0 <= i < r && 0 <= j < w implies stepped_pixel(*self, bytes@, i, j) by {
                        lemma_pixel_in_bounds(w as int, h as int, i, j);
                        lemma_pixel_order(w as int, h as int, i, j, r as int, c as int);
                        assert(stepped_pixel(*self, before, i, j));
                    }
                    assert forall|j: int| 0 <= j < c + 1 implies stepped_pixel(
                        *self,
                        bytes@,
                        r as int,
                        j,
                    ) by {
                        lemma_pixel_in_bounds(w as int, h as int, r as int, j);
                        if j < c {
                            lemma_pixel_order(w as int, h as int, r as int, j, r as int, c as int);
                            assert(stepped_pixel(*self, before, r as int, j));
                        }
                    }
                }
                c += 1;
            }
            proof {
                assert((r as int + 1) * (w as int) == (r as int) * (w as int) + (w as int))
                    by (nonlinear_arith);
            }
            r += 1;
        }
        let next = Board { width: w, height: h, bytes };
        proof {
            assert((h as int) * (w as int) == (w as int) * (h as int)) by (nonlinear_arith);
            assert forall|i: int, j: int|
                0 <= i < h && 0 <= j < w implies next.pixel_wf(i, j) && next.cell(i, j)
                == next_state(self.cell(i, j), self.live_neighbors(i, j)) by {
                lemma_pixel_in_bounds(w as int, h as int, i, j);
                assert(stepped_pixel(*self, next.bytes@, i, j));
            }
        }
        next
    }
}

/// Torus topology at every edge: for a cell on a board edge, the neighbor
/// "off the edge" is the cell in the same row or column on the opposite
/// edge.
pub proof fn lemma_edges_wrap(board: Board, r: int, c: int)
    requires
        board.wf(),
        0 <= r < board.height,
        0 <= c < board.width,
    ensures
        r == 0 ==> board.neighbor(r, c, -1, 0) == board.cell(board.height - 1, c),
        r == board.height - 1 ==> board.neighbor(r, c, 1, 0) == board.cell(0, c),
        c == 0 ==> board.neighbor(r, c, 0, -1) == board.cell(r, board.width - 1),
        c == board.width - 1 ==> board.neighbor(r, c, 0, 1) == board.cell(r, 0),
{
}

/// Torus topology at the corner: the neighbors of cell (0, 0) that lie
/// "off the edge" are the cells on the opposite edges, so an edge cell
/// counts the cell at the opposite edge as an immediate neighbor.
pub proof fn lemma_corner_wraps(board: Board)
    requires
        board.wf(),
    ensures
        board.neighbor(0, 0, -1, -1) == board.cell(board.height - 1, board.width - 1),
        board.neighbor(0, 0, -1, 0) == board.cell(board.height - 1, 0),
        board.neighbor(0, 0, 0, -1) == board.cell(0, board.width - 1),
{
}

/// The board dimension of the demo configuration: the board is 32×32 cells.
pub const BOARD_SIZE: usize = 32;

/// The cells alive in the demo's seed configuration: a glider, a small
/// self-propagating pattern, given as (row, column) coordinates.
pub open spec fn seed_cell(r: int, c: int) -> bool {
    ||| (r == 8 && c == 14)
    ||| (r == 9 && c == 15)
    ||| (r == 10 && (13 <= c && c <= 15))
}

/// Builds the initial pixel encoding of the automaton's starting
/// configuration: a 32×32 board, all dead except the glider cells of
/// `seed_cell`.
pub fn initial_board() -> (board: Board)
    ensures
        board.wf(),
        board.width == BOARD_SIZE,
        board.height == BOARD_SIZE,
        forall|r: int, c: int|
            0 <= r < BOARD_SIZE && 0 <= c < BOARD_SIZE ==> board.cell(r, c) == seed_cell(r, c),
{
    let mut board = Board::new(BOARD_SIZE, BOARD_SIZE);
    board.set_alive(8, 14);
    board.set_alive(9, 15);
    board.set_alive(10, 13);
    board.set_alive(10, 14);
    board.set_alive(10, 15);
    board
}

/// The 4 bytes of pixel (`i`, `j`) in `bytes` encode the stepped state of
/// that cell of `prev`.
pub open spec fn stepped_pixel(prev: Board, bytes: Seq<u8>, i: int, j: int) -> bool {
    let base = 4 * prev.pixel(i, j);
    let v: u8 = if next_state(prev.cell(i, j), prev.live_neighbors(i, j)) {
        255
    } else {
        0
    };
    &&& bytes[base] == v
    &&& bytes[base + 1] == v
    &&& bytes[base + 2] == v
    &&& bytes[base + 3] == v
}

/// Pixels earlier in row-major order have strictly smaller flat indices.
pub proof fn lemma_pixel_order(width: int, height: int, r1: int, c1: int, r2: int, c2: int)
    requires
        0 <= r1 < height,
        0 <= c1 < width,
        0 <= r2 < height,
        0 <= c2 < width,
        r1 < r2 || (r1 == r2 && c1 < c2),
    ensures
        r1 * width + c1 < r2 * width + c2,
{
    assert(r1 * width + c1 < r2 * width + c2) by (nonlinear_arith)
        requires
            0 <= r1 < height,
            0 <= c1 < width,
            0 <= r2 < height,
            0 <= c2 < width,
            r1 < r2 || (r1 == r2 && c1 < c2);
}

/// A cell's flat pixel index lies below `width * height`.
pub proof fn lemma_pixel_in_bounds(width: int, height: int, r: int, c: int)
    requires
        0 <= r < height,
        0 <= c < width,
    ensures
        0 <= r * width,
        0 <= r * width + c,
        r * width + c < width * height,
        4 * (r * width + c) + 3 < 4 * (width * height),
{
    assert(0 <= r * width && 0 <= r * width + c && r * width + c < width * height && 4 * (r
        * width + c) + 3 < 4 * (width * height)) by (nonlinear_arith)
        requires 0 <= r < height && 0 <= c < width;
}

/// Distinct cells have distinct flat pixel indices.
pub proof fn lemma_pixel_injective(width: int, height: int, r1: int, c1: int, r2: int, c2: int)
    requires
        0 <= r1 < height,
        0 <= c1 < width,
        0 <= r2 < height,
        0 <= c2 < width,
        !(r1 == r2 && c1 == c2),
    ensures
        r1 * width + c1 != r2 * width + c2,
{
    assert(r1 * width + c1 != r2 * width + c2) by (nonlinear_arith)
        requires
            0 <= r1 < height,
            0 <= c1 < width,
            0 <= r2 < height,
            0 <= c2 < width,
            !(r1 == r2 && c1 == c2);
}

} // verus!
