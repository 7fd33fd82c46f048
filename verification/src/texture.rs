//! The ping-pong double buffer: two GPU-resident copies of the board, each
//! wrapped by a framebuffer, and a single role flag that says which copy is
//! currently read from and which is written into. The library mirrors the
//! pixel contents of both copies, so the whole simulation is decided and
//! checked on the host while the GPU does the drawing.

use vstd::prelude::*;

use crate::board::Board;
use crate::rules::next_state;

verus! {

/// A texture sampling filter. Nearest is required for the board texture: it
/// keeps cell boundaries crisp and introduces no non-binary intermediate
/// values.
#[derive(Debug, Clone, Copy, PartialEq, Eq, Structural)]
pub enum Filter {
    Nearest,
    Linear,
}

/// A texture coordinate wrap mode. Repeat is required for the board
/// texture: it makes the board wrap at the edges, a torus, which is the
/// intended neighbor-counting semantics for edge cells.
#[derive(Debug, Clone, Copy, PartialEq, Eq, Structural)]
pub enum WrapMode {
    Repeat,
    ClampToEdge,
    MirroredRepeat,
}

/// The filter and wrap configuration both textures are created with.
#[derive(Debug, Clone, Copy, PartialEq, Eq, Structural)]
pub struct TextureOptions {
    pub min_filter: Filter,
    pub mag_filter: Filter,
    pub wrap_horizontal: WrapMode,
    pub wrap_vertical: WrapMode,
}

impl TextureOptions {
    /// The configuration the demo requires: nearest filtering and repeat
    /// wrapping on both axes.
    pub fn demo() -> (options: TextureOptions)
        ensures
            options == (TextureOptions {
                min_filter: Filter::Nearest,
                mag_filter: Filter::Nearest,
                wrap_horizontal: WrapMode::Repeat,
                wrap_vertical: WrapMode::Repeat,
            }),
    {
        TextureOptions {
            min_filter: Filter::Nearest,
            mag_filter: Filter::Nearest,
            wrap_horizontal: WrapMode::Repeat,
            wrap_vertical: WrapMode::Repeat,
        }
    }
}

/// Two physical board copies — texture A wrapped by framebuffer A, texture
/// B wrapped by framebuffer B — and the role flag selecting which is the
/// current read buffer. The texture and framebuffer fields hold the host's
/// handles for the GPU objects; the board fields mirror the pixels each
/// texture holds.
pub struct SwappableTexture {
    pub texture_a: u32,
    pub framebuffer_a: u32,
    pub texture_b: u32,
    pub framebuffer_b: u32,
    pub board_a: Board,
    pub board_b: Board,
    pub reading_a: bool,
    pub options: TextureOptions,
}

impl SwappableTexture {
    /// Well-formed: both copies are well-formed boards of the same
    /// dimensions, and the two physical slots are distinct objects.
    pub open spec fn wf(self) -> bool {
        &&& self.board_a.wf()
        &&& self.board_b.wf()
        &&& self.board_a.width == self.board_b.width
        &&& self.board_a.height == self.board_b.height
        &&& self.texture_a != self.texture_b
        &&& self.framebuffer_a != self.framebuffer_b
    }

    /// The pixel contents of the current read buffer: the most recently
    /// computed state.
    pub open spec fn spec_read_board(self) -> Board {
        if self.reading_a {
            self.board_a
        } else {
            self.board_b
        }
    }

    /// The pixel contents of the current write buffer.
    pub open spec fn spec_write_board(self) -> Board {
        if self.reading_a {
            self.board_b
        } else {
            self.board_a
        }
    }

    /// The host handle of the texture currently holding the most recently
    /// computed state.
    pub open spec fn spec_read_texture(self) -> u32 {
        if self.reading_a {
            self.texture_a
        } else {
            self.texture_b
        }
    }

    /// The host handle of the texture the write framebuffer draws into.
    pub open spec fn spec_write_texture(self) -> u32 {
        if self.reading_a {
            self.texture_b
        } else {
            self.texture_a
        }
    }

    /// The host handle of the framebuffer wrapping the write texture.
    pub open spec fn spec_write_framebuffer(self) -> u32 {
        if self.reading_a {
            self.framebuffer_b
        } else {
            self.framebuffer_a
        }
    }

    /// The same double buffer with the two roles exchanged.
    pub open spec fn spec_swapped(self) -> SwappableTexture {
        SwappableTexture { reading_a: !self.reading_a, ..self }
    }

    /// Creates the double buffer. Both physical copies start holding
    /// `initial`, so the very first read is well-defined; slot A starts as
    /// the read buffer. The texture and framebuffer arguments are the
    /// host's handles for the two GPU textures and the framebuffers
    /// wrapping them.
    pub fn create(
        initial: Board,
        options: TextureOptions,
        texture_a: u32,
        framebuffer_a: u32,
        texture_b: u32,
        framebuffer_b: u32,
    ) -> (buffer: SwappableTexture)
        requires
            initial.wf(),
            texture_a != texture_b,
            framebuffer_a != framebuffer_b,
        ensures
            buffer.wf(),
            buffer.reading_a,
            buffer.spec_read_board() == initial,
            buffer.spec_write_board().bytes@ == initial.bytes@,
            buffer.spec_write_board().width == initial.width,
            buffer.spec_write_board().height == initial.height,
            buffer.texture_a == texture_a,
            buffer.framebuffer_a == framebuffer_a,
            buffer.texture_b == texture_b,
            buffer.framebuffer_b == framebuffer_b,
            buffer.options == options,
    {
        let board_b = initial.duplicate();
        proof {
            assert forall|r: int, c: int|
                0 <= r < board_b.height && 0 <= c < board_b.width implies board_b.pixel_wf(
                r,
                c,
            ) by {
                assert(initial.pixel_wf(r, c));
            }
        }
        SwappableTexture {
            texture_a,
            framebuffer_a,
            texture_b,
            framebuffer_b,
            board_a: initial,
            board_b,
            reading_a: true,
            options,
        }
    }

    /// The pixel contents of the current read buffer.
    pub fn read_board(&self) -> (board: &Board)
        ensures
            *board == self.spec_read_board(),
    {
        if self.reading_a {
            &self.board_a
        } else {
            &self.board_b
        }
    }

    /// The handle of the texture to sample the current state from.
    pub fn read(&self) -> (texture: u32)
        ensures
            texture == self.spec_read_texture(),
    {
        if self.reading_a {
            self.texture_a
        } else {
            self.texture_b
        }
    }

    /// The handle of the framebuffer to draw the next state into. Its
    /// attached texture is always the one *not* returned by `read`, so a
    /// draw into it never aliases the texture being sampled.
    pub fn write(&self) -> (framebuffer: u32)
        ensures
            framebuffer == self.spec_write_framebuffer(),
    {
        if self.reading_a {
            self.framebuffer_b
        } else {
            self.framebuffer_a
        }
    }

    /// The board dimensions, from which the step shader's texel size
    /// (1/width, 1/height) is computed.
    pub fn dimensions(&self) -> (d: (usize, usize))
        requires
            self.wf(),
        ensures
            d.0 == self.spec_read_board().width,
            d.1 == self.spec_read_board().height,
    {
        if self.reading_a {
            (self.board_a.width, self.board_a.height)
        } else {
            (self.board_b.width, self.board_b.height)
        }
    }

    /// Flips the read/write roles in O(1); no pixel data moves. Called
    /// exactly once per completed simulation step, after the write pass.
    pub fn swap(&mut self)
        ensures
            *final(self) == old(self).spec_swapped(),
    {
        self.reading_a = !self.reading_a;
    }

    /// `after` is this double buffer advanced by one completed simulation
    /// step: the write buffer received the step of the read board, the
    /// roles flipped, and nothing else moved. After the flip, the new read
    /// buffer holds the stepped state and the new write buffer still holds
    /// the state just stepped from.
    pub open spec fn spec_advanced_to(self, after: SwappableTexture) -> bool {
        &&& after.reading_a == !self.reading_a
        &&& after.texture_a == self.texture_a
        &&& after.framebuffer_a == self.framebuffer_a
        &&& after.texture_b == self.texture_b
        &&& after.framebuffer_b == self.framebuffer_b
        &&& after.options == self.options
        &&& after.spec_write_board() == self.spec_read_board()
        &&& after.spec_read_board().wf()
        &&& after.spec_read_board().width == self.spec_read_board().width
        &&& after.spec_read_board().height == self.spec_read_board().height
        &&& forall|r: int, c: int|
            0 <= r < self.spec_read_board().height && 0 <= c < self.spec_read_board().width
                ==> after.spec_read_board().cell(r, c) == next_state(
                self.spec_read_board().cell(r, c),
                self.spec_read_board().live_neighbors(r, c),
            )
    }

    /// Mirrors one completed update pass plus swap: the write buffer's
    /// contents become the stepped read board, then the roles flip.
    pub fn advance(&mut self)
        requires
            old(self).wf(),
        ensures
            final(self).wf(),
            old(self).spec_advanced_to(*final(self)),
    {
        if self.reading_a {
            self.board_b = self.board_a.step();
        } else {
            self.board_a = self.board_b.step();
        }
        self.reading_a = !self.reading_a;
    }

    /// The two physical slots never alias: the write framebuffer's attached
    /// texture differs from the read texture, in every role assignment.
    pub proof fn lemma_no_aliasing(self)
        requires
            self.wf(),
        ensures
            self.spec_write_texture() != self.spec_read_texture(),
    {
    }

    /// Swapping twice restores the original read/write assignment exactly.
    pub proof fn lemma_swap_twice_identity(self)
        ensures
            self.spec_swapped().spec_swapped() == self,
    {
    }
}

} // verus!
