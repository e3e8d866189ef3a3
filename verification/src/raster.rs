//! Rasterization of a board onto an RGBA frame buffer.
//!
//! Pixel slot `i` of the buffer (bytes `4 * i .. 4 * i + 4`) shows the
//! cell at the same row-major index `i`: opaque red for a live cell,
//! opaque white for a dead one. The mapping is only aligned when the
//! buffer's pixel dimensions equal the board's; slots beyond the grid,
//! and trailing bytes short of a full pixel, are left untouched.

use vstd::prelude::*;

use crate::board::{Board, CellStatus};

verus! {

/// Byte `k` (of 0..4) of the RGBA pixel drawn for a cell in state `s`:
/// `[0xff, 0x00, 0x00, 0xff]` when alive, `[0xff, 0xff, 0xff, 0xff]`
/// when dead.
pub open spec fn pixel_byte(s: CellStatus, k: int) -> u8 {
    if s is Alive {
        if k == 1 || k == 2 {
            0x00
        } else {
            0xff
        }
    } else {
        0xff
    }
}

/// What rasterizing `board` leaves in a buffer that held `pre`: every
/// complete 4-byte slot with a matching cell shows that cell's pixel,
/// and every other byte keeps its old value.
pub open spec fn drawn(board: Board, pre: Seq<u8>, post: Seq<u8>) -> bool {
    &&& post.len() == pre.len()
    &&& forall|j: int|
        0 <= j < pre.len() ==> post[j] == (
        if j / 4 < board.cells@.len() && j / 4 < pre.len() / 4 {
            pixel_byte(board.cells@[j / 4].status, j % 4)
        } else {
            pre[j]
        })
}

/// Writes the 4-byte pixel for state `s` into slot `i` of the buffer,
/// leaving every other byte as it was.
fn write_pixel(frame: &mut Vec<u8>, i: usize, s: CellStatus)
    requires
        4 * i + 3 < old(frame)@.len(),
    ensures
        final(frame)@.len() == old(frame)@.len(),
        forall|j: int|
            0 <= j < old(frame)@.len() && !(4 * i <= j < 4 * i + 4) ==> final(frame)@[j] == old(
                frame,
            )@[j],
        forall|k: int| 0 <= k < 4 ==> final(frame)@[4 * i + k] == pixel_byte(s, k),
{
    let n: usize = frame.len();
    if s == CellStatus::Alive {
        frame[4 * i] = 0xff;
        frame[4 * i + 1] = 0x00;
        frame[4 * i + 2] = 0x00;
        frame[4 * i + 3] = 0xff;
    } else {
        frame[4 * i] = 0xff;
        frame[4 * i + 1] = 0xff;
        frame[4 * i + 2] = 0xff;
        frame[4 * i + 3] = 0xff;
    }
}

impl Board {
    /// Rasterizes the board into `frame`: slot `i` of the buffer takes
    /// the pixel of cell `i` wherever both exist; the rest of the
    /// buffer is left unmodified.
    pub fn draw(&self, frame: &mut Vec<u8>)
        requires
            self.wf(),
        ensures
            drawn(*self, old(frame)@, final(frame)@),
    {
        let ghost frame0 = frame@;
        let ncells: usize = self.cells.len();
        let npix: usize = frame.len() / 4;
        let limit: usize = if npix < ncells {
            npix
        } else {
            ncells
        };
        let mut i: usize = 0;
        while i < limit
            invariant
                self.wf(),
                ncells == self.cells@.len(),
                npix == frame0.len() / 4,
                limit <= ncells,
                limit <= npix,
                limit == if npix < ncells {
                    npix as int
                } else {
                    ncells as int
                },
                i <= limit,
                frame@.len() == frame0.len(),
                forall|j: int|
                    0 <= j < frame@.len() ==> frame@[j] == (
                    if j / 4 < i {
                        pixel_byte(self.cells@[j / 4].status, j % 4)
                    } else {
                        frame0[j]
                    }),
            decreases limit - i,
        {
            write_pixel(frame, i, self.cells[i].status);
            i = i + 1;
        }
    }
}

} // verus!
