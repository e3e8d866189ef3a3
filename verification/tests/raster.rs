use game_of_life::board::{Board, CellStatus};

const A: CellStatus = CellStatus::Alive;
const D: CellStatus = CellStatus::Dead;

#[test]
fn draw_two_cells() {
    // One live and one dead cell over an exactly matching buffer:
    // opaque red then opaque white.
    let board = Board::from_statuses(2, 1, vec![A, D]).unwrap();
    let mut frame = vec![0u8; 8];
    board.draw(&mut frame);
    assert_eq!(frame, vec![0xff, 0x00, 0x00, 0xff, 0xff, 0xff, 0xff, 0xff]);
}

#[test]
fn draw_leaves_extra_pixels_untouched() {
    // A buffer with one pixel slot more than the grid has cells: the
    // extra slot keeps whatever it held.
    let board = Board::from_statuses(2, 1, vec![A, D]).unwrap();
    let mut frame = vec![0xab_u8; 12];
    board.draw(&mut frame);
    assert_eq!(
        frame,
        vec![0xff, 0x00, 0x00, 0xff, 0xff, 0xff, 0xff, 0xff, 0xab, 0xab, 0xab, 0xab]
    );
}

#[test]
fn draw_leaves_trailing_bytes_untouched() {
    // A buffer that ends short of a full 4-byte pixel: the tail is not
    // written, even though a cell for it exists.
    let board = Board::from_statuses(2, 1, vec![A, A]).unwrap();
    let mut frame = vec![0x11_u8; 6];
    board.draw(&mut frame);
    assert_eq!(frame, vec![0xff, 0x00, 0x00, 0xff, 0x11, 0x11]);
}

#[test]
fn draw_stops_at_a_short_buffer() {
    // More cells than pixel slots: only the slots that exist are drawn.
    let board = Board::from_statuses(3, 1, vec![D, A, A]).unwrap();
    let mut frame = vec![0u8; 8];
    board.draw(&mut frame);
    assert_eq!(frame, vec![0xff, 0xff, 0xff, 0xff, 0xff, 0x00, 0x00, 0xff]);
}

#[test]
fn draw_keeps_buffer_length() {
    let board = Board::new_empty(3, 3);
    let mut frame = vec![0u8; 37];
    board.draw(&mut frame);
    assert_eq!(frame.len(), 37);
}
