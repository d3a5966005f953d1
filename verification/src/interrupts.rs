//! What the exception handlers show: a short message in the top-left
//! corner of the screen, as the raw bytes of VGA text memory.

use vstd::prelude::*;
use crate::vga_buffer::{Color, ColorCode};

verus! {

/// The raw VGA bytes that show `text` from the first cell of the screen
/// on: for each character its byte, then the color byte `color`.
pub open spec fn banner_bytes(text: Seq<u8>, color: u8) -> Seq<u8> {
    Seq::new(2 * text.len(), |i: int| if i % 2 == 0 { text[i / 2] } else { color })
}

/// The bytes to store from the start of VGA text memory so that `text`
/// appears in `foreground` on black: byte `2 * i` is `text[i]` and byte
/// `2 * i + 1` is the color byte, which on black is the number of
/// `foreground`. `N` is the number of bytes, twice the length of `text`.
pub fn exception_banner<const N: usize>(text: &[u8], foreground: Color) -> (bytes: [u8; N])
    requires
        N == 2 * text@.len(),
    ensures
        bytes@ == banner_bytes(text@, foreground.number()),
        bytes@.len() == 2 * text@.len(),
        forall|i: int|
            0 <= i < text@.len() ==> #[trigger] bytes@[2 * i] == text@[i] && bytes@[2 * i + 1]
                == foreground.number(),
{
    let color = ColorCode::new(foreground, Color::Black).byte();
    let mut bytes: [u8; N] = [0u8; N];
    let mut i: usize = 0;
    while i < text.len()
        invariant
            0 <= i <= text@.len(),
            N == 2 * text@.len(),
            color == foreground.number(),
            forall|k: int| 0 <= k < 2 * i ==> #[trigger] bytes@[k] == banner_bytes(text@, color)[k],
        decreases text@.len() - i,
    {
        bytes[2 * i] = text[i];
        bytes[2 * i + 1] = color;
        i += 1;
    }
    assert(bytes@ =~= banner_bytes(text@, color));
    proof {
        lemma_banner_bytes(text@, color);
    }
    bytes
}

/// The banner bytes hold, for every character of the text, the character at
/// an even offset followed by the color byte, and nothing else.
pub proof fn lemma_banner_bytes(text: Seq<u8>, color: u8)
    ensures
        banner_bytes(text, color).len() == 2 * text.len(),
        forall|i: int|
            0 <= i < text.len() ==> #[trigger] banner_bytes(text, color)[2 * i] == text[i]
                && banner_bytes(text, color)[2 * i + 1] == color,
{
}

/// The message of the breakpoint handler: "BRKP" in light red on black.
pub fn breakpoint_banner() -> (bytes: [u8; 8])
    ensures
        bytes@ == seq![66u8, 12, 82, 12, 75, 12, 80, 12],
{
    // B, R, K, P
    let text: [u8; 4] = [66, 82, 75, 80];
    let bytes: [u8; 8] = exception_banner(text.as_slice(), Color::LightRed);
    assert(bytes@ =~= seq![66u8, 12, 82, 12, 75, 12, 80, 12]);
    bytes
}

/// The message of the double-fault handler: "DOUBLE FAULT!" in red on
/// black, the red of color number 12 (`[0 << 4 | 12] = 0x0C`).
pub fn double_fault_banner() -> (bytes: [u8; 26])
    ensures
        bytes@ == banner_bytes(
            seq![68u8, 79, 85, 66, 76, 69, 32, 70, 65, 85, 76, 84, 33],
            12,
        ),
        bytes@ == seq![
            68u8, 12, 79, 12, 85, 12, 66, 12, 76, 12, 69, 12, 32, 12,
            70, 12, 65, 12, 85, 12, 76, 12, 84, 12, 33, 12,
        ],
{
    // D, O, U, B, L, E, space, F, A, U, L, T, !
    let text: [u8; 13] = [68, 79, 85, 66, 76, 69, 32, 70, 65, 85, 76, 84, 33];
    let bytes: [u8; 26] = exception_banner(text.as_slice(), Color::LightRed);
    assert(text@ =~= seq![68u8, 79, 85, 66, 76, 69, 32, 70, 65, 85, 76, 84, 33]);
    assert(bytes@ =~= seq![
        68u8, 12, 79, 12, 85, 12, 66, 12, 76, 12, 69, 12, 32, 12,
        70, 12, 65, 12, 85, 12, 76, 12, 84, 12, 33, 12,
    ]);
    bytes
}

} // verus!
