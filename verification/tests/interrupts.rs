use open_os::interrupts::{breakpoint_banner, double_fault_banner, exception_banner};
use open_os::vga_buffer::Color;

#[test]
fn breakpoint_banner_is_brkp_in_light_red() {
    assert_eq!(breakpoint_banner(), [b'B', 0x0c, b'R', 0x0c, b'K', 0x0c, b'P', 0x0c]);
}

#[test]
fn double_fault_banner_is_red_message() {
    let bytes = double_fault_banner();
    let text = b"DOUBLE FAULT!";
    assert_eq!(bytes.len(), 2 * text.len());
    for (i, ch) in text.iter().enumerate() {
        assert_eq!(bytes[2 * i], *ch);
        assert_eq!(bytes[2 * i + 1], 0x0c);
    }
}

#[test]
fn exception_banner_interleaves_text_and_color() {
    assert_eq!(exception_banner::<4>(b"ok", Color::White), [b'o', 0x0f, b'k', 0x0f]);
    assert_eq!(exception_banner::<4>(b"ok", Color::Red), [b'o', 0x04, b'k', 0x04]);
    assert_eq!(exception_banner::<0>(b"", Color::White), [0u8; 0]);
}
