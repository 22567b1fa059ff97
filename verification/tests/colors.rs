use kernel_core::vga_buffer::{Color, ColorCode};

const ALL_COLORS: [(Color, u8); 16] = [
    (Color::Black, 0),
    (Color::Blue, 1),
    (Color::Green, 2),
    (Color::Cyan, 3),
    (Color::Red, 4),
    (Color::Magenta, 5),
    (Color::Brown, 6),
    (Color::Gray, 7),
    (Color::DarkGray, 8),
    (Color::LightBlue, 9),
    (Color::LightGreen, 10),
    (Color::LightCyan, 11),
    (Color::LightRed, 12),
    (Color::Pink, 13),
    (Color::Yellow, 14),
    (Color::White, 15),
];

#[test]
fn test_color_values() {
    for (color, value) in ALL_COLORS {
        assert_eq!(value, color.value());
    }
}

#[test]
fn test_color_code_all_combinations() {
    for (foreground, fg) in ALL_COLORS {
        for (background, bg) in ALL_COLORS {
            let code = ColorCode::new(foreground, background);
            assert_eq!((bg << 4) | fg, code.0);
        }
    }
}

#[test]
fn test_color_code_example() {
    // white on blue: high nibble 1, low nibble 15
    assert_eq!(0x1f, ColorCode::new(Color::White, Color::Blue).0);
}
