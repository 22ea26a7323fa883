use vstd::prelude::*;

verus! {

// Logical key codes carried by key events.
pub const K_ESC: u8 = 0x01;
pub const K_1: u8 = 0x02;
pub const K_2: u8 = 0x03;
pub const K_3: u8 = 0x04;
pub const K_4: u8 = 0x05;
pub const K_5: u8 = 0x06;
pub const K_6: u8 = 0x07;
pub const K_7: u8 = 0x08;
pub const K_8: u8 = 0x09;
pub const K_9: u8 = 0x0A;
pub const K_0: u8 = 0x0B;
pub const K_MINUS: u8 = 0x0C;
pub const K_EQUALS: u8 = 0x0D;
pub const K_BKSP: u8 = 0x0E;
pub const K_TAB: u8 = 0x0F;
pub const K_Q: u8 = 0x10;
pub const K_W: u8 = 0x11;
pub const K_E: u8 = 0x12;
pub const K_R: u8 = 0x13;
pub const K_T: u8 = 0x14;
pub const K_Y: u8 = 0x15;
pub const K_U: u8 = 0x16;
pub const K_I: u8 = 0x17;
pub const K_O: u8 = 0x18;
pub const K_P: u8 = 0x19;
pub const K_BRACE_OPEN: u8 = 0x1A;
pub const K_BRACE_CLOSE: u8 = 0x1B;
pub const K_ENTER: u8 = 0x1C;
pub const K_CTRL: u8 = 0x1D;
pub const K_A: u8 = 0x1E;
pub const K_S: u8 = 0x1F;
pub const K_D: u8 = 0x20;
pub const K_F: u8 = 0x21;
pub const K_G: u8 = 0x22;
pub const K_H: u8 = 0x23;
pub const K_J: u8 = 0x24;
pub const K_K: u8 = 0x25;
pub const K_L: u8 = 0x26;
pub const K_SEMICOLON: u8 = 0x27;
pub const K_QUOTE: u8 = 0x28;
pub const K_TICK: u8 = 0x29;
pub const K_LEFT_SHIFT: u8 = 0x2A;
pub const K_BACKSLASH: u8 = 0x2B;
pub const K_Z: u8 = 0x2C;
pub const K_X: u8 = 0x2D;
pub const K_C: u8 = 0x2E;
pub const K_V: u8 = 0x2F;
pub const K_B: u8 = 0x30;
pub const K_N: u8 = 0x31;
pub const K_M: u8 = 0x32;
pub const K_COMMA: u8 = 0x33;
pub const K_PERIOD: u8 = 0x34;
pub const K_SLASH: u8 = 0x35;
pub const K_RIGHT_SHIFT: u8 = 0x36;
pub const K_ALT: u8 = 0x38;
pub const K_SPACE: u8 = 0x39;
pub const K_CAPS: u8 = 0x3A;
pub const K_F1: u8 = 0x3B;
pub const K_F2: u8 = 0x3C;
pub const K_F3: u8 = 0x3D;
pub const K_F4: u8 = 0x3E;
pub const K_F5: u8 = 0x3F;
pub const K_F6: u8 = 0x40;
pub const K_F7: u8 = 0x41;
pub const K_F8: u8 = 0x42;
pub const K_F9: u8 = 0x43;
pub const K_F10: u8 = 0x44;
pub const K_HOME: u8 = 0x47;
pub const K_UP: u8 = 0x48;
pub const K_PGUP: u8 = 0x49;
pub const K_LEFT: u8 = 0x4B;
pub const K_RIGHT: u8 = 0x4D;
pub const K_END: u8 = 0x4F;
pub const K_DOWN: u8 = 0x50;
pub const K_PGDN: u8 = 0x51;
pub const K_DEL: u8 = 0x53;
pub const K_F11: u8 = 0x57;
pub const K_F12: u8 = 0x58;

/// The (character, logical key code) that a physical key gives, by its
/// native scancode number and the shift state; `None` for keys that carry
/// no meaning here.
pub open spec fn key_entry(code: i32, shift: bool) -> Option<(char, u8)> {
    match code {
        4i32 => Some((if shift { 'A' } else { 'a' }, K_A)),  // A
        5i32 => Some((if shift { 'B' } else { 'b' }, K_B)),  // B
        6i32 => Some((if shift { 'C' } else { 'c' }, K_C)),  // C
        7i32 => Some((if shift { 'D' } else { 'd' }, K_D)),  // D
        8i32 => Some((if shift { 'E' } else { 'e' }, K_E)),  // E
        9i32 => Some((if shift { 'F' } else { 'f' }, K_F)),  // F
        10i32 => Some((if shift { 'G' } else { 'g' }, K_G)),  // G
        11i32 => Some((if shift { 'H' } else { 'h' }, K_H)),  // H
        12i32 => Some((if shift { 'I' } else { 'i' }, K_I)),  // I
        13i32 => Some((if shift { 'J' } else { 'j' }, K_J)),  // J
        14i32 => Some((if shift { 'K' } else { 'k' }, K_K)),  // K
        15i32 => Some((if shift { 'L' } else { 'l' }, K_L)),  // L
        16i32 => Some((if shift { 'M' } else { 'm' }, K_M)),  // M
        17i32 => Some((if shift { 'N' } else { 'n' }, K_N)),  // N
        18i32 => Some((if shift { 'O' } else { 'o' }, K_O)),  // O
        19i32 => Some((if shift { 'P' } else { 'p' }, K_P)),  // P
        20i32 => Some((if shift { 'Q' } else { 'q' }, K_Q)),  // Q
        21i32 => Some((if shift { 'R' } else { 'r' }, K_R)),  // R
        22i32 => Some((if shift { 'S' } else { 's' }, K_S)),  // S
        23i32 => Some((if shift { 'T' } else { 't' }, K_T)),  // T
        24i32 => Some((if shift { 'U' } else { 'u' }, K_U)),  // U
        25i32 => Some((if shift { 'V' } else { 'v' }, K_V)),  // V
        26i32 => Some((if shift { 'W' } else { 'w' }, K_W)),  // W
        27i32 => Some((if shift { 'X' } else { 'x' }, K_X)),  // X
        28i32 => Some((if shift { 'Y' } else { 'y' }, K_Y)),  // Y
        29i32 => Some((if shift { 'Z' } else { 'z' }, K_Z)),  // Z
        30i32 => Some((if shift { '1' } else { '!' }, K_1)),  // Num1
        31i32 => Some((if shift { '2' } else { '@' }, K_2)),  // Num2
        32i32 => Some((if shift { '3' } else { '#' }, K_3)),  // Num3
        33i32 => Some((if shift { '4' } else { '$' }, K_4)),  // Num4
        34i32 => Some((if shift { '5' } else { '%' }, K_5)),  // Num5
        35i32 => Some((if shift { '6' } else { '^' }, K_6)),  // Num6
        36i32 => Some((if shift { '7' } else { '&' }, K_7)),  // Num7
        37i32 => Some((if shift { '8' } else { '*' }, K_8)),  // Num8
        38i32 => Some((if shift { '9' } else { '(' }, K_9)),  // Num9
        39i32 => Some((if shift { '0' } else { ')' }, K_0)),  // Num0
        53i32 => Some((if shift { '`' } else { '~' }, K_TICK)),  // Grave
        45i32 => Some((if shift { '-' } else { '_' }, K_MINUS)),  // Minus
        46i32 => Some((if shift { '=' } else { '+' }, K_EQUALS)),  // Equals
        47i32 => Some((if shift { '[' } else { '{' }, K_BRACE_OPEN)),  // LeftBracket
        48i32 => Some((if shift { ']' } else { '}' }, K_BRACE_CLOSE)),  // RightBracket
        49i32 => Some((if shift { '\\' } else { '|' }, K_BACKSLASH)),  // Backslash
        51i32 => Some((if shift { ';' } else { ':' }, K_SEMICOLON)),  // Semicolon
        52i32 => Some((if shift { '\'' } else { '"' }, K_QUOTE)),  // Apostrophe
        54i32 => Some((if shift { ',' } else { '<' }, K_COMMA)),  // Comma
        55i32 => Some((if shift { '.' } else { '>' }, K_PERIOD)),  // Period
        56i32 => Some((if shift { '/' } else { '?' }, K_SLASH)),  // Slash
        44i32 => Some((' ', K_SPACE)),  // Space
        42i32 => Some(('\0', K_BKSP)),  // Backspace
        43i32 => Some(('\t', K_TAB)),  // Tab
        224i32 => Some(('\0', K_CTRL)),  // LCtrl
        228i32 => Some(('\0', K_CTRL)),  // RCtrl
        226i32 => Some(('\0', K_ALT)),  // LAlt
        230i32 => Some(('\0', K_ALT)),  // RAlt
        40i32 => Some(('\n', K_ENTER)),  // Return
        41i32 => Some(('\x1B', K_ESC)),  // Escape
        58i32 => Some(('\0', K_F1)),  // F1
        59i32 => Some(('\0', K_F2)),  // F2
        60i32 => Some(('\0', K_F3)),  // F3
        61i32 => Some(('\0', K_F4)),  // F4
        62i32 => Some(('\0', K_F5)),  // F5
        63i32 => Some(('\0', K_F6)),  // F6
        64i32 => Some(('\0', K_F7)),  // F7
        65i32 => Some(('\0', K_F8)),  // F8
        66i32 => Some(('\0', K_F9)),  // F9
        67i32 => Some(('\0', K_F10)),  // F10
        74i32 => Some(('\0', K_HOME)),  // Home
        82i32 => Some(('\0', K_UP)),  // Up
        75i32 => Some(('\0', K_PGUP)),  // PageUp
        80i32 => Some(('\0', K_LEFT)),  // Left
        79i32 => Some(('\0', K_RIGHT)),  // Right
        77i32 => Some(('\0', K_END)),  // End
        81i32 => Some(('\0', K_DOWN)),  // Down
        78i32 => Some(('\0', K_PGDN)),  // PageDown
        76i32 => Some(('\0', K_DEL)),  // Delete
        68i32 => Some(('\0', K_F11)),  // F11
        69i32 => Some(('\0', K_F12)),  // F12
        225i32 => Some(('\0', K_LEFT_SHIFT)),  // LShift
        229i32 => Some(('\0', K_RIGHT_SHIFT)),  // RShift
        _ => None,
    }
}

/// Translates a native scancode number, with the shift state, to a
/// (character, logical key code) pair; the character is `'\0'` for keys
/// that print nothing.
pub fn convert_scancode(scancode: Option<i32>, shift: bool) -> (r: Option<(char, u8)>)
    ensures
        r == match scancode {
            Some(code) => key_entry(code, shift),
            None => None,
        },
{
    match scancode {
        Some(code) => match code {
            4i32 => Some((if shift { 'A' } else { 'a' }, K_A)),  // A
            5i32 => Some((if shift { 'B' } else { 'b' }, K_B)),  // B
            6i32 => Some((if shift { 'C' } else { 'c' }, K_C)),  // C
            7i32 => Some((if shift { 'D' } else { 'd' }, K_D)),  // D
            8i32 => Some((if shift { 'E' } else { 'e' }, K_E)),  // E
            9i32 => Some((if shift { 'F' } else { 'f' }, K_F)),  // F
            10i32 => Some((if shift { 'G' } else { 'g' }, K_G)),  // G
            11i32 => Some((if shift { 'H' } else { 'h' }, K_H)),  // H
            12i32 => Some((if shift { 'I' } else { 'i' }, K_I)),  // I
            13i32 => Some((if shift { 'J' } else { 'j' }, K_J)),  // J
            14i32 => Some((if shift { 'K' } else { 'k' }, K_K)),  // K
            15i32 => Some((if shift { 'L' } else { 'l' }, K_L)),  // L
            16i32 => Some((if shift { 'M' } else { 'm' }, K_M)),  // M
            17i32 => Some((if shift { 'N' } else { 'n' }, K_N)),  // N
            18i32 => Some((if shift { 'O' } else { 'o' }, K_O)),  // O
            19i32 => Some((if shift { 'P' } else { 'p' }, K_P)),  // P
            20i32 => Some((if shift { 'Q' } else { 'q' }, K_Q)),  // Q
            21i32 => Some((if shift { 'R' } else { 'r' }, K_R)),  // R
            22i32 => Some((if shift { 'S' } else { 's' }, K_S)),  // S
            23i32 => Some((if shift { 'T' } else { 't' }, K_T)),  // T
            24i32 => Some((if shift { 'U' } else { 'u' }, K_U)),  // U
            25i32 => Some((if shift { 'V' } else { 'v' }, K_V)),  // V
            26i32 => Some((if shift { 'W' } else { 'w' }, K_W)),  // W
            27i32 => Some((if shift { 'X' } else { 'x' }, K_X)),  // X
            28i32 => Some((if shift { 'Y' } else { 'y' }, K_Y)),  // Y
            29i32 => Some((if shift { 'Z' } else { 'z' }, K_Z)),  // Z
            30i32 => Some((if shift { '1' } else { '!' }, K_1)),  // Num1
            31i32 => Some((if shift { '2' } else { '@' }, K_2)),  // Num2
            32i32 => Some((if shift { '3' } else { '#' }, K_3)),  // Num3
            33i32 => Some((if shift { '4' } else { '$' }, K_4)),  // Num4
            34i32 => Some((if shift { '5' } else { '%' }, K_5)),  // Num5
            35i32 => Some((if shift { '6' } else { '^' }, K_6)),  // Num6
            36i32 => Some((if shift { '7' } else { '&' }, K_7)),  // Num7
            37i32 => Some((if shift { '8' } else { '*' }, K_8)),  // Num8
            38i32 => Some((if shift { '9' } else { '(' }, K_9)),  // Num9
            39i32 => Some((if shift { '0' } else { ')' }, K_0)),  // Num0
            53i32 => Some((if shift { '`' } else { '~' }, K_TICK)),  // Grave
            45i32 => Some((if shift { '-' } else { '_' }, K_MINUS)),  // Minus
            46i32 => Some((if shift { '=' } else { '+' }, K_EQUALS)),  // Equals
            47i32 => Some((if shift { '[' } else { '{' }, K_BRACE_OPEN)),  // LeftBracket
            48i32 => Some((if shift { ']' } else { '}' }, K_BRACE_CLOSE)),  // RightBracket
            49i32 => Some((if shift { '\\' } else { '|' }, K_BACKSLASH)),  // Backslash
            51i32 => Some((if shift { ';' } else { ':' }, K_SEMICOLON)),  // Semicolon
            52i32 => Some((if shift { '\'' } else { '"' }, K_QUOTE)),  // Apostrophe
            54i32 => Some((if shift { ',' } else { '<' }, K_COMMA)),  // Comma
            55i32 => Some((if shift { '.' } else { '>' }, K_PERIOD)),  // Period
            56i32 => Some((if shift { '/' } else { '?' }, K_SLASH)),  // Slash
            44i32 => Some((' ', K_SPACE)),  // Space
            42i32 => Some(('\0', K_BKSP)),  // Backspace
            43i32 => Some(('\t', K_TAB)),  // Tab
            224i32 => Some(('\0', K_CTRL)),  // LCtrl
            228i32 => Some(('\0', K_CTRL)),  // RCtrl
            226i32 => Some(('\0', K_ALT)),  // LAlt
            230i32 => Some(('\0', K_ALT)),  // RAlt
            40i32 => Some(('\n', K_ENTER)),  // Return
            41i32 => Some(('\x1B', K_ESC)),  // Escape
            58i32 => Some(('\0', K_F1)),  // F1
            59i32 => Some(('\0', K_F2)),  // F2
            60i32 => Some(('\0', K_F3)),  // F3
            61i32 => Some(('\0', K_F4)),  // F4
            62i32 => Some(('\0', K_F5)),  // F5
            63i32 => Some(('\0', K_F6)),  // F6
            64i32 => Some(('\0', K_F7)),  // F7
            65i32 => Some(('\0', K_F8)),  // F8
            66i32 => Some(('\0', K_F9)),  // F9
            67i32 => Some(('\0', K_F10)),  // F10
            74i32 => Some(('\0', K_HOME)),  // Home
            82i32 => Some(('\0', K_UP)),  // Up
            75i32 => Some(('\0', K_PGUP)),  // PageUp
            80i32 => Some(('\0', K_LEFT)),  // Left
            79i32 => Some(('\0', K_RIGHT)),  // Right
            77i32 => Some(('\0', K_END)),  // End
            81i32 => Some(('\0', K_DOWN)),  // Down
            78i32 => Some(('\0', K_PGDN)),  // PageDown
            76i32 => Some(('\0', K_DEL)),  // Delete
            68i32 => Some(('\0', K_F11)),  // F11
            69i32 => Some(('\0', K_F12)),  // F12
            225i32 => Some(('\0', K_LEFT_SHIFT)),  // LShift
            229i32 => Some(('\0', K_RIGHT_SHIFT)),  // RShift
            _ => None,
        },
        None => None,
    }
}

/// Whether a key is known, and which logical code it gives, does not depend
/// on the shift state; a key unknown to the table gives no result either way.
pub proof fn lemma_scancode_shift_independent(code: i32)
    ensures
        key_entry(code, true).is_some() == key_entry(code, false).is_some(),
        key_entry(code, true).is_some() ==> key_entry(code, true).unwrap().1 == key_entry(
            code,
            false,
        ).unwrap().1,
{
}

/// Scancode numbers outside the letter, digit, punctuation, function,
/// navigation and modifier ranges give no result, whatever the shift state.
pub proof fn lemma_unknown_scancode(code: i32, shift: bool)
    requires
        !(4 <= code <= 82 || 224 <= code <= 230),
    ensures
        key_entry(code, shift).is_none(),
{
}

} // verus!
