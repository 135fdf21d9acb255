//! Labels of shortcut keys by their physical position on a US keyboard, so
//! that a shortcut reads the same whatever the keyboard layout.
use vstd::prelude::*;

verus! {

/// The US label of a key by its scan code (the low byte of an extended scan code).
pub open spec fn scan_code_label(code: u32) -> Option<Seq<char>> {
    let c = code & 0xFF;
    if c == 0x02 { Some("1"@) }
    else if c == 0x03 { Some("2"@) }
    else if c == 0x04 { Some("3"@) }
    else if c == 0x05 { Some("4"@) }
    else if c == 0x06 { Some("5"@) }
    else if c == 0x07 { Some("6"@) }
    else if c == 0x08 { Some("7"@) }
    else if c == 0x09 { Some("8"@) }
    else if c == 0x0A { Some("9"@) }
    else if c == 0x0B { Some("0"@) }
    else if c == 0x0C { Some("-"@) }
    else if c == 0x0D { Some("="@) }
    else if c == 0x10 { Some("Q"@) }
    else if c == 0x11 { Some("W"@) }
    else if c == 0x12 { Some("E"@) }
    else if c == 0x13 { Some("R"@) }
    else if c == 0x14 { Some("T"@) }
    else if c == 0x15 { Some("Y"@) }
    else if c == 0x16 { Some("U"@) }
    else if c == 0x17 { Some("I"@) }
    else if c == 0x18 { Some("O"@) }
    else if c == 0x19 { Some("P"@) }
    else if c == 0x1A { Some("["@) }
    else if c == 0x1B { Some("]"@) }
    else if c == 0x1E { Some("A"@) }
    else if c == 0x1F { Some("S"@) }
    else if c == 0x20 { Some("D"@) }
    else if c == 0x21 { Some("F"@) }
    else if c == 0x22 { Some("G"@) }
    else if c == 0x23 { Some("H"@) }
    else if c == 0x24 { Some("J"@) }
    else if c == 0x25 { Some("K"@) }
    else if c == 0x26 { Some("L"@) }
    else if c == 0x27 { Some(";"@) }
    else if c == 0x28 { Some("'"@) }
    else if c == 0x29 { Some("`"@) }
    else if c == 0x2B { Some("\\"@) }
    else if c == 0x2C { Some("Z"@) }
    else if c == 0x2D { Some("X"@) }
    else if c == 0x2E { Some("C"@) }
    else if c == 0x2F { Some("V"@) }
    else if c == 0x30 { Some("B"@) }
    else if c == 0x31 { Some("N"@) }
    else if c == 0x32 { Some("M"@) }
    else if c == 0x33 { Some(","@) }
    else if c == 0x34 { Some("."@) }
    else if c == 0x35 { Some("/"@) }
    else if c == 0x39 { Some("Space"@) }
    else { None }
}

/// The US label of a key by its scan code.
pub fn us_label_from_scan_code(scan_code: u32) -> (r: Option<&'static str>)
    ensures
        match r {
            Some(l) => scan_code_label(scan_code) == Some(l@),
            None => scan_code_label(scan_code) is None,
        },
{
    let c = scan_code & 0xFF;
    if c == 0x02 { Some("1") }
    else if c == 0x03 { Some("2") }
    else if c == 0x04 { Some("3") }
    else if c == 0x05 { Some("4") }
    else if c == 0x06 { Some("5") }
    else if c == 0x07 { Some("6") }
    else if c == 0x08 { Some("7") }
    else if c == 0x09 { Some("8") }
    else if c == 0x0A { Some("9") }
    else if c == 0x0B { Some("0") }
    else if c == 0x0C { Some("-") }
    else if c == 0x0D { Some("=") }
    else if c == 0x10 { Some("Q") }
    else if c == 0x11 { Some("W") }
    else if c == 0x12 { Some("E") }
    else if c == 0x13 { Some("R") }
    else if c == 0x14 { Some("T") }
    else if c == 0x15 { Some("Y") }
    else if c == 0x16 { Some("U") }
    else if c == 0x17 { Some("I") }
    else if c == 0x18 { Some("O") }
    else if c == 0x19 { Some("P") }
    else if c == 0x1A { Some("[") }
    else if c == 0x1B { Some("]") }
    else if c == 0x1E { Some("A") }
    else if c == 0x1F { Some("S") }
    else if c == 0x20 { Some("D") }
    else if c == 0x21 { Some("F") }
    else if c == 0x22 { Some("G") }
    else if c == 0x23 { Some("H") }
    else if c == 0x24 { Some("J") }
    else if c == 0x25 { Some("K") }
    else if c == 0x26 { Some("L") }
    else if c == 0x27 { Some(";") }
    else if c == 0x28 { Some("'") }
    else if c == 0x29 { Some("`") }
    else if c == 0x2B { Some("\\") }
    else if c == 0x2C { Some("Z") }
    else if c == 0x2D { Some("X") }
    else if c == 0x2E { Some("C") }
    else if c == 0x2F { Some("V") }
    else if c == 0x30 { Some("B") }
    else if c == 0x31 { Some("N") }
    else if c == 0x32 { Some("M") }
    else if c == 0x33 { Some(",") }
    else if c == 0x34 { Some(".") }
    else if c == 0x35 { Some("/") }
    else if c == 0x39 { Some("Space") }
    else { None }
}

/// The label of a virtual key: an upper-case letter or a digit stands for
/// itself, the space bar is "Space", any other key has none.
pub open spec fn virtual_key_label(vk: u16) -> Option<Seq<char>> {
    if vk > 255 {
        None
    } else if (0x41 <= vk && vk <= 0x5A) || (0x30 <= vk && vk <= 0x39) {
        Some(seq![vk as char])
    } else if vk == 0x20 {
        Some("Space"@)
    } else {
        None
    }
}

pub fn us_label_from_virtual_key(vk: u16) -> (r: Option<String>)
    ensures
        match r {
            Some(l) => virtual_key_label(vk) == Some(l@),
            None => virtual_key_label(vk) is None,
        },
{
    if vk > 255 {
        return None;
    }
    if (0x41 <= vk && vk <= 0x5A) || (0x30 <= vk && vk <= 0x39) {
        let c = vk as u8 as char;
        let mut v: Vec<char> = Vec::new();
        v.push(c);
        let s = crate::text::string_from_chars(v.as_slice());
        assert(v@ =~= seq![vk as char]);
        return Some(s);
    }
    if vk == 0x20 {
        return Some(String::from_str("Space"));
    }
    None
}

/// The only character of a one-character text.
pub fn single_character(text: &str) -> (r: Option<char>)
    ensures
        r == (if text@.len() == 1 {
            Some(text@[0])
        } else {
            None
        }),
{
    let chars = crate::text::chars_of(text);
    if chars.len() == 1 {
        Some(chars[0])
    } else {
        None
    }
}

/// What std's Unicode tables make of a text in upper case.
pub uninterp spec fn unicode_uppercase(text: Seq<char>) -> Seq<char>;

/// `str::to_uppercase`: the text in upper case by std's Unicode tables,
/// which `unicode_uppercase` names.
#[verifier::external_body]
fn text_to_uppercase(text: &str) -> (r: String)
    ensures
        r@ == unicode_uppercase(text@),
{
    text.to_uppercase()
}

/// The argument for asking a keyboard layout which key types a character:
/// its code point, where it fits in 16 bits.
pub fn key_scan_argument(character: char) -> (r: Option<u16>)
    ensures
        r == (if (character as u32) <= 0xFFFF {
            Some((character as u32) as u16)
        } else {
            None
        }),
{
    let code_point = character as u32;
    if code_point > 0xFFFF {
        None
    } else {
        Some(code_point as u16)
    }
}

/// The virtual key in a layout's answer for a character: none for -1, else
/// the low byte (the high byte holds the shift state).
pub fn virtual_key_from_scan(scan_result: i16) -> (r: Option<u16>)
    ensures
        r == (if scan_result == -1 {
            None
        } else {
            Some(((scan_result as u16) & 0xFF) as u16)
        }),
{
    if scan_result == -1 {
        None
    } else {
        Some((scan_result as u16) & 0x00FF)
    }
}

/// The label of a typed key: for one character that the layout can type
/// (with its virtual key and scan code), the US label of its scan code, else
/// of its virtual key; otherwise the text in upper case.
pub open spec fn shortcut_key_label_spec(text: Seq<char>, layout_key: Option<(u16, u32)>) -> Seq<
    char,
> {
    if text.len() != 1 {
        unicode_uppercase(text)
    } else {
        match layout_key {
            None => unicode_uppercase(text),
            Some((vk, scan)) => match scan_code_label(scan) {
                Some(l) => l,
                None => match virtual_key_label(vk) {
                    Some(l) => l,
                    None => unicode_uppercase(text),
                },
            },
        }
    }
}

pub fn shortcut_key_label(text: &str, layout_key: Option<(u16, u32)>) -> (r: String)
    ensures
        r@ == shortcut_key_label_spec(text@, layout_key),
{
    if single_character(text).is_none() {
        return text_to_uppercase(text);
    }
    match layout_key {
        None => text_to_uppercase(text),
        Some((vk, scan)) => match us_label_from_scan_code(scan) {
            Some(l) => String::from_str(l),
            None => match us_label_from_virtual_key(vk) {
                Some(l) => l,
                None => text_to_uppercase(text),
            },
        },
    }
}

} // verus!
