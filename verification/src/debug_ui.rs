//! The debug launch mode of the tray application and its screenshot files.
use vstd::prelude::*;

use crate::persistence::joined;
use crate::text::{concat3, decimal_seq, decimal_string};

verus! {

/// How the tray application was launched.
#[derive(Clone, Copy, Debug, Eq, PartialEq, Structural)]
pub enum LaunchMode {
    Normal,
    /// Show the window at once and capture it to a file.
    DebugUi,
}

impl Default for LaunchMode {
    fn default() -> (m: Self)
        ensures
            m == LaunchMode::Normal,
    {
        LaunchMode::Normal
    }
}

/// An argument that asks for the debug mode.
pub open spec fn is_debug_token(a: Seq<char>) -> bool {
    a == "debug-ui"@ || a == "--debug-ui"@
}

/// The debug mode is chosen when any argument asks for it.
pub fn launch_mode_from_args(args: &[&str]) -> (m: LaunchMode)
    ensures
        m == (if exists|i: int| 0 <= i < args@.len() && is_debug_token(args@[i]@) {
            LaunchMode::DebugUi
        } else {
            LaunchMode::Normal
        }),
{
    let mut i: usize = 0;
    while i < args.len()
        invariant
            i <= args.len(),
            forall|j: int| 0 <= j < i ==> !is_debug_token(#[trigger] args@[j]@),
        decreases args.len() - i,
    {
        let a = args[i];
        if crate::text::str_eq(a, "debug-ui") || crate::text::str_eq(a, "--debug-ui") {
            return LaunchMode::DebugUi;
        }
        i = i + 1;
    }
    LaunchMode::Normal
}

/// The file name of a screenshot taken at a given time.
pub open spec fn screenshot_name(timestamp_ms: u64) -> Seq<char> {
    "dell-controller-tray-ui-"@ + decimal_seq(timestamp_ms as nat) + ".bmp"@
}

/// Where a debug screenshot goes: the `.tmp` directory under the base.
pub fn debug_ui_output_path(base_dir: &str, timestamp_ms: u64) -> (r: String)
    ensures
        r@ == joined(joined(base_dir@, ".tmp"@), screenshot_name(timestamp_ms)),
{
    let tmp = crate::persistence::join_path(base_dir, ".tmp");
    let n = decimal_string(timestamp_ms);
    let name = concat3("dell-controller-tray-ui-", n.as_str(), ".bmp");
    crate::persistence::join_path(tmp.as_str(), name.as_str())
}

/// A 32-bit number as four bytes, least significant first.
pub open spec fn le32(x: u32) -> Seq<u8> {
    seq![(x % 256) as u8, ((x / 256) % 256) as u8, ((x / 65536) % 256) as u8, (x / 16777216) as u8]
}

/// A 16-bit number as two bytes, least significant first.
pub open spec fn le16(x: u16) -> Seq<u8> {
    seq![(x % 256) as u8, (x / 256) as u8]
}

/// The size of the two BMP headers.
pub const BMP_HEADERS_SIZE: u32 = 54;

/// The headers of a top-down 32-bit BMP: the file header ("BM", file size,
/// two reserved words, offset of the pixels) and the info header (its size,
/// width, the negated height, one plane, 32 bits per pixel, no compression,
/// the pixel data size, and zero resolution and palette fields).
pub open spec fn bmp_headers(width: u32, height: u32, pixel_bytes: u32) -> Seq<u8> {
    seq![0x42u8, 0x4Du8] + le32((BMP_HEADERS_SIZE + pixel_bytes) as u32) + le16(0) + le16(0) + le32(
        BMP_HEADERS_SIZE,
    ) + le32(40) + le32(width) + le32(((0x1_0000_0000 - height) % 0x1_0000_0000) as u32) + le16(1)
        + le16(32) + le32(0) + le32(pixel_bytes) + le32(0) + le32(0) + le32(0) + le32(0)
}

fn push_le32(v: &mut Vec<u8>, x: u32)
    ensures
        final(v)@ == old(v)@ + le32(x),
{
    v.push((x % 256) as u8);
    v.push(((x / 256) % 256) as u8);
    v.push(((x / 65536) % 256) as u8);
    v.push((x / 16777216) as u8);
    assert(final(v)@ =~= old(v)@ + le32(x));
}

fn push_le16(v: &mut Vec<u8>, x: u16)
    ensures
        final(v)@ == old(v)@ + le16(x),
{
    v.push((x % 256) as u8);
    v.push((x / 256) as u8);
    assert(final(v)@ =~= old(v)@ + le16(x));
}

/// The bytes of a BMP file for a captured window: the headers, then the
/// pixels as given (four bytes each, rows top-down).
pub fn bmp_file_bytes(width: u32, height: u32, pixels: &[u8]) -> (r: Vec<u8>)
    requires
        pixels@.len() + BMP_HEADERS_SIZE <= u32::MAX,
        height != 0x8000_0000,
    ensures
        r@ == bmp_headers(width, height, pixels@.len() as u32) + pixels@,
{
    let pixel_bytes = pixels.len() as u32;
    let mut r: Vec<u8> = Vec::new();
    r.push(0x42);
    r.push(0x4D);
    assert(r@ =~= seq![0x42u8, 0x4Du8]);
    push_le32(&mut r, BMP_HEADERS_SIZE + pixel_bytes);
    push_le16(&mut r, 0);
    push_le16(&mut r, 0);
    push_le32(&mut r, BMP_HEADERS_SIZE);
    push_le32(&mut r, 40);
    push_le32(&mut r, width);
    let negated: u32 = if height == 0 {
        0
    } else {
        u32::MAX - height + 1
    };
    assert(negated == ((0x1_0000_0000 - height) % 0x1_0000_0000) as u32);
    push_le32(&mut r, negated);
    push_le16(&mut r, 1);
    push_le16(&mut r, 32);
    push_le32(&mut r, 0);
    push_le32(&mut r, pixel_bytes);
    push_le32(&mut r, 0);
    push_le32(&mut r, 0);
    push_le32(&mut r, 0);
    push_le32(&mut r, 0);
    let ghost headers = r@;
    let mut i: usize = 0;
    while i < pixels.len()
        invariant
            i <= pixels.len(),
            r@ == headers + pixels@.subrange(0, i as int),
        decreases pixels.len() - i,
    {
        r.push(pixels[i]);
        i = i + 1;
        assert(r@ =~= headers + pixels@.subrange(0, i as int));
    }
    assert(pixels@.subrange(0, i as int) =~= pixels@);
    assert(headers =~= bmp_headers(width, height, pixel_bytes));
    r
}

} // verus!
