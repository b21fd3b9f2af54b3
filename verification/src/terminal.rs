//! Terminal graphics support: which terminals take the Kitty graphics
//! protocol, and the escape sequences that show an image with it.
use base64::Engine;
use vstd::prelude::*;

use crate::text::{chars_of, contains_chars, contains_seq, dec_str, push_chars, push_dec, push_str};
use crate::unicode::{self, lowercase};

verus! {

/// Whether the terminal can show images.
#[derive(Clone, Copy, Debug, PartialEq, Eq, Structural)]
pub enum TerminalGraphics {
    Kitty,
    Unsupported,
}

pub struct TerminalDetector;

/// The terminal takes the Kitty protocol: a Kitty window id is set, `TERM`
/// names kitty or ghostty, or `TERM_PROGRAM` names kitty, ghostty or
/// wezterm in any case.
pub open spec fn supports_kitty(
    kitty_window_id: bool,
    term: Option<Seq<char>>,
    term_program: Option<Seq<char>>,
) -> bool {
    ||| kitty_window_id
    ||| (term matches Some(t) && (contains_seq(t, "kitty"@) || contains_seq(t, "ghostty"@)))
    ||| (term_program matches Some(p) && (contains_seq(lowercase(p), "kitty"@) || contains_seq(
        lowercase(p),
        "ghostty"@,
    ) || contains_seq(lowercase(p), "wezterm"@)))
}

fn contains_str(hay: &Vec<char>, needle: &str) -> (r: bool)
    ensures
        r == contains_seq(hay@, needle@),
{
    let n = chars_of(needle);
    contains_chars(hay, &n)
}

impl TerminalDetector {
    /// Decides the graphics support from the environment: whether
    /// `KITTY_WINDOW_ID` is set, and the values of `TERM` and `TERM_PROGRAM`.
    pub fn classify(kitty_window_id: bool, term: Option<&str>, term_program: Option<&str>) -> (r: TerminalGraphics)
        ensures
            r == TerminalGraphics::Kitty <==> supports_kitty(
                kitty_window_id,
                match term {
                    Some(t) => Some(t@),
                    None => None,
                },
                match term_program {
                    Some(p) => Some(p@),
                    None => None,
                },
            ),
    {
        if kitty_window_id {
            return TerminalGraphics::Kitty;
        }
        if let Some(t) = term {
            let tv = chars_of(t);
            if contains_str(&tv, "kitty") || contains_str(&tv, "ghostty") {
                return TerminalGraphics::Kitty;
            }
        }
        if let Some(prog) = term_program {
            let lower = unicode::to_lowercase(prog);
            let pv = chars_of(lower.as_str());
            if contains_str(&pv, "kitty") || contains_str(&pv, "ghostty") || contains_str(
                &pv,
                "wezterm",
            ) {
                return TerminalGraphics::Kitty;
            }
        }
        TerminalGraphics::Unsupported
    }
}

/// The character of the six-bit value `v` in the standard base64 alphabet:
/// `A`..`Z`, `a`..`z`, `0`..`9`, `+`, `/`.
pub open spec fn b64_digit(v: int) -> char {
    if v < 26 {
        (65 + v) as char
    } else if v < 52 {
        (97 + v - 26) as char
    } else if v < 62 {
        (48 + v - 52) as char
    } else if v == 62 {
        '+'
    } else {
        '/'
    }
}

/// Standard base64 with padding (RFC 4648): each group of three bytes
/// becomes four characters of six bits each, high bits first; a last group
/// of one or two bytes is padded with `=`.
pub open spec fn base64_standard(b: Seq<u8>) -> Seq<char>
    decreases b.len(),
{
    if b.len() == 0 {
        Seq::empty()
    } else {
        let b0 = b[0] as int;
        let b1: int = if b.len() > 1 { b[1] as int } else { 0 };
        let b2: int = if b.len() > 2 { b[2] as int } else { 0 };
        let c0 = b64_digit(b0 / 4);
        let c1 = b64_digit((b0 % 4) * 16 + b1 / 16);
        let c2 = b64_digit((b1 % 16) * 4 + b2 / 64);
        let c3 = b64_digit(b2 % 64);
        if b.len() == 1 {
            seq![c0, c1, '=', '=']
        } else if b.len() == 2 {
            seq![c0, c1, c2, '=']
        } else {
            seq![c0, c1, c2, c3] + base64_standard(b.subrange(3, b.len() as int))
        }
    }
}

/// Encodes with `base64::engine::general_purpose::STANDARD`, the standard
/// alphabet with padding. Claimed: the result is `base64_standard` of the
/// bytes.
#[verifier::external_body]
fn base64_encode(bytes: &[u8]) -> (r: String)
    ensures
        r@ == base64_standard(bytes@),
{
    base64::engine::general_purpose::STANDARD.encode(bytes)
}

/// The payload is sent in pieces of this many characters.
pub const KITTY_CHUNK: usize = 4096;

/// The transmission of `b64` from `offset` on, in pieces of 4096 characters:
/// the first piece carries the action, format and size in cells, every piece
/// says with `m=` whether more follow.
pub open spec fn kitty_chunks(b64: Seq<char>, offset: nat, first: bool, w: u16, h: u16) -> Seq<char>
    decreases b64.len() - offset,
{
    if offset >= b64.len() {
        Seq::empty()
    } else {
        let end: nat = if offset + 4096 < b64.len() {
            offset + 4096
        } else {
            b64.len()
        };
        let more: nat = if end >= b64.len() {
            0
        } else {
            1
        };
        let chunk = b64.subrange(offset as int, end as int);
        let piece = if first {
            "\x1b_Ga=T,f=100,c="@ + dec_str(w as nat) + ",r="@ + dec_str(h as nat) + ",q=2,m="@
                + dec_str(more) + ";"@ + chunk + "\x1b\\"@
        } else {
            "\x1b_Gm="@ + dec_str(more) + ";"@ + chunk + "\x1b\\"@
        };
        piece + kitty_chunks(b64, end, false, w, h)
    }
}

/// Everything written to show a PNG at cell (`col`, `row`) over
/// `width_cells` x `height_cells` cells: the cursor move, then the base64 of
/// the image in pieces.
pub open spec fn kitty_png_spec(png: Seq<u8>, col: u16, row: u16, w: u16, h: u16) -> Seq<char> {
    "\x1b["@ + dec_str((row + 1) as nat) + ";"@ + dec_str((col + 1) as nat) + "H"@ + kitty_chunks(
        base64_standard(png),
        0,
        true,
        w,
        h,
    )
}

pub struct KittyRenderer;

impl KittyRenderer {
    /// The bytes to write to the terminal to show the PNG `png_bytes` at cell
    /// (`col`, `row`), `width_cells` wide and `height_cells` high, with the
    /// Kitty graphics protocol.
    pub fn png_command(png_bytes: &[u8], col: u16, row: u16, width_cells: u16, height_cells: u16) -> (r: String)
        requires
            col < u16::MAX,
            row < u16::MAX,
        ensures
            r@ == kitty_png_spec(png_bytes@, col, row, width_cells, height_cells),
    {
        let b64s = base64_encode(png_bytes);
        let b64 = chars_of(b64s.as_str());
        let mut out = String::new();
        push_str(&mut out, "\x1b[");
        push_dec(&mut out, (row + 1) as u128);
        push_str(&mut out, ";");
        push_dec(&mut out, (col + 1) as u128);
        push_str(&mut out, "H");
        let ghost head = out@;
        let total_len = b64.len();
        let mut offset: usize = 0;
        let mut is_first = true;
        while offset < total_len
            invariant
                total_len == b64@.len(),
                offset <= total_len,
                is_first == (offset == 0),
                head + kitty_chunks(b64@, 0, true, width_cells, height_cells) == out@ + kitty_chunks(
                    b64@,
                    offset as nat,
                    is_first,
                    width_cells,
                    height_cells,
                ),
            decreases total_len - offset,
        {
            let ghost before = out@;
            let ghost off0 = offset;
            let ghost first0 = is_first;
            let end = if total_len - offset > KITTY_CHUNK {
                offset + KITTY_CHUNK
            } else {
                total_len
            };
            let more: u128 = if end >= total_len {
                0
            } else {
                1
            };
            if is_first {
                push_str(&mut out, "\x1b_Ga=T,f=100,c=");
                push_dec(&mut out, width_cells as u128);
                push_str(&mut out, ",r=");
                push_dec(&mut out, height_cells as u128);
                push_str(&mut out, ",q=2,m=");
                push_dec(&mut out, more);
                push_str(&mut out, ";");
                push_chars(&mut out, &b64, offset, end);
                push_str(&mut out, "\x1b\\");
                is_first = false;
            } else {
                push_str(&mut out, "\x1b_Gm=");
                push_dec(&mut out, more);
                push_str(&mut out, ";");
                push_chars(&mut out, &b64, offset, end);
                push_str(&mut out, "\x1b\\");
            }
            offset = end;
            assert(before + kitty_chunks(b64@, off0 as nat, first0, width_cells, height_cells)
                =~= out@ + kitty_chunks(b64@, end as nat, false, width_cells, height_cells));
        }
        assert(out@ =~= head + kitty_chunks(b64@, 0, true, width_cells, height_cells));
        out
    }
}

} // verus!
