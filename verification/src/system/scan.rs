//! A look over a text before it is handed to the JSON parser.
//!
//! The parser of the `rustc-serialize` crate does not come back from every
//! text: it descends once for every level of nesting, it adds up the digits of
//! an exponent without a bound, and it keeps the keys of the objects it is in
//! in a buffer that it addresses with sixteen bits. The look here finds the
//! texts on which none of that can happen: short ones, nested to a modest
//! depth, without a number that has an exponent.

use vstd::prelude::*;
use vstd::string::StringSliceAdditionalSpecFns;

verus! {

/// The number of bytes that a text may have.
pub const MAX_LEN: usize = 0xFFFF;

/// The number of arrays and objects that may be open at once.
pub const MAX_DEPTH: usize = 128;

/// The ASCII codes of the bytes that the look tells apart.
pub const QUOTE: u8 = 0x22;

pub const BACKSLASH: u8 = 0x5C;

pub const OPEN_BRACKET: u8 = 0x5B;

pub const CLOSE_BRACKET: u8 = 0x5D;

pub const OPEN_BRACE: u8 = 0x7B;

pub const CLOSE_BRACE: u8 = 0x7D;

pub const DIGIT_ZERO: u8 = 0x30;

pub const DIGIT_NINE: u8 = 0x39;

pub const LOWER_E: u8 = 0x65;

pub const UPPER_E: u8 = 0x45;

/// What the look knows after a part of the text.
pub struct Scan {
    /// The part ends inside a string.
    pub in_string: bool,
    /// The part ends inside a string, behind a backslash that is to escape
    /// the byte that follows.
    pub escaped: bool,
    /// The last byte of the part is a digit outside any string.
    pub after_digit: bool,
    /// The number of arrays and objects that are open.
    pub depth: nat,
    /// No array or object was opened beyond the depth allowed, and no digit
    /// was followed by the letter of an exponent.
    pub safe: bool,
}

/// `b` is one of the digits `0` to `9`.
pub open spec fn is_digit(b: u8) -> bool {
    DIGIT_ZERO <= b <= DIGIT_NINE
}

/// `b` opens an array or an object.
pub open spec fn opens(b: u8) -> bool {
    b == OPEN_BRACKET || b == OPEN_BRACE
}

/// `b` closes an array or an object.
pub open spec fn closes(b: u8) -> bool {
    b == CLOSE_BRACKET || b == CLOSE_BRACE
}

/// `b` is the letter that begins an exponent.
pub open spec fn is_exponent(b: u8) -> bool {
    b == LOWER_E || b == UPPER_E
}

/// What the look knows before the text.
pub open spec fn scan_start() -> Scan {
    Scan { in_string: false, escaped: false, after_digit: false, depth: 0, safe: true }
}

/// What the look knows after one more byte. Inside a string only the
/// backslash and the closing quote matter. Outside, a quote opens a string, a
/// bracket or brace opens or closes a level, and the letter of an exponent
/// straight after a digit makes the text unsafe, as does a level beyond the
/// depth allowed.
pub open spec fn scan_step(s: Scan, b: u8) -> Scan {
    if s.in_string {
        if s.escaped {
            Scan { escaped: false, ..s }
        } else if b == BACKSLASH {
            Scan { escaped: true, ..s }
        } else if b == QUOTE {
            Scan { in_string: false, ..s }
        } else {
            s
        }
    } else {
        Scan {
            in_string: b == QUOTE,
            escaped: false,
            after_digit: is_digit(b),
            depth: if opens(b) {
                s.depth + 1
            } else if closes(b) && s.depth > 0 {
                (s.depth - 1) as nat
            } else {
                s.depth
            },
            safe: s.safe && !(s.after_digit && is_exponent(b)) && !(opens(b) && s.depth
                >= MAX_DEPTH),
        }
    }
}

/// What the look knows after the bytes `bytes`.
pub open spec fn scan(bytes: Seq<u8>) -> Scan
    decreases bytes.len(),
{
    if bytes.len() == 0 {
        scan_start()
    } else {
        scan_step(scan(bytes.drop_last()), bytes.last())
    }
}

/// The text with the bytes `bytes` may be handed to the parser: it has at most
/// `MAX_LEN` bytes, never more than `MAX_DEPTH` arrays and objects open at
/// once, and outside its strings no digit that is followed by `e` or `E`.
pub open spec fn safe_to_parse(bytes: Seq<u8>) -> bool {
    bytes.len() <= MAX_LEN && scan(bytes).safe
}

/// Whether `text` may be handed to the parser.
pub fn is_safe_to_parse(text: &str) -> (r: bool)
    ensures
        r == safe_to_parse(text.spec_bytes()),
{
    let bytes = text.as_bytes();
    if bytes.len() > MAX_LEN {
        return false;
    }
    let mut in_string = false;
    let mut escaped = false;
    let mut after_digit = false;
    let mut depth: usize = 0;
    let mut safe = true;
    let mut i: usize = 0;
    assert(bytes@.take(0) =~= Seq::<u8>::empty());
    while i < bytes.len()
        invariant
            i <= bytes@.len(),
            depth <= i,
            scan(bytes@.take(i as int)) == (Scan {
                in_string,
                escaped,
                after_digit,
                depth: depth as nat,
                safe,
            }),
        decreases bytes@.len() - i,
    {
        let b = bytes[i];
        proof {
            let next = bytes@.take(i + 1);
            assert(next.drop_last() =~= bytes@.take(i as int));
            assert(next.last() == b);
        }
        if in_string {
            if escaped {
                escaped = false;
            } else if b == BACKSLASH {
                escaped = true;
            } else if b == QUOTE {
                in_string = false;
            }
        } else {
            let opening = b == OPEN_BRACKET || b == OPEN_BRACE;
            let closing = b == CLOSE_BRACKET || b == CLOSE_BRACE;
            if (after_digit && (b == LOWER_E || b == UPPER_E)) || (opening && depth >= MAX_DEPTH) {
                safe = false;
            }
            if opening {
                depth = depth + 1;
            } else if closing && depth > 0 {
                depth = depth - 1;
            }
            in_string = b == QUOTE;
            escaped = false;
            after_digit = DIGIT_ZERO <= b && b <= DIGIT_NINE;
        }
        i += 1;
    }
    assert(bytes@.take(i as int) =~= bytes@);
    safe
}

} // verus!
