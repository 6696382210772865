//! What a JSON text must keep to before it is handed to the parser.
//!
//! The parser works within machine limits that it does not check itself:
//!
//! - it adds up the digits of an exponent in a machine word;
//! - it keeps the keys of the objects that are open in one buffer, and
//!   addresses that buffer with sixteen bits;
//! - it numbers the items of an array with thirty-two bits;
//! - it descends one call deeper for each array or object that is open;
//! - it takes a comma before the closing brace of an object for the end of
//!   the object and, inside another array or object, then loses track of
//!   where it stands.
//!
//! The gauge follows a text the way the parser's tokens do, far enough to
//! tell where a text runs into one of these. A text that is JSON never
//! holds the comma, and is within the other four unless the parser could
//! not have read it.

use vstd::prelude::*;

verus! {

/// The most arrays and objects that may be open at once.
pub const MAX_DEPTH: usize = 128;

/// The most bytes that the keys of the objects open at once may take
/// together, each key as the parser stores it: unescaped, in UTF-8.
pub const MAX_KEYS: usize = 0xffff;

/// The most commas that may stand between the items of one array.
pub const MAX_COMMAS: u64 = 0xffff_ffff;

/// Where in the text the reading stands.
#[derive(Debug, Clone, Copy, PartialEq, Eq, Structural)]
pub enum Mode {
    /// Outside any string.
    Plain,
    /// Inside a string.
    Quoted,
    /// Inside a string, just after a backslash.
    Escaped,
    /// Inside a string, among the four hexadecimal digits after `\u`.
    Hex,
}

/// An array or object that is open.
#[derive(Debug, Clone, Copy, PartialEq, Eq, Structural)]
pub struct Entry {
    /// Whether it is an object.
    pub object: bool,
    /// The bytes of the key whose value is being read; zero in an array, and
    /// in an object between two members.
    pub key: usize,
    /// The commas so far between the items of an array.
    pub commas: u64,
}

/// What is known of a text at one place, apart from the arrays and objects
/// that are open there.
#[derive(Debug, Clone, Copy, PartialEq, Eq, Structural)]
pub struct Scan {
    pub mode: Mode,
    /// The hexadecimal digits of a `\u` escape that are still to come.
    pub hex_left: u8,
    /// The value of the digits of that escape so far.
    pub hex_value: u32,
    /// The bytes of the string that is being read, or was read last, as the
    /// parser stores it, counted up to one past [`MAX_KEYS`].
    pub length: usize,
    /// A string has ended and nothing but blanks has followed it: a colon
    /// now makes it a key.
    pub closed: bool,
    /// A comma has been read and nothing but blanks has followed it.
    pub comma: bool,
    /// The last character was the `e` or `E` that opens an exponent.
    pub opened: bool,
    /// The reading stands in an exponent.
    pub exponent: bool,
    /// The value of that exponent's digits so far, up to the largest word.
    pub power: usize,
    /// No limit has been passed so far.
    pub fits: bool,
}

/// The scan before the first character.
pub open spec fn start() -> Scan {
    Scan {
        mode: Mode::Plain,
        hex_left: 0,
        hex_value: 0,
        length: 0,
        closed: false,
        comma: false,
        opened: false,
        exponent: false,
        power: 0,
        fits: true,
    }
}

/// Whether `c` is one of the blanks that may stand between JSON tokens.
pub open spec fn blank(c: char) -> bool {
    c == ' ' || c == '\n' || c == '\t' || c == '\r'
}

/// The bytes that a character takes in UTF-8.
pub open spec fn width(c: char) -> usize {
    if (c as u32) < 0x80 {
        1
    } else if (c as u32) < 0x800 {
        2
    } else if (c as u32) < 0x1_0000 {
        3
    } else {
        4
    }
}

/// The bytes that a `\u` escape with the value `v` adds to its string: those
/// of the character with that number, four for the first half of a pair of
/// surrogates, none for the second half.
pub open spec fn escape_width(v: u32) -> usize {
    if v < 0x80 {
        1
    } else if v < 0x800 {
        2
    } else if 0xd800 <= v <= 0xdbff {
        4
    } else if 0xdc00 <= v <= 0xdfff {
        0
    } else {
        3
    }
}

/// The value of a hexadecimal digit, if `c` is one.
pub open spec fn hex_digit(c: char) -> Option<u32> {
    if '0' <= c <= '9' {
        Some(((c as u32) - ('0' as u32)) as u32)
    } else if 'a' <= c <= 'f' {
        Some(((c as u32) - ('a' as u32) + 10) as u32)
    } else if 'A' <= c <= 'F' {
        Some(((c as u32) - ('A' as u32) + 10) as u32)
    } else {
        None
    }
}

/// `length` and `more`, but no more than one past [`MAX_KEYS`].
pub open spec fn grown(length: usize, more: usize) -> usize {
    if length + more <= MAX_KEYS {
        (length + more) as usize
    } else {
        (MAX_KEYS + 1) as usize
    }
}

/// The bytes that the keys of the open objects take together.
pub open spec fn burden(stack: Seq<Entry>) -> nat
    decreases stack.len(),
{
    if stack.len() == 0 {
        0
    } else {
        burden(stack.drop_last()) + stack.last().key as nat
    }
}

/// The scan after one more character of a string.
pub open spec fn advance_quoted(s: Scan, c: char) -> Scan {
    match s.mode {
        Mode::Escaped => if c == 'u' {
            Scan { mode: Mode::Hex, hex_left: 4, hex_value: 0, ..s }
        } else {
            Scan { mode: Mode::Quoted, length: grown(s.length, 1), ..s }
        },
        Mode::Hex => match hex_digit(c) {
            Some(d) => {
                let v = ((s.hex_value % 0x1000) * 16 + d) as u32;
                if s.hex_left <= 1 {
                    Scan {
                        mode: Mode::Quoted,
                        hex_left: 0,
                        hex_value: 0,
                        length: grown(s.length, escape_width(v)),
                        ..s
                    }
                } else {
                    Scan { hex_left: (s.hex_left - 1) as u8, hex_value: v, ..s }
                }
            },
            None => Scan { mode: Mode::Quoted, hex_left: 0, hex_value: 0, ..s },
        },
        _ => if c == '"' {
            Scan { mode: Mode::Plain, closed: true, ..s }
        } else if c == '\\' {
            Scan { mode: Mode::Escaped, ..s }
        } else {
            Scan { length: grown(s.length, width(c)), ..s }
        },
    }
}

/// The scan and the open arrays and objects after one more character
/// outside a string.
pub open spec fn advance_plain(s: Scan, stack: Seq<Entry>, c: char) -> (Scan, Seq<Entry>) {
    let rest = Scan { closed: false, comma: false, opened: false, exponent: false, power: 0, ..s };
    if c == '"' {
        (Scan { mode: Mode::Quoted, length: 0, ..rest }, stack)
    } else if c == '[' || c == '{' {
        if stack.len() < MAX_DEPTH {
            (rest, stack.push(Entry { object: c == '{', key: 0, commas: 0 }))
        } else {
            (Scan { fits: false, ..rest }, stack)
        }
    } else if c == ']' || c == '}' {
        (
            Scan { fits: s.fits && !(c == '}' && s.comma), ..rest },
            if stack.len() > 0 {
                stack.drop_last()
            } else {
                stack
            },
        )
    } else if c == ':' {
        if s.closed && stack.len() > 0 && stack.last().object {
            if burden(stack.drop_last()) + s.length <= MAX_KEYS {
                (rest, stack.update(stack.len() - 1, Entry { key: s.length, ..stack.last() }))
            } else {
                (Scan { fits: false, ..rest }, stack)
            }
        } else {
            (rest, stack)
        }
    } else if c == ',' {
        if stack.len() == 0 {
            (Scan { comma: true, ..rest }, stack)
        } else if stack.last().object {
            (
                Scan { comma: true, ..rest },
                stack.update(stack.len() - 1, Entry { key: 0, ..stack.last() }),
            )
        } else if stack.last().commas < MAX_COMMAS {
            (
                Scan { comma: true, ..rest },
                stack.update(
                    stack.len() - 1,
                    Entry { commas: (stack.last().commas + 1) as u64, ..stack.last() },
                ),
            )
        } else {
            (Scan { comma: true, fits: false, ..rest }, stack)
        }
    } else if blank(c) {
        (Scan { closed: s.closed, comma: s.comma, ..rest }, stack)
    } else if c == 'e' || c == 'E' {
        (Scan { opened: true, exponent: true, ..rest }, stack)
    } else if (c == '+' || c == '-') && s.opened {
        (Scan { exponent: true, ..rest }, stack)
    } else if '0' <= c <= '9' && s.exponent {
        let power = s.power * 10 + ((c as u32) - ('0' as u32));
        if power <= usize::MAX {
            (Scan { exponent: true, power: power as usize, ..rest }, stack)
        } else {
            (Scan { exponent: true, power: usize::MAX, fits: false, ..rest }, stack)
        }
    } else {
        (rest, stack)
    }
}

/// The scan and the open arrays and objects after one more character.
pub open spec fn advance(s: Scan, stack: Seq<Entry>, c: char) -> (Scan, Seq<Entry>) {
    if s.mode == Mode::Plain {
        advance_plain(s, stack, c)
    } else {
        (advance_quoted(s, c), stack)
    }
}

/// The scan and the open arrays and objects after the whole of `text`.
pub open spec fn gauge(text: Seq<char>) -> (Scan, Seq<Entry>)
    decreases text.len(),
{
    if text.len() == 0 {
        (start(), Seq::empty())
    } else {
        let before = gauge(text.drop_last());
        advance(before.0, before.1, text.last())
    }
}

/// Whether `text` keeps to the limits everywhere:
///
/// - no more than [`MAX_DEPTH`] arrays and objects are open at once;
/// - the keys of the objects open at once take no more than [`MAX_KEYS`]
///   bytes together;
/// - no more than [`MAX_COMMAS`] commas stand between the items of an array;
/// - no exponent is larger than the largest machine word;
/// - no comma stands, blanks aside, before a closing brace.
pub open spec fn within_limits(text: Seq<char>) -> bool {
    gauge(text).0.fits
}

/// What the gauge keeps to at every place of a text.
pub open spec fn sound(s: Scan, stack: Seq<Entry>) -> bool {
    &&& s.length <= MAX_KEYS + 1
    &&& s.hex_value < 0x1_0000
    &&& stack.len() <= MAX_DEPTH
    &&& forall|i: int| 0 <= i < stack.len() ==> (#[trigger] stack[i]).key <= MAX_KEYS
    &&& forall|i: int| 0 <= i < stack.len() ==> (#[trigger] stack[i]).commas <= MAX_COMMAS
}

/// The bytes that the keys of the open objects below the innermost one take
/// together.
fn burden_below(stack: &Vec<Entry>) -> (bytes: usize)
    requires
        0 < stack.len() <= MAX_DEPTH,
        forall|i: int| 0 <= i < stack.len() ==> (#[trigger] stack@[i]).key <= MAX_KEYS,
    ensures
        bytes == burden(stack@.drop_last()),
        bytes <= MAX_DEPTH * MAX_KEYS,
{
    let mut bytes: usize = 0;
    let mut i: usize = 0;
    assert(stack@.take(0) =~= Seq::<Entry>::empty());
    while i < stack.len() - 1
        invariant
            0 < stack.len() <= MAX_DEPTH,
            i <= stack.len() - 1,
            forall|j: int| 0 <= j < stack.len() ==> (#[trigger] stack@[j]).key <= MAX_KEYS,
            bytes == burden(stack@.take(i as int)),
            bytes <= i * MAX_KEYS,
        decreases stack.len() - i,
    {
        assert(stack@.take(i + 1).drop_last() =~= stack@.take(i as int));
        assert(stack@[i as int].key <= MAX_KEYS);
        assert(i * MAX_KEYS + MAX_KEYS == (i + 1) * MAX_KEYS) by (nonlinear_arith);
        assert((i + 1) * MAX_KEYS <= MAX_DEPTH * MAX_KEYS) by (nonlinear_arith)
            requires
                i + 1 <= MAX_DEPTH,
        ;
        bytes = bytes + stack[i].key;
        i += 1;
    }
    assert(stack@.take(stack.len() - 1) =~= stack@.drop_last());
    assert(i * MAX_KEYS <= MAX_DEPTH * MAX_KEYS) by (nonlinear_arith)
        requires
            i <= MAX_DEPTH,
    ;
    bytes
}

/// `length` and `more`, but no more than one past [`MAX_KEYS`].
fn grow(length: usize, more: usize) -> (sum: usize)
    requires
        length <= MAX_KEYS + 1,
        more <= 4,
    ensures
        sum == grown(length, more),
        sum <= MAX_KEYS + 1,
{
    if length + more <= MAX_KEYS {
        length + more
    } else {
        MAX_KEYS + 1
    }
}

/// The scan after one more character of a string.
fn advanced_quoted(s: Scan, c: char) -> (next: Scan)
    requires
        s.mode != Mode::Plain,
        s.length <= MAX_KEYS + 1,
        s.hex_value < 0x1_0000,
    ensures
        next == advance_quoted(s, c),
        next.length <= MAX_KEYS + 1,
        next.hex_value < 0x1_0000,
{
    match s.mode {
        Mode::Escaped => if c == 'u' {
            Scan { mode: Mode::Hex, hex_left: 4, hex_value: 0, ..s }
        } else {
            Scan { mode: Mode::Quoted, length: grow(s.length, 1), ..s }
        },
        Mode::Hex => {
            let n = c as u32;
            let digit: Option<u32> = if '0' <= c && c <= '9' {
                Some(n - ('0' as u32))
            } else if 'a' <= c && c <= 'f' {
                Some(n - ('a' as u32) + 10)
            } else if 'A' <= c && c <= 'F' {
                Some(n - ('A' as u32) + 10)
            } else {
                None
            };
            match digit {
                Some(d) => {
                    let v: u32 = (s.hex_value % 0x1000) * 16 + d;
                    if s.hex_left <= 1 {
                        let more: usize = if v < 0x80 {
                            1
                        } else if v < 0x800 {
                            2
                        } else if 0xd800 <= v && v <= 0xdbff {
                            4
                        } else if 0xdc00 <= v && v <= 0xdfff {
                            0
                        } else {
                            3
                        };
                        Scan {
                            mode: Mode::Quoted,
                            hex_left: 0,
                            hex_value: 0,
                            length: grow(s.length, more),
                            ..s
                        }
                    } else {
                        Scan { hex_left: s.hex_left - 1, hex_value: v, ..s }
                    }
                },
                None => Scan { mode: Mode::Quoted, hex_left: 0, hex_value: 0, ..s },
            }
        },
        _ => if c == '"' {
            Scan { mode: Mode::Plain, closed: true, ..s }
        } else if c == '\\' {
            Scan { mode: Mode::Escaped, ..s }
        } else {
            let n = c as u32;
            let more: usize = if n < 0x80 {
                1
            } else if n < 0x800 {
                2
            } else if n < 0x1_0000 {
                3
            } else {
                4
            };
            Scan { length: grow(s.length, more), ..s }
        },
    }
}

/// The scan after one more character outside a string; `stack` follows the
/// arrays and objects that are open.
fn advanced_plain(s: Scan, stack: &mut Vec<Entry>, c: char) -> (next: Scan)
    requires
        s.mode == Mode::Plain,
        sound(s, old(stack)@),
    ensures
        (next, final(stack)@) == advance_plain(s, old(stack)@, c),
        sound(next, final(stack)@),
{
    let rest = Scan { closed: false, comma: false, opened: false, exponent: false, power: 0, ..s };
    let depth = stack.len();
    if c == '"' {
        Scan { mode: Mode::Quoted, length: 0, ..rest }
    } else if c == '[' || c == '{' {
        if depth < MAX_DEPTH {
            stack.push(Entry { object: c == '{', key: 0, commas: 0 });
            rest
        } else {
            Scan { fits: false, ..rest }
        }
    } else if c == ']' || c == '}' {
        if depth > 0 {
            stack.pop();
        }
        Scan { fits: s.fits && !(c == '}' && s.comma), ..rest }
    } else if c == ':' {
        if s.closed && depth > 0 && stack[depth - 1].object {
            let below = burden_below(stack);
            if below + s.length <= MAX_KEYS {
                let top = stack[depth - 1];
                stack.set(depth - 1, Entry { key: s.length, ..top });
                rest
            } else {
                Scan { fits: false, ..rest }
            }
        } else {
            rest
        }
    } else if c == ',' {
        if depth == 0 {
            Scan { comma: true, ..rest }
        } else {
            let top = stack[depth - 1];
            if top.object {
                stack.set(depth - 1, Entry { key: 0, ..top });
                Scan { comma: true, ..rest }
            } else if top.commas < MAX_COMMAS {
                stack.set(depth - 1, Entry { commas: top.commas + 1, ..top });
                Scan { comma: true, ..rest }
            } else {
                Scan { comma: true, fits: false, ..rest }
            }
        }
    } else if c == ' ' || c == '\n' || c == '\t' || c == '\r' {
        Scan { closed: s.closed, comma: s.comma, ..rest }
    } else if c == 'e' || c == 'E' {
        Scan { opened: true, exponent: true, ..rest }
    } else if (c == '+' || c == '-') && s.opened {
        Scan { exponent: true, ..rest }
    } else if '0' <= c && c <= '9' && s.exponent {
        let digit: usize = ((c as u32) - ('0' as u32)) as usize;
        if s.power <= (usize::MAX - digit) / 10 {
            Scan { exponent: true, power: s.power * 10 + digit, ..rest }
        } else {
            Scan { exponent: true, power: usize::MAX, fits: false, ..rest }
        }
    } else {
        rest
    }
}

/// Whether `text` keeps to the limits.
pub fn fits_limits(text: &str) -> (fits: bool)
    ensures
        fits == within_limits(text@),
{
    let mut scan = Scan {
        mode: Mode::Plain,
        hex_left: 0,
        hex_value: 0,
        length: 0,
        closed: false,
        comma: false,
        opened: false,
        exponent: false,
        power: 0,
        fits: true,
    };
    let mut stack: Vec<Entry> = Vec::new();
    for c in it: text.chars()
        invariant
            it.seq() == text@,
            (scan, stack@) == gauge(text@.take(it.index() as int)),
            sound(scan, stack@),
    {
        assert(text@.take(it.index() + 1).drop_last() =~= text@.take(it.index() as int));
        scan = match scan.mode {
            Mode::Plain => advanced_plain(scan, &mut stack, c),
            _ => advanced_quoted(scan, c),
        };
    }
    assert(text@.take(text@.len() as int) =~= text@);
    scan.fits
}

} // verus!
