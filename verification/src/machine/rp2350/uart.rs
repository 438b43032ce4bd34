//! What the UART console writes: text with every line feed preceded by a carriage return,
//! and words as eight lowercase hex digits.
use vstd::prelude::*;

verus! {

/// The bytes that show `b` on the console: a carriage return before every line feed.
pub open spec fn spec_console_text(b: Seq<u8>) -> Seq<u8>
    decreases b.len(),
{
    if b.len() == 0 {
        Seq::empty()
    } else {
        spec_console_text(b.drop_last()) + if b.last() == 10u8 {
            seq![13u8, 10u8]
        } else {
            seq![b.last()]
        }
    }
}

/// The lowercase hex digit of a nibble.
pub open spec fn hex_digit(n: u32) -> u8 {
    if n < 10 {
        (48 + n) as u8
    } else {
        (97 + n - 10) as u8
    }
}

/// The eight hex digits of `v`, most significant first.
pub open spec fn spec_hex8(v: u32) -> Seq<u8> {
    Seq::new(8, |i: int| hex_digit((v >> ((28 - 4 * i) as u32)) & 0xfu32))
}

pub fn console_text(bytes: &[u8]) -> (out: Vec<u8>)
    ensures
        out@ == spec_console_text(bytes@),
{
    let mut out: Vec<u8> = Vec::new();
    let mut i: usize = 0;
    while i < bytes.len()
        invariant
            i <= bytes@.len(),
            out@ == spec_console_text(bytes@.subrange(0, i as int)),
        decreases bytes@.len() - i,
    {
        let byte = bytes[i];
        if byte == 10 {
            out.push(13);
        }
        out.push(byte);
        assert(bytes@.subrange(0, i + 1 as int).drop_last() =~= bytes@.subrange(0, i as int));
        i = i + 1;
        assert(out@ =~= spec_console_text(bytes@.subrange(0, i as int)));
    }
    assert(bytes@.subrange(0, bytes@.len() as int) =~= bytes@);
    out
}

pub fn hex8(value: u32) -> (out: Vec<u8>)
    ensures
        out@ == spec_hex8(value),
{
    let mut out: Vec<u8> = Vec::new();
    let mut i: u32 = 0;
    while i < 8
        invariant
            i <= 8,
            out@ == spec_hex8(value).subrange(0, i as int),
        decreases 8 - i,
    {
        let shift = 28 - 4 * i;
        let nibble = (value >> shift) & 0xf;
        assert(nibble < 16) by (bit_vector)
            requires
                nibble == (value >> shift) & 0xf,
        ;
        let ch: u8 = if nibble < 10 {
            (48 + nibble) as u8
        } else {
            (97 + nibble - 10) as u8
        };
        out.push(ch);
        i = i + 1;
        assert(out@ =~= spec_hex8(value).subrange(0, i as int));
    }
    out
}

/// A console line: the text, then carriage return and line feed.
pub fn line_bytes(text: &[u8]) -> (out: Vec<u8>)
    ensures
        out@ == spec_console_text(text@) + seq![13u8, 10u8],
{
    let mut out = console_text(text);
    out.push(13);
    out.push(10);
    assert(out@ =~= spec_console_text(text@) + seq![13u8, 10u8]);
    out
}

/// A console line with a prefix and a word in hex.
pub fn hex_line_bytes(prefix: &[u8], value: u32) -> (out: Vec<u8>)
    ensures
        out@ == spec_console_text(prefix@) + spec_hex8(value) + seq![13u8, 10u8],
{
    let mut out = console_text(prefix);
    let mut digits = hex8(value);
    out.append(&mut digits);
    out.push(13);
    out.push(10);
    assert(out@ =~= spec_console_text(prefix@) + spec_hex8(value) + seq![13u8, 10u8]);
    out
}

/// A prefix, a word in hex, an infix and raw bytes, with no line end.
pub fn hex_prefixed_bytes(prefix: &[u8], value: u32, infix: &[u8], bytes: &[u8]) -> (out: Vec<u8>)
    ensures
        out@ == spec_console_text(prefix@) + spec_hex8(value) + spec_console_text(infix@) + spec_console_text(bytes@),
{
    let mut out = console_text(prefix);
    let mut digits = hex8(value);
    out.append(&mut digits);
    let mut middle = console_text(infix);
    out.append(&mut middle);
    let mut tail = console_text(bytes);
    out.append(&mut tail);
    out
}

} // verus!
