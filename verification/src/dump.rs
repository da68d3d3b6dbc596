//! A hexadecimal listing of packet bytes, sixteen to a line.

use vstd::prelude::*;

verus! {

/// The upper-case hexadecimal digit of a value below 16, as an ASCII code.
pub open spec fn hex_digit(n: int) -> u8 {
    if n < 10 {
        (0x30 + n) as u8
    } else {
        (0x37 + n) as u8
    }
}

/// What follows the byte at index `i` of `len` bytes: a line feed behind
/// the last byte of a line and of the listing, a comma and three blanks in
/// the middle of a line, else a comma and one blank.
pub open spec fn cell_end(i: int, len: int) -> Seq<u8> {
    if i % 16 == 15 || i == len - 1 {
        seq![0x0Au8]
    } else if i % 16 == 7 {
        seq![0x2Cu8, 0x20u8, 0x20u8, 0x20u8]
    } else {
        seq![0x2Cu8, 0x20u8]
    }
}

/// The listing of the byte at index `i`: two digits and what follows them.
pub open spec fn dump_cell(buf: Seq<u8>, i: int) -> Seq<u8> {
    seq![hex_digit(buf[i] as int / 16), hex_digit(buf[i] as int % 16)] + cell_end(
        i,
        buf.len() as int,
    )
}

/// The listing of the first `n` bytes.
pub open spec fn dump_cells(buf: Seq<u8>, n: nat) -> Seq<u8>
    decreases n,
{
    if n == 0 {
        Seq::empty()
    } else {
        dump_cells(buf, (n - 1) as nat) + dump_cell(buf, n - 1)
    }
}

/// The listing of all bytes, as ASCII text.
pub open spec fn dump_text(buf: Seq<u8>) -> Seq<u8> {
    dump_cells(buf, buf.len())
}

/// The hexadecimal digit of the low four bits of `nibble`.
pub fn hex_digit_of(nibble: u8) -> (c: u8)
    ensures
        c == hex_digit(nibble as int % 16),
{
    let n: u8 = nibble % 16;
    if n < 10 {
        0x30 + n
    } else {
        0x37 + n
    }
}

/// Lists the bytes in hexadecimal, as ASCII text.
pub fn dump_buf(buf: &[u8]) -> (text: Vec<u8>)
    ensures
        text@ == dump_text(buf@),
{
    let len: usize = buf.len();
    let mut text: Vec<u8> = Vec::new();
    let mut i: usize = 0;
    while i < len
        invariant
            i <= len,
            len == buf@.len(),
            text@ == dump_cells(buf@, i as nat),
        decreases len - i,
    {
        let byte: u8 = buf[i];
        text.push(hex_digit_of(byte / 16));
        text.push(hex_digit_of(byte % 16));
        if i % 16 == 15 || i == len - 1 {
            text.push(0x0A);
        } else if i % 16 == 7 {
            text.push(0x2C);
            text.push(0x20);
            text.push(0x20);
            text.push(0x20);
        } else {
            text.push(0x2C);
            text.push(0x20);
        }
        proof {
            assert(text@ == dump_cells(buf@, i as nat) + dump_cell(buf@, i as int));
        }
        i = i + 1;
    }
    text
}

} // verus!
