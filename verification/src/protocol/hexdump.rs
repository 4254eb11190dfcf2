//! A hex dump of a buffer, as text.
//!
//! The dump opens with a line that gives a label and the number of bytes.
//! Then comes one line for every sixteen bytes: the offset in hex, the
//! bytes in hex with a gap after the eighth, and between bars the bytes as
//! characters, with a dot for whatever does not print. An empty line ends
//! it.

use vstd::prelude::*;
use vstd::slice::slice_subrange;

verus! {

/// The bytes shown on one line.
pub const LINE_WIDTH: usize = 16;

/// The ASCII digit for a value below sixteen, letters in upper case.
pub open spec fn digit(d: int) -> u8 {
    if d < 10 {
        (0x30 + d) as u8
    } else {
        (0x41 + d - 10) as u8
    }
}

/// The number `n` in decimal.
pub open spec fn decimal(n: nat) -> Seq<u8>
    decreases n,
{
    if n < 10 {
        seq![digit(n as int)]
    } else {
        decimal(n / 10).push(digit((n % 10) as int))
    }
}

/// The number `n` in hex, with zeros in front up to `width` digits.
pub open spec fn hex(n: nat, width: nat) -> Seq<u8>
    decreases n, width,
{
    if n < 16 && width <= 1 {
        seq![digit(n as int)]
    } else {
        hex(
            n / 16,
            if width > 0 {
                (width - 1) as nat
            } else {
                0
            },
        ).push(digit((n % 16) as int))
    }
}

/// The character shown for a byte: the byte itself from the space to the
/// tilde, a dot for any other.
pub open spec fn shown(byte: u8) -> u8 {
    if 0x20 <= byte <= 0x7E {
        byte
    } else {
        0x2E
    }
}

/// The hex cell of the byte at place `j` of a line: two digits and a
/// space, and one space more after the eighth byte.
pub open spec fn cell(byte: u8, j: int) -> Seq<u8> {
    let two = seq![digit(byte as int / 16), digit(byte as int % 16), 0x20u8];
    if j == 7 {
        two.push(0x20u8)
    } else {
        two
    }
}

/// The hex cells of the first `n` bytes of a line.
pub open spec fn cells(chunk: Seq<u8>, n: nat) -> Seq<u8>
    decreases n,
{
    if n == 0 {
        Seq::<u8>::empty()
    } else {
        cells(chunk, (n - 1) as nat) + cell(chunk[n - 1], n - 1)
    }
}

/// The blanks that stand for `n` missing cells.
pub open spec fn padding(n: nat) -> Seq<u8>
    decreases n,
{
    if n == 0 {
        Seq::<u8>::empty()
    } else {
        padding((n - 1) as nat) + seq![0x20u8, 0x20u8, 0x20u8]
    }
}

/// The bytes of line `i` of the dump of `data`.
pub open spec fn chunk(data: Seq<u8>, i: nat) -> Seq<u8> {
    data.subrange(
        (i * LINE_WIDTH) as int,
        if (i + 1) * LINE_WIDTH <= data.len() {
            ((i + 1) * LINE_WIDTH) as int
        } else {
            data.len() as int
        },
    )
}

/// Line `i` of the dump of `data`.
pub open spec fn line(data: Seq<u8>, i: nat) -> Seq<u8> {
    let chunk = chunk(data, i);
    hex((i * LINE_WIDTH) as nat, 4) + seq![0x3Au8, 0x20u8] + cells(chunk, chunk.len()) + padding(
        (LINE_WIDTH - chunk.len()) as nat,
    ) + seq![0x20u8, 0x7Cu8] + chunk.map_values(|b: u8| shown(b)) + seq![0x7Cu8, 0x0Au8]
}

/// The first `n` lines of the dump of `data`.
pub open spec fn lines(data: Seq<u8>, n: nat) -> Seq<u8>
    decreases n,
{
    if n == 0 {
        Seq::<u8>::empty()
    } else {
        lines(data, (n - 1) as nat) + line(data, (n - 1) as nat)
    }
}

/// The number of lines that `len` bytes take.
pub open spec fn line_count(len: nat) -> nat {
    (len + LINE_WIDTH - 1) as nat / LINE_WIDTH as nat
}

/// The bytes of the text `": "`, in front of the count.
pub open spec fn after_label() -> Seq<u8> {
    seq![0x3Au8, 0x20u8]
}

/// The bytes of the text `" bytes"` and the end of the line.
pub open spec fn after_count() -> Seq<u8> {
    seq![0x20u8, 0x62u8, 0x79u8, 0x74u8, 0x65u8, 0x73u8, 0x0Au8]
}

/// The whole dump of `data` under `label`.
pub open spec fn dump(label: Seq<u8>, data: Seq<u8>) -> Seq<u8> {
    label + after_label() + decimal(data.len()) + after_count() + lines(
        data,
        line_count(data.len()),
    ) + seq![0x0Au8]
}

/// The ASCII digit for a value below sixteen.
fn digit_of(d: usize) -> (c: u8)
    requires
        d < 16,
    ensures
        c == digit(d as int),
{
    if d < 10 {
        (0x30 + d) as u8
    } else {
        (0x41 + d - 10) as u8
    }
}

/// Appends `n` in decimal.
fn push_decimal(out: &mut Vec<u8>, n: usize)
    ensures
        final(out)@ == old(out)@ + decimal(n as nat),
    decreases n,
{
    if n < 10 {
        out.push(digit_of(n));
        assert(out@ =~= old(out)@ + decimal(n as nat));
    } else {
        push_decimal(out, n / 10);
        out.push(digit_of(n % 10));
        assert(out@ =~= old(out)@ + decimal(n as nat));
    }
}

/// Appends `n` in hex, with zeros in front up to `width` digits.
fn push_hex(out: &mut Vec<u8>, n: usize, width: usize)
    ensures
        final(out)@ == old(out)@ + hex(n as nat, width as nat),
    decreases n, width,
{
    if n < 16 && width <= 1 {
        out.push(digit_of(n));
        assert(out@ =~= old(out)@ + hex(n as nat, width as nat));
    } else {
        let less = if width > 0 {
            width - 1
        } else {
            0
        };
        push_hex(out, n / 16, less);
        out.push(digit_of(n % 16));
        assert(out@ =~= old(out)@ + hex(n as nat, width as nat));
    }
}

/// Appends the hex cells of a line.
fn push_cells(out: &mut Vec<u8>, chunk: &[u8])
    ensures
        final(out)@ == old(out)@ + cells(chunk@, chunk@.len()),
{
    let mut j: usize = 0;
    while j < chunk.len()
        invariant
            j <= chunk@.len(),
            out@ == old(out)@ + cells(chunk@, j as nat),
        decreases chunk@.len() - j,
    {
        let byte = chunk[j];
        out.push(digit_of((byte / 16) as usize));
        out.push(digit_of((byte % 16) as usize));
        out.push(0x20);
        if j == 7 {
            out.push(0x20);
        }
        assert(out@ =~= old(out)@ + cells(chunk@, j as nat) + cell(chunk@[j as int], j as int));
        j += 1;
    }
}

/// Appends the blanks that stand for `n` missing cells.
fn push_padding(out: &mut Vec<u8>, n: usize)
    ensures
        final(out)@ == old(out)@ + padding(n as nat),
{
    let mut k: usize = 0;
    while k < n
        invariant
            k <= n,
            out@ == old(out)@ + padding(k as nat),
        decreases n - k,
    {
        out.push(0x20);
        out.push(0x20);
        out.push(0x20);
        assert(out@ =~= old(out)@ + padding(k as nat) + seq![0x20u8, 0x20u8, 0x20u8]);
        k += 1;
    }
}

/// Appends the bytes of a line as characters.
fn push_shown(out: &mut Vec<u8>, chunk: &[u8])
    ensures
        final(out)@ == old(out)@ + chunk@.map_values(|b: u8| shown(b)),
{
    let mut m: usize = 0;
    while m < chunk.len()
        invariant
            m <= chunk@.len(),
            out@ == old(out)@ + chunk@.take(m as int).map_values(|b: u8| shown(b)),
        decreases chunk@.len() - m,
    {
        let byte = chunk[m];
        if 0x20 <= byte && byte <= 0x7E {
            out.push(byte);
        } else {
            out.push(0x2E);
        }
        assert(out@ =~= old(out)@ + chunk@.take(m + 1).map_values(|b: u8| shown(b)));
        m += 1;
    }
    assert(chunk@.take(m as int) =~= chunk@);
}

/// Line `i` of the dump of `data`.
fn line_of(data: &[u8], i: usize) -> (text: Vec<u8>)
    requires
        i * LINE_WIDTH < data@.len(),
    ensures
        text@ == line(data@, i as nat),
{
    let len = data.len();
    let start = i * LINE_WIDTH;
    let end = if len - start >= LINE_WIDTH {
        start + LINE_WIDTH
    } else {
        len
    };
    let chunk = slice_subrange(data, start, end);
    assert(chunk@ == self::chunk(data@, i as nat));
    let mut text: Vec<u8> = Vec::new();
    push_hex(&mut text, start, 4);
    let ghost offset = hex(start as nat, 4);
    assert(text@ =~= offset);
    text.push(0x3A);
    text.push(0x20);
    assert(text@ =~= offset + seq![0x3Au8, 0x20u8]);
    push_cells(&mut text, chunk);
    push_padding(&mut text, LINE_WIDTH - chunk.len());
    let ghost left = text@;
    text.push(0x20);
    text.push(0x7C);
    assert(text@ =~= left + seq![0x20u8, 0x7Cu8]);
    push_shown(&mut text, chunk);
    let ghost right = text@;
    text.push(0x7C);
    text.push(0x0A);
    assert(text@ =~= right + seq![0x7Cu8, 0x0Au8]);
    text
}

/// The hex dump of `data` under `label`, as the bytes of its text.
pub fn render(label: &[u8], data: &[u8]) -> (text: Vec<u8>)
    ensures
        text@ == dump(label@, data@),
{
    let mut out: Vec<u8> = Vec::new();
    let mut a: usize = 0;
    while a < label.len()
        invariant
            a <= label@.len(),
            out@ == label@.take(a as int),
        decreases label@.len() - a,
    {
        out.push(label[a]);
        assert(out@ =~= label@.take(a + 1));
        a += 1;
    }
    assert(out@ =~= label@);
    out.push(0x3A);
    out.push(0x20);
    push_decimal(&mut out, data.len());
    out.push(0x20);
    out.push(0x62);
    out.push(0x79);
    out.push(0x74);
    out.push(0x65);
    out.push(0x73);
    out.push(0x0A);
    let ghost head = out@;
    assert(head =~= label@ + after_label() + decimal(data@.len()) + after_count());

    let whole = data.len() / LINE_WIDTH;
    let count = if data.len() % LINE_WIDTH > 0 {
        whole + 1
    } else {
        whole
    };
    assert(count == line_count(data@.len()));
    let mut i: usize = 0;
    while i < count
        invariant
            i <= count,
            count == line_count(data@.len()),
            out@ == head + lines(data@, i as nat),
        decreases count - i,
    {
        let mut text = line_of(data, i);
        out.append(&mut text);
        assert(out@ =~= head + (lines(data@, i as nat) + line(data@, i as nat)));
        i += 1;
    }
    out.push(0x0A);
    assert(out@ =~= dump(label@, data@));
    out
}

} // verus!
