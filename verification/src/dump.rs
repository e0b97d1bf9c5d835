//! The memory dump: a window of machine memory written out as lines of
//! hexadecimal bytes, each behind the address of its first byte.

use vstd::prelude::*;
use vstd::string::*;
use crate::numeral::{decimal, hex_byte, push_decimal_justified, push_hex_byte, right_justified};

verus! {

/// The number of bytes one line of a dump shows.
pub const BYTES_PER_LINE: usize = 13;

/// The number of lines in a dump.
pub const DUMP_LINES: usize = 4;

/// The number of bytes a dump reads.
pub const DUMP_BYTES: usize = 52;

/// The width of the address in front of a line.
pub const LABEL_WIDTH: usize = 5;

/// Why a dump was refused.
#[derive(Clone, Copy, Debug, PartialEq, Eq, Structural)]
pub enum DumpError {
    /// The window starting at the address reaches past the end of memory.
    RangeInvalid,
}

/// Whether memory of `len` bytes holds the whole window that starts at `addr`.
pub open spec fn window_in_range(len: nat, addr: u16) -> bool {
    addr + DUMP_BYTES <= len
}

/// Bytes as two hexadecimal digits each, with one space between neighbours.
pub open spec fn hex_row(bytes: Seq<u8>) -> Seq<char>
    decreases bytes.len(),
{
    if bytes.len() == 0 {
        Seq::empty()
    } else if bytes.len() == 1 {
        hex_byte(bytes[0])
    } else {
        hex_row(bytes.drop_last()) + seq![' '] + hex_byte(bytes.last())
    }
}

/// The dump line for the bytes at `start`: the address in decimal,
/// right-justified, then a colon and a space, then the bytes.
pub open spec fn dump_line(memory: Seq<u8>, start: int) -> Seq<char> {
    right_justified(decimal(start as nat), LABEL_WIDTH as nat) + seq![':', ' '] + hex_row(
        memory.subrange(start, start + BYTES_PER_LINE),
    )
}

/// Line `i` of the dump that starts at `addr`.
pub open spec fn dump_line_at(memory: Seq<u8>, addr: int, i: int) -> Seq<char> {
    dump_line(memory, addr + i * BYTES_PER_LINE)
}

/// The lines of the dump that starts at `addr`, in ascending address order.
pub open spec fn dump_lines(memory: Seq<u8>, addr: int) -> Seq<Seq<char>> {
    Seq::new(DUMP_LINES as nat, |i: int| dump_line_at(memory, addr, i))
}

/// A dump is made of its window alone: memories that agree on the bytes from
/// `addr` on, as far as the window goes, have the same dump there.
pub proof fn lemma_dump_reads_window_only(first: Seq<u8>, second: Seq<u8>, addr: int)
    requires
        0 <= addr,
        addr + DUMP_BYTES <= first.len(),
        addr + DUMP_BYTES <= second.len(),
        first.subrange(addr, addr + DUMP_BYTES) == second.subrange(addr, addr + DUMP_BYTES),
    ensures
        dump_lines(first, addr) == dump_lines(second, addr),
{
    let window_first = first.subrange(addr, addr + DUMP_BYTES);
    let window_second = second.subrange(addr, addr + DUMP_BYTES);
    assert forall|i: int| 0 <= i < DUMP_LINES implies #[trigger] dump_line_at(first, addr, i)
        == dump_line_at(second, addr, i) by {
        let start = addr + i * BYTES_PER_LINE;
        assert(first.subrange(start, start + BYTES_PER_LINE) =~= window_first.subrange(
            i * BYTES_PER_LINE,
            i * BYTES_PER_LINE + BYTES_PER_LINE,
        ));
        assert(second.subrange(start, start + BYTES_PER_LINE) =~= window_second.subrange(
            i * BYTES_PER_LINE,
            i * BYTES_PER_LINE + BYTES_PER_LINE,
        ));
    }
    assert(dump_lines(first, addr) =~= dump_lines(second, addr));
}

/// Writes the bytes of `memory` from `from` up to `to` at the end of `out`, as
/// a row of hexadecimal bytes.
fn push_hex_row(out: &mut String, memory: &[u8], from: usize, to: usize)
    requires
        from <= to <= memory@.len(),
    ensures
        final(out)@ == old(out)@ + hex_row(memory@.subrange(from as int, to as int)),
{
    let mut i: usize = from;
    assert(memory@.subrange(from as int, from as int) =~= Seq::<u8>::empty());
    while i < to
        invariant
            from <= i <= to <= memory@.len(),
            out@ == old(out)@ + hex_row(memory@.subrange(from as int, i as int)),
        decreases to - i,
    {
        let ghost before = memory@.subrange(from as int, i as int);
        let ghost after = memory@.subrange(from as int, i as int + 1);
        assert(after.drop_last() =~= before);
        assert(after.last() == memory@[i as int]);
        if i > from {
            proof {
                reveal_strlit(" ");
            }
            out.append(" ");
        }
        push_hex_byte(out, memory[i]);
        assert(out@ =~= old(out)@ + hex_row(after));
        i = i + 1;
    }
}

/// The dump line for the bytes at `start`.
fn format_line(memory: &[u8], start: usize) -> (line: String)
    requires
        start + BYTES_PER_LINE <= memory@.len() <= usize::MAX,
    ensures
        line@ == dump_line(memory@, start as int),
{
    let mut line = String::new();
    push_decimal_justified(&mut line, start as u64, LABEL_WIDTH);
    proof {
        reveal_strlit(": ");
    }
    line.append(": ");
    push_hex_row(&mut line, memory, start, start + BYTES_PER_LINE);
    assert(line@ =~= dump_line(memory@, start as int));
    line
}

/// The dump of the window that starts at `addr`, one string for each line.
/// A window that reaches past the end of memory is refused.
pub fn format_dump(memory: &[u8], addr: u16) -> (dump: Result<Vec<String>, DumpError>)
    ensures
        match dump {
            Ok(lines) => window_in_range(memory@.len(), addr) && lines.deep_view() == dump_lines(
                memory@,
                addr as int,
            ),
            Err(error) => !window_in_range(memory@.len(), addr) && error
                == DumpError::RangeInvalid,
        },
{
    if memory.len() < DUMP_BYTES || addr as usize > memory.len() - DUMP_BYTES {
        return Err(DumpError::RangeInvalid);
    }
    let mut lines: Vec<String> = Vec::new();
    let mut i: usize = 0;
    while i < DUMP_LINES
        invariant
            i <= DUMP_LINES,
            addr + DUMP_BYTES <= memory@.len() <= usize::MAX,
            lines@.len() == i,
            forall|k: int|
                0 <= k < i ==> (#[trigger] lines@[k])@ == dump_line_at(memory@, addr as int, k),
        decreases DUMP_LINES - i,
    {
        let line = format_line(memory, addr as usize + i * BYTES_PER_LINE);
        lines.push(line);
        i = i + 1;
    }
    assert(lines.deep_view() =~= dump_lines(memory@, addr as int));
    Ok(lines)
}

} // verus!
