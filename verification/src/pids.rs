//! Reading process ids out of the output of `lsof -t`: one id per line, and
//! lines that do not hold a number are passed over.
use vstd::prelude::*;
use crate::decimal::{parse_u32, parse_u32_spec};
use crate::text::{decode_lossy, lines, line_scan, lossy_utf8, strip_cr, trim, trim_range};

verus! {

/// The numbers found in `ls`, in order: each line is trimmed and read as a
/// `u32`; lines that do not read as one are skipped.
pub open spec fn pids_in(ls: Seq<Seq<char>>) -> Seq<u32>
    decreases ls.len(),
{
    if ls.len() == 0 {
        seq![]
    } else {
        let rest = pids_in(ls.drop_last());
        match parse_u32_spec(trim(ls.last())) {
            Some(p) => rest.push(p),
            None => rest,
        }
    }
}

/// The process ids listed in a text.
pub open spec fn listed_pids(text: Seq<char>) -> Seq<u32> {
    pids_in(lines(text))
}

/// The process ids listed in raw command output, decoded leniently.
pub open spec fn listed_pids_in_output(output: Seq<u8>) -> Seq<u32> {
    listed_pids(lossy_utf8(output))
}

/// Adds the number on `text[lo..hi]`, trimmed, if there is one.
fn push_line_pid(text: &Vec<char>, lo: usize, hi: usize, pids: &mut Vec<u32>)
    requires
        lo <= hi <= text.len(),
    ensures
        final(pids)@ == (match parse_u32_spec(trim(text@.subrange(lo as int, hi as int))) {
            Some(p) => old(pids)@.push(p),
            None => old(pids)@,
        }),
{
    let (a, b) = trim_range(text, lo, hi);
    match parse_u32(text, a, b) {
        Some(p) => pids.push(p),
        None => {},
    }
}

/// The process ids listed in `text`, one per line.
pub fn parse_pid_lines(text: &Vec<char>) -> (pids: Vec<u32>)
    ensures
        pids@ == listed_pids(text@),
{
    let mut pids: Vec<u32> = Vec::new();
    let n = text.len();
    let mut a: usize = 0;
    let mut i: usize = 0;
    while i < n
        invariant
            n == text.len(),
            0 <= a <= i <= n,
            pids@ == pids_in(line_scan(text@.take(i as int)).0),
            line_scan(text@.take(i as int)).1 == text@.subrange(a as int, i as int),
        decreases n - i,
    {
        let ghost before = line_scan(text@.take(i as int));
        assert(text@.take(i + 1).drop_last() =~= text@.take(i as int));
        if text[i] == '\n' {
            let mut b = i;
            if b > a && text[b - 1] == '\r' {
                b = b - 1;
            }
            assert(text@.subrange(a as int, b as int) =~= strip_cr(before.1));
            push_line_pid(text, a, b, &mut pids);
            assert(before.0.push(strip_cr(before.1)).drop_last() =~= before.0);
            a = i + 1;
            assert(text@.subrange(a as int, i + 1) =~= Seq::<char>::empty());
        } else {
            assert(text@.subrange(a as int, i + 1) =~= before.1.push(text@[i as int]));
        }
        i = i + 1;
    }
    assert(text@.take(n as int) =~= text@);
    let ghost scan = line_scan(text@);
    if a < n {
        push_line_pid(text, a, n, &mut pids);
        assert(scan.0.push(scan.1).drop_last() =~= scan.0);
    }
    pids
}

/// The process ids listed in the raw output of a process listing.
pub fn pids_from_output(output: &[u8]) -> (pids: Vec<u32>)
    ensures
        pids@ == listed_pids_in_output(output@),
{
    let text = decode_lossy(output);
    parse_pid_lines(&text)
}

} // verus!
