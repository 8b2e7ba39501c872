//! The one-line text files: a consumer's cursor
//! (`queue;consumer;pos_record;count_popped;part_id`) and the info of a part
//! or of the queue (`name;id;count_pushed;right_edge;crc`, the CRC taken over
//! the four fields before it joined by `;`).
use vstd::prelude::*;
use crate::record::{crc32, crc32_of, ErrorQueue};
use crate::text::{
    dec, dec_value, decimal_within, lemma_dec_round_trip, lemma_split_append, lemma_split_last, lemma_split_single, no_sep,
    parse_decimal, push_all, push_decimal, split_fields, split_fields_of, NL, SEP,
};

verus! {

/// A consumer's read position: the next header is read at `pos_record` of
/// part `id`, after `count_popped` records of that part.
#[derive(PartialEq, Eq, Structural, Clone, Copy, Debug)]
pub struct Cursor {
    pub pos_record: u64,
    pub count_popped: u32,
    pub id: u32,
}

/// What an info file states of a part (or, for the queue-level file, of the
/// current part).
#[derive(PartialEq, Eq, Structural, Clone, Copy, Debug)]
pub struct PartInfo {
    pub id: u32,
    pub count_pushed: u32,
    pub right_edge: u64,
}

pub open spec fn sep() -> Seq<u8> {
    seq![SEP]
}

/// The cursor line, without its newline.
pub open spec fn cursor_line(queue: Seq<u8>, consumer: Seq<u8>, c: Cursor) -> Seq<u8> {
    queue + sep() + consumer + sep() + dec(c.pos_record as nat) + sep() + dec(c.count_popped as nat) + sep()
        + dec(c.id as nat)
}

/// The cursor a line holds for this queue and consumer, if it is one.
pub open spec fn cursor_of(line: Seq<u8>, queue: Seq<u8>, consumer: Seq<u8>) -> Option<Cursor> {
    let f = split_fields(line);
    if f.len() == 5 && f[0] == queue && f[1] == consumer && decimal_within(f[2], u64::MAX as nat)
        && decimal_within(f[3], u32::MAX as nat) && decimal_within(f[4], u32::MAX as nat) {
        Some(
            Cursor {
                pos_record: dec_value(f[2]) as u64,
                count_popped: dec_value(f[3]) as u32,
                id: dec_value(f[4]) as u32,
            },
        )
    } else {
        None
    }
}

/// The four fields of an info line that its CRC covers.
pub open spec fn info_body(name: Seq<u8>, p: PartInfo) -> Seq<u8> {
    name + sep() + dec(p.id as nat) + sep() + dec(p.count_pushed as nat) + sep() + dec(p.right_edge as nat)
}

/// The info line, without its newline.
pub open spec fn info_line(name: Seq<u8>, p: PartInfo) -> Seq<u8> {
    info_body(name, p) + sep() + dec(crc32_of(info_body(name, p)) as nat)
}

/// What an info line holds for `name`: its fields where they are well formed,
/// name `name` and carry a matching CRC; `InvalidChecksum` otherwise.
pub open spec fn info_of(line: Seq<u8>, name: Seq<u8>) -> Result<PartInfo, ErrorQueue> {
    let f = split_fields(line);
    if f.len() == 5 && f[0] == name && decimal_within(f[1], u32::MAX as nat) && decimal_within(
        f[2],
        u32::MAX as nat,
    ) && decimal_within(f[3], u64::MAX as nat) && decimal_within(f[4], u32::MAX as nat) && dec_value(f[4])
        == crc32_of(line.subrange(0, line.len() - f[4].len() - 1)) {
        Ok(
            PartInfo {
                id: dec_value(f[1]) as u32,
                count_pushed: dec_value(f[2]) as u32,
                right_edge: dec_value(f[3]) as u64,
            },
        )
    } else {
        Err(ErrorQueue::InvalidChecksum)
    }
}

proof fn lemma_dec_no_sep(n: nat)
    ensures
        no_sep(dec(n)),
        decimal_within(dec(n), n),
        dec_value(dec(n)) == n,
{
    lemma_dec_round_trip(n);
    assert forall|i: int| 0 <= i < dec(n).len() implies dec(n)[i] != SEP by {
        assert(crate::text::is_digit(dec(n)[i]));
    }
}

/// Reading back a cursor line gives the cursor that was written, provided
/// neither name holds a `;`.
pub proof fn lemma_cursor_round_trip(queue: Seq<u8>, consumer: Seq<u8>, c: Cursor)
    requires
        no_sep(queue),
        no_sep(consumer),
    ensures
        cursor_of(cursor_line(queue, consumer, c), queue, consumer) == Some(c),
{
    lemma_dec_no_sep(c.pos_record as nat);
    lemma_dec_no_sep(c.count_popped as nat);
    lemma_dec_no_sep(c.id as nat);
    lemma_split_single(queue);
    let s1 = queue + sep() + consumer;
    lemma_split_append(queue, consumer);
    let s2 = s1 + sep() + dec(c.pos_record as nat);
    lemma_split_append(s1, dec(c.pos_record as nat));
    let s3 = s2 + sep() + dec(c.count_popped as nat);
    lemma_split_append(s2, dec(c.count_popped as nat));
    lemma_split_append(s3, dec(c.id as nat));
    let f = split_fields(cursor_line(queue, consumer, c));
    assert(f =~= seq![queue, consumer, dec(c.pos_record as nat), dec(c.count_popped as nat), dec(c.id as nat)]);
}

/// Reading back an info line gives the info that was written, provided the
/// name holds no `;`.
pub proof fn lemma_info_round_trip(name: Seq<u8>, p: PartInfo)
    requires
        no_sep(name),
    ensures
        info_of(info_line(name, p), name) == Ok::<PartInfo, ErrorQueue>(p),
{
    let crc = crc32_of(info_body(name, p));
    lemma_dec_no_sep(p.id as nat);
    lemma_dec_no_sep(p.count_pushed as nat);
    lemma_dec_no_sep(p.right_edge as nat);
    lemma_dec_no_sep(crc as nat);
    lemma_split_single(name);
    let s1 = name + sep() + dec(p.id as nat);
    lemma_split_append(name, dec(p.id as nat));
    let s2 = s1 + sep() + dec(p.count_pushed as nat);
    lemma_split_append(s1, dec(p.count_pushed as nat));
    let s3 = s2 + sep() + dec(p.right_edge as nat);
    lemma_split_append(s2, dec(p.right_edge as nat));
    lemma_split_append(s3, dec(crc as nat));
    let line = info_line(name, p);
    let f = split_fields(line);
    assert(f =~= seq![name, dec(p.id as nat), dec(p.count_pushed as nat), dec(p.right_edge as nat), dec(crc as nat)]);
    assert(line.subrange(0, line.len() - f[4].len() - 1) =~= info_body(name, p));
}

/// The cursor file's contents: the cursor line and a newline.
pub fn format_cursor(queue: &[u8], consumer: &[u8], c: Cursor) -> (r: Vec<u8>)
    ensures
        r@ == cursor_line(queue@, consumer@, c).push(NL),
{
    let mut out: Vec<u8> = Vec::new();
    push_all(&mut out, queue);
    out.push(SEP);
    push_all(&mut out, consumer);
    out.push(SEP);
    push_decimal(&mut out, c.pos_record);
    out.push(SEP);
    push_decimal(&mut out, c.count_popped as u64);
    out.push(SEP);
    push_decimal(&mut out, c.id as u64);
    out.push(NL);
    assert(out@ =~= cursor_line(queue@, consumer@, c).push(NL));
    out
}

/// Read the first line of a cursor file for this queue and consumer; `None`
/// when it is not a well-formed cursor line of these two names.
pub fn parse_cursor(line: &[u8], queue: &[u8], consumer: &[u8]) -> (r: Option<Cursor>)
    ensures
        r == cursor_of(line@, queue@, consumer@),
{
    let f = split_fields_of(line);
    if f.len() != 5 {
        return None;
    }
    if !bytes_eq(f[0].as_slice(), queue) || !bytes_eq(f[1].as_slice(), consumer) {
        return None;
    }
    let pos = parse_decimal(f[2].as_slice(), u64::MAX);
    let cnt = parse_decimal(f[3].as_slice(), u32::MAX as u64);
    let id = parse_decimal(f[4].as_slice(), u32::MAX as u64);
    match (pos, cnt, id) {
        (Some(p), Some(n), Some(i)) => Some(Cursor { pos_record: p, count_popped: n as u32, id: i as u32 }),
        _ => None,
    }
}

/// The info file's contents: the info line and a newline.
pub fn format_info(name: &[u8], p: PartInfo) -> (r: Vec<u8>)
    ensures
        r@ == info_line(name@, p).push(NL),
{
    let mut out: Vec<u8> = Vec::new();
    push_all(&mut out, name);
    out.push(SEP);
    push_decimal(&mut out, p.id as u64);
    out.push(SEP);
    push_decimal(&mut out, p.count_pushed as u64);
    out.push(SEP);
    push_decimal(&mut out, p.right_edge);
    assert(out@ =~= info_body(name@, p));
    let crc = crc32(out.as_slice());
    out.push(SEP);
    push_decimal(&mut out, crc as u64);
    out.push(NL);
    assert(out@ =~= info_line(name@, p).push(NL));
    out
}

/// Read the first line of an info file written for `name`.
pub fn parse_info(line: &[u8], name: &[u8]) -> (r: Result<PartInfo, ErrorQueue>)
    ensures
        r == info_of(line@, name@),
{
    let f = split_fields_of(line);
    if f.len() != 5 || !bytes_eq(f[0].as_slice(), name) {
        return Err(ErrorQueue::InvalidChecksum);
    }
    let id = parse_decimal(f[1].as_slice(), u32::MAX as u64);
    let cnt = parse_decimal(f[2].as_slice(), u32::MAX as u64);
    let edge = parse_decimal(f[3].as_slice(), u64::MAX);
    let crc = parse_decimal(f[4].as_slice(), u32::MAX as u64);
    match (id, cnt, edge, crc) {
        (Some(i), Some(n), Some(e), Some(c)) => {
            proof {
                lemma_split_last(line@);
            }
            let body_len = line.len() - f[4].len() - 1;
            let body = prefix(line, body_len);
            if crc32(body.as_slice()) as u64 == c {
                Ok(PartInfo { id: i as u32, count_pushed: n as u32, right_edge: e })
            } else {
                Err(ErrorQueue::InvalidChecksum)
            }
        },
        _ => Err(ErrorQueue::InvalidChecksum),
    }
}

/// Whether two byte strings are equal.
pub fn bytes_eq(a: &[u8], b: &[u8]) -> (r: bool)
    ensures
        r == (a@ == b@),
{
    if a.len() != b.len() {
        return false;
    }
    let mut i: usize = 0;
    while i < a.len()
        invariant
            0 <= i <= a@.len(),
            a@.len() == b@.len(),
            a@.subrange(0, i as int) == b@.subrange(0, i as int),
        decreases a@.len() - i,
    {
        if a[i] != b[i] {
            assert(a@[i as int] != b@[i as int]);
            return false;
        }
        i = i + 1;
        assert(a@.subrange(0, i as int) =~= b@.subrange(0, i as int));
    }
    assert(a@ =~= a@.subrange(0, i as int));
    assert(b@ =~= b@.subrange(0, i as int));
    true
}

/// The first `n` bytes of `s`.
fn prefix(s: &[u8], n: usize) -> (r: Vec<u8>)
    requires
        n <= s@.len(),
    ensures
        r@ == s@.subrange(0, n as int),
{
    let mut out: Vec<u8> = Vec::new();
    let mut i: usize = 0;
    while i < n
        invariant
            0 <= i <= n,
            n <= s@.len(),
            out@ == s@.subrange(0, i as int),
        decreases n - i,
    {
        out.push(s[i]);
        i = i + 1;
        assert(out@ =~= s@.subrange(0, i as int));
    }
    out
}

} // verus!
