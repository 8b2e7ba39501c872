//! The names of a queue's files inside its base directory.
use vstd::prelude::*;
use crate::text::{dec, push_all, push_decimal};

verus! {

/// `_queue_`
pub open spec fn queue_infix() -> Seq<u8> {
    seq![95u8, 113, 117, 101, 117, 101, 95]
}

/// `_info_queue`
pub open spec fn info_queue_infix() -> Seq<u8> {
    seq![95u8, 105, 110, 102, 111, 95, 113, 117, 101, 117, 101]
}

/// `_info_pop_`
pub open spec fn info_pop_infix() -> Seq<u8> {
    seq![95u8, 105, 110, 102, 111, 95, 112, 111, 112, 95]
}

/// `.lock`
pub open spec fn lock_suffix() -> Seq<u8> {
    seq![46u8, 108, 111, 99, 107]
}

fn push_queue_infix(out: &mut Vec<u8>)
    ensures
        final(out)@ == old(out)@ + queue_infix(),
{
    out.push(95);
    out.push(113);
    out.push(117);
    out.push(101);
    out.push(117);
    out.push(101);
    out.push(95);
    assert(out@ =~= old(out)@ + queue_infix());
}

fn push_info_queue_infix(out: &mut Vec<u8>)
    ensures
        final(out)@ == old(out)@ + info_queue_infix(),
{
    out.push(95);
    out.push(105);
    out.push(110);
    out.push(102);
    out.push(111);
    push_queue_infix(out);
    out.pop();
    assert(out@ =~= old(out)@ + info_queue_infix());
}

/// The data file of part `id`: `<queue>_queue_<id>`.
pub fn part_data_file(queue: &[u8], id: u32) -> (r: Vec<u8>)
    ensures
        r@ == queue@ + queue_infix() + dec(id as nat),
{
    let mut out: Vec<u8> = Vec::new();
    push_all(&mut out, queue);
    push_queue_infix(&mut out);
    push_decimal(&mut out, id as u64);
    assert(out@ =~= queue@ + queue_infix() + dec(id as nat));
    out
}

/// The info file of the queue: `<queue>_info_queue`.
pub fn queue_info_file(queue: &[u8]) -> (r: Vec<u8>)
    ensures
        r@ == queue@ + info_queue_infix(),
{
    let mut out: Vec<u8> = Vec::new();
    push_all(&mut out, queue);
    push_info_queue_infix(&mut out);
    assert(out@ =~= queue@ + info_queue_infix());
    out
}

/// The info file of part `id`: `<queue>_info_queue_<id>`.
pub fn part_info_file(queue: &[u8], id: u32) -> (r: Vec<u8>)
    ensures
        r@ == queue@ + info_queue_infix() + seq![95u8] + dec(id as nat),
{
    let mut out = queue_info_file(queue);
    out.push(95);
    push_decimal(&mut out, id as u64);
    assert(out@ =~= queue@ + info_queue_infix() + seq![95u8] + dec(id as nat));
    out
}

/// The cursor file of a consumer: `<queue>_info_pop_<consumer>`.
pub fn cursor_file(queue: &[u8], consumer: &[u8]) -> (r: Vec<u8>)
    ensures
        r@ == queue@ + info_pop_infix() + consumer@,
{
    let mut out: Vec<u8> = Vec::new();
    push_all(&mut out, queue);
    out.push(95);
    out.push(105);
    out.push(110);
    out.push(102);
    out.push(111);
    out.push(95);
    out.push(112);
    out.push(111);
    out.push(112);
    out.push(95);
    push_all(&mut out, consumer);
    assert(out@ =~= queue@ + info_pop_infix() + consumer@);
    out
}

/// The lock file that guards the file `file`: `<file>.lock`.
pub fn lock_file(file: &[u8]) -> (r: Vec<u8>)
    ensures
        r@ == file@ + lock_suffix(),
{
    let mut out: Vec<u8> = Vec::new();
    push_all(&mut out, file);
    out.push(46);
    out.push(108);
    out.push(111);
    out.push(99);
    out.push(107);
    assert(out@ =~= file@ + lock_suffix());
    out
}

} // verus!
