//! The writer's state: which part is current, how many records it holds and
//! where the next one goes; and the rule that appends and rotates.
use vstd::prelude::*;
use crate::info::PartInfo;
use crate::text::push_all;
use crate::record::{
    crc32_of, crc_input, encode_record, header_before_crc, header_layout, ErrorQueue, Header, Mode, MsgType,
    HEADER_SIZE,
};

verus! {

/// A part is closed once it holds this many records.
pub const MAX_PART_COUNT: u32 = 1_000_000;

/// A part is closed once its data file reaches this many bytes.
pub const MAX_PART_SIZE: u64 = 536_870_912;

/// The state of a queue handle: its name and mode, and the current part's
/// id, record count and byte length.
pub struct Queue {
    pub name: Vec<u8>,
    pub mode: Mode,
    pub id: u32,
    pub count_pushed: u32,
    pub right_edge: u64,
    pub is_ready: bool,
}

/// What a push asks the host to do: append `record` to the data file of part
/// `part_id` and rewrite that part's info; where `rotated`, the writer has moved on to part `part_id + 1`,
/// whose files are to be created before the queue info is rewritten.
pub struct PushOutcome {
    pub record: Vec<u8>,
    pub part_id: u32,
    /// The info of part `part_id` once the record is appended.
    pub part_info: PartInfo,
    pub rotated: bool,
}

/// A part with this count and length is to be closed.
pub open spec fn over_ceiling(count_pushed: u32, right_edge: u64) -> bool {
    count_pushed >= MAX_PART_COUNT || right_edge >= MAX_PART_SIZE
}

/// A push of `len` bytes fits the counters of `q`.
pub open spec fn push_fits(q: Queue, len: nat) -> bool {
    &&& q.count_pushed < u32::MAX
    &&& len <= u32::MAX
    &&& HEADER_SIZE + len <= usize::MAX
    &&& q.right_edge + HEADER_SIZE + len <= u64::MAX
    &&& over_ceiling((q.count_pushed + 1) as u32, (q.right_edge + HEADER_SIZE + len) as u64) ==> q.id < u32::MAX
}

impl Queue {
    /// A fresh handle on part 0 of an empty queue.
    pub fn new(name: &[u8], mode: Mode) -> (r: Queue)
        ensures
            r.name@ == name@,
            r.mode == mode,
            r.id == 0,
            r.count_pushed == 0,
            r.right_edge == 0,
            r.is_ready,
    {
        let mut n: Vec<u8> = Vec::new();
        push_all(&mut n, name);
        Queue { name: n, mode, id: 0, count_pushed: 0, right_edge: 0, is_ready: true }
    }

    /// The info of the current part, as the info files state it.
    pub fn info(&self) -> (r: PartInfo)
        ensures
            r == (PartInfo { id: self.id, count_pushed: self.count_pushed, right_edge: self.right_edge }),
    {
        PartInfo { id: self.id, count_pushed: self.count_pushed, right_edge: self.right_edge }
    }

    /// Take on what the queue-info file states.
    pub fn apply_queue_info(&mut self, p: PartInfo)
        ensures
            final(self).id == p.id,
            final(self).count_pushed == p.count_pushed,
            final(self).right_edge == p.right_edge,
            final(self).name == old(self).name,
            final(self).mode == old(self).mode,
            final(self).is_ready == old(self).is_ready,
    {
        self.id = p.id;
        self.count_pushed = p.count_pushed;
        self.right_edge = p.right_edge;
    }

    /// Take on what a part's info file states of that part, keeping the id
    /// of the current part.
    pub fn apply_part_info(&mut self, p: PartInfo)
        ensures
            final(self).id == old(self).id,
            final(self).count_pushed == p.count_pushed,
            final(self).right_edge == p.right_edge,
            final(self).name == old(self).name,
            final(self).mode == old(self).mode,
            final(self).is_ready == old(self).is_ready,
    {
        self.count_pushed = p.count_pushed;
        self.right_edge = p.right_edge;
    }

    /// Frame `payload` as the next record of the current part and account
    /// for it; rotate to the next part when the part reaches its ceiling.
    /// A handle opened for reading, or one that is not ready, refuses with
    /// `NotReady` and is left as it was; so is one whose counters the record
    /// would overflow, with `FailWrite`.
    pub fn push(&mut self, payload: &[u8], msg_type: MsgType) -> (r: Result<PushOutcome, ErrorQueue>)
        ensures
            old(self).mode == Mode::Read || !old(self).is_ready ==> r == Err::<PushOutcome, ErrorQueue>(
                ErrorQueue::NotReady,
            ),
            old(self).mode == Mode::ReadWrite && old(self).is_ready && !push_fits(*old(self), payload@.len())
                ==> r == Err::<PushOutcome, ErrorQueue>(ErrorQueue::FailWrite),
            r is Err ==> *final(self) == *old(self),
            old(self).mode == Mode::ReadWrite && old(self).is_ready && push_fits(*old(self), payload@.len())
                ==> r is Ok,
            r matches Ok(o) ==> {
                let hdr = o.record@.subrange(0, HEADER_SIZE as int);
                let new_count = (old(self).count_pushed + 1) as u32;
                let new_edge = (old(self).right_edge + HEADER_SIZE + payload@.len()) as u64;
                &&& o.record@.len() == HEADER_SIZE + payload@.len()
                &&& o.record@.subrange(HEADER_SIZE as int, o.record@.len() as int) == payload@
                &&& header_layout(
                    hdr,
                    Header {
                        crc: crc32_of(crc_input(hdr, payload@)),
                        ..header_before_crc(msg_type, old(self).right_edge, new_count, payload@.len() as u32)
                    },
                )
                &&& o.part_id == old(self).id
                &&& o.part_info == (PartInfo { id: old(self).id, count_pushed: new_count, right_edge: new_edge })
                &&& o.rotated == over_ceiling(new_count, new_edge)
                &&& final(self).name == old(self).name
                &&& final(self).mode == old(self).mode
                &&& final(self).is_ready
                &&& if o.rotated {
                    final(self).id == old(self).id + 1 && final(self).count_pushed == 0 && final(self).right_edge == 0
                } else {
                    final(self).id == old(self).id && final(self).count_pushed == new_count && final(self).right_edge
                        == new_edge
                }
            },
    {
        if self.mode != Mode::ReadWrite || !self.is_ready {
            return Err(ErrorQueue::NotReady);
        }
        if self.count_pushed == u32::MAX || payload.len() > u32::MAX as usize || payload.len() > usize::MAX - HEADER_SIZE || self.right_edge > u64::MAX
            - HEADER_SIZE as u64 || payload.len() as u64 > u64::MAX - HEADER_SIZE as u64 - self.right_edge {
            return Err(ErrorQueue::FailWrite);
        }
        let new_count = self.count_pushed + 1;
        let new_edge = self.right_edge + HEADER_SIZE as u64 + payload.len() as u64;
        let rotate = new_count >= MAX_PART_COUNT || new_edge >= MAX_PART_SIZE;
        if rotate && self.id == u32::MAX {
            return Err(ErrorQueue::FailWrite);
        }
        let record = encode_record(msg_type, self.right_edge, new_count, payload);
        let part_id = self.id;
        let part_info = PartInfo { id: part_id, count_pushed: new_count, right_edge: new_edge };
        if rotate {
            self.id = self.id + 1;
            self.count_pushed = 0;
            self.right_edge = 0;
        } else {
            self.count_pushed = new_count;
            self.right_edge = new_edge;
        }
        Ok(PushOutcome { record, part_id, part_info, rotated: rotate })
    }
}

} // verus!
