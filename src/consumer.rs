//! A consumer's read state and the decisions of its read state machine:
//! header validation, corruption recovery by marker scan, body validation,
//! cursor advance and part advance. The host reads the bytes at the positions
//! these functions name and hands them over.
use vstd::prelude::*;
use crate::info::{cursor_of, format_cursor, parse_cursor, Cursor, PartInfo, cursor_line};
use crate::queue::Queue;
use crate::record::{
    crc32_of, crc_input, header_before_crc, header_layout, lemma_record_round_trip, check_record, header_of, record_intact, ErrorQueue, Header, Mode, MsgType, HEADER_SIZE, MAGIC_MARKER,
    MARKER_OFFSET,
};
use crate::text::{push_all, NL};

verus! {

/// The first three bytes of the magic marker as they stand on disk; the
/// recovery scan looks for them.
pub const MARKER_B0: u8 = 0xEE;

pub const MARKER_B1: u8 = 0xEF;

pub const MARKER_B2: u8 = 0xFE;

/// How many bytes the recovery scan reads at once.
pub const SCAN_SIZE: usize = 65536;

/// What the host is to do next while a header is being popped.
#[derive(PartialEq, Eq, Structural, Clone, Copy, Debug)]
pub enum ReadAction {
    /// Read up to `HEADER_SIZE` bytes at this offset of the current part and
    /// hand them to `on_header_bytes`.
    ReadHeader(u64),
    /// Read up to `SCAN_SIZE` bytes at this offset and hand them to
    /// `on_scan_bytes`.
    Scan(u64),
    /// The pop ended: `true` where a header is ready for its body.
    Done(bool),
}

/// What the host is to do next while the consumer moves to the next part.
#[derive(PartialEq, Eq, Structural, Clone, Copy, Debug)]
pub enum AdvanceAction {
    /// Load the info of this part and hand it to `on_part_info`.
    LoadPartInfo(u32),
    /// Read the queue-info file again and hand it to `on_queue_info`.
    RefreshQueue,
    /// Load the info of this part and hand it to `on_probe_step`.
    Probe(u32),
    /// The consumer moved on: persist the cursor and open the data file of
    /// part `id`.
    Persist,
    /// The advance ended; `false`: the consumer stays where it was.
    Done(bool),
}

/// One named reader of a queue.
pub struct Consumer {
    pub name: Vec<u8>,
    pub mode: Mode,
    /// The queue as this consumer last read it: `id` is the writer's current
    /// part; `count_pushed` and `right_edge` are those of the part being read.
    pub queue: Queue,
    pub count_popped: u32,
    pub id: u32,
    pub is_ready: bool,
    pub pos_record: u64,
    /// The header of the record being read.
    pub header: Header,
    /// The raw bytes of that header.
    pub header_buf: Vec<u8>,
    /// The marker scan already ran in the pop under way.
    pub scanned: bool,
}

/// The three marker bytes start at `i` in `s`.
pub open spec fn marker_at(s: Seq<u8>, i: int) -> bool {
    0 <= i && i + 3 <= s.len() && s[i] == MARKER_B0 && s[i + 1] == MARKER_B1 && s[i + 2] == MARKER_B2
}

/// The verdict on the header bytes read at the cursor.
pub open spec fn header_verdict(q: Queue, buf: Seq<u8>) -> Result<(), ErrorQueue> {
    if buf.len() < HEADER_SIZE {
        Err(ErrorQueue::NotReadHeader)
    } else {
        let h = header_of(buf);
        if h.magic_marker != MAGIC_MARKER {
            Err(ErrorQueue::InvalidHeader)
        } else if h.count_pushed > q.count_pushed {
            Err(ErrorQueue::NeedResync)
        } else if h.start_pos >= q.right_edge {
            Err(ErrorQueue::InvalidHeader)
        } else {
            Ok(())
        }
    }
}

/// A blank header, before any record was read.
pub open spec fn blank_header() -> Header {
    Header { start_pos: 0, msg_length: 0, magic_marker: 0, count_pushed: 0, msg_type: MsgType::String, crc: 0 }
}

/// A record framed by the writer passes the reader's checks: once the
/// reader's view of the part covers the record (its count and its start),
/// the header is accepted, announces the payload's length, and the CRC check
/// accepts the payload that follows it.
pub proof fn lemma_pushed_record_is_accepted(
    r: Seq<u8>,
    payload: Seq<u8>,
    msg_type: MsgType,
    start_pos: u64,
    count_pushed: u32,
    q: Queue,
)
    requires
        r.len() == HEADER_SIZE + payload.len(),
        payload.len() <= u32::MAX,
        r.subrange(HEADER_SIZE as int, r.len() as int) == payload,
        header_layout(
            r.subrange(0, HEADER_SIZE as int),
            Header {
                crc: crc32_of(crc_input(r.subrange(0, HEADER_SIZE as int), payload)),
                ..header_before_crc(msg_type, start_pos, count_pushed, payload.len() as u32)
            },
        ),
        count_pushed <= q.count_pushed,
        start_pos < q.right_edge,
    ensures
        header_verdict(q, r.subrange(0, HEADER_SIZE as int)) == Ok::<(), ErrorQueue>(()),
        header_of(r.subrange(0, HEADER_SIZE as int)).msg_length == payload.len(),
        header_of(r.subrange(0, HEADER_SIZE as int)).msg_type == msg_type,
        record_intact(r.subrange(0, HEADER_SIZE as int), payload),
{
    lemma_record_round_trip(r, payload, msg_type, start_pos, count_pushed);
}

impl Consumer {
    pub open spec fn wf(&self) -> bool {
        self.header_buf@.len() == HEADER_SIZE
    }

    /// The cursor this consumer would persist.
    pub open spec fn cursor_spec(&self) -> Cursor {
        Cursor { pos_record: self.pos_record, count_popped: self.count_popped, id: self.id }
    }

    /// All but the position fields are the same in `self` and `o`.
    pub open spec fn same_but_position(&self, o: &Consumer) -> bool {
        &&& self.name == o.name
        &&& self.mode == o.mode
        &&& self.queue == o.queue
        &&& self.header == o.header
        &&& self.header_buf == o.header_buf
        &&& self.scanned == o.scanned
    }

    /// A consumer of `queue_name` named `consumer_name`, placed at the cursor
    /// that the first line of its cursor file holds (at the start of part 0
    /// where the file is empty). A line that is not a cursor of these two
    /// names is refused with `NotReady`.
    pub fn new(queue_name: &[u8], consumer_name: &[u8], mode: Mode, cursor_file_line: Option<&[u8]>) -> (r: Result<
        Consumer,
        ErrorQueue,
    >)
        ensures
            match cursor_file_line {
                None => r is Ok && r->Ok_0.cursor_spec() == (Cursor { pos_record: 0, count_popped: 0, id: 0 }),
                Some(l) => match cursor_of(l@, queue_name@, consumer_name@) {
                    None => r == Err::<Consumer, ErrorQueue>(ErrorQueue::NotReady),
                    Some(c) => r is Ok && r->Ok_0.cursor_spec() == c,
                },
            },
            r matches Ok(c) ==> {
                &&& c.wf()
                &&& c.name@ == consumer_name@
                &&& c.mode == mode
                &&& c.is_ready
                &&& c.queue.name@ == queue_name@
                &&& c.queue.mode == Mode::Read
                &&& c.queue.id == 0
                &&& c.queue.count_pushed == 0
                &&& c.queue.right_edge == 0
                &&& c.header == blank_header()
            },
    {
        let cursor = match cursor_file_line {
            None => Cursor { pos_record: 0, count_popped: 0, id: 0 },
            Some(l) => match parse_cursor(l, queue_name, consumer_name) {
                Some(c) => c,
                None => {
                    return Err(ErrorQueue::NotReady);
                },
            },
        };
        let mut name: Vec<u8> = Vec::new();
        push_all(&mut name, consumer_name);
        let header_buf: Vec<u8> = vec![0u8; HEADER_SIZE];
        Ok(
            Consumer {
                name,
                mode,
                queue: Queue::new(queue_name, Mode::Read),
                count_popped: cursor.count_popped,
                id: cursor.id,
                is_ready: true,
                pos_record: cursor.pos_record,
                header: Header {
                    start_pos: 0,
                    msg_length: 0,
                    magic_marker: 0,
                    count_pushed: 0,
                    msg_type: MsgType::String,
                    crc: 0,
                },
                header_buf,
                scanned: false,
            },
        )
    }

    /// The cursor this consumer would persist.
    pub fn cursor(&self) -> (r: Cursor)
        ensures
            r == self.cursor_spec(),
    {
        Cursor { pos_record: self.pos_record, count_popped: self.count_popped, id: self.id }
    }

    /// The contents of the cursor file for the current position.
    pub fn cursor_bytes(&self) -> (r: Vec<u8>)
        ensures
            r@ == cursor_line(self.queue.name@, self.name@, self.cursor_spec()).push(NL),
    {
        format_cursor(self.queue.name.as_slice(), self.name.as_slice(), self.cursor())
    }

    /// The part named in the cursor file is missing: read the writer's
    /// current part from its start.
    pub fn adopt_current_part(&mut self)
        ensures
            final(self).id == old(self).queue.id,
            final(self).pos_record == 0,
            final(self).count_popped == old(self).count_popped,
            final(self).is_ready == old(self).is_ready,
            final(self).same_but_position(old(self)),
    {
        self.id = self.queue.id;
        self.pos_record = 0;
    }

    /// The handle failed for good (an I/O error while persisting).
    pub fn mark_not_ready(&mut self)
        ensures
            !final(self).is_ready,
            final(self).cursor_spec() == old(self).cursor_spec(),
            final(self).same_but_position(old(self)),
    {
        self.is_ready = false;
    }

    /// How many records are known to wait in the part being read: zero when
    /// the writer has moved past it or nothing new was pushed.
    pub fn pending(&self) -> (r: u32)
        ensures
            r == (if self.queue.id == self.id && self.queue.count_pushed > self.count_popped {
                (self.queue.count_pushed - self.count_popped) as u32
            } else {
                0u32
            }),
    {
        if self.queue.id == self.id && self.queue.count_pushed > self.count_popped {
            self.queue.count_pushed - self.count_popped
        } else {
            0
        }
    }

    /// Every record known to be in the part being read has been consumed.
    pub fn at_part_end(&self) -> (r: bool)
        ensures
            r == (self.count_popped >= self.queue.count_pushed),
    {
        self.count_popped >= self.queue.count_pushed
    }

    /// The writer has moved on past the part being read.
    pub fn has_next_part(&self) -> (r: bool)
        ensures
            r == (self.queue.id > self.id),
    {
        self.queue.id > self.id
    }

    /// One step of the part advance: `probe` is what loading the info of
    /// part `id + 1` gave. A missing part is passed over while later ones
    /// exist; any other error stops the advance (`Some(false)`); a loaded
    /// part, or the last one, becomes the part read from its start
    /// (`Some(true)`). `None` asks for the next probe.
    pub fn on_probe(&mut self, probe: Result<PartInfo, ErrorQueue>) -> (r: Option<bool>)
        requires
            old(self).id < old(self).queue.id,
        ensures
            final(self).id == old(self).id + 1,
            final(self).name == old(self).name,
            final(self).mode == old(self).mode,
            final(self).header == old(self).header,
            final(self).header_buf == old(self).header_buf,
            final(self).is_ready == old(self).is_ready,
            final(self).queue.id == old(self).queue.id,
            final(self).queue.name == old(self).queue.name,
            final(self).queue.mode == old(self).queue.mode,
            final(self).queue.is_ready == old(self).queue.is_ready,
            match probe {
                Ok(p) => r == Some(true) && final(self).count_popped == 0 && final(self).pos_record == 0
                    && final(self).queue.count_pushed == p.count_pushed && final(self).queue.right_edge
                    == p.right_edge,
                Err(ErrorQueue::NotFound) => if old(self).id + 1 < old(self).queue.id {
                    r is None && final(self).count_popped == old(self).count_popped && final(self).pos_record
                        == old(self).pos_record && final(self).queue == old(self).queue
                } else {
                    r == Some(true) && final(self).count_popped == 0 && final(self).pos_record == 0
                        && final(self).queue == old(self).queue
                },
                Err(_) => r == Some(false) && final(self).count_popped == old(self).count_popped
                    && final(self).pos_record == old(self).pos_record && final(self).queue == old(self).queue,
            },
    {
        self.id = self.id + 1;
        match probe {
            Ok(p) => {
                self.queue.apply_part_info(p);
                self.count_popped = 0;
                self.pos_record = 0;
                Some(true)
            },
            Err(ErrorQueue::NotFound) => {
                if self.id < self.queue.id {
                    None
                } else {
                    self.count_popped = 0;
                    self.pos_record = 0;
                    Some(true)
                }
            },
            Err(_) => Some(false),
        }
    }

    /// Judge the header bytes read at the cursor. On success the header is
    /// kept for the body that follows. `InvalidHeader` calls for the marker
    /// scan; `NotReadHeader` and `NeedResync` for a retry after the queue
    /// info was read again.
    pub fn on_header(&mut self, buf: &[u8]) -> (r: Result<(), ErrorQueue>)
        requires
            old(self).wf(),
        ensures
            final(self).wf(),
            r == header_verdict(old(self).queue, buf@),
            r is Ok ==> final(self).header == header_of(buf@) && final(self).header_buf@ == buf@.subrange(
                0,
                HEADER_SIZE as int,
            ),
            r is Err ==> final(self).header == old(self).header && final(self).header_buf == old(self).header_buf,
            final(self).cursor_spec() == old(self).cursor_spec(),
            final(self).is_ready == old(self).is_ready,
            final(self).name == old(self).name,
            final(self).mode == old(self).mode,
            final(self).queue == old(self).queue,
            final(self).scanned == old(self).scanned,
    {
        if buf.len() < HEADER_SIZE {
            return Err(ErrorQueue::NotReadHeader);
        }
        let h = Header::create_from_buf(buf);
        if h.magic_marker != MAGIC_MARKER {
            return Err(ErrorQueue::InvalidHeader);
        }
        if h.count_pushed > self.queue.count_pushed {
            return Err(ErrorQueue::NeedResync);
        }
        if h.start_pos >= self.queue.right_edge {
            return Err(ErrorQueue::InvalidHeader);
        }
        let mut hb: Vec<u8> = Vec::new();
        let mut i: usize = 0;
        while i < HEADER_SIZE
            invariant
                0 <= i <= HEADER_SIZE,
                buf@.len() >= HEADER_SIZE,
                hb@ == buf@.subrange(0, i as int),
            decreases HEADER_SIZE - i,
        {
            hb.push(buf[i]);
            i = i + 1;
            assert(hb@ =~= buf@.subrange(0, i as int));
        }
        self.header = h;
        self.header_buf = hb;
        Ok(())
    }

    /// Where the recovery scan starts: just past the header at the cursor.
    pub fn scan_from(&self) -> (r: Option<u64>)
        ensures
            r == (if self.pos_record + HEADER_SIZE <= u64::MAX {
                Some((self.pos_record + HEADER_SIZE) as u64)
            } else {
                None::<u64>
            }),
    {
        if self.pos_record <= u64::MAX - HEADER_SIZE as u64 {
            Some(self.pos_record + HEADER_SIZE as u64)
        } else {
            None
        }
    }

    /// Recover from a broken header: `buf` holds the bytes read from
    /// `scan_from()` on. At the first place the marker's leading bytes occur,
    /// the cursor moves to the start of the header they belong to, the broken
    /// record counts as consumed and the handle is ready again. Where they do
    /// not occur, nothing changes.
    pub fn seek_next_pos(&mut self, buf: &[u8]) -> (r: bool)
        ensures
            r ==> {
                let k = final(self).pos_record + MARKER_OFFSET - (old(self).pos_record + HEADER_SIZE);
                &&& marker_at(buf@, k)
                &&& forall|j: int| 0 <= j < k ==> !marker_at(buf@, j)
                &&& final(self).count_popped == old(self).count_popped + 1
                &&& final(self).is_ready
                &&& final(self).id == old(self).id
                &&& final(self).pos_record > old(self).pos_record
            },
            !r ==> *final(self) == *old(self),
            !r && old(self).count_popped < u32::MAX && old(self).pos_record + HEADER_SIZE + buf@.len() <= u64::MAX
                ==> forall|j: int| 0 <= j < buf@.len() ==> !marker_at(buf@, j),
            final(self).same_but_position(old(self)),
    {
        if self.count_popped == u32::MAX || self.pos_record > u64::MAX - HEADER_SIZE as u64 {
            return false;
        }
        let from = self.pos_record + HEADER_SIZE as u64;
        if buf.len() as u64 > u64::MAX - from {
            return false;
        }
        let mut i: usize = 0;
        while buf.len() >= 3 && i < buf.len() - 2
            invariant
                forall|j: int| 0 <= j < i ==> !marker_at(buf@, j),
                i <= buf@.len(),
                *self == *old(self),
                from == old(self).pos_record + HEADER_SIZE,
                from + buf@.len() <= u64::MAX,
                old(self).count_popped < u32::MAX,
            decreases buf@.len() - i,
        {
            if buf[i] == MARKER_B0 && buf[i + 1] == MARKER_B1 && buf[i + 2] == MARKER_B2 {
                self.pos_record = from + i as u64 - MARKER_OFFSET as u64;
                self.count_popped = self.count_popped + 1;
                self.is_ready = true;
                return true;
            }
            i = i + 1;
        }
        false
    }

    /// Judge the body read after a valid header: `body` is what was read for
    /// a buffer of `requested` bytes. A short read, or a CRC mismatch, while
    /// the consumer stands at the known tail is transient
    /// (`FailReadTailMessage`); elsewhere a short read is `FailRead` and a
    /// mismatch is `InvalidChecksum`, which leaves the handle not ready. On
    /// success the cursor moves past the record.
    pub fn pop_body(&mut self, body: &[u8], requested: usize) -> (r: Result<usize, ErrorQueue>)
        requires
            old(self).wf(),
        ensures
            final(self).wf(),
            final(self).same_but_position(old(self)),
            final(self).id == old(self).id,
            final(self).count_popped == old(self).count_popped,
            !old(self).is_ready ==> r == Err::<usize, ErrorQueue>(ErrorQueue::NotReady),
            old(self).is_ready && body@.len() != requested ==> r == Err::<usize, ErrorQueue>(
                if old(self).count_popped == old(self).queue.count_pushed {
                    ErrorQueue::FailReadTailMessage
                } else {
                    ErrorQueue::FailRead
                },
            ),
            old(self).is_ready && body@.len() == requested && (old(self).pos_record + HEADER_SIZE + requested
                > u64::MAX || HEADER_SIZE + requested > usize::MAX) ==> r == Err::<usize, ErrorQueue>(ErrorQueue::FailRead),
            old(self).is_ready && body@.len() == requested && old(self).pos_record + HEADER_SIZE + requested
                <= u64::MAX && HEADER_SIZE + requested <= usize::MAX ==> if record_intact(old(self).header_buf@, body@) {
                r == Ok::<usize, ErrorQueue>(requested) && final(self).pos_record == old(self).pos_record
                    + HEADER_SIZE + requested && final(self).is_ready
            } else if old(self).count_popped == old(self).queue.count_pushed {
                r == Err::<usize, ErrorQueue>(ErrorQueue::FailReadTailMessage)
            } else {
                r == Err::<usize, ErrorQueue>(ErrorQueue::InvalidChecksum) && !final(self).is_ready
            },
            r is Err ==> final(self).pos_record == old(self).pos_record,
            r is Err && r != Err::<usize, ErrorQueue>(ErrorQueue::InvalidChecksum) ==> final(self).is_ready
                == old(self).is_ready,
    {
        if !self.is_ready {
            return Err(ErrorQueue::NotReady);
        }
        let tail = self.count_popped == self.queue.count_pushed;
        if body.len() != requested {
            return Err(
                if tail {
                    ErrorQueue::FailReadTailMessage
                } else {
                    ErrorQueue::FailRead
                },
            );
        }
        if self.pos_record > u64::MAX - HEADER_SIZE as u64 || requested as u64 > u64::MAX - HEADER_SIZE as u64
            - self.pos_record || requested > usize::MAX - HEADER_SIZE {
            return Err(ErrorQueue::FailRead);
        }
        if !check_record(self.header_buf.as_slice(), body) {
            if tail {
                return Err(ErrorQueue::FailReadTailMessage);
            }
            self.is_ready = false;
            return Err(ErrorQueue::InvalidChecksum);
        }
        self.pos_record = self.pos_record + HEADER_SIZE as u64 + requested as u64;
        Ok(requested)
    }

    /// Start popping a header: read it at the cursor.
    pub fn begin_pop(&mut self) -> (r: ReadAction)
        ensures
            r == ReadAction::ReadHeader(old(self).pos_record),
            !final(self).scanned,
            final(self).cursor_spec() == old(self).cursor_spec(),
            final(self).is_ready == old(self).is_ready,
            final(self).header == old(self).header,
            final(self).header_buf == old(self).header_buf,
            final(self).queue == old(self).queue,
            final(self).name == old(self).name,
            final(self).mode == old(self).mode,
    {
        self.scanned = false;
        ReadAction::ReadHeader(self.pos_record)
    }

    /// The header bytes read at the cursor: a valid header ends the pop with
    /// success; a structurally broken one calls for the marker scan once per
    /// pop; anything else ends the pop without a header.
    pub fn on_header_bytes(&mut self, buf: &[u8]) -> (r: ReadAction)
        requires
            old(self).wf(),
        ensures
            final(self).wf(),
            final(self).cursor_spec() == old(self).cursor_spec(),
            final(self).is_ready == old(self).is_ready,
            final(self).queue == old(self).queue,
            final(self).scanned == old(self).scanned,
            header_verdict(old(self).queue, buf@) is Ok ==> r == ReadAction::Done(true) && final(self).header
                == header_of(buf@),
            header_verdict(old(self).queue, buf@) == Err::<(), ErrorQueue>(ErrorQueue::InvalidHeader)
                && !old(self).scanned && old(self).pos_record + HEADER_SIZE <= u64::MAX ==> r == ReadAction::Scan(
                (old(self).pos_record + HEADER_SIZE) as u64,
            ),
            header_verdict(old(self).queue, buf@) is Err && !(header_verdict(old(self).queue, buf@) == Err::<
                (),
                ErrorQueue,
            >(ErrorQueue::InvalidHeader) && !old(self).scanned && old(self).pos_record + HEADER_SIZE <= u64::MAX)
                ==> r == ReadAction::Done(false),
    {
        match self.on_header(buf) {
            Ok(()) => ReadAction::Done(true),
            Err(ErrorQueue::InvalidHeader) => {
                if self.scanned {
                    return ReadAction::Done(false);
                }
                match self.scan_from() {
                    Some(from) => ReadAction::Scan(from),
                    None => ReadAction::Done(false),
                }
            },
            Err(_) => ReadAction::Done(false),
        }
    }

    /// The bytes read for the marker scan: where a marker is found the
    /// header is read again at the recovered cursor, else the pop ends.
    pub fn on_scan_bytes(&mut self, buf: &[u8]) -> (r: ReadAction)
        ensures
            final(self).scanned,
            final(self).queue == old(self).queue,
            final(self).header == old(self).header,
            final(self).header_buf == old(self).header_buf,
            final(self).name == old(self).name,
            final(self).id == old(self).id,
            r != ReadAction::Done(false) ==> r == ReadAction::ReadHeader(final(self).pos_record)
                && final(self).count_popped == old(self).count_popped + 1 && final(self).is_ready && {
                let k = final(self).pos_record + MARKER_OFFSET - (old(self).pos_record + HEADER_SIZE);
                &&& marker_at(buf@, k)
                &&& forall|j: int| 0 <= j < k ==> !marker_at(buf@, j)
            },
            r == ReadAction::Done(false) ==> final(self).cursor_spec() == old(self).cursor_spec()
                && final(self).is_ready == old(self).is_ready,
            r == ReadAction::Done(false) && old(self).count_popped < u32::MAX && old(self).pos_record + HEADER_SIZE
                + buf@.len() <= u64::MAX ==> forall|j: int| 0 <= j < buf@.len() ==> !marker_at(buf@, j),
    {
        let found = self.seek_next_pos(buf);
        self.scanned = true;
        if found {
            ReadAction::ReadHeader(self.pos_record)
        } else {
            ReadAction::Done(false)
        }
    }

    /// Start a part advance: only a consumer that has read every record
    /// known in its part checks that part's info again.
    pub fn begin_advance(&self) -> (r: AdvanceAction)
        ensures
            r == (if self.count_popped >= self.queue.count_pushed {
                AdvanceAction::LoadPartInfo(self.id)
            } else {
                AdvanceAction::Done(false)
            }),
    {
        if self.at_part_end() {
            AdvanceAction::LoadPartInfo(self.id)
        } else {
            AdvanceAction::Done(false)
        }
    }

    /// Where the writer has moved on, probe the part after this one.
    fn probe_or(&self, otherwise: AdvanceAction) -> (r: AdvanceAction)
        ensures
            r == (if self.queue.id > self.id {
                AdvanceAction::Probe((self.id + 1) as u32)
            } else {
                otherwise
            }),
    {
        if self.has_next_part() {
            AdvanceAction::Probe(self.id + 1)
        } else {
            otherwise
        }
    }

    /// The info of the part being read: new records in it end the advance;
    /// at its end the next part is probed, or the queue info read again
    /// where the writer seems to be still on this part.
    pub fn on_part_info(&mut self, info: Result<PartInfo, ErrorQueue>) -> (r: AdvanceAction)
        ensures
            final(self).cursor_spec() == old(self).cursor_spec(),
            final(self).is_ready == old(self).is_ready,
            final(self).queue.id == old(self).queue.id,
            final(self).queue.name == old(self).queue.name,
            match info {
                Err(_) => r == AdvanceAction::Done(false) && final(self).queue == old(self).queue,
                Ok(p) => final(self).queue.count_pushed == p.count_pushed && final(self).queue.right_edge
                    == p.right_edge && r == (if old(self).count_popped < p.count_pushed {
                    AdvanceAction::Done(false)
                } else if old(self).queue.id > old(self).id {
                    AdvanceAction::Probe((old(self).id + 1) as u32)
                } else {
                    AdvanceAction::RefreshQueue
                }),
            },
    {
        match info {
            Err(_) => AdvanceAction::Done(false),
            Ok(p) => {
                self.queue.apply_part_info(p);
                if !self.at_part_end() {
                    return AdvanceAction::Done(false);
                }
                self.probe_or(AdvanceAction::RefreshQueue)
            },
        }
    }

    /// The queue info read again: probe the next part where the writer has
    /// moved on.
    pub fn on_queue_info(&mut self, info: Result<PartInfo, ErrorQueue>) -> (r: AdvanceAction)
        ensures
            final(self).cursor_spec() == old(self).cursor_spec(),
            final(self).is_ready == old(self).is_ready,
            final(self).queue.name == old(self).queue.name,
            match info {
                Err(_) => final(self).queue == old(self).queue,
                Ok(p) => final(self).queue.id == p.id && final(self).queue.count_pushed == p.count_pushed
                    && final(self).queue.right_edge == p.right_edge,
            },
            r == (if final(self).queue.id > old(self).id {
                AdvanceAction::Probe((old(self).id + 1) as u32)
            } else {
                AdvanceAction::Done(false)
            }),
    {
        if let Ok(p) = info {
            self.queue.apply_queue_info(p);
        }
        self.probe_or(AdvanceAction::Done(false))
    }

    /// The result of a probe of part `id + 1` (see `on_probe`).
    pub fn on_probe_step(&mut self, probe: Result<PartInfo, ErrorQueue>) -> (r: AdvanceAction)
        requires
            old(self).id < old(self).queue.id,
        ensures
            final(self).id == old(self).id + 1,
            final(self).is_ready == old(self).is_ready,
            r == AdvanceAction::Persist ==> final(self).count_popped == 0 && final(self).pos_record == 0,
            match probe {
                Ok(_) => r == AdvanceAction::Persist,
                Err(ErrorQueue::NotFound) => if old(self).id + 1 < old(self).queue.id {
                    r == AdvanceAction::Probe((old(self).id + 2) as u32) && final(self).cursor_spec().pos_record
                        == old(self).pos_record
                } else {
                    r == AdvanceAction::Persist
                },
                Err(_) => r == AdvanceAction::Done(false) && final(self).pos_record == old(self).pos_record
                    && final(self).count_popped == old(self).count_popped,
            },
    {
        match self.on_probe(probe) {
            None => AdvanceAction::Probe(self.id + 1),
            Some(false) => AdvanceAction::Done(false),
            Some(true) => AdvanceAction::Persist,
        }
    }

    /// Count the record just read as consumed; refused (`false`, nothing
    /// changed) on a handle that is not ready or whose count is at its limit.
    pub fn next(&mut self) -> (r: bool)
        ensures
            r == (old(self).is_ready && old(self).count_popped < u32::MAX),
            r ==> final(self).count_popped == old(self).count_popped + 1,
            !r ==> final(self).count_popped == old(self).count_popped,
            final(self).pos_record == old(self).pos_record,
            final(self).id == old(self).id,
            final(self).is_ready == old(self).is_ready,
            final(self).same_but_position(old(self)),
    {
        if !self.is_ready || self.count_popped == u32::MAX {
            return false;
        }
        self.count_popped = self.count_popped + 1;
        true
    }
}

} // verus!
