use v_queue::consumer::{AdvanceAction, Consumer, ReadAction, SCAN_SIZE};
use v_queue::info::{format_cursor, format_info, parse_cursor, parse_info, Cursor, PartInfo};
use v_queue::queue::{Queue, MAX_PART_COUNT};
use v_queue::record::{
    check_record, encode_record, zeroed_header, ErrorQueue, Header, Mode, MsgType, HEADER_SIZE, MAGIC_MARKER,
};
use v_queue::names::{cursor_file, lock_file, part_data_file, part_info_file, queue_info_file};
use v_queue::text::{parse_decimal, push_decimal};

/// The files of one queue, kept in memory.
struct Disk {
    name: Vec<u8>,
    parts: Vec<Vec<u8>>,
    part_infos: Vec<Vec<u8>>,
    queue_info: Vec<u8>,
    cursors: Vec<(Vec<u8>, Vec<u8>)>,
}

fn first_line(s: &[u8]) -> &[u8] {
    match s.iter().position(|b| *b == b'\n') {
        Some(i) => &s[..i],
        None => s,
    }
}

impl Disk {
    fn new(name: &str) -> Disk {
        let mut d = Disk {
            name: name.as_bytes().to_vec(),
            parts: vec![Vec::new()],
            part_infos: Vec::new(),
            queue_info: Vec::new(),
            cursors: Vec::new(),
        };
        let empty = PartInfo { id: 0, count_pushed: 0, right_edge: 0 };
        d.part_infos.push(format_info(&d.name, empty));
        d.queue_info = format_info(&d.name, empty);
        d
    }

    fn push(&mut self, q: &mut Queue, payload: &[u8]) -> Result<(), ErrorQueue> {
        let o = q.push(payload, MsgType::String)?;
        let part = o.part_id as usize;
        self.parts[part].extend_from_slice(&o.record);
        self.part_infos[part] = format_info(&self.name, o.part_info);
        if o.rotated {
            self.parts.push(Vec::new());
            self.part_infos.push(format_info(&self.name, q.info()));
        }
        self.queue_info = format_info(&self.name, q.info());
        Ok(())
    }

    fn part_info(&self, id: u32) -> Result<PartInfo, ErrorQueue> {
        match self.part_infos.get(id as usize) {
            Some(l) => parse_info(first_line(l), &self.name),
            None => Err(ErrorQueue::NotFound),
        }
    }

    fn cursor_line(&self, consumer: &[u8]) -> Option<Vec<u8>> {
        self.cursors.iter().find(|(n, _)| n == consumer).map(|(_, l)| first_line(l).to_vec())
    }

    fn save_cursor(&mut self, c: &Consumer) {
        let bytes = c.cursor_bytes();
        match self.cursors.iter_mut().find(|(n, _)| *n == c.name) {
            Some(e) => e.1 = bytes,
            None => self.cursors.push((c.name.clone(), bytes)),
        }
    }

    fn open_consumer(&self, consumer: &str) -> Consumer {
        let line = self.cursor_line(consumer.as_bytes());
        let mut c = Consumer::new(&self.name, consumer.as_bytes(), Mode::ReadWrite, line.as_deref()).unwrap();
        self.refresh(&mut c);
        if (c.id as usize) >= self.parts.len() {
            c.adopt_current_part();
        }
        c
    }

    fn refresh(&self, c: &mut Consumer) {
        if let Ok(p) = parse_info(first_line(&self.queue_info), &self.name) {
            c.queue.apply_queue_info(p);
        }
        if c.id != c.queue.id {
            if let Ok(p) = self.part_info(c.id) {
                c.queue.apply_part_info(p);
            }
        }
    }

    fn go_to_next_part(&mut self, c: &mut Consumer) -> bool {
        let mut act = c.begin_advance();
        loop {
            act = match act {
                AdvanceAction::LoadPartInfo(id) => c.on_part_info(self.part_info(id)),
                AdvanceAction::RefreshQueue => c.on_queue_info(parse_info(first_line(&self.queue_info), &self.name)),
                AdvanceAction::Probe(id) => c.on_probe_step(self.part_info(id)),
                AdvanceAction::Persist => {
                    self.save_cursor(c);
                    return true;
                },
                AdvanceAction::Done(b) => return b,
            };
        }
    }

    fn read_at(&self, id: u32, pos: u64, n: usize) -> &[u8] {
        let data = &self.parts[id as usize];
        let start = (pos as usize).min(data.len());
        let end = (start + n).min(data.len());
        &data[start..end]
    }

    fn pop_header(&mut self, c: &mut Consumer) -> bool {
        self.go_to_next_part(c);
        let mut act = c.begin_pop();
        loop {
            act = match act {
                ReadAction::ReadHeader(pos) => {
                    let buf = self.read_at(c.id, pos, HEADER_SIZE).to_vec();
                    c.on_header_bytes(&buf)
                },
                ReadAction::Scan(from) => {
                    let window = self.read_at(c.id, from, SCAN_SIZE).to_vec();
                    c.on_scan_bytes(&window)
                },
                ReadAction::Done(b) => return b,
            };
        }
    }

    fn pop_body(&mut self, c: &mut Consumer) -> Result<Vec<u8>, ErrorQueue> {
        let len = c.header.msg_length as usize;
        let body = self.read_at(c.id, c.pos_record + HEADER_SIZE as u64, len).to_vec();
        c.pop_body(&body, len)?;
        Ok(body)
    }

    fn commit_and_next(&mut self, c: &mut Consumer) -> bool {
        let r = c.next();
        self.save_cursor(c);
        r
    }

    fn read_all(&mut self, c: &mut Consumer) -> Vec<String> {
        let mut out = Vec::new();
        while self.pop_header(c) {
            match self.pop_body(c) {
                Ok(body) => {
                    out.push(String::from_utf8(body).unwrap());
                    self.commit_and_next(c);
                },
                Err(_) => break,
            }
        }
        out
    }
}

fn numbers(v: &[String]) -> Vec<i32> {
    v.iter().map(|s| s.parse::<i32>().unwrap()).collect()
}

fn check_message_integrity(received_numbers: &[i32]) {
    for i in 1..received_numbers.len() {
        assert_eq!(received_numbers[i], received_numbers[i - 1] + 1);
    }
}

#[test]
fn test_read_only_mode() {
    let mut disk = Disk::new("test_queue");
    let mut queue = Queue::new(b"test_queue", Mode::ReadWrite);
    let num_messages = 5;
    for i in 0..num_messages {
        let msg = format!("Message {}", i);
        disk.push(&mut queue, msg.as_bytes()).unwrap();
    }

    let mut queue = Queue::new(b"test_queue", Mode::Read);
    let before = disk.parts.clone();
    let result = disk.push(&mut queue, "Hello, world!".as_bytes());
    assert!(result.is_err());
    assert_eq!(result.unwrap_err(), ErrorQueue::NotReady);
    assert_eq!(disk.parts, before);

    let mut consumer = disk.open_consumer("consumer");
    let received_messages = disk.read_all(&mut consumer);
    assert_eq!(received_messages.len(), num_messages as usize);
    for (i, msg) in received_messages.iter().enumerate() {
        assert_eq!(msg, &format!("Message {}", i));
    }
}

#[test]
fn test_queue_consumer_interaction() {
    let mut disk = Disk::new("test_queue");
    let mut queue = Queue::new(b"test_queue", Mode::ReadWrite);
    let num_messages = 10;
    for i in 0..num_messages {
        disk.push(&mut queue, format!("{}", i).as_bytes()).unwrap();
    }

    let mut consumers: Vec<Consumer> = (0..3).map(|i| disk.open_consumer(&format!("consumer_{}", i))).collect();
    for consumer in consumers.iter_mut() {
        let received = numbers(&disk.read_all(consumer));
        assert_eq!(received, (0..10).collect::<Vec<i32>>());
        check_message_integrity(&received);
    }

    for i in num_messages..num_messages + 5 {
        disk.push(&mut queue, format!("{}", i).as_bytes()).unwrap();
    }
    for consumer in consumers.iter_mut() {
        let received = numbers(&disk.read_all(consumer));
        assert_eq!(received, (10..15).collect::<Vec<i32>>());
        check_message_integrity(&received);
    }
}

#[test]
fn test_consumer_reconnect() {
    let mut disk = Disk::new("test_queue");
    let mut queue = Queue::new(b"test_queue", Mode::ReadWrite);
    for i in 0..10 {
        disk.push(&mut queue, format!("{}", i).as_bytes()).unwrap();
    }

    let mut consumer = disk.open_consumer("consumer");
    for _ in 0..5 {
        assert!(disk.pop_header(&mut consumer));
        disk.pop_body(&mut consumer).unwrap();
        assert!(disk.commit_and_next(&mut consumer));
    }
    drop(consumer);

    let mut consumer = disk.open_consumer("consumer");
    let received = numbers(&disk.read_all(&mut consumer));
    assert_eq!(received, vec![5, 6, 7, 8, 9]);
    check_message_integrity(&received);
}

#[test]
fn test_queue_empty() {
    let mut disk = Disk::new("test_queue");
    let _queue = Queue::new(b"test_queue", Mode::ReadWrite);
    let mut consumer = disk.open_consumer("consumer");
    assert!(!disk.pop_header(&mut consumer));
    assert_eq!(consumer.pending(), 0);
}

#[test]
fn test_multiple_queues() {
    let mut disk_1 = Disk::new("test_queue_1");
    let mut disk_2 = Disk::new("test_queue_2");
    let mut queue_1 = Queue::new(b"test_queue_1", Mode::ReadWrite);
    let mut queue_2 = Queue::new(b"test_queue_2", Mode::ReadWrite);
    for i in 0..5 {
        let msg = format!("{}", i);
        disk_1.push(&mut queue_1, msg.as_bytes()).unwrap();
        disk_2.push(&mut queue_2, msg.as_bytes()).unwrap();
    }
    let mut consumer_1 = disk_1.open_consumer("consumer_1");
    let mut consumer_2 = disk_2.open_consumer("consumer_2");
    let r1 = numbers(&disk_1.read_all(&mut consumer_1));
    let r2 = numbers(&disk_2.read_all(&mut consumer_2));
    assert_eq!(r1, vec![0, 1, 2, 3, 4]);
    assert_eq!(r2, vec![0, 1, 2, 3, 4]);
    check_message_integrity(&r1);
    check_message_integrity(&r2);
}

#[test]
fn corrupted_marker_is_skipped() {
    let mut disk = Disk::new("test_queue");
    let mut queue = Queue::new(b"test_queue", Mode::ReadWrite);
    for i in 1..=10 {
        disk.push(&mut queue, format!("{}", i).as_bytes()).unwrap();
    }
    // records "1".."9" take 30 bytes each, "10" takes 31: the fifth starts at 120
    let marker = 120 + 12;
    disk.parts[0][marker] = 0;
    let mut consumer = disk.open_consumer("consumer");
    let received = numbers(&disk.read_all(&mut consumer));
    assert_eq!(received, vec![1, 2, 3, 4, 6, 7, 8, 9, 10]);
    assert_eq!(consumer.count_popped, 10);
}

#[test]
fn zeroed_header_is_skipped() {
    let mut disk = Disk::new("test_queue");
    let mut queue = Queue::new(b"test_queue", Mode::ReadWrite);
    for i in 1..=10 {
        disk.push(&mut queue, format!("{}", i).as_bytes()).unwrap();
    }
    for b in &mut disk.parts[0][60..60 + HEADER_SIZE] {
        *b = 0;
    }
    let mut consumer = disk.open_consumer("consumer");
    let received = numbers(&disk.read_all(&mut consumer));
    assert_eq!(received, vec![1, 2, 4, 5, 6, 7, 8, 9, 10]);
    assert_eq!(consumer.count_popped, 10);
}

#[test]
fn flipped_payload_byte_fails_checksum() {
    let mut disk = Disk::new("test_queue");
    let mut queue = Queue::new(b"test_queue", Mode::ReadWrite);
    for i in 0..3 {
        disk.push(&mut queue, format!("{}", i).as_bytes()).unwrap();
    }
    disk.parts[0][HEADER_SIZE] ^= 0x01;
    let mut consumer = disk.open_consumer("consumer");
    assert!(disk.pop_header(&mut consumer));
    assert_eq!(disk.pop_body(&mut consumer), Err(ErrorQueue::InvalidChecksum));
    assert!(!consumer.is_ready);
    assert_eq!(disk.pop_body(&mut consumer), Err(ErrorQueue::NotReady));
}

#[test]
fn short_body_at_tail_is_transient() {
    let mut disk = Disk::new("test_queue");
    let mut queue = Queue::new(b"test_queue", Mode::ReadWrite);
    disk.push(&mut queue, b"hello").unwrap();
    let mut consumer = disk.open_consumer("consumer");
    assert!(disk.pop_header(&mut consumer));
    consumer.count_popped = consumer.queue.count_pushed;
    assert_eq!(consumer.pop_body(b"hel", 5), Err(ErrorQueue::FailReadTailMessage));
    assert!(consumer.is_ready);
    consumer.count_popped = 0;
    assert_eq!(consumer.pop_body(b"hel", 5), Err(ErrorQueue::FailRead));
    assert_eq!(consumer.pop_body(b"hello", 5), Ok(5));
    assert_eq!(consumer.pos_record, (HEADER_SIZE + 5) as u64);
}

#[test]
fn pending_counts_unread_records() {
    let mut disk = Disk::new("test_queue");
    let mut queue = Queue::new(b"test_queue", Mode::ReadWrite);
    for i in 0..4 {
        disk.push(&mut queue, format!("{}", i).as_bytes()).unwrap();
    }
    let mut consumer = disk.open_consumer("consumer");
    assert_eq!(consumer.pending(), 4);
    assert!(disk.pop_header(&mut consumer));
    disk.pop_body(&mut consumer).unwrap();
    disk.commit_and_next(&mut consumer);
    assert_eq!(consumer.pending(), 3);
}

#[test]
fn push_rotates_at_count_ceiling() {
    let mut queue = Queue::new(b"q", Mode::ReadWrite);
    queue.count_pushed = MAX_PART_COUNT - 2;
    queue.right_edge = 1000;
    let o = queue.push(b"a", MsgType::Object).unwrap();
    assert!(!o.rotated);
    assert_eq!(o.part_id, 0);
    assert_eq!(queue.count_pushed, MAX_PART_COUNT - 1);
    assert_eq!(queue.right_edge, 1000 + HEADER_SIZE as u64 + 1);
    let o = queue.push(b"b", MsgType::Object).unwrap();
    assert!(o.rotated);
    assert_eq!(o.part_id, 0);
    assert_eq!(o.part_info, PartInfo { id: 0, count_pushed: MAX_PART_COUNT, right_edge: 1000 + 2 * (HEADER_SIZE as u64 + 1) });
    assert_eq!((queue.id, queue.count_pushed, queue.right_edge), (1, 0, 0));
    let h = Header::create_from_buf(&o.record);
    assert_eq!(h.count_pushed, MAX_PART_COUNT);
    assert_eq!(h.start_pos, 1000 + HEADER_SIZE as u64 + 1);
    assert_eq!(h.msg_type, MsgType::Object);
}

#[test]
fn consumer_crosses_part_boundary() {
    let mut c = Consumer::new(b"q", b"c", Mode::ReadWrite, None).unwrap();
    c.queue.apply_queue_info(PartInfo { id: 3, count_pushed: 2, right_edge: 60 });
    c.count_popped = 7;
    c.queue.count_pushed = 7;
    assert!(c.at_part_end());
    assert!(c.has_next_part());
    assert_eq!(c.on_probe(Err(ErrorQueue::NotFound)), None);
    assert_eq!(c.id, 1);
    assert_eq!(c.on_probe(Ok(PartInfo { id: 2, count_pushed: 5, right_edge: 150 })), Some(true));
    assert_eq!((c.id, c.count_popped, c.pos_record), (2, 0, 0));
    assert_eq!(c.queue.count_pushed, 5);
    assert_eq!(c.on_probe(Err(ErrorQueue::InvalidChecksum)), Some(false));
    assert_eq!(c.id, 3);
}

#[test]
fn record_round_trip_and_crc() {
    let rec = encode_record(MsgType::String, 77, 3, b"payload");
    assert_eq!(rec.len(), HEADER_SIZE + 7);
    let h = Header::create_from_buf(&rec);
    assert_eq!(h.start_pos, 77);
    assert_eq!(h.msg_length, 7);
    assert_eq!(h.magic_marker, MAGIC_MARKER);
    assert_eq!(h.count_pushed, 3);
    assert_eq!(h.msg_type, MsgType::String);
    assert_eq!(&rec[0..8], &77u64.to_le_bytes());
    assert_eq!(&rec[12..16], &[0xEE, 0xEF, 0xFE, 0xEE]);
    assert_eq!(rec[20], b'S');
    assert_eq!(&rec[25..29], &[0, 0, 0, 0]);
    let mut zeroed = rec.clone();
    zeroed[21..25].copy_from_slice(&[0, 0, 0, 0]);
    assert_eq!(h.crc, crc32fast::hash(&zeroed));
    assert_ne!(h.crc, 0);
    assert!(check_record(&rec[..HEADER_SIZE], b"payload"));
    assert!(!check_record(&rec[..HEADER_SIZE], b"payloaD"));
    assert_eq!(zeroed_header(&rec[..HEADER_SIZE]), zeroed[..HEADER_SIZE].to_vec());
}

#[test]
fn info_lines_round_trip() {
    let p = PartInfo { id: 4, count_pushed: 17, right_edge: 9000 };
    let line = format_info(b"q1", p);
    let body = b"q1;4;17;9000";
    let expected = format!("q1;4;17;9000;{}\n", crc32fast::hash(body));
    assert_eq!(line, expected.into_bytes());
    assert_eq!(parse_info(&line[..line.len() - 1], b"q1"), Ok(p));
    assert_eq!(parse_info(b"q1;4;17;9001;0", b"q1"), Err(ErrorQueue::InvalidChecksum));
    assert_eq!(parse_info(b"q1;4;17", b"q1"), Err(ErrorQueue::InvalidChecksum));
    let c = Cursor { pos_record: 123, count_popped: 4, id: 2 };
    let cl = format_cursor(b"q1", b"reader", c);
    assert_eq!(cl, b"q1;reader;123;4;2\n".to_vec());
    assert_eq!(parse_cursor(&cl[..cl.len() - 1], b"q1", b"reader"), Some(c));
    assert_eq!(parse_cursor(b"q1;reader;x;4;2", b"q1", b"reader"), None);
    assert_eq!(parse_cursor(b"q1;reader;1;4294967296;2", b"q1", b"reader"), None);
}

#[test]
fn decimal_text() {
    let mut out = Vec::new();
    push_decimal(&mut out, 0);
    push_decimal(&mut out, 18446744073709551615);
    assert_eq!(out, b"018446744073709551615".to_vec());
    assert_eq!(parse_decimal(b"18446744073709551615", u64::MAX), Some(u64::MAX));
    assert_eq!(parse_decimal(b"18446744073709551616", u64::MAX), None);
    assert_eq!(parse_decimal(b"", 10), None);
    assert_eq!(parse_decimal(b"11", 10), None);
    assert_eq!(parse_decimal(b"007", 10), Some(7));
}

#[test]
fn error_names() {
    assert_eq!(ErrorQueue::NotFound.as_str(), "Not found");
    assert_eq!(ErrorQueue::InvalidChecksum.as_str(), "Invalid checksum");
}

#[test]
fn bad_cursor_line_is_refused() {
    let line = format_cursor(b"other", b"consumer", Cursor { pos_record: 0, count_popped: 0, id: 0 });
    let r = Consumer::new(b"test_queue", b"consumer", Mode::ReadWrite, Some(&line[..line.len() - 1]));
    assert!(matches!(r, Err(ErrorQueue::NotReady)));
}

#[test]
fn file_names() {
    assert_eq!(part_data_file(b"q", 12), b"q_queue_12".to_vec());
    assert_eq!(part_info_file(b"q", 0), b"q_info_queue_0".to_vec());
    assert_eq!(queue_info_file(b"q"), b"q_info_queue".to_vec());
    assert_eq!(cursor_file(b"q", b"c1"), b"q_info_pop_c1".to_vec());
    assert_eq!(lock_file(b"q_info_pop_c1"), b"q_info_pop_c1.lock".to_vec());
}
