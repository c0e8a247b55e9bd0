use bluepill_firmware::action::Action;
use bluepill_firmware::frame::{
    burst_start, line_reply, BurstCollector, LineCollector, ReadEvent, BURST_END, FRAME_CAPACITY, LINE_END,
};

fn feed_line(c: &mut LineCollector, bytes: &[u8]) -> Vec<Vec<u8>> {
    let mut out = Vec::new();
    for &b in bytes {
        if let Some(line) = c.on_read(ReadEvent::Byte(b)) {
            out.push(line);
        }
    }
    out
}

#[test]
fn line_closes_on_end_byte() {
    let mut c = LineCollector::new();
    let lines = feed_line(&mut c, b"hello sworld");
    // "hello s" closes at the first 's' that is not the line's first byte
    assert_eq!(lines, vec![b"hello s".to_vec()]);
}

#[test]
fn line_first_byte_never_closes() {
    let mut c = LineCollector::new();
    assert_eq!(c.on_read(ReadEvent::Byte(LINE_END)), None);
    assert_eq!(c.on_read(ReadEvent::Byte(b'a')), None);
    assert_eq!(c.on_read(ReadEvent::Byte(LINE_END)), Some(b"sas".to_vec()));
}

#[test]
fn line_failed_read_before_first_byte_is_ignored() {
    let mut c = LineCollector::new();
    assert_eq!(c.on_read(ReadEvent::Failed), None);
    assert_eq!(c.on_read(ReadEvent::Failed), None);
    assert_eq!(c.on_read(ReadEvent::Byte(b'x')), None);
    assert_eq!(c.on_read(ReadEvent::Failed), Some(b"x".to_vec()));
    assert_eq!(c.on_read(ReadEvent::Failed), None);
}

#[test]
fn line_full_buffer_closes() {
    let mut c = LineCollector::new();
    let data: Vec<u8> = (0..FRAME_CAPACITY).map(|i| b'a' + (i % 10) as u8).collect();
    let mut got = None;
    for (i, &b) in data.iter().enumerate() {
        let r = c.on_read(ReadEvent::Byte(b));
        if i + 1 < FRAME_CAPACITY {
            assert_eq!(r, None);
        } else {
            got = r;
        }
    }
    assert_eq!(got, Some(data));
}

#[test]
fn line_run_conserves_every_byte() {
    let mut c = LineCollector::new();
    let input = b"sabcsXYZsssq12345678901234567890123456789012345678901234567890123456789012345";
    let lines = feed_line(&mut c, input);
    let mut joined: Vec<u8> = lines.concat();
    // close what is left with a failed read
    if let Some(rest) = c.on_read(ReadEvent::Failed) {
        joined.extend(rest);
    }
    assert_eq!(joined, input.to_vec());
    for l in &lines {
        assert!(!l.is_empty() && l.len() <= FRAME_CAPACITY);
        for &b in &l[1..l.len() - 1] {
            assert_ne!(b, LINE_END);
        }
    }
}

#[test]
fn line_reply_sequence() {
    assert_eq!(
        line_reply(),
        vec![
            Action::SendGreeting,
            Action::SendFrame,
            Action::DriveLed(true),
            Action::DelayMs(300),
            Action::DriveLed(false),
        ]
    );
}

#[test]
fn burst_closes_on_newline_and_pads() {
    let mut c = BurstCollector::new();
    assert_eq!(c.on_read(ReadEvent::Byte(b'o')), None);
    assert_eq!(c.on_read(ReadEvent::Byte(b'k')), None);
    let block = c.on_read(ReadEvent::Byte(BURST_END)).unwrap();
    assert_eq!(block.len(), FRAME_CAPACITY);
    assert_eq!(&block[..3], b"ok\n");
    assert!(block[3..].iter().all(|&b| b == 0));
}

#[test]
fn burst_first_newline_closes() {
    let mut c = BurstCollector::new();
    let block = c.on_read(ReadEvent::Byte(b'\n')).unwrap();
    assert_eq!(block[0], b'\n');
    assert!(block[1..].iter().all(|&b| b == 0));
}

#[test]
fn burst_failed_read_sends_zeros() {
    let mut c = BurstCollector::new();
    let block = c.on_read(ReadEvent::Failed).unwrap();
    assert_eq!(block, vec![0u8; FRAME_CAPACITY]);
}

#[test]
fn burst_full_buffer_closes() {
    let mut c = BurstCollector::new();
    for i in 0..FRAME_CAPACITY - 1 {
        assert_eq!(c.on_read(ReadEvent::Byte(b'a' + (i % 20) as u8)), None);
    }
    let block = c.on_read(ReadEvent::Byte(b'z')).unwrap();
    assert_eq!(block.len(), FRAME_CAPACITY);
    assert_eq!(block[FRAME_CAPACITY - 1], b'z');
    assert_eq!(block[0], b'a');
}

#[test]
fn burst_interrupt_toggles_first() {
    assert_eq!(burst_start(), vec![Action::ToggleLed]);
}
