use vstd::prelude::*;
use crate::action::Action;

verus! {

/// Size of the serial reception buffer, in bytes.
pub const FRAME_CAPACITY: usize = 64;

/// The byte (`'s'`) that closes a line on the polled console.
pub const LINE_END: u8 = 0x73;

/// The byte (`'\n'`) that closes a burst read by the receive interrupt.
pub const BURST_END: u8 = 0x0a;

/// Outcome of one blocking read of the serial receiver.
#[derive(Clone, Copy, Debug, PartialEq, Eq, Structural)]
pub enum ReadEvent {
    Byte(u8),
    Failed,
}

/// The bytes that a read event adds to the received stream.
pub open spec fn received(ev: ReadEvent) -> Seq<u8> {
    match ev {
        ReadEvent::Byte(b) => seq![b],
        ReadEvent::Failed => Seq::empty(),
    }
}

/// The bytes that a step hands on: the completed frame, or nothing.
pub open spec fn emitted(out: Option<Seq<u8>>) -> Seq<u8> {
    match out {
        Some(f) => f,
        None => Seq::empty(),
    }
}

// ---------------------------------------------------------------------------
// Lines on the polled console.
// ---------------------------------------------------------------------------

/// A line still being received: shorter than the buffer, and holding the end
/// byte at most in its first position (a line's first byte never closes it).
pub open spec fn line_pending_ok(p: Seq<u8>) -> bool {
    &&& p.len() < FRAME_CAPACITY
    &&& forall|i: int| 1 <= i < p.len() ==> p[i] != LINE_END
}

/// One read on the console. A byte is stored; it closes the line when it is not
/// the line's first byte and is the end byte or fills the buffer. A failed read
/// closes a line that has begun and is ignored before the first byte.
/// Result: the new pending line, and the completed line if there is one.
pub open spec fn line_step(pending: Seq<u8>, ev: ReadEvent) -> (Seq<u8>, Option<Seq<u8>>) {
    match ev {
        ReadEvent::Byte(b) => {
            let grown = pending.push(b);
            if pending.len() > 0 && (b == LINE_END || grown.len() >= FRAME_CAPACITY) {
                (Seq::empty(), Some(grown))
            } else {
                (grown, None)
            }
        },
        ReadEvent::Failed => {
            if pending.len() == 0 {
                (pending, None)
            } else {
                (Seq::empty(), Some(pending))
            }
        },
    }
}

/// Collects console bytes into lines.
pub struct LineCollector {
    buf: Vec<u8>,
}

impl LineCollector {
    /// The bytes of the line received so far.
    pub closed spec fn pending(&self) -> Seq<u8> {
        self.buf@
    }

    pub closed spec fn wf(&self) -> bool {
        line_pending_ok(self.buf@)
    }

    /// A well-formed collector holds a well-formed pending line.
    pub proof fn lemma_wf_pending(&self)
        requires
            self.wf(),
        ensures
            line_pending_ok(self.pending()),
    {
    }

    pub fn new() -> (c: Self)
        ensures
            c.wf(),
            c.pending() == Seq::<u8>::empty(),
    {
        LineCollector { buf: Vec::new() }
    }

    /// Feeds one read result; returns the line it completes, if any.
    pub fn on_read(&mut self, ev: ReadEvent) -> (line: Option<Vec<u8>>)
        requires
            old(self).wf(),
        ensures
            final(self).wf(),
            final(self).pending() == line_step(old(self).pending(), ev).0,
            line is Some <==> line_step(old(self).pending(), ev).1 is Some,
            line is Some ==> line->0@ == line_step(old(self).pending(), ev).1->0,
            line is Some ==> 1 <= line->0@.len() <= FRAME_CAPACITY,
    {
        proof {
            lemma_line_step_keeps_pending_ok(self.buf@, ev);
            if line_step(self.buf@, ev).1 is Some {
                law_line_shape(self.buf@, ev);
            }
        }
        match ev {
            ReadEvent::Byte(b) => {
                let began = self.buf.len() > 0;
                self.buf.push(b);
                if began && (b == LINE_END || self.buf.len() >= FRAME_CAPACITY) {
                    let mut line = Vec::new();
                    std::mem::swap(&mut line, &mut self.buf);
                    Some(line)
                } else {
                    None
                }
            },
            ReadEvent::Failed => {
                if self.buf.len() == 0 {
                    None
                } else {
                    let mut line = Vec::new();
                    std::mem::swap(&mut line, &mut self.buf);
                    Some(line)
                }
            },
        }
    }
}

/// Every step keeps the pending line well formed.
pub proof fn lemma_line_step_keeps_pending_ok(p: Seq<u8>, ev: ReadEvent)
    requires
        line_pending_ok(p),
    ensures
        line_pending_ok(line_step(p, ev).0),
{
    match ev {
        ReadEvent::Byte(b) => {
            let grown = p.push(b);
            if !(p.len() > 0 && (b == LINE_END || grown.len() >= FRAME_CAPACITY)) {
                assert forall|i: int| 1 <= i < grown.len() implies grown[i] != LINE_END by {
                    if i < p.len() {
                        assert(grown[i] == p[i]);
                    }
                }
            }
        },
        ReadEvent::Failed => {},
    }
}

/// No byte is lost or repeated by a step: the line handed on, followed by the
/// new pending line, is the old pending line followed by what was read.
pub proof fn law_line_step_conserves_bytes(p: Seq<u8>, ev: ReadEvent)
    ensures
        emitted(line_step(p, ev).1) + line_step(p, ev).0 == p + received(ev),
{
    match ev {
        ReadEvent::Byte(b) => {
            assert(p.push(b) + Seq::<u8>::empty() =~= p + seq![b]);
            assert(Seq::<u8>::empty() + p.push(b) =~= p + seq![b]);
        },
        ReadEvent::Failed => {
            assert(Seq::<u8>::empty() + p =~= p + Seq::<u8>::empty());
            assert(p + Seq::<u8>::empty() =~= p);
        },
    }
}

/// Shape of every completed line: it holds between one byte and a full buffer,
/// the end byte stands in it only first or last, and it was closed by the end
/// byte (as a byte after the first), by a full buffer, or by a failed read.
pub proof fn law_line_shape(p: Seq<u8>, ev: ReadEvent)
    requires
        line_pending_ok(p),
        line_step(p, ev).1 is Some,
    ensures
        ({
            let line = line_step(p, ev).1->0;
            &&& 1 <= line.len() <= FRAME_CAPACITY
            &&& forall|i: int| 1 <= i < line.len() - 1 ==> line[i] != LINE_END
            &&& (line.len() >= 2 && line.last() == LINE_END) || line.len() == FRAME_CAPACITY
                || ev == ReadEvent::Failed
        }),
{
    let line = line_step(p, ev).1->0;
    match ev {
        ReadEvent::Byte(b) => {
            assert forall|i: int| 1 <= i < line.len() - 1 implies line[i] != LINE_END by {
                assert(line[i] == p[i]);
            }
        },
        ReadEvent::Failed => {},
    }
}

/// What each read does to a console line, case by case. A failed read
/// completes a line that has begun, whole, and empties the pending line; before
/// the first byte it changes nothing. A byte is stored at the end of the line;
/// a line's first byte never closes it, whatever it is; a later `'s'` (0x73)
/// closes the line with itself as its last byte; any other byte closes it only
/// when it makes the line 64 bytes long.
pub proof fn law_line_reads(p: Seq<u8>, b: u8)
    requires
        line_pending_ok(p),
    ensures
        p.len() > 0 ==> line_step(p, ReadEvent::Failed) == (Seq::<u8>::empty(), Some(p)),
        p.len() == 0 ==> line_step(p, ReadEvent::Failed) == (p, None::<Seq<u8>>),
        p.len() == 0 ==> line_step(p, ReadEvent::Byte(b)) == (seq![b], None::<Seq<u8>>),
        p.len() > 0 && b == 0x73 ==> line_step(p, ReadEvent::Byte(b)) == (Seq::<u8>::empty(), Some(p.push(b))),
        b != 0x73 && p.len() + 1 < 64 ==> line_step(p, ReadEvent::Byte(b)) == (p.push(b), None::<Seq<u8>>),
        b != 0x73 && p.len() + 1 == 64 ==> line_step(p, ReadEvent::Byte(b)) == (Seq::<u8>::empty(), Some(p.push(b))),
{
    assert(Seq::<u8>::empty().push(b) =~= seq![b]);
}

/// Feeding a whole sequence of read events: the lines completed, in order, and
/// the line left pending.
pub open spec fn line_run(p: Seq<u8>, evs: Seq<ReadEvent>) -> (Seq<Seq<u8>>, Seq<u8>)
    decreases evs.len(),
{
    if evs.len() == 0 {
        (Seq::empty(), p)
    } else {
        let (p1, out) = line_step(p, evs[0]);
        let (lines, rest) = line_run(p1, evs.drop_first());
        (
            match out {
                Some(l) => seq![l] + lines,
                None => lines,
            },
            rest,
        )
    }
}

/// All bytes that a sequence of read events delivers, in order.
pub open spec fn received_all(evs: Seq<ReadEvent>) -> Seq<u8>
    decreases evs.len(),
{
    if evs.len() == 0 {
        Seq::empty()
    } else {
        received(evs[0]) + received_all(evs.drop_first())
    }
}

/// Frames laid end to end.
pub open spec fn concat(frames: Seq<Seq<u8>>) -> Seq<u8>
    decreases frames.len(),
{
    if frames.len() == 0 {
        Seq::empty()
    } else {
        frames[0] + concat(frames.drop_first())
    }
}

/// Over any sequence of reads the console loses and repeats nothing: the lines
/// it completes, laid end to end and followed by the line still pending, are
/// exactly the pending line it started from followed by every byte received.
/// Every completed line has the shape of `law_line_shape`'s first two points,
/// and the pending line stays well formed.
pub proof fn law_line_run_conserves_bytes(p: Seq<u8>, evs: Seq<ReadEvent>)
    requires
        line_pending_ok(p),
    ensures
        concat(line_run(p, evs).0) + line_run(p, evs).1 == p + received_all(evs),
        line_pending_ok(line_run(p, evs).1),
        forall|k: int| 0 <= k < line_run(p, evs).0.len() ==> {
            let line = #[trigger] line_run(p, evs).0[k];
            &&& 1 <= line.len() <= FRAME_CAPACITY
            &&& forall|i: int| 1 <= i < line.len() - 1 ==> line[i] != LINE_END
        },
    decreases evs.len(),
{
    if evs.len() == 0 {
        assert(p + Seq::<u8>::empty() =~= p);
        assert(Seq::<u8>::empty() + p =~= p);
    } else {
        let (p1, out) = line_step(p, evs[0]);
        lemma_line_step_keeps_pending_ok(p, evs[0]);
        law_line_step_conserves_bytes(p, evs[0]);
        law_line_run_conserves_bytes(p1, evs.drop_first());
        let (lines, rest) = line_run(p1, evs.drop_first());
        let r = received_all(evs.drop_first());
        // concat(lines) + rest == p1 + r, and emitted(out) + p1 == p + received(evs[0])
        match out {
            Some(l) => {
                let all = seq![l] + lines;
                assert(all.drop_first() =~= lines);
                assert(all[0] == l);
                assert(concat(all) == l + concat(lines));
                assert(concat(all) + rest =~= l + (concat(lines) + rest));
                assert(l + (p1 + r) =~= (l + p1) + r);
                assert(p + received(evs[0]) + r =~= p + (received(evs[0]) + r));
                law_line_shape(p, evs[0]);
                assert forall|k: int| 0 <= k < all.len() implies {
                    let line = #[trigger] all[k];
                    &&& 1 <= line.len() <= FRAME_CAPACITY
                    &&& forall|i: int| 1 <= i < line.len() - 1 ==> line[i] != LINE_END
                } by {
                    if k > 0 {
                        assert(all[k] == lines[k - 1]);
                    }
                }
            },
            None => {
                assert(Seq::<u8>::empty() + p1 =~= p1);
                assert(p + received(evs[0]) + r =~= p + (received(evs[0]) + r));
            },
        }
    }
}

/// How long the LED stays on after a line is answered, in milliseconds.
pub const REPLY_FLASH_MS: u32 = 300;

/// The answer to a completed console line: the greeting, the line itself, and
/// a flash of the LED.
pub open spec fn line_reply_actions() -> Seq<Action> {
    seq![
        Action::SendGreeting,
        Action::SendFrame,
        Action::DriveLed(true),
        Action::DelayMs(REPLY_FLASH_MS),
        Action::DriveLed(false),
    ]
}

/// What the console does once a line is complete.
pub fn line_reply() -> (acts: Vec<Action>)
    ensures
        acts@ == line_reply_actions(),
{
    let acts = vec![
        Action::SendGreeting,
        Action::SendFrame,
        Action::DriveLed(true),
        Action::DelayMs(REPLY_FLASH_MS),
        Action::DriveLed(false),
    ];
    assert(acts@ =~= line_reply_actions());
    acts
}

// ---------------------------------------------------------------------------
// Bursts read by the receive interrupt.
// ---------------------------------------------------------------------------

/// A burst still being received: shorter than the buffer and free of the end byte.
pub open spec fn burst_pending_ok(p: Seq<u8>) -> bool {
    &&& p.len() < FRAME_CAPACITY
    &&& forall|i: int| 0 <= i < p.len() ==> p[i] != BURST_END
}

/// The whole reception buffer as the interrupt sends it: the bytes received,
/// then zeros up to the buffer's size.
pub open spec fn padded(s: Seq<u8>) -> Seq<u8> {
    s + Seq::new((FRAME_CAPACITY - s.len()) as nat, |i: int| 0u8)
}

/// One read in the receive interrupt. A byte is stored; it closes the burst when
/// it is the end byte or fills the buffer. A failed read closes the burst.
/// A closed burst is handed on as the whole zero-filled buffer.
pub open spec fn burst_step(pending: Seq<u8>, ev: ReadEvent) -> (Seq<u8>, Option<Seq<u8>>) {
    match ev {
        ReadEvent::Byte(b) => {
            let grown = pending.push(b);
            if b == BURST_END || grown.len() >= FRAME_CAPACITY {
                (Seq::empty(), Some(padded(grown)))
            } else {
                (grown, None)
            }
        },
        ReadEvent::Failed => (Seq::empty(), Some(padded(pending))),
    }
}

/// The opening of the receive interrupt, before any byte is read: toggle the LED.
pub open spec fn burst_start_actions() -> Seq<Action> {
    seq![Action::ToggleLed]
}

/// What the receive interrupt does before it reads.
pub fn burst_start() -> (acts: Vec<Action>)
    ensures
        acts@ == burst_start_actions(),
{
    let acts = vec![Action::ToggleLed];
    assert(acts@ =~= burst_start_actions());
    acts
}

/// Collects the bytes of one receive interrupt.
pub struct BurstCollector {
    buf: Vec<u8>,
}

impl BurstCollector {
    /// The bytes of the burst received so far.
    pub closed spec fn pending(&self) -> Seq<u8> {
        self.buf@
    }

    pub closed spec fn wf(&self) -> bool {
        burst_pending_ok(self.buf@)
    }

    /// A well-formed collector holds a well-formed pending burst.
    pub proof fn lemma_wf_pending(&self)
        requires
            self.wf(),
        ensures
            burst_pending_ok(self.pending()),
    {
    }

    pub fn new() -> (c: Self)
        ensures
            c.wf(),
            c.pending() == Seq::<u8>::empty(),
    {
        BurstCollector { buf: Vec::new() }
    }

    /// Feeds one read result; returns the buffer to send when the burst closes.
    pub fn on_read(&mut self, ev: ReadEvent) -> (block: Option<Vec<u8>>)
        requires
            old(self).wf(),
        ensures
            final(self).wf(),
            final(self).pending() == burst_step(old(self).pending(), ev).0,
            block is Some <==> burst_step(old(self).pending(), ev).1 is Some,
            block is Some ==> block->0@ == burst_step(old(self).pending(), ev).1->0,
            block is Some ==> block->0@.len() == FRAME_CAPACITY,
    {
        let close = match ev {
            ReadEvent::Byte(b) => {
                self.buf.push(b);
                b == BURST_END || self.buf.len() >= FRAME_CAPACITY
            },
            ReadEvent::Failed => true,
        };
        if close {
            let mut block = Vec::new();
            std::mem::swap(&mut block, &mut self.buf);
            zero_fill(&mut block);
            Some(block)
        } else {
            proof {
                let p = old(self).buf@;
                assert forall|i: int| 0 <= i < self.buf@.len() implies self.buf@[i] != BURST_END by {
                    if i < p.len() {
                        assert(self.buf@[i] == p[i]);
                    }
                }
            }
            None
        }
    }
}

/// Appends zeros until the buffer is full.
fn zero_fill(v: &mut Vec<u8>)
    requires
        old(v)@.len() <= FRAME_CAPACITY,
    ensures
        final(v)@ == padded(old(v)@),
{
    let ghost start = v@;
    while v.len() < FRAME_CAPACITY
        invariant
            start.len() <= v@.len() <= FRAME_CAPACITY,
            v@.subrange(0, start.len() as int) == start,
            forall|i: int| start.len() <= i < v@.len() ==> v@[i] == 0u8,
        decreases FRAME_CAPACITY - v.len(),
    {
        v.push(0u8);
    }
    assert(v@ =~= padded(start));
}

/// What each read does to an interrupt burst, case by case. A byte other than
/// `'\n'` (0x0a) that leaves room in the buffer is stored and nothing is sent;
/// a `'\n'` or a byte that fills the 64-byte buffer is stored and the burst is
/// sent; a failed read sends what was received. A sent block is the received
/// bytes followed by zeros up to 64 bytes, and the pending burst becomes empty.
pub proof fn law_burst_reads(p: Seq<u8>, b: u8)
    requires
        burst_pending_ok(p),
    ensures
        b != 0x0a && p.len() + 1 < 64 ==> burst_step(p, ReadEvent::Byte(b)) == (p.push(b), None::<Seq<u8>>),
        b == 0x0a || p.len() + 1 == 64 ==> {
            let (q, out) = burst_step(p, ReadEvent::Byte(b));
            &&& q == Seq::<u8>::empty()
            &&& out is Some
            &&& out->0.len() == 64
            &&& forall|i: int| 0 <= i < p.len() ==> out->0[i] == p[i]
            &&& out->0[p.len() as int] == b
            &&& forall|i: int| p.len() < i < 64 ==> out->0[i] == 0u8
        },
        ({
            let (q, out) = burst_step(p, ReadEvent::Failed);
            &&& q == Seq::<u8>::empty()
            &&& out is Some
            &&& out->0.len() == 64
            &&& forall|i: int| 0 <= i < p.len() ==> out->0[i] == p[i]
            &&& forall|i: int| p.len() <= i < 64 ==> out->0[i] == 0u8
        }),
{
}

/// Shape of every buffer the interrupt sends: it is a full buffer; it begins with
/// every byte received in the burst, between one and a full buffer of them when
/// a byte closed it; the end byte stands among them only last; and the rest is zeros.
pub proof fn law_burst_shape(p: Seq<u8>, ev: ReadEvent)
    requires
        burst_pending_ok(p),
    ensures
        ({
            let block = burst_step(p, ev).1->0;
            let got = p + received(ev);
            &&& burst_step(p, ev).1 is Some ==> {
                &&& block.len() == FRAME_CAPACITY
                &&& got.len() <= FRAME_CAPACITY
                &&& block.subrange(0, got.len() as int) == got
                &&& forall|i: int| got.len() <= i < FRAME_CAPACITY ==> block[i] == 0u8
                &&& forall|i: int| 0 <= i < got.len() - 1 ==> got[i] != BURST_END
            }
            &&& burst_step(p, ev).1 is None ==> burst_step(p, ev).0 == got
        }),
{
    let got = p + received(ev);
    match ev {
        ReadEvent::Byte(b) => {
            assert(got =~= p.push(b));
        },
        ReadEvent::Failed => {
            assert(got =~= p);
        },
    }
    let block = padded(got);
    assert(block.subrange(0, got.len() as int) =~= got);
    assert forall|i: int| 0 <= i < got.len() - 1 implies got[i] != BURST_END by {
        assert(got[i] == p[i]);
    }
}

} // verus!
