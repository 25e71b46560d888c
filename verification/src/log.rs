//! Tailing the firmware's log: a 1 KiB ring in chip RAM, cut into lines.

use vstd::prelude::*;
use crate::structs::{SharedMemData, SharedMemLog};

verus! {

/// Size of the firmware's log ring in bytes.
pub const LOG_RING_SIZE: usize = 0x400;

/// Longest line that is kept; what a line holds beyond this is cut off.
pub const LOG_LINE_MAX: usize = 256;

/// Offset of the log header in the firmware's console structure.
pub const CONSOLE_LOG_OFFSET: u32 = 8;

/// A line under construction and the lines completed before it.
pub struct LogLines {
    /// The bytes of the line that is not complete yet.
    pub line: Seq<u8>,
    /// The lines that were completed, oldest first.
    pub lines: Seq<Seq<u8>>,
}

/// Whether a byte ends a line.
pub open spec fn is_line_end(b: u8) -> bool {
    b == 0x0d || b == 0x0a
}

/// The effect of one byte of the log: a line end completes the line unless it
/// is empty, any other byte is added to the line unless it is full.
pub open spec fn log_step(acc: LogLines, b: u8) -> LogLines {
    if is_line_end(b) {
        if acc.line.len() != 0 {
            LogLines { line: Seq::empty(), lines: acc.lines.push(acc.line) }
        } else {
            acc
        }
    } else if acc.line.len() < LOG_LINE_MAX {
        LogLines { line: acc.line.push(b), lines: acc.lines }
    } else {
        acc
    }
}

/// The effect of a run of bytes of the log, first byte first.
pub open spec fn log_feed(acc: LogLines, bytes: Seq<u8>) -> LogLines
    decreases bytes.len(),
{
    if bytes.len() == 0 {
        acc
    } else {
        log_step(log_feed(acc, bytes.drop_last()), bytes.last())
    }
}

/// The bytes of a ring from position `from` up to position `to`, going round
/// the end of the ring where `to` lies before `from`.
pub open spec fn ring_span(ring: Seq<u8>, from: int, to: int) -> Seq<u8> {
    if from <= to {
        ring.subrange(from, to)
    } else {
        ring.subrange(from, ring.len() as int) + ring.subrange(0, to)
    }
}

/// The lines of a list of byte vectors, each as a sequence.
pub open spec fn lines_view(lines: Seq<Vec<u8>>) -> Seq<Seq<u8>> {
    Seq::new(lines.len(), |i: int| lines[i]@)
}

/// What the tailer remembers between two looks at the ring.
pub struct LogView {
    /// Address of the log header in chip RAM.
    pub addr: u32,
    /// Position in the ring up to which the log was read.
    pub last_idx: int,
    /// The bytes of the line that is not complete yet.
    pub line: Seq<u8>,
}

/// State of the log tailer.
#[derive(Clone, Copy, Debug, PartialEq, Eq)]
pub struct LogState {
    addr: u32,
    last_idx: usize,
    buf: [u8; 256],
    buf_count: usize,
}

impl View for LogState {
    type V = LogView;

    closed spec fn view(&self) -> LogView {
        LogView {
            addr: self.addr,
            last_idx: self.last_idx as int,
            line: self.buf@.subrange(0, self.buf_count as int),
        }
    }
}

impl Default for LogState {
    /// A tailer at the start of the ring, with no address and an empty line.
    fn default() -> (log: LogState)
        ensures
            log@ == (LogView { addr: 0, last_idx: 0, line: Seq::empty() }),
    {
        let log = LogState { addr: 0, last_idx: 0, buf: [0u8; 256], buf_count: 0 };
        assert(log@.line =~= Seq::empty());
        log
    }
}

impl LogState {
    #[verifier::type_invariant]
    spec fn inv(self) -> bool {
        self.last_idx < LOG_RING_SIZE && self.buf_count <= LOG_LINE_MAX
    }

    /// Address of the log header in chip RAM.
    pub fn addr(&self) -> (addr: u32)
        ensures
            addr == self@.addr,
    {
        self.addr
    }

    /// Position in the ring up to which the log was read; it never lies
    /// outside the ring.
    pub fn last_idx(&self) -> (idx: usize)
        ensures
            idx == self@.last_idx,
            idx < LOG_RING_SIZE,
    {
        proof {
            use_type_invariant(self);
        }
        self.last_idx
    }

    /// Length of the line that is not complete yet; it never exceeds a full
    /// line.
    pub fn line_len(&self) -> (n: usize)
        ensures
            n == self@.line.len(),
            n <= LOG_LINE_MAX,
    {
        proof {
            use_type_invariant(self);
        }
        self.buf_count
    }

    /// The address of the log header that a shared-memory descriptor leads
    /// to: eight bytes into the console structure, modulo 2^32.
    pub open spec fn header_addr(shared: SharedMemData) -> u32 {
        if shared.console_addr + CONSOLE_LOG_OFFSET <= u32::MAX {
            (shared.console_addr + CONSOLE_LOG_OFFSET) as u32
        } else {
            (shared.console_addr + CONSOLE_LOG_OFFSET - 0x1_0000_0000) as u32
        }
    }

    /// Takes the address of the log header from the shared-memory descriptor
    /// that the firmware left in chip RAM.
    pub fn log_init(&mut self, shared: &[u8; 32])
        ensures
            final(self)@ == (LogView {
                addr: Self::header_addr(SharedMemData::spec_from_bytes(shared@)),
                ..old(self)@
            }),
    {
        proof {
            use_type_invariant(&*self);
        }
        let shared = SharedMemData::from_bytes(shared);
        self.addr = if shared.console_addr <= u32::MAX - CONSOLE_LOG_OFFSET {
            shared.console_addr + CONSOLE_LOG_OFFSET
        } else {
            shared.console_addr - (u32::MAX - CONSOLE_LOG_OFFSET) - 1
        };
    }

    /// Where the ring is to be read from and up to which position, if the log
    /// header shows that the firmware wrote since the last look. A header
    /// whose position lies outside the ring is taken for damaged and shows
    /// nothing.
    pub open spec fn spec_pending(view: LogView, header: SharedMemLog) -> Option<(u32, usize)> {
        if header.idx != view.last_idx && header.idx < LOG_RING_SIZE {
            Some((header.buf, header.idx as usize))
        } else {
            None
        }
    }

    /// Looks at the log header read from chip RAM: returns the address of the
    /// ring and the position to read up to if there is anything new.
    pub fn pending(&self, header: &[u8; 16]) -> (ring: Option<(u32, usize)>)
        ensures
            ring == Self::spec_pending(self@, SharedMemLog::spec_from_bytes(header@)),
    {
        let log = SharedMemLog::from_bytes(header);
        let idx = log.idx as usize;
        if idx != self.last_idx && idx < LOG_RING_SIZE {
            Some((log.buf, idx))
        } else {
            None
        }
    }

    /// Reads the ring from where the last look ended up to `idx`, and returns
    /// the lines that this completes, oldest first.
    pub fn log_read(&mut self, ring: &[u8], idx: usize) -> (lines: Vec<Vec<u8>>)
        requires
            ring.len() == LOG_RING_SIZE,
            idx < LOG_RING_SIZE,
        ensures
            ({
                let fed = log_feed(
                    LogLines { line: old(self)@.line, lines: Seq::empty() },
                    ring_span(ring@, old(self)@.last_idx, idx as int),
                );
                &&& final(self)@ == (LogView { addr: old(self)@.addr, last_idx: idx as int, line: fed.line })
                &&& lines_view(lines@) == fed.lines
            }),
    {
        proof {
            use_type_invariant(&*self);
        }
        let ghost start = self.last_idx as int;
        let ghost init = LogLines { line: self@.line, lines: Seq::empty() };
        let ghost mut seen: Seq<u8> = Seq::empty();
        let mut lines: Vec<Vec<u8>> = Vec::new();
        let mut last_idx = self.last_idx;
        let mut buf = self.buf;
        let mut buf_count = self.buf_count;
        assert(lines_view(lines@) =~= Seq::<Seq<u8>>::empty());
        while last_idx != idx
            invariant
                ring.len() == LOG_RING_SIZE,
                idx < LOG_RING_SIZE,
                0 <= start < LOG_RING_SIZE,
                last_idx < LOG_RING_SIZE,
                buf_count <= LOG_LINE_MAX,
                start <= idx ==> start <= last_idx <= idx,
                idx < start ==> start <= last_idx || last_idx <= idx,
                seen == ring_span(ring@, start, last_idx as int),
                seen.len() == (if start <= last_idx { last_idx - start } else {
                    LOG_RING_SIZE - start + last_idx
                }),
                log_feed(init, seen) == (LogLines {
                    line: buf@.subrange(0, buf_count as int),
                    lines: lines_view(lines@),
                }),
            decreases
                (if last_idx <= idx { idx - last_idx } else { LOG_RING_SIZE - last_idx + idx }),
        {
            let b = ring[last_idx];
            let ghost before = log_feed(init, seen);
            if b == 0x0d || b == 0x0a {
                if buf_count != 0 {
                    let mut line: Vec<u8> = Vec::new();
                    let mut k: usize = 0;
                    while k < buf_count
                        invariant
                            k <= buf_count <= LOG_LINE_MAX,
                            line@ == buf@.subrange(0, k as int),
                        decreases buf_count - k,
                    {
                        line.push(buf[k]);
                        assert(line@ =~= buf@.subrange(0, k + 1));
                        k += 1;
                    }
                    let ghost old_lines = lines_view(lines@);
                    lines.push(line);
                    assert(lines_view(lines@) =~= old_lines.push(line@));
                    buf_count = 0;
                    assert(buf@.subrange(0, 0) =~= Seq::<u8>::empty());
                }
            } else if buf_count < LOG_LINE_MAX {
                let ghost old_line = buf@.subrange(0, buf_count as int);
                buf[buf_count] = b;
                buf_count += 1;
                assert(buf@.subrange(0, buf_count as int) =~= old_line.push(b));
            }
            proof {
                let next = seen.push(b);
                assert(next.drop_last() =~= seen);
                assert(next.last() == b);
                assert(log_feed(init, next) == log_step(before, b));
                if last_idx + 1 == LOG_RING_SIZE {
                    assert(next =~= ring_span(ring@, start, 0));
                } else {
                    assert(next =~= ring_span(ring@, start, last_idx + 1));
                }
                seen = next;
            }
            last_idx += 1;
            if last_idx == LOG_RING_SIZE {
                last_idx = 0;
            }
        }
        self.last_idx = last_idx;
        self.buf = buf;
        self.buf_count = buf_count;
        lines
    }
}

} // verus!
