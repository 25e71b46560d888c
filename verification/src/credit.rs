//! Transmit credit: the window of sequence numbers the chip accepts.

use vstd::prelude::*;

verus! {

/// Widest window a credit update may open.
pub const CREDIT_WINDOW: u8 = 0x40;

/// `a - b` modulo 256.
pub open spec fn wrapping_diff(a: u8, b: u8) -> u8 {
    if a >= b {
        (a - b) as u8
    } else {
        (256 + a - b) as u8
    }
}

/// `a + b` modulo 256.
pub open spec fn wrapping_sum(a: u8, b: u8) -> u8 {
    if a + b < 256 {
        (a + b) as u8
    } else {
        (a + b - 256) as u8
    }
}

/// The highest permitted sequence number after a frame with the given channel
/// byte and credit came in, where `seq` is the next sequence number to send
/// and `seq_max` the highest permitted one so far.
///
/// A frame on a channel other than control, event and data changes nothing.
/// A credit more than [`CREDIT_WINDOW`] ahead of `seq` is taken for stale and
/// replaced by `seq + 2`.
pub open spec fn credit_after(seq: u8, seq_max: u8, channel_and_flags: u8, credit: u8) -> u8 {
    if channel_and_flags & 0x0f < 3 {
        if wrapping_diff(credit, seq) > CREDIT_WINDOW {
            wrapping_sum(seq, 2)
        } else {
            credit
        }
    } else {
        seq_max
    }
}

/// Whether a frame may be sent: the next sequence number has not reached the
/// highest permitted one, nor passed it.
pub open spec fn credit_available(seq: u8, seq_max: u8) -> bool {
    seq != seq_max && wrapping_diff(seq_max, seq) & 0x80 == 0
}

/// Computes `a - b` modulo 256.
pub fn diff(a: u8, b: u8) -> (d: u8)
    ensures
        d == wrapping_diff(a, b),
{
    if a >= b {
        a - b
    } else {
        255 - b + a + 1
    }
}

/// Computes `a + b` modulo 256.
pub fn sum(a: u8, b: u8) -> (s: u8)
    ensures
        s == wrapping_sum(a, b),
{
    if a <= 255 - b {
        a + b
    } else {
        a - (255 - b) - 1
    }
}

/// Computes [`credit_after`].
pub fn next_credit(seq: u8, seq_max: u8, channel_and_flags: u8, credit: u8) -> (m: u8)
    ensures
        m == credit_after(seq, seq_max, channel_and_flags, credit),
{
    if channel_and_flags & 0x0f < 3 {
        if diff(credit, seq) > CREDIT_WINDOW {
            sum(seq, 2)
        } else {
            credit
        }
    } else {
        seq_max
    }
}

/// Computes [`credit_available`].
pub fn available(seq: u8, seq_max: u8) -> (yes: bool)
    ensures
        yes == credit_available(seq, seq_max),
{
    seq != seq_max && diff(seq_max, seq) & 0x80 == 0
}

/// A credit update on one of the three known channels leaves the window
/// between the next sequence number and the highest permitted one no wider
/// than [`CREDIT_WINDOW`], whatever credit the frame carried.
pub proof fn lemma_credit_window(seq: u8, seq_max: u8, channel_and_flags: u8, credit: u8)
    requires
        channel_and_flags & 0x0f < 3,
    ensures
        wrapping_diff(credit_after(seq, seq_max, channel_and_flags, credit), seq) <= CREDIT_WINDOW,
{
}

/// A credit within the window is taken as it is.
pub proof fn lemma_credit_in_window(seq: u8, seq_max: u8, channel_and_flags: u8, credit: u8)
    requires
        channel_and_flags & 0x0f < 3,
        seq <= credit <= seq + CREDIT_WINDOW,
    ensures
        credit_after(seq, seq_max, channel_and_flags, credit) == credit,
{
}

/// Credit is available exactly when the highest permitted sequence number is
/// between 1 and 127 steps ahead of the next one.
pub proof fn lemma_credit_available(seq: u8, seq_max: u8)
    ensures
        credit_available(seq, seq_max) <==> 1 <= wrapping_diff(seq_max, seq) <= 127,
{
    let d = wrapping_diff(seq_max, seq);
    assert((d & 0x80 == 0) <==> d <= 127) by (bit_vector);
}

/// Once the next sequence number has caught up with the highest permitted
/// one, no credit is available.
pub proof fn lemma_no_credit_when_caught_up(seq: u8, seq_max: u8)
    requires
        credit_available(seq, seq_max),
        wrapping_sum(seq, 1) == seq_max,
    ensures
        !credit_available(wrapping_sum(seq, 1), seq_max),
{
}

} // verus!
