//! Cumulative acknowledgment watermarks: receiving an acknowledgment for id
//! `n` covers every message id at or below `n`, and the watermark never
//! decreases.
use vstd::prelude::*;

verus! {

/// The watermark after one acknowledgment for `id` arrives on `w`.
pub open spec fn advance(w: Option<u64>, id: u64) -> Option<u64> {
    match w {
        None => Some(id),
        Some(x) => if id > x {
            Some(id)
        } else {
            Some(x)
        },
    }
}

/// Message id `id` is covered by the watermark `w`.
pub open spec fn covers(w: Option<u64>, id: u64) -> bool {
    w matches Some(x) && id <= x
}

/// Delivered and read watermarks for the messages of one sender's stream.
/// `None` stands for a stream with no acknowledgment received yet.
#[derive(Debug, Clone, Copy, PartialEq, Eq, Structural)]
pub struct AckWatermark {
    pub delivered_upto: Option<u64>,
    pub read_upto: Option<u64>,
}

impl AckWatermark {
    /// A watermark pair with no acknowledgment received.
    pub fn new() -> (r: AckWatermark)
        ensures
            r.delivered_upto is None,
            r.read_upto is None,
    {
        AckWatermark { delivered_upto: None, read_upto: None }
    }

    /// Applies a delivery acknowledgment for `message_id`.
    pub fn apply_delivered(&mut self, message_id: u64)
        ensures
            final(self).delivered_upto == advance(old(self).delivered_upto, message_id),
            final(self).read_upto == old(self).read_upto,
    {
        self.delivered_upto = Some(
            match self.delivered_upto {
                None => message_id,
                Some(x) => if message_id > x {
                    message_id
                } else {
                    x
                },
            },
        );
    }

    /// Applies a read acknowledgment for `message_id`.
    pub fn apply_read(&mut self, message_id: u64)
        ensures
            final(self).read_upto == advance(old(self).read_upto, message_id),
            final(self).delivered_upto == old(self).delivered_upto,
    {
        self.read_upto = Some(
            match self.read_upto {
                None => message_id,
                Some(x) => if message_id > x {
                    message_id
                } else {
                    x
                },
            },
        );
    }

    /// Whether `message_id` is in the delivered state.
    pub fn is_delivered(&self, message_id: u64) -> (r: bool)
        ensures
            r == covers(self.delivered_upto, message_id),
    {
        match self.delivered_upto {
            None => false,
            Some(x) => message_id <= x,
        }
    }

    /// Whether `message_id` is in the read state.
    pub fn is_read(&self, message_id: u64) -> (r: bool)
        ensures
            r == covers(self.read_upto, message_id),
    {
        match self.read_upto {
            None => false,
            Some(x) => message_id <= x,
        }
    }
}

/// The watermark never decreases: an acknowledgment for an id at or below
/// the watermark changes nothing, every id already covered stays covered,
/// and an acknowledgment for `a` covers every id up to `a`.
pub proof fn lemma_watermark_monotonic(w: Option<u64>, a: u64, b: u64)
    ensures
        b <= a ==> advance(advance(w, a), b) == advance(w, a),
        forall|id: u64| covers(w, id) ==> covers(advance(w, a), id),
        forall|id: u64| id <= a ==> covers(advance(w, a), id),
{
}

/// Acknowledgments reach the same cumulative state in whatever order they
/// arrive.
pub proof fn lemma_watermark_order_independent(w: Option<u64>, a: u64, b: u64)
    ensures
        advance(advance(w, a), b) == advance(advance(w, b), a),
{
}

} // verus!
