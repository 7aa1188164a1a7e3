//! The score, and the curve that turns it into difficulty.

use crate::math::lemma_product_bound;
use vstd::prelude::*;

verus! {

/// What `Score::interp` yields for a score: `start` at zero, `end` from
/// `max_score` on, and in between the point on the straight line from one to
/// the other, rounded towards `start`.
pub open spec fn interp_value(score: nat, start: int, end: int, max_score: nat) -> int {
    if score >= max_score {
        end
    } else if start <= end {
        start + (score * (end - start)) / (max_score as int)
    } else {
        start - (score * (start - end)) / (max_score as int)
    }
}

/// The points gathered in the running session.
#[derive(Debug, Clone, Copy, PartialEq, Eq, Structural)]
pub struct Score {
    pub score: u32,
}

impl Score {
    /// The score a session starts with.
    pub fn new() -> (r: Score)
        ensures
            r.score == 0,
    {
        Score { score: 0 }
    }

    /// What it costs to go on after the ship was lost.
    pub const CONTINUE_COST: u32 = 50;

    /// One more point. The counter stops at the largest value it can hold.
    pub fn inc(&mut self)
        ensures
            final(self).score == if old(self).score < u32::MAX {
                old(self).score + 1
            } else {
                u32::MAX as int
            },
    {
        if self.score < u32::MAX {
            self.score = self.score + 1;
        }
    }

    /// Back to zero.
    pub fn clear(&mut self)
        ensures
            final(self).score == 0,
    {
        self.score = 0;
    }

    /// Whether the score covers the price of a continue.
    pub fn can_continue(&self) -> (r: bool)
        ensures
            r == (self.score >= Score::CONTINUE_COST),
    {
        self.score >= Score::CONTINUE_COST
    }

    /// Pays for a continue. A score below the price drops to zero: going on is
    /// never refused.
    pub fn buy_continue(&mut self)
        ensures
            final(self).score == if old(self).score >= Score::CONTINUE_COST {
                old(self).score - Score::CONTINUE_COST
            } else {
                0
            },
    {
        self.score = match self.score.checked_sub(Score::CONTINUE_COST) {
            Some(rest) => rest,
            None => 0,
        };
    }

    /// Maps the score from `0..max_score` onto the line from `start_val` to
    /// `end_val`; a score of `max_score` or more gives `end_val`.
    pub fn interp(&self, start_val: i64, end_val: i64, max_score: u32) -> (r: i64)
        ensures
            r == interp_value(self.score as nat, start_val as int, end_val as int, max_score as nat),
    {
        if self.score >= max_score {
            return end_val;
        }
        let score: i128 = self.score as i128;
        let max: i128 = max_score as i128;
        if start_val <= end_val {
            let diff: i128 = end_val as i128 - start_val as i128;
            proof {
                lemma_share(score as int, diff as int, max as int);
                lemma_product_bound(
                    score as int,
                    diff as int,
                    0xffff_ffff,
                    0xffff_ffff_ffff_ffff,
                );
            }
            let part: i128 = score * diff / max;
            (start_val as i128 + part) as i64
        } else {
            let diff: i128 = start_val as i128 - end_val as i128;
            proof {
                lemma_share(score as int, diff as int, max as int);
                lemma_product_bound(
                    score as int,
                    diff as int,
                    0xffff_ffff,
                    0xffff_ffff_ffff_ffff,
                );
            }
            let part: i128 = score * diff / max;
            (start_val as i128 - part) as i64
        }
    }
}

/// A share `part / whole` of a non-negative amount lies between nothing and
/// the amount, and the product it is computed from stays small.
proof fn lemma_share(part: int, amount: int, whole: int)
    requires
        0 <= part < whole,
        0 <= amount,
    ensures
        0 <= part * amount <= whole * amount,
        0 <= (part * amount) / whole <= amount,
{
    assert(0 <= part * amount <= whole * amount) by (nonlinear_arith)
        requires
            0 <= part < whole,
            0 <= amount,
    ;
    assert(0 <= (part * amount) / whole <= amount) by (nonlinear_arith)
        requires
            0 <= part * amount <= whole * amount,
            whole > 0,
            amount >= 0,
    ;
}

/// The curve starts at `start`, is at `end` from `max_score` on, and never
/// leaves the range between the two.
pub proof fn lemma_interp_ends(score: nat, start: int, end: int, max_score: nat)
    ensures
        max_score > 0 ==> interp_value(0, start, end, max_score) == start,
        interp_value(max_score, start, end, max_score) == end,
        score >= max_score ==> interp_value(score, start, end, max_score) == end,
        start <= end ==> start <= interp_value(score, start, end, max_score) <= end,
        end <= start ==> end <= interp_value(score, start, end, max_score) <= start,
{
    if score < max_score {
        if start <= end {
            lemma_share(score as int, end - start, max_score as int);
        } else {
            lemma_share(score as int, start - end, max_score as int);
        }
    }
    if max_score > 0 {
        assert(0 * (end - start) == 0);
        assert(0 * (start - end) == 0);
    }
}

/// A higher score never moves the value back towards `start`.
pub proof fn lemma_interp_monotonic(low: nat, high: nat, start: int, end: int, max_score: nat)
    requires
        low <= high,
    ensures
        start <= end ==> interp_value(low, start, end, max_score) <= interp_value(
            high,
            start,
            end,
            max_score,
        ),
        end <= start ==> interp_value(low, start, end, max_score) >= interp_value(
            high,
            start,
            end,
            max_score,
        ),
{
    lemma_interp_ends(low, start, end, max_score);
    lemma_interp_ends(high, start, end, max_score);
    if high < max_score {
        let diff = if start <= end {
            end - start
        } else {
            start - end
        };
        assert(low * diff <= high * diff) by (nonlinear_arith)
            requires
                0 <= low <= high,
                0 <= diff,
        ;
        vstd::arithmetic::div_mod::lemma_div_is_ordered(
            low * diff,
            high * diff,
            max_score as int,
        );
    }
}

} // verus!
