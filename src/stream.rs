use vstd::prelude::*;
use vstd::arithmetic::div_mod::{
    lemma_div_is_ordered, lemma_div_multiples_vanish, lemma_fundamental_div_mod,
    lemma_hoist_over_denominator,
};
use vstd::arithmetic::mul::lemma_mul_inequality;

use crate::account::AccountId;
use crate::errors::ContractError;

verus! {

/// Minimum duration that a stream can have, in seconds.
pub const STREAM_MINIMUM_DURATION: u64 = 300;

/// One vesting schedule from a payer to a recipient.
#[derive(Debug, Clone, Copy, PartialEq, Eq)]
pub struct Stream {
    /// Account that funded the stream.
    pub payer: AccountId,
    /// Account allowed to withdraw from the stream.
    pub recipient: AccountId,
    /// Funds committed when the stream was created.
    pub original_balance: u128,
    /// Funds not yet withdrawn.
    pub current_balance: u128,
    /// Date when the stream started, in seconds.
    pub start_date: u64,
    /// Date when all the funds are unlocked, in seconds.
    pub end_date: u64,
}

impl Stream {
    /// The balance never grows past what was committed, and the stream lasts
    /// a positive time.
    pub open spec fn wf(&self) -> bool {
        &&& self.current_balance <= self.original_balance
        &&& self.start_date < self.end_date
    }

    /// Funds already taken out of the stream.
    pub open spec fn withdrawn(&self) -> int {
        self.original_balance - self.current_balance
    }

    /// Funds that time has unlocked at `t`: all of them once the stream has
    /// finished, else the floor of the share of elapsed time.
    pub open spec fn unlocked_at(&self, t: int) -> int {
        if t > self.end_date {
            self.original_balance as int
        } else {
            (self.original_balance * (t - self.start_date)) / (self.end_date - self.start_date)
        }
    }

    /// Funds that the recipient may take out at `t`.
    pub open spec fn available_at(&self, t: int) -> int {
        self.unlocked_at(t) - self.withdrawn()
    }

    /// `t` is a time at which the schedule can be read: after the end, or
    /// within a schedule of positive length, not before its start, and not
    /// before the moment that unlocked what was withdrawn.
    pub open spec fn readable_at(&self, t: int) -> bool {
        t > self.end_date || {
            &&& self.start_date <= t
            &&& self.start_date < self.end_date
            &&& self.withdrawn() <= self.unlocked_at(t)
        }
    }

    /// A stream whose whole balance is still locked in it.
    pub fn new(
        payer: AccountId,
        recipient: AccountId,
        stream_funds: u128,
        start_date: u64,
        end_date: u64,
    ) -> (r: Stream)
        ensures
            r.payer == payer,
            r.recipient == recipient,
            r.original_balance == stream_funds,
            r.current_balance == stream_funds,
            r.start_date == start_date,
            r.end_date == end_date,
    {
        Stream {
            payer,
            recipient,
            original_balance: stream_funds,
            current_balance: stream_funds,
            start_date,
            end_date,
        }
    }

    /// Reduces the current balance by `amount`, which must not exceed it.
    pub fn withdraw(&mut self, amount: u128) -> (r: Result<(), ContractError>)
        ensures
            amount <= old(self).current_balance ==> {
                &&& r is Ok
                &&& *final(self) == (Stream {
                    current_balance: (old(self).current_balance - amount) as u128,
                    ..*old(self)
                })
            },
            amount > old(self).current_balance ==> {
                &&& r == Err::<(), ContractError>(
                    ContractError::ExpectedWithdrawalAmountExceedsStreamAvailableBalance,
                )
                &&& *final(self) == *old(self)
            },
    {
        if self.current_balance < amount {
            return Err(ContractError::ExpectedWithdrawalAmountExceedsStreamAvailableBalance);
        }
        self.current_balance = self.current_balance - amount;
        Ok(())
    }

    /// The balance that the recipient may withdraw at `current_time`; an
    /// error when it is zero.
    pub fn get_available_balance(&self, current_time: u64) -> (r: Result<u128, ContractError>)
        requires
            self.current_balance <= self.original_balance,
            self.readable_at(current_time as int),
        ensures
            match r {
                Ok(a) => {
                    &&& a == self.available_at(current_time as int)
                    &&& 0 < a <= self.current_balance
                },
                Err(e) => {
                    &&& e == ContractError::StreamAvailableBalanceIsZero
                    &&& self.available_at(current_time as int) == 0
                },
            },
    {
        let balance_withdrawn: u128 = self.original_balance - self.current_balance;
        let available_balance: u128 = if self.is_finished(current_time) {
            self.original_balance - balance_withdrawn
        } else {
            let unlocked_balance = self.unlocked_balance(current_time);
            unlocked_balance - balance_withdrawn
        };
        if available_balance == 0 {
            return Err(ContractError::StreamAvailableBalanceIsZero);
        }
        Ok(available_balance)
    }

    /// Succeeds only when `caller` is the recipient of the stream.
    pub fn has_permission_to_withdraw(&self, caller: AccountId) -> (r: Result<(), ContractError>)
        ensures
            caller == self.recipient ==> r is Ok,
            caller != self.recipient ==> r == Err::<(), ContractError>(ContractError::Unauthorized),
    {
        if caller != self.recipient {
            return Err(ContractError::Unauthorized);
        }
        Ok(())
    }

    /// Whether the stream has finished at `current_time`.
    fn is_finished(&self, current_time: u64) -> (r: bool)
        ensures
            r == (current_time > self.end_date),
    {
        current_time > self.end_date
    }

    /// The time between the start and the end of the stream.
    fn total_duration(&self) -> (r: u64)
        requires
            self.start_date <= self.end_date,
        ensures
            r == self.end_date - self.start_date,
    {
        self.end_date - self.start_date
    }

    /// The floor of the share of the original balance that elapsed time
    /// has unlocked, computed without overflow.
    fn unlocked_balance(&self, current_time: u64) -> (r: u128)
        requires
            self.start_date <= current_time <= self.end_date,
            self.start_date < self.end_date,
        ensures
            r == self.unlocked_at(current_time as int),
            r <= self.original_balance,
    {
        let elapsed: u128 = (current_time - self.start_date) as u128;
        let duration: u128 = self.total_duration() as u128;
        let whole: u128 = self.original_balance / duration;
        let rest: u128 = self.original_balance % duration;
        proof {
            lemma_share_split(
                self.original_balance as int,
                elapsed as int,
                duration as int,
                whole as int,
                rest as int,
            );
            lemma_mul_inequality(rest as int, duration as int, elapsed as int);
            lemma_mul_inequality(elapsed as int, duration as int, duration as int);
            assert(duration * duration <= 0xffff_ffff_ffff_ffffu128 * 0xffff_ffff_ffff_ffffu128)
                by (nonlinear_arith)
                requires
                    duration <= 0xffff_ffff_ffff_ffffu128,
            ;
        }
        let part: u128 = rest * elapsed / duration;
        whole * elapsed + part
    }
}

/// Splitting the balance as `whole * duration + rest` splits its share of
/// elapsed time the same way, and that share is at most the balance.
proof fn lemma_share_split(balance: int, elapsed: int, duration: int, whole: int, rest: int)
    requires
        0 <= balance,
        0 <= elapsed <= duration,
        0 < duration,
        whole == balance / duration,
        rest == balance % duration,
    ensures
        (balance * elapsed) / duration == whole * elapsed + (rest * elapsed) / duration,
        whole * elapsed <= balance,
        (balance * elapsed) / duration <= balance,
        0 <= rest < duration,
{
    lemma_fundamental_div_mod(balance, duration);
    assert(balance * elapsed == rest * elapsed + (whole * elapsed) * duration)
        by (nonlinear_arith)
        requires
            balance == duration * whole + rest,
    ;
    lemma_hoist_over_denominator(rest * elapsed, whole * elapsed, duration as nat);
    assert(0 <= whole) by (nonlinear_arith)
        requires
            0 <= balance,
            0 < duration,
            whole == balance / duration,
    ;
    lemma_mul_inequality(elapsed, duration, whole);
    assert(whole * elapsed <= balance) by (nonlinear_arith)
        requires
            elapsed * whole <= duration * whole,
            balance == duration * whole + rest,
            0 <= rest,
    ;
    lemma_mul_inequality(elapsed, duration, balance);
    assert(balance * elapsed <= balance * duration) by (nonlinear_arith)
        requires
            elapsed * balance <= duration * balance,
    ;
    lemma_div_is_ordered(balance * elapsed, balance * duration, duration);
    lemma_div_multiples_vanish(balance, duration);
    assert(duration * balance == balance * duration) by (nonlinear_arith);
}

} // verus!

verus! {

/// Time only unlocks more: what is unlocked at `t1` is unlocked at any
/// later `t2`.
pub proof fn lemma_unlocked_monotone(s: Stream, t1: int, t2: int)
    requires
        s.wf(),
        s.start_date <= t1 <= t2,
    ensures
        s.unlocked_at(t1) <= s.unlocked_at(t2),
        s.unlocked_at(t2) <= s.original_balance,
{
    let o = s.original_balance as int;
    let d = s.end_date - s.start_date;
    if t1 <= s.end_date {
        let e1 = t1 - s.start_date;
        lemma_share_split(o, e1, d, o / d, o % d);
        if t2 <= s.end_date {
            let e2 = t2 - s.start_date;
            lemma_share_split(o, e2, d, o / d, o % d);
            lemma_mul_inequality(e1, e2, o);
            assert(o * e1 <= o * e2) by (nonlinear_arith)
                requires
                    e1 * o <= e2 * o,
            ;
            lemma_div_is_ordered(o * e1, o * e2, d);
        }
    }
}

/// A well-formed schedule that can be read at `t1` can be read at any
/// later `t2`.
pub proof fn lemma_readable_later(s: Stream, t1: int, t2: int)
    requires
        s.wf(),
        s.readable_at(t1),
        t1 <= t2,
    ensures
        s.readable_at(t2),
{
    if t1 <= s.end_date {
        lemma_unlocked_monotone(s, t1, t2);
    }
}

/// With nothing withdrawn yet, the available balance between the start and
/// the end is the floor of the original balance times the elapsed share of
/// the duration.
pub proof fn lemma_linear_vesting(s: Stream, t: int)
    requires
        s.wf(),
        s.current_balance == s.original_balance,
        s.start_date <= t <= s.end_date,
    ensures
        s.available_at(t) == (s.original_balance * (t - s.start_date)) / (s.end_date
            - s.start_date),
{
}

/// Once the end date has passed, the whole remaining balance is available.
pub proof fn lemma_full_vest_after_end(s: Stream, t: int)
    requires
        t > s.end_date,
    ensures
        s.available_at(t) == s.current_balance,
{
}

} // verus!
