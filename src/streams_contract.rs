use std::collections::HashMap;

use vstd::prelude::*;

use crate::account::AccountId;
use crate::errors::ContractError;
use crate::stream::{Stream, lemma_readable_later};
use crate::utils::{
    creation_parameters_result, end_date_fits, resolved_end_date,
    validate_and_generate_stream_end_date, validate_recipient_withdrawal_amount,
    validate_stream_creation_parameters,
};

verus! {

/// What a lookup of `stream_id` among `streams` gives.
pub open spec fn stream_lookup(streams: Map<u64, Stream>, stream_id: u64) -> Result<
    Stream,
    ContractError,
> {
    if streams.contains_key(stream_id) {
        Ok(streams[stream_id])
    } else {
        Err(ContractError::StreamDoesNotExist)
    }
}

/// The stream that a creation request makes at `start_date`, or the first
/// error among its checks.
pub open spec fn creation_result(
    caller: AccountId,
    recipient: AccountId,
    funds: u128,
    start_date: u64,
    end_date: Option<u64>,
    duration: Option<u64>,
) -> Result<Stream, ContractError> {
    match creation_parameters_result(caller, recipient, funds) {
        Err(e) => Err(e),
        Ok(_) => match resolved_end_date(end_date, duration, start_date) {
            Err(e) => Err(e),
            Ok(end) => Ok(
                Stream {
                    payer: caller,
                    recipient,
                    original_balance: funds,
                    current_balance: funds,
                    start_date,
                    end_date: end,
                },
            ),
        },
    }
}

/// The amount that a withdrawal request takes out at `current_time`, or the
/// first error among its checks.
pub open spec fn withdrawal_result(
    streams: Map<u64, Stream>,
    caller: AccountId,
    current_time: u64,
    stream_id: u64,
    withdrawal_amount: Option<u128>,
) -> Result<u128, ContractError> {
    if withdrawal_amount == Some(0u128) {
        Err(ContractError::WithdrawalAmountShouldBeGreaterThanZero)
    } else if !streams.contains_key(stream_id) {
        Err(ContractError::StreamDoesNotExist)
    } else if caller != streams[stream_id].recipient {
        Err(ContractError::Unauthorized)
    } else {
        let available = streams[stream_id].available_at(current_time as int);
        if available == 0 {
            Err(ContractError::StreamAvailableBalanceIsZero)
        } else {
            let amount = match withdrawal_amount {
                Some(a) => a as int,
                None => available,
            };
            if amount > available {
                Err(ContractError::ExpectedWithdrawalAmountExceedsStreamAvailableBalance)
            } else {
                Ok(amount as u128)
            }
        }
    }
}

/// The stream `s` after `amount` was taken out of it.
pub open spec fn after_withdrawal(s: Stream, amount: u128) -> Stream {
    Stream { current_balance: (s.current_balance - amount) as u128, ..s }
}

/// The registry of all streams, keyed by identifier, with the identifier
/// that the next stream gets.
pub struct StreamsContract {
    /// Account that deployed the registry.
    pub owner: AccountId,
    /// Identifier that the next stream gets; identifiers are never reused.
    next_stream_id: u64,
    /// The streams, keyed by identifier.
    streams: HashMap<u64, Stream>,
    /// Time of the latest request that changed the registry; requests come
    /// in the order of time.
    latest_time: u64,
}

/// `after` is `before` with stream `s` stored under the fresh identifier `id`.
pub open spec fn issued(before: StreamsContract, after: StreamsContract, id: u64, s: Stream) -> bool {
    &&& id == before.next_id()
    &&& after.next_id() == id + 1
    &&& after.streams_map() == before.streams_map().insert(id, s)
    &&& after.owner_account() == before.owner_account()
}

impl StreamsContract {
    /// The account that owns the registry.
    pub closed spec fn owner_account(&self) -> AccountId {
        self.owner
    }

    /// The stored streams.
    pub closed spec fn streams_map(&self) -> Map<u64, Stream> {
        self.streams@
    }

    /// The identifier that the next stream gets.
    pub closed spec fn next_id(&self) -> u64 {
        self.next_stream_id
    }

    /// The time of the latest request that changed the registry.
    pub closed spec fn clock(&self) -> u64 {
        self.latest_time
    }

    /// Identifiers start at one and stay below the next one; each stored
    /// stream is well formed and can be read at the registry's time.
    pub open spec fn wf(&self) -> bool {
        &&& 1 <= self.next_id()
        &&& forall|id: u64| #[trigger]
            self.streams_map().contains_key(id) ==> {
                &&& 1 <= id < self.next_id()
                &&& self.streams_map()[id].wf()
                &&& self.streams_map()[id].readable_at(self.clock() as int)
            }
    }

    /// An empty registry owned by `owner`; the first stream gets identifier one.
    pub fn new(owner: AccountId) -> (r: StreamsContract)
        ensures
            r.wf(),
            r.owner_account() == owner,
            r.next_id() == 1,
            r.streams_map() == Map::<u64, Stream>::empty(),
            r.clock() == 0,
    {
        StreamsContract { owner, next_stream_id: 1, streams: HashMap::new(), latest_time: 0 }
    }

    /// The identifier that the next stream gets.
    pub fn next_stream_id(&self) -> (r: u64)
        ensures
            r == self.next_id(),
    {
        self.next_stream_id
    }

    /// Creates a stream of `transferred_value` from `caller` to `recipient`,
    /// starting at `current_time` and ending at `end_date`, or after
    /// `duration` when no end date is given; gives its identifier.
    pub fn create_stream(
        &mut self,
        caller: AccountId,
        transferred_value: u128,
        current_time: u64,
        recipient: AccountId,
        end_date: Option<u64>,
        duration: Option<u64>,
    ) -> (r: Result<u64, ContractError>)
        requires
            old(self).wf(),
            old(self).clock() <= current_time,
            old(self).next_id() < u64::MAX,
            end_date_fits(end_date, duration, current_time),
        ensures
            final(self).wf(),
            match creation_result(
                caller,
                recipient,
                transferred_value,
                current_time,
                end_date,
                duration,
            ) {
                Ok(s) => {
                    &&& r == Ok::<u64, ContractError>(old(self).next_id())
                    &&& issued(*old(self), *final(self), old(self).next_id(), s)
                    &&& final(self).clock() == current_time
                },
                Err(e) => {
                    &&& r == Err::<u64, ContractError>(e)
                    &&& *final(self) == *old(self)
                },
            },
    {
        validate_stream_creation_parameters(caller, recipient, transferred_value)?;
        let end_date = validate_and_generate_stream_end_date(end_date, duration, current_time)?;
        let new_stream = Stream::new(caller, recipient, transferred_value, current_time, end_date);
        let new_stream_id = self.next_stream_id;
        proof {
            assert forall|id: u64| #[trigger]
                self.streams_map().contains_key(id) implies self.streams_map()[id].readable_at(
                current_time as int,
            ) by {
                lemma_readable_later(self.streams_map()[id], self.clock() as int, current_time as int);
            }
        }
        self.streams.insert(new_stream_id, new_stream);
        self.next_stream_id = self.next_stream_id + 1;
        self.latest_time = current_time;
        proof {
            assert(new_stream.unlocked_at(current_time as int) == 0);
            assert forall|id: u64| #[trigger]
                self.streams_map().contains_key(id) implies {
                &&& 1 <= id < self.next_id()
                &&& self.streams_map()[id].wf()
                &&& self.streams_map()[id].readable_at(self.clock() as int)
            } by {
                if id != new_stream_id {
                    assert(old(self).streams_map().contains_key(id));
                }
            }
        }
        Ok(new_stream_id)
    }

    /// Takes `withdrawal_amount`, or all that is available when none is
    /// given, out of stream `stream_id` for its recipient `caller` at
    /// `current_time`, and gives the amount that must now be transferred to
    /// the recipient.
    pub fn recipient_withdraw(
        &mut self,
        caller: AccountId,
        current_time: u64,
        stream_id: u64,
        withdrawal_amount: Option<u128>,
    ) -> (r: Result<u128, ContractError>)
        requires
            old(self).wf(),
            old(self).clock() <= current_time,
        ensures
            final(self).wf(),
            r == withdrawal_result(
                old(self).streams_map(),
                caller,
                current_time,
                stream_id,
                withdrawal_amount,
            ),
            r matches Ok(amount) ==> {
                &&& final(self).streams_map() == old(self).streams_map().insert(
                    stream_id,
                    after_withdrawal(old(self).streams_map()[stream_id], amount),
                )
                &&& final(self).next_id() == old(self).next_id()
                &&& final(self).owner_account() == old(self).owner_account()
                &&& final(self).clock() == current_time
            },
            r is Err ==> *final(self) == *old(self),
    {
        validate_recipient_withdrawal_amount(withdrawal_amount)?;
        let mut stream = self.get_stream_by_id(stream_id)?;
        stream.has_permission_to_withdraw(caller)?;
        proof {
            lemma_readable_later(stream, self.latest_time as int, current_time as int);
        }
        let available_balance = stream.get_available_balance(current_time)?;
        let amount_to_withdraw = match withdrawal_amount {
            Some(amount) => amount,
            None => available_balance,
        };
        if amount_to_withdraw > available_balance {
            return Err(ContractError::ExpectedWithdrawalAmountExceedsStreamAvailableBalance);
        }
        stream.withdraw(amount_to_withdraw)?;
        proof {
            assert forall|id: u64| #[trigger]
                self.streams_map().contains_key(id) implies self.streams_map()[id].readable_at(
                current_time as int,
            ) by {
                lemma_readable_later(self.streams_map()[id], self.clock() as int, current_time as int);
            }
        }
        self.streams.insert(stream_id, stream);
        self.latest_time = current_time;
        Ok(amount_to_withdraw)
    }

    /// The stream stored under `stream_id`.
    pub fn get_stream_by_id(&self, stream_id: u64) -> (r: Result<Stream, ContractError>)
        ensures
            r == stream_lookup(self.streams_map(), stream_id),
    {
        match self.streams.get(&stream_id) {
            Some(stream) => Ok(*stream),
            None => Err(ContractError::StreamDoesNotExist),
        }
    }
}

/// The outcome of a withdrawal once the transfer of `amount` to the
/// recipient was attempted: the amount, or an error when the transfer
/// failed. The balance stays withdrawn either way.
pub fn settle_withdrawal_transfer(amount: u128, transfer_succeeded: bool) -> (r: Result<
    u128,
    ContractError,
>)
    ensures
        transfer_succeeded ==> r == Ok::<u128, ContractError>(amount),
        !transfer_succeeded ==> r == Err::<u128, ContractError>(
            ContractError::WithdrawTransferFailed,
        ),
{
    if !transfer_succeeded {
        return Err(ContractError::WithdrawTransferFailed);
    }
    Ok(amount)
}

} // verus!

verus! {

/// In every well-formed registry, and so in every one that `new`,
/// `create_stream` and `recipient_withdraw` reach, each stored stream holds
/// between nothing and its original balance.
pub proof fn lemma_balance_within_original(c: StreamsContract, stream_id: u64)
    requires
        c.wf(),
        c.streams_map().contains_key(stream_id),
    ensures
        0 <= c.streams_map()[stream_id].current_balance <= c.streams_map()[stream_id].original_balance,
{
}

/// A read depends on the stored streams alone: two reads with no write
/// between them give the same result.
pub proof fn lemma_read_is_repeatable(a: StreamsContract, b: StreamsContract, stream_id: u64)
    requires
        a.streams_map() == b.streams_map(),
    ensures
        stream_lookup(a.streams_map(), stream_id) == stream_lookup(b.streams_map(), stream_id),
{
}

/// Two successive successful creations hand out strictly increasing
/// identifiers, and neither was in use before; a failed creation between
/// them leaves the registry as it was, so it changes nothing here.
pub proof fn lemma_successive_ids_increase(
    a: StreamsContract,
    b: StreamsContract,
    c: StreamsContract,
    id1: u64,
    id2: u64,
    s1: Stream,
    s2: Stream,
)
    requires
        a.wf(),
        issued(a, b, id1, s1),
        issued(b, c, id2, s2),
    ensures
        id1 < id2,
        !a.streams_map().contains_key(id1),
        !b.streams_map().contains_key(id2),
        c.streams_map().contains_key(id1) && c.streams_map()[id1] == s1,
        c.streams_map().contains_key(id2) && c.streams_map()[id2] == s2,
{
    if a.streams_map().contains_key(id2) {
        assert(id2 < a.next_id());
    }
}

} // verus!
