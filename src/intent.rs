use vstd::prelude::*;

use crate::account::AccountId;
use crate::codec::{le_bytes, option_bytes, push_account, push_le};
use crate::error::Error;
use crate::hasher::{blake2x256_of, identifier_of, Identifier};
use crate::table::Table;

verus! {

/// Milliseconds in a minute.
pub const MILLIS_PER_MINUTE: u64 = 60_000;

/// What an intent declares.
#[derive(Clone, Copy, Debug, PartialEq, Eq, Structural)]
pub enum IntentType {
    Swap,
    Bridge,
    AddLiquidity,
    RemoveLiquidity,
    Stake,
}

/// How urgently an intent should be carried out.
#[derive(Clone, Copy, Debug, PartialEq, Eq, Structural)]
pub enum ExecutionMode {
    Normal,
    Fast,
    Secure,
}

/// A deferred operation declared by `creator`, executable once until `timeout`
/// (milliseconds).
#[derive(Clone, Copy, Debug, PartialEq, Eq)]
pub struct Intent {
    pub intent_type: IntentType,
    pub creator: AccountId,
    pub amount: u128,
    pub timeout: u64,
    pub executed: bool,
    pub target_token: Option<AccountId>,
    pub min_amount_out: Option<u128>,
    pub execution_mode: Option<ExecutionMode>,
}

pub open spec fn intent_type_index(t: IntentType) -> u8 {
    match t {
        IntentType::Swap => 0,
        IntentType::Bridge => 1,
        IntentType::AddLiquidity => 2,
        IntentType::RemoveLiquidity => 3,
        IntentType::Stake => 4,
    }
}

pub open spec fn execution_mode_index(m: ExecutionMode) -> u8 {
    match m {
        ExecutionMode::Normal => 0,
        ExecutionMode::Fast => 1,
        ExecutionMode::Secure => 2,
    }
}

/// The encoding of an intent that its identifier is the digest of: the fields
/// in declaration order, a variant as its index byte, a flag as one byte,
/// integers little-endian, an absent optional field as a zero byte and a present
/// one as a one byte before its value.
pub open spec fn intent_bytes(i: Intent) -> Seq<u8> {
    seq![intent_type_index(i.intent_type)] + i.creator.bytes@ + le_bytes(i.amount as nat, 16)
        + le_bytes(i.timeout as nat, 8) + seq![
        if i.executed {
            1u8
        } else {
            0u8
        },
    ] + option_bytes(
        i.target_token is Some,
        match i.target_token {
            Some(a) => a.bytes@,
            None => Seq::empty(),
        },
    ) + option_bytes(
        i.min_amount_out is Some,
        match i.min_amount_out {
            Some(v) => le_bytes(v as nat, 16),
            None => Seq::empty(),
        },
    ) + option_bytes(
        i.execution_mode is Some,
        match i.execution_mode {
            Some(m) => seq![execution_mode_index(m)],
            None => Seq::empty(),
        },
    )
}

/// The absolute timeout `minutes` after `now`, capped at the largest timestamp.
pub open spec fn timeout_after(now: u64, minutes: u64) -> u64 {
    let t = now + minutes * MILLIS_PER_MINUTE;
    if t > u64::MAX {
        u64::MAX
    } else {
        t as u64
    }
}

/// The identifier of intent `i`.
pub open spec fn intent_id(i: Intent) -> Seq<u8> {
    blake2x256_of(intent_bytes(i))
}

/// Intents stored under their identifiers.
pub struct IntentBook {
    intents: Table<Identifier, Intent>,
}

/// Appends the encoding of an optional account to `out`.
fn push_opt_account(out: &mut Vec<u8>, a: Option<AccountId>)
    ensures
        final(out)@ == old(out)@ + option_bytes(
            a is Some,
            match a {
                Some(a) => a.bytes@,
                None => Seq::empty(),
            },
        ),
{
    match a {
        Some(a) => {
            out.push(1u8);
            push_account(out, &a);
            assert(out@ =~= old(out)@ + (seq![1u8] + a.bytes@));
        },
        None => {
            out.push(0u8);
            assert(out@ =~= old(out)@ + seq![0u8]);
        },
    }
}

/// Appends the encoding of an optional amount to `out`.
fn push_opt_amount(out: &mut Vec<u8>, v: Option<u128>)
    ensures
        final(out)@ == old(out)@ + option_bytes(
            v is Some,
            match v {
                Some(v) => le_bytes(v as nat, 16),
                None => Seq::empty(),
            },
        ),
{
    match v {
        Some(v) => {
            out.push(1u8);
            push_le(out, v, 16);
            assert(out@ =~= old(out)@ + (seq![1u8] + le_bytes(v as nat, 16)));
        },
        None => {
            out.push(0u8);
            assert(out@ =~= old(out)@ + seq![0u8]);
        },
    }
}

/// Appends the encoding of an optional execution mode to `out`.
fn push_opt_mode(out: &mut Vec<u8>, m: Option<ExecutionMode>)
    ensures
        final(out)@ == old(out)@ + option_bytes(
            m is Some,
            match m {
                Some(m) => seq![execution_mode_index(m)],
                None => Seq::empty(),
            },
        ),
{
    match m {
        Some(m) => {
            let index: u8 = match m {
                ExecutionMode::Normal => 0,
                ExecutionMode::Fast => 1,
                ExecutionMode::Secure => 2,
            };
            out.push(1u8);
            out.push(index);
            assert(out@ =~= old(out)@ + (seq![1u8] + seq![execution_mode_index(m)]));
        },
        None => {
            out.push(0u8);
            assert(out@ =~= old(out)@ + seq![0u8]);
        },
    }
}

/// Writes the encoding of `intent`.
pub fn encode_intent(intent: &Intent) -> (r: Vec<u8>)
    ensures
        r@ == intent_bytes(*intent),
{
    let mut out: Vec<u8> = Vec::new();
    let index: u8 = match intent.intent_type {
        IntentType::Swap => 0,
        IntentType::Bridge => 1,
        IntentType::AddLiquidity => 2,
        IntentType::RemoveLiquidity => 3,
        IntentType::Stake => 4,
    };
    out.push(index);
    assert(out@ =~= seq![intent_type_index(intent.intent_type)]);
    push_account(&mut out, &intent.creator);
    push_le(&mut out, intent.amount, 16);
    push_le(&mut out, intent.timeout as u128, 8);
    let flag: u8 = if intent.executed {
        1
    } else {
        0
    };
    out.push(flag);
    let ghost head = out@;
    assert(head =~= seq![intent_type_index(intent.intent_type)] + intent.creator.bytes@
        + le_bytes(intent.amount as nat, 16) + le_bytes(intent.timeout as nat, 8) + seq![flag]);
    push_opt_account(&mut out, intent.target_token);
    push_opt_amount(&mut out, intent.min_amount_out);
    push_opt_mode(&mut out, intent.execution_mode);
    assert(out@ =~= intent_bytes(*intent));
    out
}

/// The not yet executed intent that `caller` declares at time `now` (milliseconds),
/// expiring `timeout_minutes` later.
pub fn new_intent(
    caller: AccountId,
    intent_type: IntentType,
    amount: u128,
    timeout_minutes: u64,
    target_token: Option<AccountId>,
    min_amount_out: Option<u128>,
    execution_mode: Option<ExecutionMode>,
    now: u64,
) -> (r: Intent)
    ensures
        r == (Intent {
            intent_type,
            creator: caller,
            amount,
            timeout: timeout_after(now, timeout_minutes),
            executed: false,
            target_token,
            min_amount_out,
            execution_mode,
        }),
{
    let gap = u64::MAX - now;
    let room = gap / MILLIS_PER_MINUTE;
    proof {
        vstd::arithmetic::div_mod::lemma_fundamental_div_mod(gap as int, 60_000);
    }
    let timeout = if timeout_minutes > room {
        proof {
            let (m, q): (int, int) = (timeout_minutes as int, room as int);
            assert(m * 60_000 >= (q + 1) * 60_000) by (nonlinear_arith)
                requires
                    m >= q + 1,
            ;
        }
        u64::MAX
    } else {
        proof {
            let (m, q): (int, int) = (timeout_minutes as int, room as int);
            assert(m * 60_000 <= q * 60_000) by (nonlinear_arith)
                requires
                    m <= q,
            ;
        }
        now + timeout_minutes * MILLIS_PER_MINUTE
    };
    Intent {
        intent_type,
        creator: caller,
        amount,
        timeout,
        executed: false,
        target_token,
        min_amount_out,
        execution_mode,
    }
}

impl IntentBook {
    /// The stored intents by identifier.
    pub closed spec fn stored(&self) -> Map<Identifier, Intent> {
        self.intents@
    }

    pub closed spec fn wf(&self) -> bool {
        self.intents.wf()
    }

    /// What executing the intent stored under `id` at time `now` reports.
    pub open spec fn execution_outcome(&self, id: Identifier, now: u64) -> Result<(), Error> {
        if !self.stored().contains_key(id) {
            Err(Error::IntentNotFound)
        } else if self.stored()[id].executed {
            Err(Error::IntentAlreadyExecuted)
        } else if now > self.stored()[id].timeout {
            Err(Error::IntentExpired)
        } else {
            Ok(())
        }
    }

    /// `self` is `before` with the intent under `id` marked executed.
    pub open spec fn is_execution_of(&self, before: &IntentBook, id: Identifier) -> bool {
        &&& before.stored().contains_key(id)
        &&& self.stored() == before.stored().insert(
            id,
            Intent { executed: true, ..before.stored()[id] },
        )
    }

    /// No intents.
    pub fn new() -> (b: IntentBook)
        ensures
            b.wf(),
            b.stored() == Map::<Identifier, Intent>::empty(),
    {
        IntentBook { intents: Table::new() }
    }

    /// The intent stored under `id`, if any.
    pub fn get_intent(&self, id: &Identifier) -> (r: Option<Intent>)
        requires
            self.wf(),
        ensures
            r == if self.stored().contains_key(*id) {
                Some(self.stored()[*id])
            } else {
                None
            },
    {
        match self.intents.get(id) {
            Some(i) => Some(*i),
            None => None,
        }
    }

    /// Stores `intent` under `id`, replacing an intent stored there before.
    pub fn record_intent(&mut self, id: Identifier, intent: Intent)
        requires
            old(self).wf(),
        ensures
            final(self).wf(),
            final(self).stored() == old(self).stored().insert(id, intent),
    {
        self.intents.insert(id, intent);
    }

    /// Declares an intent of `caller` at time `now` (milliseconds), expiring
    /// `timeout_minutes` later, stores it under its identifier and returns that
    /// identifier. An intent with the same fields stored earlier is replaced.
    pub fn create_intent(
        &mut self,
        caller: AccountId,
        intent_type: IntentType,
        amount: u128,
        timeout_minutes: u64,
        target_token: Option<AccountId>,
        min_amount_out: Option<u128>,
        execution_mode: Option<ExecutionMode>,
        now: u64,
    ) -> (r: Identifier)
        requires
            old(self).wf(),
        ensures
            final(self).wf(),
            ({
                let intent = Intent {
                    intent_type,
                    creator: caller,
                    amount,
                    timeout: timeout_after(now, timeout_minutes),
                    executed: false,
                    target_token,
                    min_amount_out,
                    execution_mode,
                };
                &&& r@ == intent_id(intent)
                &&& final(self).stored() == old(self).stored().insert(r, intent)
            }),
    {
        let intent = new_intent(
            caller,
            intent_type,
            amount,
            timeout_minutes,
            target_token,
            min_amount_out,
            execution_mode,
            now,
        );
        let id = identifier_of(&encode_intent(&intent));
        self.record_intent(id, intent);
        id
    }

    /// Marks the intent stored under `id` executed, at time `now` (milliseconds).
    ///
    /// Fails with `IntentNotFound` when there is none, else with
    /// `IntentAlreadyExecuted` when it was executed before, else with
    /// `IntentExpired` when `now` is past its timeout; a failure changes nothing.
    pub fn execute_intent(&mut self, id: &Identifier, now: u64) -> (r: Result<(), Error>)
        requires
            old(self).wf(),
        ensures
            final(self).wf(),
            r == old(self).execution_outcome(*id, now),
            r is Ok ==> final(self).is_execution_of(old(self), *id),
            r is Err ==> *final(self) == *old(self),
    {
        let intent = match self.intents.get(id) {
            Some(i) => *i,
            None => {
                return Err(Error::IntentNotFound);
            },
        };
        if intent.executed {
            return Err(Error::IntentAlreadyExecuted);
        }
        if now > intent.timeout {
            return Err(Error::IntentExpired);
        }
        self.intents.insert(*id, Intent { executed: true, ..intent });
        Ok(())
    }

    /// Once an execution has succeeded, executing the same intent again fails
    /// with `IntentAlreadyExecuted`, whenever it is tried.
    pub proof fn lemma_no_double_execution(
        before: &IntentBook,
        after: &IntentBook,
        id: Identifier,
        now: u64,
        later: u64,
    )
        requires
            before.execution_outcome(id, now) is Ok,
            after.is_execution_of(before, id),
        ensures
            after.execution_outcome(id, later) == Err::<(), Error>(Error::IntentAlreadyExecuted),
    {
    }

    /// An intent whose timeout has passed fails with `IntentExpired` at every
    /// later attempt too; as a failed execution changes nothing, it is never
    /// marked executed.
    pub proof fn lemma_expiry_is_permanent(book: &IntentBook, id: Identifier, now: u64, later: u64)
        requires
            book.stored().contains_key(id),
            !book.stored()[id].executed,
            book.stored()[id].timeout < now,
            now <= later,
        ensures
            book.execution_outcome(id, now) == Err::<(), Error>(Error::IntentExpired),
            book.execution_outcome(id, later) == Err::<(), Error>(Error::IntentExpired),
    {
    }
}

} // verus!
