use crate::account::{Account, Authority, EffectView};
use crate::address::{address_verified, derived_escrow};
use crate::error::VaultError;
use crate::instruct::{
    deposit_outcome, deposit_plan, initialize_outcome, partial_withdraw_outcome, withdraw_plan,
    Pda, DELAY,
};
use crate::process::{process_outcome, NativeVaultInstruction};
use crate::pubkey::Pubkey;
use vstd::prelude::*;

verus! {

/// Dispatch. The bytes that an instruction is written as reach the handler
/// of that instruction, with the amount that was written.
pub proof fn lemma_dispatch(
    program_id: Pubkey,
    accounts: Seq<Account>,
    instruction: NativeVaultInstruction,
    now: i64,
)
    ensures
        process_outcome(program_id, accounts, instruction.encoding(), now) == match instruction {
            NativeVaultInstruction::Initialize => initialize_outcome(program_id, accounts),
            NativeVaultInstruction::Deposit { amount } => deposit_outcome(
                program_id,
                accounts,
                amount,
                now,
            ),
            NativeVaultInstruction::PartialWithdraw => partial_withdraw_outcome(
                program_id,
                accounts,
                now,
            ),
        },
{
    NativeVaultInstruction::lemma_decoding_inverse(instruction.encoding(), instruction);
}

/// The address guard. Neither a deposit nor a withdrawal reads or changes an
/// account that is not the escrow derived for the caller: both are refused
/// with `AddressMismatch`, whatever the account holds.
pub proof fn lemma_address_guard(
    program_id: Pubkey,
    accounts: Seq<Account>,
    amount: u64,
    now: i64,
)
    requires
        accounts.len() >= 3,
        address_verified(accounts[1].key, derived_escrow(accounts[0].key, program_id)) is Err,
    ensures
        deposit_outcome(program_id, accounts, amount, now) == Err::<Seq<EffectView>, VaultError>(
            VaultError::AddressMismatch,
        ),
        partial_withdraw_outcome(program_id, accounts, now) == Err::<Seq<EffectView>, VaultError>(
            VaultError::AddressMismatch,
        ),
{
}

/// A persisted escrow record is never empty and reads back as itself.
pub proof fn lemma_persisted_record(record: Pda)
    ensures
        record.encoding().len() == Pda::LEN,
        Pda::decoding(record.encoding()) == Some(record),
{
    record.lemma_encoding_layout();
    Pda::lemma_decoding_inverse(record.encoding(), record);
}

/// Overflow safety. A deposit that would take the balance out of the range
/// of `u64` is refused, so nothing is persisted and nothing moves. The
/// refusal is `ArithmeticOverflow` whenever no earlier test refuses: the
/// escrow is not finalized and the depositor is its signer.
pub proof fn lemma_deposit_overflow(
    program_id: Pubkey,
    user: Pubkey,
    escrow: Pubkey,
    record: Pda,
    bump: u8,
    amount: u64,
    now: i64,
)
    requires
        record.balance + amount > u64::MAX,
    ensures
        record.credited(user, amount, now) is Err,
        deposit_plan(program_id, user, escrow, record.encoding(), bump, amount, now) is Err,
        !record.done && record.signer == user ==> {
            &&& record.credited(user, amount, now) == Err::<Pda, VaultError>(
                VaultError::ArithmeticOverflow,
            )
            &&& deposit_plan(program_id, user, escrow, record.encoding(), bump, amount, now)
                == Err::<Seq<EffectView>, VaultError>(VaultError::ArithmeticOverflow)
        },
{
    lemma_persisted_record(record);
}

/// An accepted deposit adds exactly `amount` to the balance, stamps the
/// record with `now`, and leaves the signer and the open state as they were;
/// the same amount is what the depositor is asked to transfer.
pub proof fn lemma_deposit_accepted(
    program_id: Pubkey,
    user: Pubkey,
    escrow: Pubkey,
    record: Pda,
    bump: u8,
    amount: u64,
    now: i64,
)
    requires
        !record.done,
        record.signer == user,
        record.balance + amount <= u64::MAX,
    ensures
        record.credited(user, amount, now) == Ok::<Pda, VaultError>(
            Pda {
                signer: record.signer,
                balance: (record.balance + amount) as u64,
                deposit_time: now,
                done: false,
            },
        ),
        deposit_plan(program_id, user, escrow, record.encoding(), bump, amount, now) == Ok::<
            Seq<EffectView>,
            VaultError,
        >(
            seq![
                EffectView::Store {
                    account: escrow,
                    data: record.credited(user, amount, now)->Ok_0.encoding(),
                },
                EffectView::Transfer { from: user, to: escrow, amount, authority: None },
            ],
        ),
{
    lemma_persisted_record(record);
}

/// The first deposit into an escrow that does not exist yet cannot be
/// refused: the escrow is created for the depositor, and the record persisted
/// in it holds `amount` and the time `now`.
pub proof fn lemma_first_deposit(
    program_id: Pubkey,
    user: Pubkey,
    escrow: Pubkey,
    bump: u8,
    amount: u64,
    now: i64,
)
    ensures
        deposit_plan(program_id, user, escrow, Seq::empty(), bump, amount, now) == Ok::<
            Seq<EffectView>,
            VaultError,
        >(
            seq![
                EffectView::CreateAccount {
                    payer: user,
                    account: escrow,
                    space: Pda::LEN as u64,
                    owner: program_id,
                    authority: Some(Authority { owner: user, bump }),
                },
                EffectView::Store {
                    account: escrow,
                    data: (Pda { signer: user, balance: amount, deposit_time: now, done: false })
                        .encoding(),
                },
                EffectView::Transfer { from: user, to: escrow, amount, authority: None },
            ],
        ),
{
    let plan = deposit_plan(program_id, user, escrow, Seq::empty(), bump, amount, now);
    assert(Pda::opened(user).credited(user, amount, now) == Ok::<Pda, VaultError>(
        Pda { signer: user, balance: amount, deposit_time: now, done: false },
    ));
    assert(plan is Ok);
    assert(plan->Ok_0 =~= seq![
        EffectView::CreateAccount {
            payer: user,
            account: escrow,
            space: Pda::LEN as u64,
            owner: program_id,
            authority: Some(Authority { owner: user, bump }),
        },
        EffectView::Store {
            account: escrow,
            data: (Pda { signer: user, balance: amount, deposit_time: now, done: false })
                .encoding(),
        },
        EffectView::Transfer { from: user, to: escrow, amount, authority: None },
    ]);
}

/// The time lock. The signer's withdrawal from an open escrow is refused
/// with `TimeLockNotElapsed` exactly while fewer than `DELAY` time units have
/// passed since the deposit: one unit short of `DELAY` it is refused, at
/// `DELAY` it is not, and with a balance of ten or more it then succeeds.
pub proof fn lemma_time_lock(user: Pubkey, escrow: Pubkey, record: Pda, bump: u8, now: i64)
    requires
        !record.done,
        record.signer == user,
    ensures
        record.released(user, now) == Err::<(Pda, u64), VaultError>(
            VaultError::TimeLockNotElapsed,
        ) <==> now - record.deposit_time < DELAY,
        withdraw_plan(user, escrow, record.encoding(), bump, now) == Err::<
            Seq<EffectView>,
            VaultError,
        >(VaultError::TimeLockNotElapsed) <==> now - record.deposit_time < DELAY,
        now - record.deposit_time == DELAY - 1 ==> withdraw_plan(
            user,
            escrow,
            record.encoding(),
            bump,
            now,
        ) == Err::<Seq<EffectView>, VaultError>(VaultError::TimeLockNotElapsed),
        now - record.deposit_time == DELAY && record.balance >= 10 ==> withdraw_plan(
            user,
            escrow,
            record.encoding(),
            bump,
            now,
        ) is Ok,
{
    lemma_persisted_record(record);
}

/// The terminal state. Once an escrow is finalized every deposit is refused
/// with `AlreadyFinalized`, whoever makes it, and every withdrawal is
/// refused: with `AlreadyFinalized` when the signer asks, and with
/// `Unauthorized` when another identity does, whose request is turned away
/// before the state is looked at.
pub proof fn lemma_finalized_is_terminal(
    program_id: Pubkey,
    caller: Pubkey,
    escrow: Pubkey,
    record: Pda,
    bump: u8,
    amount: u64,
    now: i64,
)
    requires
        record.done,
    ensures
        record.credited(caller, amount, now) == Err::<Pda, VaultError>(
            VaultError::AlreadyFinalized,
        ),
        deposit_plan(program_id, caller, escrow, record.encoding(), bump, amount, now) == Err::<
            Seq<EffectView>,
            VaultError,
        >(VaultError::AlreadyFinalized),
        record.released(caller, now) == Err::<(Pda, u64), VaultError>(
            if caller == record.signer {
                VaultError::AlreadyFinalized
            } else {
                VaultError::Unauthorized
            },
        ),
        withdraw_plan(caller, escrow, record.encoding(), bump, now) == Err::<
            Seq<EffectView>,
            VaultError,
        >(
            if caller == record.signer {
                VaultError::AlreadyFinalized
            } else {
                VaultError::Unauthorized
            },
        ),
{
    lemma_persisted_record(record);
}

/// The zero-withdrawal guard. With a balance below ten a tenth rounds down
/// to nothing: the signer's withdrawal from an open escrow whose lock has
/// elapsed is refused with `InsufficientFunds`, and the escrow stays open.
pub proof fn lemma_small_balance(user: Pubkey, escrow: Pubkey, record: Pda, bump: u8, now: i64)
    requires
        record.balance < 10,
        !record.done,
        record.signer == user,
        now - record.deposit_time >= DELAY,
    ensures
        record.released(user, now) == Err::<(Pda, u64), VaultError>(
            VaultError::InsufficientFunds,
        ),
        withdraw_plan(user, escrow, record.encoding(), bump, now) == Err::<
            Seq<EffectView>,
            VaultError,
        >(VaultError::InsufficientFunds),
{
    lemma_persisted_record(record);
}

/// An accepted withdrawal pays out a tenth of the balance, rounded down and
/// never zero, keeps the rest in the escrow, keeps signer and deposit time,
/// and finalizes the escrow: what leaves and what stays add up to what was
/// there.
pub proof fn lemma_withdrawal_accepted(
    user: Pubkey,
    escrow: Pubkey,
    record: Pda,
    bump: u8,
    now: i64,
)
    requires
        record.released(user, now) is Ok,
    ensures
        ({
            let (next, withdrawal) = record.released(user, now)->Ok_0;
            &&& withdrawal == record.balance / 10
            &&& withdrawal > 0
            &&& next.balance + withdrawal == record.balance
            &&& next.signer == record.signer
            &&& next.deposit_time == record.deposit_time
            &&& next.done
            &&& withdraw_plan(user, escrow, record.encoding(), bump, now) == Ok::<
                Seq<EffectView>,
                VaultError,
            >(
                seq![
                    EffectView::Store { account: escrow, data: next.encoding() },
                    EffectView::Transfer {
                        from: escrow,
                        to: user,
                        amount: withdrawal,
                        authority: Some(Authority { owner: user, bump }),
                    },
                ],
            )
        }),
{
    lemma_persisted_record(record);
}

/// One withdrawal is the last operation: after an accepted withdrawal, no
/// deposit and no withdrawal by anyone is accepted again.
pub proof fn lemma_withdrawal_is_final(
    record: Pda,
    user: Pubkey,
    now: i64,
    caller: Pubkey,
    amount: u64,
    later: i64,
)
    requires
        record.released(user, now) is Ok,
    ensures
        record.released(user, now)->Ok_0.0.credited(caller, amount, later) is Err,
        record.released(user, now)->Ok_0.0.released(caller, later) is Err,
{
}

} // verus!
