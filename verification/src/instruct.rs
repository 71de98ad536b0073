use crate::codec::{
    bool_encoding, i64_encoding, lemma_i64_encoding, lemma_i64_of, lemma_u64_encoding,
    lemma_u64_of, read_i64, read_u64, u64_encoding, write_bool, write_i64, write_u64,
};
use crate::account::{effects_view, outcome_view, Account, Authority, Effect, EffectView};
use crate::address::{address_verified, derived_escrow, verify_escrow_address};
use crate::error::VaultError;
use crate::pubkey::{on_curve, Pubkey};
use vstd::prelude::*;

verus! {

/// How long a deposit stays locked, in the clock's time units.
pub const DELAY: i64 = 10;

/// The domain tag of every escrow address: the ASCII bytes of `SOL_VAULT`.
pub const TAG_SOL_VAULT: [u8; 9] = [0x53, 0x4f, 0x4c, 0x5f, 0x56, 0x41, 0x55, 0x4c, 0x54];

/// The record of a vault account: whom the vault belongs to.
#[derive(Clone, Copy, Debug, PartialEq, Eq)]
pub struct Vault {
    pub owner: Pubkey,
}

/// The record of an escrow account.
#[derive(Clone, Copy, Debug, PartialEq, Eq)]
pub struct Pda {
    /// The identity that made the first deposit; never reassigned.
    pub signer: Pubkey,
    /// What the escrow holds, in native value units.
    pub balance: u64,
    /// The clock's reading at the latest deposit.
    pub deposit_time: i64,
    /// Set by the one withdrawal; nothing changes the record afterwards.
    pub done: bool,
}

impl Vault {
    /// The length of a persisted vault record.
    pub const LEN: usize = 32;

    /// The persisted record: the owner's 32 bytes.
    pub open spec fn encoding(self) -> Seq<u8> {
        self.owner@
    }

    /// The record that `bytes` persist, if they persist one.
    pub open spec fn decoding(bytes: Seq<u8>) -> Option<Vault> {
        if exists|vault: Vault| vault.encoding() == bytes {
            Some(choose|vault: Vault| vault.encoding() == bytes)
        } else {
            None
        }
    }

    /// Records are told apart by their bytes.
    pub proof fn lemma_encoding_injective(a: Vault, b: Vault)
        requires
            a.encoding() == b.encoding(),
        ensures
            a == b,
    {
        Pubkey::lemma_eq_by_view(a.owner, b.owner);
    }

    /// Exactly the byte strings of length 32 persist a vault record.
    pub proof fn lemma_decoding_some(bytes: Seq<u8>)
        ensures
            Vault::decoding(bytes) is Some <==> bytes.len() == Vault::LEN,
    {
        if bytes.len() == Vault::LEN {
            let key = Pubkey::lemma_key_of(bytes);
            assert((Vault { owner: key }).encoding() == bytes);
        }
    }

    /// Reading gives `vault` exactly for the bytes that `vault` is written as.
    pub proof fn lemma_decoding_inverse(bytes: Seq<u8>, vault: Vault)
        ensures
            Vault::decoding(bytes) == Some(vault) <==> vault.encoding() == bytes,
    {
        if vault.encoding() == bytes {
            Vault::lemma_encoding_injective(Vault::decoding(bytes)->0, vault);
        }
    }

    /// The persisted form of the record.
    pub fn to_bytes(&self) -> (r: Vec<u8>)
        ensures
            r@ == self.encoding(),
    {
        self.owner.to_vec()
    }

    /// Reads a persisted record. The bytes must be the record and nothing
    /// more.
    pub fn try_from_slice(bytes: &[u8]) -> (r: Result<Vault, VaultError>)
        ensures
            r == match Vault::decoding(bytes@) {
                Some(vault) => Ok::<Vault, VaultError>(vault),
                None => Err(VaultError::MalformedInstruction),
            },
    {
        if bytes.len() != Vault::LEN {
            proof {
                Vault::lemma_decoding_some(bytes@);
            }
            return Err(VaultError::MalformedInstruction);
        }
        let vault = Vault { owner: Pubkey::read(bytes, 0) };
        proof {
            assert(bytes@.subrange(0, 32) =~= bytes@);
            Vault::lemma_decoding_inverse(bytes@, vault);
        }
        Ok(vault)
    }
}

impl Pda {
    /// The length of a persisted escrow record.
    pub const LEN: usize = 49;

    /// The persisted record: the signer's 32 bytes, the balance and the
    /// deposit time in eight little-endian bytes each, and one byte for
    /// `done`.
    pub open spec fn encoding(self) -> Seq<u8> {
        self.signer@ + u64_encoding(self.balance) + i64_encoding(self.deposit_time)
            + bool_encoding(self.done)
    }

    /// The record that `bytes` persist, if they persist one.
    pub open spec fn decoding(bytes: Seq<u8>) -> Option<Pda> {
        if exists|pda: Pda| pda.encoding() == bytes {
            Some(choose|pda: Pda| pda.encoding() == bytes)
        } else {
            None
        }
    }

    /// Where each field lies in the persisted record.
    pub proof fn lemma_encoding_layout(self)
        ensures
            self.encoding().len() == Pda::LEN,
            self.encoding().subrange(0, 32) == self.signer@,
            self.encoding().subrange(32, 40) == u64_encoding(self.balance),
            self.encoding().subrange(40, 48) == i64_encoding(self.deposit_time),
            self.encoding()[48] == (if self.done { 1u8 } else { 0u8 }),
    {
        lemma_u64_encoding(self.balance, self.balance);
        lemma_i64_encoding(self.deposit_time, self.deposit_time);
        let bytes = self.encoding();
        assert(bytes.subrange(0, 32) =~= self.signer@);
        assert(bytes.subrange(32, 40) =~= u64_encoding(self.balance));
        assert(bytes.subrange(40, 48) =~= i64_encoding(self.deposit_time));
    }

    /// Records are told apart by their bytes.
    pub proof fn lemma_encoding_injective(a: Pda, b: Pda)
        requires
            a.encoding() == b.encoding(),
        ensures
            a == b,
    {
        a.lemma_encoding_layout();
        b.lemma_encoding_layout();
        Pubkey::lemma_eq_by_view(a.signer, b.signer);
        lemma_u64_encoding(a.balance, b.balance);
        lemma_i64_encoding(a.deposit_time, b.deposit_time);
    }

    /// Exactly the byte strings of length 49 that end in 0 or 1 persist an
    /// escrow record.
    pub proof fn lemma_decoding_some(bytes: Seq<u8>)
        ensures
            Pda::decoding(bytes) is Some <==> bytes.len() == Pda::LEN && bytes[48] <= 1,
    {
        if bytes.len() == Pda::LEN && bytes[48] <= 1 {
            let pda = Pda {
                signer: Pubkey::lemma_key_of(bytes.subrange(0, 32)),
                balance: lemma_u64_of(bytes.subrange(32, 40)),
                deposit_time: lemma_i64_of(bytes.subrange(40, 48)),
                done: bytes[48] == 1,
            };
            assert(pda.encoding() =~= bytes);
        }
        if Pda::decoding(bytes) is Some {
            Pda::decoding(bytes)->0.lemma_encoding_layout();
        }
    }

    /// Reading gives `pda` exactly for the bytes that `pda` is written as.
    pub proof fn lemma_decoding_inverse(bytes: Seq<u8>, pda: Pda)
        ensures
            Pda::decoding(bytes) == Some(pda) <==> pda.encoding() == bytes,
    {
        if pda.encoding() == bytes {
            Pda::lemma_encoding_injective(Pda::decoding(bytes)->0, pda);
        }
    }

    /// The persisted form of the record.
    pub fn to_bytes(&self) -> (r: Vec<u8>)
        ensures
            r@ == self.encoding(),
    {
        let mut out: Vec<u8> = self.signer.to_vec();
        write_u64(&mut out, self.balance);
        write_i64(&mut out, self.deposit_time);
        write_bool(&mut out, self.done);
        out
    }

    /// Reads a persisted record. The bytes must be the record and nothing
    /// more, and the last byte must be 0 or 1.
    pub fn try_from_slice(bytes: &[u8]) -> (r: Result<Pda, VaultError>)
        ensures
            r == match Pda::decoding(bytes@) {
                Some(pda) => Ok::<Pda, VaultError>(pda),
                None => Err(VaultError::MalformedInstruction),
            },
    {
        proof {
            Pda::lemma_decoding_some(bytes@);
        }
        if bytes.len() != Pda::LEN {
            return Err(VaultError::MalformedInstruction);
        }
        let flag: u8 = bytes[48];
        if flag > 1 {
            return Err(VaultError::MalformedInstruction);
        }
        let pda = Pda {
            signer: Pubkey::read(bytes, 0),
            balance: read_u64(bytes, 32),
            deposit_time: read_i64(bytes, 40),
            done: flag == 1,
        };
        proof {
            assert(pda.encoding() =~= bytes@);
            Pda::lemma_decoding_inverse(bytes@, pda);
        }
        Ok(pda)
    }

    /// The record of an escrow that `signer` has just opened: nothing
    /// deposited, no deposit time, not finalized.
    pub open spec fn opened(signer: Pubkey) -> Pda {
        Pda { signer, balance: 0, deposit_time: 0, done: false }
    }

    /// What a deposit of `amount` by `depositor` at time `now` makes of the
    /// record: the balance grows by `amount` and the deposit time becomes
    /// `now`; or the deposit is refused, first because the escrow is
    /// finalized, then because the depositor is not its signer, then because
    /// the balance would leave the range of `u64`.
    pub open spec fn credited(self, depositor: Pubkey, amount: u64, now: i64) -> Result<
        Pda,
        VaultError,
    > {
        if self.done {
            Err(VaultError::AlreadyFinalized)
        } else if self.signer != depositor {
            Err(VaultError::Unauthorized)
        } else if self.balance + amount > u64::MAX {
            Err(VaultError::ArithmeticOverflow)
        } else {
            Ok(Pda { balance: (self.balance + amount) as u64, deposit_time: now, ..self })
        }
    }

    /// What the withdrawal by `caller` at time `now` makes of the record,
    /// and how much it pays out: a tenth of the balance, rounded down,
    /// leaves, and the escrow is finalized; or the withdrawal is refused,
    /// first because the caller is not the signer, then because the escrow
    /// is finalized, then because fewer than `DELAY` time units have passed
    /// since the deposit, then because the tenth is zero.
    pub open spec fn released(self, caller: Pubkey, now: i64) -> Result<(Pda, u64), VaultError> {
        if self.signer != caller {
            Err(VaultError::Unauthorized)
        } else if self.done {
            Err(VaultError::AlreadyFinalized)
        } else if now - self.deposit_time < DELAY {
            Err(VaultError::TimeLockNotElapsed)
        } else if self.balance / 10 == 0 {
            Err(VaultError::InsufficientFunds)
        } else {
            Ok(
                (
                    Pda { balance: (self.balance - self.balance / 10) as u64, done: true, ..self },
                    self.balance / 10,
                ),
            )
        }
    }

    /// Opens an escrow for `signer`.
    pub fn new(signer: Pubkey) -> (r: Pda)
        ensures
            r == Pda::opened(signer),
    {
        Pda { signer, balance: 0, deposit_time: 0, done: false }
    }

    /// Deposits `amount` at time `now`. A refused deposit leaves the record
    /// as it was.
    pub fn credit(&mut self, depositor: &Pubkey, amount: u64, now: i64) -> (r: Result<
        (),
        VaultError,
    >)
        ensures
            match old(self).credited(*depositor, amount, now) {
                Ok(next) => r is Ok && *final(self) == next,
                Err(error) => r == Err::<(), VaultError>(error) && *final(self) == *old(self),
            },
    {
        if self.done {
            return Err(VaultError::AlreadyFinalized);
        }
        if self.signer != *depositor {
            return Err(VaultError::Unauthorized);
        }
        match self.balance.checked_add(amount) {
            Some(balance) => {
                self.balance = balance;
                self.deposit_time = now;
                Ok(())
            },
            None => Err(VaultError::ArithmeticOverflow),
        }
    }

    /// Withdraws a tenth of the balance at time `now` and returns it. A
    /// refused withdrawal leaves the record as it was.
    pub fn release(&mut self, caller: &Pubkey, now: i64) -> (r: Result<u64, VaultError>)
        ensures
            match old(self).released(*caller, now) {
                Ok((next, withdrawal)) => r == Ok::<u64, VaultError>(withdrawal) && *final(self)
                    == next,
                Err(error) => r == Err::<u64, VaultError>(error) && *final(self) == *old(self),
            },
    {
        if self.signer != *caller {
            return Err(VaultError::Unauthorized);
        }
        if self.done {
            return Err(VaultError::AlreadyFinalized);
        }
        if (now as i128) - (self.deposit_time as i128) < (DELAY as i128) {
            return Err(VaultError::TimeLockNotElapsed);
        }
        let withdrawal: u64 = self.balance / 10;
        if withdrawal == 0 {
            return Err(VaultError::InsufficientFunds);
        }
        match self.balance.checked_sub(withdrawal) {
            Some(balance) => {
                self.balance = balance;
                self.done = true;
                Ok(withdrawal)
            },
            None => Err(VaultError::ArithmeticOverflow),
        }
    }
}

/// The effects of setting up the vault account `vault` for `user`: the
/// account is created with room for one vault record, then the record that
/// names `user` as owner is persisted in it.
pub open spec fn initialize_plan(program_id: Pubkey, user: Pubkey, vault: Pubkey) -> Seq<
    EffectView,
> {
    seq![
        EffectView::CreateAccount {
            payer: user,
            account: vault,
            space: Vault::LEN as u64,
            owner: program_id,
            authority: None,
        },
        EffectView::Store { account: vault, data: (Vault { owner: user }).encoding() },
    ]
}

/// The effects of a deposit of `amount` by `user` at time `now` into the
/// escrow account `escrow`, whose persisted bytes are `data` and whose bump
/// seed is `bump`. An escrow without bytes is created first and starts from
/// the opened record; otherwise `data` must persist a record. The credited
/// record is persisted, then `amount` moves from `user` to the escrow.
pub open spec fn deposit_plan(
    program_id: Pubkey,
    user: Pubkey,
    escrow: Pubkey,
    data: Seq<u8>,
    bump: u8,
    amount: u64,
    now: i64,
) -> Result<Seq<EffectView>, VaultError> {
    let fresh = data.len() == 0;
    let found = if fresh {
        Some(Pda::opened(user))
    } else {
        Pda::decoding(data)
    };
    match found {
        None => Err(VaultError::MalformedInstruction),
        Some(record) => match record.credited(user, amount, now) {
            Err(error) => Err(error),
            Ok(next) => {
                let update = seq![
                    EffectView::Store { account: escrow, data: next.encoding() },
                    EffectView::Transfer { from: user, to: escrow, amount, authority: None },
                ];
                if fresh {
                    Ok(
                        seq![
                            EffectView::CreateAccount {
                                payer: user,
                                account: escrow,
                                space: Pda::LEN as u64,
                                owner: program_id,
                                authority: Some(Authority { owner: user, bump }),
                            },
                        ] + update,
                    )
                } else {
                    Ok(update)
                }
            },
        },
    }
}

/// The effects of the withdrawal by `user` at time `now` from the escrow
/// account `escrow`, whose persisted bytes are `data` and whose bump seed is
/// `bump`: the released record is persisted, then the withdrawn tenth moves
/// from the escrow to `user` under the program's authority.
pub open spec fn withdraw_plan(user: Pubkey, escrow: Pubkey, data: Seq<u8>, bump: u8, now: i64)
    -> Result<Seq<EffectView>, VaultError> {
    match Pda::decoding(data) {
        None => Err(VaultError::MalformedInstruction),
        Some(record) => match record.released(user, now) {
            Err(error) => Err(error),
            Ok((next, withdrawal)) => Ok(
                seq![
                    EffectView::Store { account: escrow, data: next.encoding() },
                    EffectView::Transfer {
                        from: escrow,
                        to: user,
                        amount: withdrawal,
                        authority: Some(Authority { owner: user, bump }),
                    },
                ],
            ),
        },
    }
}

/// What `initialize` returns for these accounts.
pub open spec fn initialize_outcome(program_id: Pubkey, accounts: Seq<Account>) -> Result<
    Seq<EffectView>,
    VaultError,
> {
    if accounts.len() < 3 {
        Err(VaultError::NotEnoughAccountKeys)
    } else {
        Ok(initialize_plan(program_id, accounts[0].key, accounts[1].key))
    }
}

/// What `deposit` returns for these accounts: the escrow account must be
/// the one derived for the depositor before anything is read from it.
pub open spec fn deposit_outcome(
    program_id: Pubkey,
    accounts: Seq<Account>,
    amount: u64,
    now: i64,
) -> Result<Seq<EffectView>, VaultError> {
    if accounts.len() < 3 {
        Err(VaultError::NotEnoughAccountKeys)
    } else {
        match address_verified(accounts[1].key, derived_escrow(accounts[0].key, program_id)) {
            Err(error) => Err(error),
            Ok(bump) => deposit_plan(
                program_id,
                accounts[0].key,
                accounts[1].key,
                accounts[1].data@,
                bump,
                amount,
                now,
            ),
        }
    }
}

/// What `partial_withdraw` returns for these accounts: the escrow account
/// must be the one derived for the caller before anything is read from it.
pub open spec fn partial_withdraw_outcome(program_id: Pubkey, accounts: Seq<Account>, now: i64)
    -> Result<Seq<EffectView>, VaultError> {
    if accounts.len() < 3 {
        Err(VaultError::NotEnoughAccountKeys)
    } else {
        match address_verified(accounts[1].key, derived_escrow(accounts[0].key, program_id)) {
            Err(error) => Err(error),
            Ok(bump) => withdraw_plan(
                accounts[0].key,
                accounts[1].key,
                accounts[1].data@,
                bump,
                now,
            ),
        }
    }
}

/// Sets up a vault. `accounts` names the funding identity, the vault account
/// to create and the system program, in this order.
pub fn initialize(program_id: &Pubkey, accounts: &[Account]) -> (r: Result<
    Vec<Effect>,
    VaultError,
>)
    ensures
        outcome_view(r) == initialize_outcome(*program_id, accounts@),
{
    if accounts.len() < 3 {
        return Err(VaultError::NotEnoughAccountKeys);
    }
    let user: Pubkey = accounts[0].key;
    let vault: Pubkey = accounts[1].key;
    let record = Vault { owner: user };
    let mut effects: Vec<Effect> = Vec::with_capacity(2);
    effects.push(
        Effect::CreateAccount {
            payer: user,
            account: vault,
            space: Vault::LEN as u64,
            owner: *program_id,
            authority: None,
        },
    );
    effects.push(Effect::Store { account: vault, data: record.to_bytes() });
    assert(effects_view(effects@) =~= initialize_plan(*program_id, user, vault));
    Ok(effects)
}

/// Deposits into an escrow whose address has been verified and whose bump
/// seed is `bump`.
pub fn deposit_into(
    program_id: &Pubkey,
    user: &Pubkey,
    escrow: &Account,
    bump: u8,
    amount: u64,
    now: i64,
) -> (r: Result<Vec<Effect>, VaultError>)
    ensures
        outcome_view(r) == deposit_plan(
            *program_id,
            *user,
            escrow.key,
            escrow.data@,
            bump,
            amount,
            now,
        ),
{
    let fresh: bool = escrow.data.len() == 0;
    let mut effects: Vec<Effect> = Vec::with_capacity(3);
    let mut record: Pda = if fresh {
        Pda::new(*user)
    } else {
        match Pda::try_from_slice(escrow.data.as_slice()) {
            Ok(record) => record,
            Err(error) => {
                return Err(error);
            },
        }
    };
    match record.credit(user, amount, now) {
        Ok(()) => {},
        Err(error) => {
            return Err(error);
        },
    }
    if fresh {
        effects.push(
            Effect::CreateAccount {
                payer: *user,
                account: escrow.key,
                space: Pda::LEN as u64,
                owner: *program_id,
                authority: Some(Authority { owner: *user, bump }),
            },
        );
    }
    effects.push(Effect::Store { account: escrow.key, data: record.to_bytes() });
    effects.push(Effect::Transfer { from: *user, to: escrow.key, amount, authority: None });
    proof {
        let update = seq![
            EffectView::Store { account: escrow.key, data: record.encoding() },
            EffectView::Transfer { from: *user, to: escrow.key, amount, authority: None },
        ];
        if fresh {
            let create = EffectView::CreateAccount {
                payer: *user,
                account: escrow.key,
                space: Pda::LEN as u64,
                owner: *program_id,
                authority: Some(Authority { owner: *user, bump }),
            };
            assert(effects_view(effects@) =~= seq![create] + update);
        } else {
            assert(effects_view(effects@) =~= update);
        }
    }
    Ok(effects)
}

/// Withdraws from an escrow whose address has been verified and whose bump
/// seed is `bump`.
pub fn withdraw_from(user: &Pubkey, escrow: &Account, bump: u8, now: i64) -> (r: Result<
    Vec<Effect>,
    VaultError,
>)
    ensures
        outcome_view(r) == withdraw_plan(*user, escrow.key, escrow.data@, bump, now),
{
    let mut record: Pda = match Pda::try_from_slice(escrow.data.as_slice()) {
        Ok(record) => record,
        Err(error) => {
            return Err(error);
        },
    };
    let withdrawal: u64 = match record.release(user, now) {
        Ok(withdrawal) => withdrawal,
        Err(error) => {
            return Err(error);
        },
    };
    let mut effects: Vec<Effect> = Vec::with_capacity(2);
    effects.push(Effect::Store { account: escrow.key, data: record.to_bytes() });
    effects.push(
        Effect::Transfer {
            from: escrow.key,
            to: *user,
            amount: withdrawal,
            authority: Some(Authority { owner: *user, bump }),
        },
    );
    assert(effects_view(effects@) =~= seq![
        EffectView::Store { account: escrow.key, data: record.encoding() },
        EffectView::Transfer {
            from: escrow.key,
            to: *user,
            amount: withdrawal,
            authority: Some(Authority { owner: *user, bump }),
        },
    ]);
    Ok(effects)
}

/// Deposits `amount` at time `now`. `accounts` names the depositing
/// identity, its escrow account and the system program, in this order. An
/// escrow account that a deposit is accepted for is off the curve.
pub fn deposit(program_id: &Pubkey, accounts: &[Account], amount: u64, now: i64) -> (r: Result<
    Vec<Effect>,
    VaultError,
>)
    ensures
        outcome_view(r) == deposit_outcome(*program_id, accounts@, amount, now),
        r is Ok ==> !on_curve(accounts@[1].key@),
{
    if accounts.len() < 3 {
        return Err(VaultError::NotEnoughAccountKeys);
    }
    let user: &Account = &accounts[0];
    let escrow: &Account = &accounts[1];
    match verify_escrow_address(&escrow.key, &user.key, program_id) {
        Ok(bump) => deposit_into(program_id, &user.key, escrow, bump, amount, now),
        Err(error) => Err(error),
    }
}

/// Withdraws a tenth of the escrow at time `now`. `accounts` names the
/// owning identity, its escrow account and the system program, in this
/// order. An escrow account that a withdrawal is accepted for is off the
/// curve.
pub fn partial_withdraw(program_id: &Pubkey, accounts: &[Account], now: i64) -> (r: Result<
    Vec<Effect>,
    VaultError,
>)
    ensures
        outcome_view(r) == partial_withdraw_outcome(*program_id, accounts@, now),
        r is Ok ==> !on_curve(accounts@[1].key@),
{
    if accounts.len() < 3 {
        return Err(VaultError::NotEnoughAccountKeys);
    }
    let user: &Account = &accounts[0];
    let escrow: &Account = &accounts[1];
    match verify_escrow_address(&escrow.key, &user.key, program_id) {
        Ok(bump) => withdraw_from(&user.key, escrow, bump, now),
        Err(error) => Err(error),
    }
}

} // verus!
