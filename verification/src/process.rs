use crate::account::{outcome_view, Account, Effect, EffectView};
use crate::codec::{lemma_u64_encoding, lemma_u64_of, read_u64, u64_encoding, write_u64};
use crate::error::VaultError;
use crate::instruct::{
    deposit, deposit_outcome, initialize, initialize_outcome, partial_withdraw,
    partial_withdraw_outcome,
};
use crate::pubkey::Pubkey;
use vstd::prelude::*;

verus! {

/// The commands of the vault program.
#[derive(Clone, Copy, Debug, PartialEq, Eq, Structural)]
pub enum NativeVaultInstruction {
    /// Set up a vault for the caller.
    Initialize,
    /// Deposit `amount` native value units into the caller's escrow.
    Deposit { amount: u64 },
    /// Withdraw a tenth of the caller's escrow, once.
    PartialWithdraw,
}

impl NativeVaultInstruction {
    /// The instruction on the wire: one byte that tells the command (0, 1 or
    /// 2), followed for a deposit by the amount in eight little-endian bytes.
    pub open spec fn encoding(self) -> Seq<u8> {
        match self {
            NativeVaultInstruction::Initialize => seq![0u8],
            NativeVaultInstruction::Deposit { amount } => seq![1u8] + u64_encoding(amount),
            NativeVaultInstruction::PartialWithdraw => seq![2u8],
        }
    }

    /// The instruction that `bytes` carry, if they carry one.
    pub open spec fn decoding(bytes: Seq<u8>) -> Option<NativeVaultInstruction> {
        if exists|instruction: NativeVaultInstruction| instruction.encoding() == bytes {
            Some(choose|instruction: NativeVaultInstruction| instruction.encoding() == bytes)
        } else {
            None
        }
    }

    /// The first byte tells the command, and the length follows from it.
    pub proof fn lemma_encoding_tag(self)
        ensures
            self.encoding()[0] == match self {
                NativeVaultInstruction::Initialize => 0u8,
                NativeVaultInstruction::Deposit { .. } => 1u8,
                NativeVaultInstruction::PartialWithdraw => 2u8,
            },
            self.encoding().len() == match self {
                NativeVaultInstruction::Deposit { .. } => 9nat,
                _ => 1nat,
            },
    {
        if let NativeVaultInstruction::Deposit { amount } = self {
            lemma_u64_encoding(amount, amount);
        }
    }

    /// Instructions are told apart by their bytes.
    pub proof fn lemma_encoding_injective(a: NativeVaultInstruction, b: NativeVaultInstruction)
        requires
            a.encoding() == b.encoding(),
        ensures
            a == b,
    {
        a.lemma_encoding_tag();
        b.lemma_encoding_tag();
        if let NativeVaultInstruction::Deposit { amount } = a {
            if let NativeVaultInstruction::Deposit { amount: other } = b {
                lemma_u64_encoding(amount, other);
                assert(a.encoding().subrange(1, 9) =~= u64_encoding(amount));
                assert(b.encoding().subrange(1, 9) =~= u64_encoding(other));
            }
        }
    }

    /// Exactly these byte strings carry an instruction: the single byte 0 or
    /// 2, and the byte 1 followed by eight more bytes.
    pub proof fn lemma_decoding_some(bytes: Seq<u8>)
        ensures
            NativeVaultInstruction::decoding(bytes) is Some <==> (bytes.len() == 1 && (bytes[0] == 0
                || bytes[0] == 2)) || (bytes.len() == 9 && bytes[0] == 1),
    {
        if bytes.len() == 1 && bytes[0] == 0 {
            assert(NativeVaultInstruction::Initialize.encoding() =~= bytes);
        }
        if bytes.len() == 1 && bytes[0] == 2 {
            assert(NativeVaultInstruction::PartialWithdraw.encoding() =~= bytes);
        }
        if bytes.len() == 9 && bytes[0] == 1 {
            let amount = lemma_u64_of(bytes.subrange(1, 9));
            assert((NativeVaultInstruction::Deposit { amount }).encoding() =~= bytes);
        }
        if NativeVaultInstruction::decoding(bytes) is Some {
            NativeVaultInstruction::decoding(bytes)->0.lemma_encoding_tag();
        }
    }

    /// Reading gives `instruction` exactly for the bytes that `instruction`
    /// is written as.
    pub proof fn lemma_decoding_inverse(bytes: Seq<u8>, instruction: NativeVaultInstruction)
        ensures
            NativeVaultInstruction::decoding(bytes) == Some(instruction) <==> instruction.encoding()
                == bytes,
    {
        if instruction.encoding() == bytes {
            NativeVaultInstruction::lemma_encoding_injective(
                NativeVaultInstruction::decoding(bytes)->0,
                instruction,
            );
        }
    }

    /// The instruction on the wire.
    pub fn to_bytes(&self) -> (r: Vec<u8>)
        ensures
            r@ == self.encoding(),
    {
        let mut out: Vec<u8> = Vec::with_capacity(9);
        match *self {
            NativeVaultInstruction::Initialize => {
                out.push(0);
            },
            NativeVaultInstruction::Deposit { amount } => {
                out.push(1);
                write_u64(&mut out, amount);
            },
            NativeVaultInstruction::PartialWithdraw => {
                out.push(2);
            },
        }
        assert(out@ =~= self.encoding());
        out
    }

    /// Reads an instruction off the wire. The bytes must be the instruction
    /// and nothing more.
    pub fn try_from_slice(bytes: &[u8]) -> (r: Result<NativeVaultInstruction, VaultError>)
        ensures
            r == match NativeVaultInstruction::decoding(bytes@) {
                Some(instruction) => Ok::<NativeVaultInstruction, VaultError>(instruction),
                None => Err(VaultError::MalformedInstruction),
            },
    {
        proof {
            NativeVaultInstruction::lemma_decoding_some(bytes@);
        }
        if bytes.len() == 0 {
            return Err(VaultError::MalformedInstruction);
        }
        let tag: u8 = bytes[0];
        let instruction = if tag == 0 && bytes.len() == 1 {
            NativeVaultInstruction::Initialize
        } else if tag == 1 && bytes.len() == 9 {
            NativeVaultInstruction::Deposit { amount: read_u64(bytes, 1) }
        } else if tag == 2 && bytes.len() == 1 {
            NativeVaultInstruction::PartialWithdraw
        } else {
            return Err(VaultError::MalformedInstruction);
        };
        proof {
            assert(instruction.encoding() =~= bytes@);
            NativeVaultInstruction::lemma_decoding_inverse(bytes@, instruction);
        }
        Ok(instruction)
    }
}

/// What `process_instruction` returns: the instruction data must carry an
/// instruction, which then goes to its handler.
pub open spec fn process_outcome(
    program_id: Pubkey,
    accounts: Seq<Account>,
    instruction_data: Seq<u8>,
    now: i64,
) -> Result<Seq<EffectView>, VaultError> {
    match NativeVaultInstruction::decoding(instruction_data) {
        None => Err(VaultError::MalformedInstruction),
        Some(NativeVaultInstruction::Initialize) => initialize_outcome(program_id, accounts),
        Some(NativeVaultInstruction::Deposit { amount }) => deposit_outcome(
            program_id,
            accounts,
            amount,
            now,
        ),
        Some(NativeVaultInstruction::PartialWithdraw) => partial_withdraw_outcome(
            program_id,
            accounts,
            now,
        ),
    }
}

/// Decodes the instruction and hands it to its handler. `now` is the
/// clock's reading for this instruction.
pub fn process_instruction(
    program_id: &Pubkey,
    accounts: &[Account],
    instruction_data: &[u8],
    now: i64,
) -> (r: Result<Vec<Effect>, VaultError>)
    ensures
        outcome_view(r) == process_outcome(*program_id, accounts@, instruction_data@, now),
{
    match NativeVaultInstruction::try_from_slice(instruction_data) {
        Err(error) => Err(error),
        Ok(NativeVaultInstruction::Initialize) => initialize(program_id, accounts),
        Ok(NativeVaultInstruction::Deposit { amount }) => deposit(
            program_id,
            accounts,
            amount,
            now,
        ),
        Ok(NativeVaultInstruction::PartialWithdraw) => partial_withdraw(program_id, accounts, now),
    }
}

} // verus!
