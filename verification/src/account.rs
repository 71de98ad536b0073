use crate::error::VaultError;
use crate::pubkey::Pubkey;
use vstd::prelude::*;

verus! {

/// What a handler reads of an account that an instruction names: its
/// address and the bytes persisted in it. An account that does not exist yet
/// has no bytes.
#[derive(Debug, PartialEq, Eq)]
pub struct Account {
    pub key: Pubkey,
    pub data: Vec<u8>,
}

/// The program's authority over the escrow derived for `owner`: with the
/// bump seed found for the address, the program signs in the escrow's place.
#[derive(Clone, Copy, Debug, PartialEq, Eq)]
pub struct Authority {
    pub owner: Pubkey,
    pub bump: u8,
}

/// One thing that the host is asked to do for an instruction. A handler
/// returns the effects of an instruction in the order in which they are to be
/// performed; when the host cannot perform one, the instruction fails as a
/// whole and none of its effects persists.
#[derive(Debug, PartialEq, Eq)]
pub enum Effect {
    /// Create `account` with `space` zeroed bytes, owned by the program
    /// `owner` and funded by `payer` with the least balance that exempts
    /// `space` bytes from rent. Where `authority` is set, the program signs
    /// for the new account.
    CreateAccount {
        payer: Pubkey,
        account: Pubkey,
        space: u64,
        owner: Pubkey,
        authority: Option<Authority>,
    },
    /// Persist `data` as the content of `account`.
    Store { account: Pubkey, data: Vec<u8> },
    /// Move `amount` native value units from `from` to `to`. Where
    /// `authority` is set, the program signs for `from`.
    Transfer { from: Pubkey, to: Pubkey, amount: u64, authority: Option<Authority> },
}

/// An effect as a mathematical value.
pub enum EffectView {
    CreateAccount {
        payer: Pubkey,
        account: Pubkey,
        space: u64,
        owner: Pubkey,
        authority: Option<Authority>,
    },
    Store { account: Pubkey, data: Seq<u8> },
    Transfer { from: Pubkey, to: Pubkey, amount: u64, authority: Option<Authority> },
}

impl View for Effect {
    type V = EffectView;

    open spec fn view(&self) -> EffectView {
        match *self {
            Effect::CreateAccount { payer, account, space, owner, authority } => {
                EffectView::CreateAccount { payer, account, space, owner, authority }
            },
            Effect::Store { account, data } => EffectView::Store { account, data: data@ },
            Effect::Transfer { from, to, amount, authority } => EffectView::Transfer {
                from,
                to,
                amount,
                authority,
            },
        }
    }
}

/// The effects in order, each as a mathematical value.
pub open spec fn effects_view(effects: Seq<Effect>) -> Seq<EffectView> {
    effects.map_values(|effect: Effect| effect@)
}

/// What a handler returns, as a mathematical value.
pub open spec fn outcome_view(outcome: Result<Vec<Effect>, VaultError>) -> Result<
    Seq<EffectView>,
    VaultError,
> {
    match outcome {
        Ok(effects) => Ok(effects_view(effects@)),
        Err(error) => Err(error),
    }
}

impl Effect {
    /// The error that the instruction ends with when the host refuses this
    /// effect, where the vault names one; otherwise the host's own error
    /// stands.
    pub open spec fn refusal(self) -> Option<VaultError> {
        match self {
            Effect::CreateAccount { .. } => Some(VaultError::AccountCreationFailed),
            _ => None,
        }
    }

    /// The error that the instruction ends with when the host refuses this
    /// effect.
    pub fn on_refusal(&self) -> (r: Option<VaultError>)
        ensures
            r == self.refusal(),
    {
        match self {
            Effect::CreateAccount { .. } => Some(VaultError::AccountCreationFailed),
            _ => None,
        }
    }
}

} // verus!
