use sol_vault::account::{Account, Authority, Effect};
use sol_vault::address::find_escrow_address;
use sol_vault::error::VaultError;
use sol_vault::instruct::{
    deposit, deposit_into, initialize, partial_withdraw, withdraw_from, Pda, Vault,
};
use sol_vault::process::{process_instruction, NativeVaultInstruction};
use sol_vault::pubkey::Pubkey;

fn key(fill: u8) -> Pubkey {
    Pubkey::new_from_array([fill; 32])
}

fn program() -> Pubkey {
    key(0xd0)
}

fn system() -> Account {
    Account { key: Pubkey::new_from_array([0; 32]), data: Vec::new() }
}

fn wallet(owner: Pubkey) -> Account {
    Account { key: owner, data: Vec::new() }
}

fn escrow_of(owner: Pubkey) -> (Pubkey, u8) {
    find_escrow_address(&owner, &program()).unwrap()
}

fn accounts_of(owner: Pubkey, record: Option<Pda>) -> Vec<Account> {
    let (address, _) = escrow_of(owner);
    let data = match record {
        Some(record) => record.to_bytes(),
        None => Vec::new(),
    };
    vec![wallet(owner), Account { key: address, data }, system()]
}

#[test]
fn initialize_creates_and_records_the_owner() {
    let accounts = vec![wallet(key(1)), wallet(key(2)), system()];
    assert_eq!(
        initialize(&program(), &accounts),
        Ok(vec![
            Effect::CreateAccount {
                payer: key(1),
                account: key(2),
                space: 32,
                owner: program(),
                authority: None,
            },
            Effect::Store { account: key(2), data: vec![1; 32] },
        ])
    );
}

#[test]
fn initialize_stores_a_readable_vault_record() {
    let accounts = vec![wallet(key(1)), wallet(key(2)), system(), wallet(key(3))];
    let effects = initialize(&program(), &accounts).unwrap();
    match &effects[1] {
        Effect::Store { account, data } => {
            assert_eq!(*account, key(2));
            assert_eq!(Vault::try_from_slice(data), Ok(Vault { owner: key(1) }));
        }
        other => panic!("unexpected effect {:?}", other),
    }
}

#[test]
fn handlers_need_three_accounts() {
    for count in 0..3 {
        let mut accounts = accounts_of(key(1), None);
        accounts.truncate(count);
        assert_eq!(initialize(&program(), &accounts), Err(VaultError::NotEnoughAccountKeys));
        assert_eq!(deposit(&program(), &accounts, 5, 0), Err(VaultError::NotEnoughAccountKeys));
        assert_eq!(
            partial_withdraw(&program(), &accounts, 0),
            Err(VaultError::NotEnoughAccountKeys)
        );
    }
}

#[test]
fn first_deposit_creates_the_escrow() {
    let (address, bump) = escrow_of(key(1));
    assert_eq!(
        deposit(&program(), &accounts_of(key(1), None), 1000, 50),
        Ok(vec![
            Effect::CreateAccount {
                payer: key(1),
                account: address,
                space: 49,
                owner: program(),
                authority: Some(Authority { owner: key(1), bump }),
            },
            Effect::Store {
                account: address,
                data: Pda { signer: key(1), balance: 1000, deposit_time: 50, done: false }
                    .to_bytes(),
            },
            Effect::Transfer { from: key(1), to: address, amount: 1000, authority: None },
        ])
    );
}

#[test]
fn first_deposit_of_the_largest_amount() {
    let effects = deposit(&program(), &accounts_of(key(1), None), u64::MAX, 50).unwrap();
    assert_eq!(effects.len(), 3);
    match &effects[1] {
        Effect::Store { data, .. } => assert_eq!(
            Pda::try_from_slice(data),
            Ok(Pda { signer: key(1), balance: u64::MAX, deposit_time: 50, done: false })
        ),
        other => panic!("unexpected effect {:?}", other),
    }
}

#[test]
fn later_deposit_updates_the_escrow() {
    let (address, _) = escrow_of(key(1));
    let record = Pda { signer: key(1), balance: 1000, deposit_time: 50, done: false };
    assert_eq!(
        deposit(&program(), &accounts_of(key(1), Some(record)), 234, 60),
        Ok(vec![
            Effect::Store {
                account: address,
                data: Pda { signer: key(1), balance: 1234, deposit_time: 60, done: false }
                    .to_bytes(),
            },
            Effect::Transfer { from: key(1), to: address, amount: 234, authority: None },
        ])
    );
}

#[test]
fn deposit_into_another_address_is_refused() {
    let mut accounts = accounts_of(key(1), None);
    accounts[1].key = key(9);
    assert_eq!(deposit(&program(), &accounts, 5, 0), Err(VaultError::AddressMismatch));
    let mut accounts = accounts_of(key(1), None);
    accounts[0].key = key(2);
    assert_eq!(deposit(&program(), &accounts, 5, 0), Err(VaultError::AddressMismatch));
    let accounts = accounts_of(key(1), None);
    assert_eq!(deposit(&key(0xd1), &accounts, 5, 0), Err(VaultError::AddressMismatch));
}

#[test]
fn address_is_verified_before_the_record_is_read() {
    let mut accounts = accounts_of(key(1), None);
    accounts[1].key = key(9);
    accounts[1].data = vec![0xff; 7];
    assert_eq!(deposit(&program(), &accounts, 5, 0), Err(VaultError::AddressMismatch));
    assert_eq!(partial_withdraw(&program(), &accounts, 0), Err(VaultError::AddressMismatch));
}

#[test]
fn deposit_into_unreadable_bytes_is_refused() {
    let mut accounts = accounts_of(key(1), None);
    accounts[1].data = vec![0; 56];
    assert_eq!(deposit(&program(), &accounts, 5, 0), Err(VaultError::MalformedInstruction));
    accounts[1].data = vec![0; 48];
    assert_eq!(deposit(&program(), &accounts, 5, 0), Err(VaultError::MalformedInstruction));
    accounts[1].data = vec![3; 49];
    assert_eq!(deposit(&program(), &accounts, 5, 0), Err(VaultError::MalformedInstruction));
}

#[test]
fn deposit_into_the_record_of_another_signer_is_refused() {
    let record = Pda { signer: key(2), balance: 1000, deposit_time: 50, done: false };
    assert_eq!(
        deposit(&program(), &accounts_of(key(1), Some(record)), 5, 60),
        Err(VaultError::Unauthorized)
    );
    let mut accounts = accounts_of(key(1), None);
    accounts[1].data = vec![0; 49];
    assert_eq!(deposit(&program(), &accounts, 5, 60), Err(VaultError::Unauthorized));
}

#[test]
fn deposit_overflow_is_refused() {
    let record = Pda { signer: key(1), balance: u64::MAX - 4, deposit_time: 50, done: false };
    assert_eq!(
        deposit(&program(), &accounts_of(key(1), Some(record)), 5, 60),
        Err(VaultError::ArithmeticOverflow)
    );
    assert!(deposit(&program(), &accounts_of(key(1), Some(record)), 4, 60).is_ok());
}

#[test]
fn deposit_into_a_finalized_escrow_is_refused() {
    let record = Pda { signer: key(1), balance: 900, deposit_time: 50, done: true };
    assert_eq!(
        deposit(&program(), &accounts_of(key(1), Some(record)), 5, 60),
        Err(VaultError::AlreadyFinalized)
    );
    let (address, bump) = escrow_of(key(1));
    let escrow = Account { key: address, data: record.to_bytes() };
    assert_eq!(
        deposit_into(&program(), &key(2), &escrow, bump, 5, 60),
        Err(VaultError::AlreadyFinalized)
    );
}

#[test]
fn deposit_into_with_a_given_bump() {
    let escrow = Account { key: key(8), data: Vec::new() };
    assert_eq!(
        deposit_into(&program(), &key(1), &escrow, 250, 7, -1),
        Ok(vec![
            Effect::CreateAccount {
                payer: key(1),
                account: key(8),
                space: 49,
                owner: program(),
                authority: Some(Authority { owner: key(1), bump: 250 }),
            },
            Effect::Store {
                account: key(8),
                data: Pda { signer: key(1), balance: 7, deposit_time: -1, done: false }.to_bytes(),
            },
            Effect::Transfer { from: key(1), to: key(8), amount: 7, authority: None },
        ])
    );
}

#[test]
fn withdrawal_pays_a_tenth_under_the_program_authority() {
    let (address, bump) = escrow_of(key(1));
    let record = Pda { signer: key(1), balance: 105, deposit_time: 50, done: false };
    assert_eq!(
        partial_withdraw(&program(), &accounts_of(key(1), Some(record)), 60),
        Ok(vec![
            Effect::Store {
                account: address,
                data: Pda { signer: key(1), balance: 95, deposit_time: 50, done: true }.to_bytes(),
            },
            Effect::Transfer {
                from: address,
                to: key(1),
                amount: 10,
                authority: Some(Authority { owner: key(1), bump }),
            },
        ])
    );
}

#[test]
fn withdraw_from_with_a_given_bump() {
    let record = Pda { signer: key(1), balance: 1000, deposit_time: 0, done: false };
    let escrow = Account { key: key(8), data: record.to_bytes() };
    assert_eq!(
        withdraw_from(&key(1), &escrow, 3, 10),
        Ok(vec![
            Effect::Store {
                account: key(8),
                data: Pda { signer: key(1), balance: 900, deposit_time: 0, done: true }.to_bytes(),
            },
            Effect::Transfer {
                from: key(8),
                to: key(1),
                amount: 100,
                authority: Some(Authority { owner: key(1), bump: 3 }),
            },
        ])
    );
    assert_eq!(withdraw_from(&key(2), &escrow, 3, 10), Err(VaultError::Unauthorized));
}

#[test]
fn withdrawal_before_the_lock_elapses_is_refused() {
    let record = Pda { signer: key(1), balance: 1000, deposit_time: 50, done: false };
    let accounts = accounts_of(key(1), Some(record));
    assert_eq!(partial_withdraw(&program(), &accounts, 59), Err(VaultError::TimeLockNotElapsed));
    assert!(partial_withdraw(&program(), &accounts, 60).is_ok());
}

#[test]
fn withdrawal_of_nothing_is_refused() {
    for balance in 0..=9 {
        let record = Pda { signer: key(1), balance, deposit_time: 50, done: false };
        assert_eq!(
            partial_withdraw(&program(), &accounts_of(key(1), Some(record)), 60),
            Err(VaultError::InsufficientFunds)
        );
    }
}

#[test]
fn withdrawal_from_a_missing_escrow_is_refused() {
    assert_eq!(
        partial_withdraw(&program(), &accounts_of(key(1), None), 60),
        Err(VaultError::MalformedInstruction)
    );
}

#[test]
fn withdrawal_from_a_finalized_escrow_is_refused() {
    let record = Pda { signer: key(1), balance: 900, deposit_time: 50, done: true };
    assert_eq!(
        partial_withdraw(&program(), &accounts_of(key(1), Some(record)), 600),
        Err(VaultError::AlreadyFinalized)
    );
}

#[test]
fn withdrawal_from_the_record_of_another_signer_is_refused() {
    let record = Pda { signer: key(2), balance: 900, deposit_time: 50, done: false };
    assert_eq!(
        partial_withdraw(&program(), &accounts_of(key(1), Some(record)), 600),
        Err(VaultError::Unauthorized)
    );
}

#[test]
fn withdrawal_from_another_address_is_refused() {
    let record = Pda { signer: key(1), balance: 900, deposit_time: 50, done: false };
    let mut accounts = accounts_of(key(1), Some(record));
    accounts[1].key = escrow_of(key(2)).0;
    assert_eq!(partial_withdraw(&program(), &accounts, 600), Err(VaultError::AddressMismatch));
}

#[test]
fn dispatch_follows_the_instruction() {
    let record = Pda { signer: key(1), balance: 1000, deposit_time: 50, done: false };
    let accounts = accounts_of(key(1), Some(record));
    assert_eq!(
        process_instruction(&program(), &accounts, &[0], 70),
        initialize(&program(), &accounts)
    );
    assert_eq!(
        process_instruction(&program(), &accounts, &[1, 5, 0, 0, 0, 0, 0, 0, 0], 70),
        deposit(&program(), &accounts, 5, 70)
    );
    assert_eq!(
        process_instruction(&program(), &accounts, &[2], 70),
        partial_withdraw(&program(), &accounts, 70)
    );
    assert_eq!(
        process_instruction(
            &program(),
            &accounts,
            &NativeVaultInstruction::Deposit { amount: 1 << 40 }.to_bytes(),
            70
        ),
        deposit(&program(), &accounts, 1 << 40, 70)
    );
}

#[test]
fn dispatch_refuses_malformed_data() {
    let accounts = accounts_of(key(1), None);
    for data in [&[][..], &[3][..], &[0, 0][..], &[1, 5][..], &[2, 2][..]] {
        assert_eq!(
            process_instruction(&program(), &accounts, data, 70),
            Err(VaultError::MalformedInstruction)
        );
    }
    assert_eq!(
        process_instruction(&program(), &[], &[9], 70),
        Err(VaultError::MalformedInstruction)
    );
    assert_eq!(
        process_instruction(&program(), &[], &[0], 70),
        Err(VaultError::NotEnoughAccountKeys)
    );
}

#[test]
fn refused_creation_has_its_own_error() {
    let effects = deposit(&program(), &accounts_of(key(1), None), 1000, 50).unwrap();
    assert_eq!(effects[0].on_refusal(), Some(VaultError::AccountCreationFailed));
    assert_eq!(effects[1].on_refusal(), None);
    assert_eq!(effects[2].on_refusal(), None);
}
