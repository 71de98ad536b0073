use sol_vault::account::Authority;
use sol_vault::address::{
    check_escrow_address, find_escrow_address, tag_bytes, verify_escrow_address,
};
use sol_vault::error::VaultError;
use sol_vault::instruct::TAG_SOL_VAULT;
use sol_vault::pubkey::Pubkey;

fn key(fill: u8) -> Pubkey {
    let mut bytes = [fill; 32];
    bytes[5] = fill.wrapping_mul(3).wrapping_add(1);
    Pubkey::new_from_array(bytes)
}

fn outside(key: &Pubkey) -> solana_program::pubkey::Pubkey {
    solana_program::pubkey::Pubkey::new_from_array(key.bytes)
}

#[test]
fn tag_is_sol_vault() {
    assert_eq!(&TAG_SOL_VAULT, b"SOL_VAULT");
    assert_eq!(tag_bytes(), b"SOL_VAULT".to_vec());
}

#[test]
fn keys_compare_by_their_bytes() {
    assert_eq!(key(1), key(1));
    assert_ne!(key(1), key(2));
    let mut bytes = key(1).bytes;
    bytes[31] ^= 1;
    assert_ne!(key(1), Pubkey::new_from_array(bytes));
    assert_eq!(key(4).to_vec(), key(4).bytes.to_vec());
}

#[test]
fn escrow_address_is_the_program_derived_address() {
    let pairs = [(key(1), key(2)), (key(2), key(1)), (key(0), key(0)), (key(200), key(77))];
    for (owner, program) in pairs {
        let (address, bump) = solana_program::pubkey::Pubkey::find_program_address(
            &[b"SOL_VAULT", outside(&owner).as_ref()],
            &outside(&program),
        );
        assert_eq!(
            find_escrow_address(&owner, &program),
            Some((Pubkey::new_from_array(address.to_bytes()), bump))
        );
    }
}

#[test]
fn escrow_address_is_off_the_curve_and_new() {
    let owner = key(11);
    let program = key(12);
    let (address, _) = find_escrow_address(&owner, &program).unwrap();
    assert!(!outside(&address).is_on_curve());
    assert_ne!(address, owner);
    assert_ne!(address, program);
}

#[test]
fn derivation_gives_the_same_answer_on_every_call() {
    let owner = key(21);
    let program = key(22);
    let first = find_escrow_address(&owner, &program);
    assert!(first.is_some());
    for _ in 0..5 {
        assert_eq!(find_escrow_address(&owner, &program), first);
    }
}

#[test]
fn derivation_tells_owners_and_programs_apart() {
    let a = find_escrow_address(&key(1), &key(9)).unwrap();
    let b = find_escrow_address(&key(2), &key(9)).unwrap();
    let c = find_escrow_address(&key(1), &key(8)).unwrap();
    assert_ne!(a.0, b.0);
    assert_ne!(a.0, c.0);
    assert_ne!(b.0, c.0);
}

#[test]
fn authority_seeds_sign_for_the_escrow() {
    let owner = key(31);
    let program = key(32);
    let (address, bump) = find_escrow_address(&owner, &program).unwrap();
    let seeds = Authority { owner, bump }.seeds();
    assert_eq!(seeds, vec![b"SOL_VAULT".to_vec(), owner.bytes.to_vec(), vec![bump]]);
    let slices: Vec<&[u8]> = seeds.iter().map(|seed| seed.as_slice()).collect();
    let signed_for =
        solana_program::pubkey::Pubkey::create_program_address(&slices, &outside(&program))
            .unwrap();
    assert_eq!(signed_for.to_bytes(), address.bytes);
}

#[test]
fn check_accepts_only_the_derived_address() {
    let candidate = key(41);
    assert_eq!(check_escrow_address(&candidate, Some((key(41), 254))), Ok(254));
    assert_eq!(check_escrow_address(&candidate, Some((key(41), 0))), Ok(0));
    assert_eq!(
        check_escrow_address(&candidate, Some((key(42), 254))),
        Err(VaultError::AddressMismatch)
    );
    assert_eq!(check_escrow_address(&candidate, None), Err(VaultError::AddressMismatch));
}

#[test]
fn verify_accepts_the_escrow_of_the_owner_only() {
    let owner = key(51);
    let program = key(52);
    let (address, bump) = find_escrow_address(&owner, &program).unwrap();
    assert_eq!(verify_escrow_address(&address, &owner, &program), Ok(bump));
    assert_eq!(
        verify_escrow_address(&address, &key(53), &program),
        Err(VaultError::AddressMismatch)
    );
    assert_eq!(
        verify_escrow_address(&address, &owner, &key(54)),
        Err(VaultError::AddressMismatch)
    );
    assert_eq!(
        verify_escrow_address(&owner, &owner, &program),
        Err(VaultError::AddressMismatch)
    );
}
