use anchor_lang::prelude::Pubkey;
use nft::account::AccountDescriptor;
use nft::address::Address;
use nft::schema::{Role, SlotConstraint};
use nft::validate::{check_slot, judge_slot, validate, ValidationError};

fn program() -> Address {
    Address::new([3u8; 32])
}

fn other_program() -> Address {
    Address::new([4u8; 32])
}

fn account(tag: u8) -> AccountDescriptor {
    AccountDescriptor {
        address: Address::new([tag; 32]),
        owner: program(),
        data: vec![],
        balance: 0,
        is_signer: false,
        is_writable: false,
        is_executable: false,
    }
}

fn slot(role: Role) -> SlotConstraint {
    SlotConstraint { role, expected_owner: None }
}

fn seeds() -> Vec<Vec<u8>> {
    vec![b"vault".to_vec(), vec![1, 2, 3]]
}

fn derived(program: &Address, seeds: &[Vec<u8>]) -> Address {
    let parts: Vec<&[u8]> = seeds.iter().map(|s| s.as_slice()).collect();
    let (found, _) =
        Pubkey::try_find_program_address(&parts, &Pubkey::new_from_array(program.bytes)).unwrap();
    Address::new(found.to_bytes())
}

#[test]
fn empty_schema_accepts_no_accounts() {
    let schema: Vec<SlotConstraint> = vec![];
    let accounts: Vec<AccountDescriptor> = vec![];
    let ctx = validate(&program(), &schema, &accounts).unwrap();
    assert_eq!(ctx.len(), 0);
}

#[test]
fn count_mismatch_comes_before_any_slot() {
    let schema = vec![slot(Role::Signer)];
    let none: Vec<AccountDescriptor> = vec![];
    assert_eq!(
        validate(&program(), &schema, &none).err(),
        Some(ValidationError::AccountCountMismatch)
    );
    // both accounts would fail their slots; the count is reported
    let two = vec![account(1), account(2)];
    assert_eq!(
        validate(&program(), &schema, &two).err(),
        Some(ValidationError::AccountCountMismatch)
    );
}

#[test]
fn each_role_is_checked_against_its_flag() {
    let unsigned = account(1);
    let mut signed = account(1);
    signed.is_signer = true;
    let mut writable = account(1);
    writable.is_writable = true;

    assert_eq!(
        check_slot(&program(), 4, &slot(Role::Signer), &unsigned),
        Some(ValidationError::MissingSignature(4))
    );
    assert_eq!(check_slot(&program(), 4, &slot(Role::Signer), &signed), None);
    assert_eq!(
        check_slot(&program(), 2, &slot(Role::Signer), &writable),
        Some(ValidationError::MissingSignature(2))
    );
    assert_eq!(
        check_slot(&program(), 5, &slot(Role::Writable), &unsigned),
        Some(ValidationError::AccountNotWritable(5))
    );
    assert_eq!(
        check_slot(&program(), 5, &slot(Role::Writable), &signed),
        Some(ValidationError::AccountNotWritable(5))
    );
    assert_eq!(check_slot(&program(), 5, &slot(Role::Writable), &writable), None);
    assert_eq!(check_slot(&program(), 0, &slot(Role::ReadOnly), &unsigned), None);
}

#[test]
fn owner_is_checked_after_the_role() {
    let expected = SlotConstraint { role: Role::Signer, expected_owner: Some(other_program()) };
    let unsigned = account(1);
    let mut signed = account(1);
    signed.is_signer = true;
    // the role's failure comes first
    assert_eq!(
        check_slot(&program(), 0, &expected, &unsigned),
        Some(ValidationError::MissingSignature(0))
    );
    assert_eq!(
        check_slot(&program(), 0, &expected, &signed),
        Some(ValidationError::OwnerMismatch(0, other_program(), program()))
    );
    signed.owner = other_program();
    assert_eq!(check_slot(&program(), 0, &expected, &signed), None);
    let read_only = SlotConstraint { role: Role::ReadOnly, expected_owner: Some(program()) };
    assert_eq!(check_slot(&program(), 7, &read_only, &unsigned), None);
    assert_eq!(
        check_slot(&program(), 7, &read_only, &signed),
        Some(ValidationError::OwnerMismatch(7, program(), other_program()))
    );
}

#[test]
fn derived_slot_accepts_only_the_derived_address() {
    let pda = derived(&program(), &seeds());
    let derived_slot = slot(Role::ProgramDerived(seeds()));
    let mut at_pda = account(1);
    at_pda.address = pda;
    assert_eq!(check_slot(&program(), 1, &derived_slot, &at_pda), None);

    // the program's own identity is not its derived address
    let mut at_program = account(1);
    at_program.address = program();
    assert_ne!(pda, program());
    assert_eq!(
        check_slot(&program(), 1, &derived_slot, &at_program),
        Some(ValidationError::InvalidDerivedAddress(1))
    );
    // another program derives another address from the same seeds
    assert_eq!(
        check_slot(&other_program(), 1, &derived_slot, &at_pda),
        Some(ValidationError::InvalidDerivedAddress(1))
    );
    // other seeds derive another address
    let other_seeds = slot(Role::ProgramDerived(vec![b"vault".to_vec()]));
    assert_eq!(
        check_slot(&program(), 1, &other_seeds, &at_pda),
        Some(ValidationError::InvalidDerivedAddress(1))
    );
    at_pda.address = derived(&program(), &[b"vault".to_vec()]);
    assert_eq!(check_slot(&program(), 1, &other_seeds, &at_pda), None);
}

#[test]
fn seeds_without_a_derived_address_fail_the_slot() {
    // a seed longer than 32 bytes derives nothing
    let long = slot(Role::ProgramDerived(vec![vec![0u8; 33]]));
    assert_eq!(
        check_slot(&program(), 0, &long, &account(1)),
        Some(ValidationError::InvalidDerivedAddress(0))
    );
    // sixteen seeds leave no room for the bump seed
    let many = slot(Role::ProgramDerived(vec![vec![1u8]; 16]));
    assert_eq!(
        check_slot(&program(), 0, &many, &account(1)),
        Some(ValidationError::InvalidDerivedAddress(0))
    );
}

#[test]
fn verdict_follows_the_derivation_it_is_given() {
    let derived_slot = slot(Role::ProgramDerived(seeds()));
    let here = account(9);
    assert_eq!(judge_slot(3, &derived_slot, &here, Some(Address::new([9u8; 32]))), None);
    assert_eq!(
        judge_slot(3, &derived_slot, &here, Some(Address::new([8u8; 32]))),
        Some(ValidationError::InvalidDerivedAddress(3))
    );
    assert_eq!(
        judge_slot(3, &derived_slot, &here, None),
        Some(ValidationError::InvalidDerivedAddress(3))
    );
    // other roles do not read the derivation
    assert_eq!(judge_slot(3, &slot(Role::ReadOnly), &here, None), None);
    assert_eq!(
        judge_slot(3, &slot(Role::Signer), &here, Some(Address::new([9u8; 32]))),
        Some(ValidationError::MissingSignature(3))
    );
    let owned = SlotConstraint {
        role: Role::ProgramDerived(seeds()),
        expected_owner: Some(other_program()),
    };
    assert_eq!(
        judge_slot(3, &owned, &here, Some(Address::new([9u8; 32]))),
        Some(ValidationError::OwnerMismatch(3, other_program(), program()))
    );
    assert_eq!(
        judge_slot(3, &owned, &here, None),
        Some(ValidationError::InvalidDerivedAddress(3))
    );
}

#[test]
fn validation_reports_the_first_failing_slot() {
    let schema = vec![
        slot(Role::ReadOnly),
        slot(Role::Writable),
        slot(Role::Signer),
        SlotConstraint { role: Role::ReadOnly, expected_owner: Some(other_program()) },
    ];
    let mut accounts = vec![account(1), account(2), account(3), account(4)];
    assert_eq!(
        validate(&program(), &schema, &accounts).err(),
        Some(ValidationError::AccountNotWritable(1))
    );
    accounts[1].is_writable = true;
    assert_eq!(
        validate(&program(), &schema, &accounts).err(),
        Some(ValidationError::MissingSignature(2))
    );
    accounts[2].is_signer = true;
    assert_eq!(
        validate(&program(), &schema, &accounts).err(),
        Some(ValidationError::OwnerMismatch(3, other_program(), program()))
    );
    accounts[3].owner = other_program();
    let ctx = validate(&program(), &schema, &accounts).unwrap();
    assert_eq!(ctx.len(), 4);
    assert_eq!(ctx.account(3), Some(&accounts[3]));
}

#[test]
fn addresses_compare_byte_by_byte() {
    let a = Address::new([1u8; 32]);
    let mut bytes = [1u8; 32];
    assert!(a.same(&Address::new(bytes)));
    bytes[31] = 2;
    assert!(!a.same(&Address::new(bytes)));
    bytes[31] = 1;
    bytes[0] = 0;
    assert!(!a.same(&Address::new(bytes)));
}

#[test]
fn slot_grants_write_only_to_writable() {
    assert!(slot(Role::Writable).allows_write());
    assert!(!slot(Role::Signer).allows_write());
    assert!(!slot(Role::ReadOnly).allows_write());
    assert!(!slot(Role::ProgramDerived(vec![])).allows_write());
}
