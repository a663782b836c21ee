use nft::account::AccountDescriptor;
use nft::address::Address;
use nft::channel::ResultChannel;
use nft::dispatch::Dispatcher;
use nft::greet::{Initialize, GREET_DISCRIMINATOR};
use nft::instruction::{encode, DecodeError};
use nft::outcome::{ExecutionOutcome, InvokeError};
use nft::registry::{Registry, RegistrationError};
use nft::schema::{Role, SlotConstraint};
use nft::validate::ValidationError;

fn program() -> Address {
    Address::new([7u8; 32])
}

fn account(tag: u8, is_signer: bool, is_writable: bool) -> AccountDescriptor {
    AccountDescriptor {
        address: Address::new([tag; 32]),
        owner: program(),
        data: vec![tag, tag],
        balance: 100 + tag as u64,
        is_signer,
        is_writable,
        is_executable: false,
    }
}

fn slot(role: Role) -> SlotConstraint {
    SlotConstraint { role, expected_owner: None }
}

fn greeter(schema: Vec<SlotConstraint>) -> Dispatcher<Initialize> {
    let mut registry: Registry<Initialize> = Registry::new();
    assert_eq!(registry.register(GREET_DISCRIMINATOR, schema, Initialize {}), Ok(()));
    Dispatcher::new(program(), registry)
}

fn signer_writable() -> Vec<SlotConstraint> {
    vec![slot(Role::Signer), slot(Role::Writable)]
}

#[test]
fn greet_logs_and_succeeds() {
    let dispatcher = greeter(signer_writable());
    let mut accounts = vec![account(1, true, false), account(2, false, true)];
    let before = accounts.clone();
    let mut channel = ResultChannel::new();
    let buffer = encode(&GREET_DISCRIMINATOR, &[]);
    let outcome = dispatcher.invoke(&mut accounts, &buffer, &mut channel);
    assert_eq!(outcome, ExecutionOutcome::Success);
    let (lines, sealed) = channel.render();
    assert_eq!(lines, vec!["GM!".to_string()]);
    assert_eq!(sealed, Some(ExecutionOutcome::Success));
    assert_eq!(accounts, before);
}

#[test]
fn missing_signature_stops_before_handler() {
    let dispatcher = greeter(signer_writable());
    let mut accounts = vec![account(1, false, false), account(2, false, true)];
    let before = accounts.clone();
    let mut channel = ResultChannel::new();
    let buffer = encode(&GREET_DISCRIMINATOR, &[]);
    let outcome = dispatcher.invoke(&mut accounts, &buffer, &mut channel);
    let expected =
        ExecutionOutcome::Failure(InvokeError::Validation(ValidationError::MissingSignature(0)));
    assert_eq!(outcome, expected);
    let (lines, sealed) = channel.render();
    assert!(lines.is_empty());
    assert_eq!(sealed, Some(expected));
    assert_eq!(accounts, before);
}

#[test]
fn empty_buffer_is_truncated() {
    let dispatcher = greeter(signer_writable());
    let mut accounts = vec![account(1, true, false), account(2, false, true)];
    let mut channel = ResultChannel::new();
    let outcome = dispatcher.invoke(&mut accounts, &[], &mut channel);
    assert_eq!(
        outcome,
        ExecutionOutcome::Failure(InvokeError::Decode(DecodeError::TruncatedInstruction))
    );
}

#[test]
fn every_short_buffer_is_truncated_and_changes_nothing() {
    let dispatcher = greeter(signer_writable());
    for len in 0..8usize {
        let mut accounts = vec![account(1, true, false), account(2, false, true)];
        let before = accounts.clone();
        let mut channel = ResultChannel::new();
        let buffer = GREET_DISCRIMINATOR[..len].to_vec();
        let outcome = dispatcher.invoke(&mut accounts, &buffer, &mut channel);
        assert_eq!(
            outcome,
            ExecutionOutcome::Failure(InvokeError::Decode(DecodeError::TruncatedInstruction))
        );
        assert_eq!(accounts, before);
        assert_eq!(channel.line_count(), 0);
    }
}

#[test]
fn account_count_mismatch_whatever_the_payload() {
    let dispatcher = greeter(signer_writable());
    let expected =
        ExecutionOutcome::Failure(InvokeError::Validation(ValidationError::AccountCountMismatch));
    for payload in [vec![], vec![0u8], vec![9u8; 40]] {
        for count in [0usize, 1, 3] {
            let mut accounts: Vec<AccountDescriptor> =
                (0..count).map(|i| account(i as u8, true, true)).collect();
            let mut channel = ResultChannel::new();
            let buffer = encode(&GREET_DISCRIMINATOR, &payload);
            assert_eq!(dispatcher.invoke(&mut accounts, &buffer, &mut channel), expected);
            assert_eq!(channel.line_count(), 0);
        }
    }
}

#[test]
fn first_failing_slot_is_the_one_reported() {
    let schema = vec![slot(Role::ReadOnly), slot(Role::Signer), slot(Role::Writable)];
    let dispatcher = greeter(schema);
    // slot 1 lacks the signature and slot 2 is not writable: slot 1 is reported
    let mut accounts =
        vec![account(1, false, false), account(2, false, false), account(3, false, false)];
    let mut channel = ResultChannel::new();
    let buffer = encode(&GREET_DISCRIMINATOR, &[]);
    assert_eq!(
        dispatcher.invoke(&mut accounts, &buffer, &mut channel),
        ExecutionOutcome::Failure(InvokeError::Validation(ValidationError::MissingSignature(1)))
    );
    // with the signature present, slot 2 is reported
    accounts[1].is_signer = true;
    assert_eq!(
        dispatcher.invoke(&mut accounts, &buffer, &mut channel),
        ExecutionOutcome::Failure(InvokeError::Validation(ValidationError::AccountNotWritable(2)))
    );
}

#[test]
fn validation_failure_wins_over_malformed_payload() {
    let dispatcher = greeter(signer_writable());
    let mut accounts = vec![account(1, false, false), account(2, false, true)];
    let mut channel = ResultChannel::new();
    let buffer = encode(&GREET_DISCRIMINATOR, &[1, 2, 3]);
    assert_eq!(
        dispatcher.invoke(&mut accounts, &buffer, &mut channel),
        ExecutionOutcome::Failure(InvokeError::Validation(ValidationError::MissingSignature(0)))
    );
}

#[test]
fn payload_for_greet_must_be_empty() {
    let dispatcher = greeter(signer_writable());
    let mut accounts = vec![account(1, true, false), account(2, false, true)];
    let mut channel = ResultChannel::new();
    let buffer = encode(&GREET_DISCRIMINATOR, &[1]);
    let outcome = dispatcher.invoke(&mut accounts, &buffer, &mut channel);
    assert_eq!(
        outcome,
        ExecutionOutcome::Failure(InvokeError::Decode(DecodeError::MalformedPayload(Some(0))))
    );
    assert_eq!(channel.line_count(), 0);
}

#[test]
fn unregistered_discriminator_is_unknown() {
    let dispatcher = greeter(signer_writable());
    let mut accounts = vec![account(1, true, false), account(2, false, true)];
    let mut channel = ResultChannel::new();
    let buffer = encode(&[0u8; 8], &[]);
    assert_eq!(
        dispatcher.invoke(&mut accounts, &buffer, &mut channel),
        ExecutionOutcome::Failure(InvokeError::UnknownInstruction)
    );
    let empty: Dispatcher<Initialize> = Dispatcher::new(program(), Registry::new());
    let greet = encode(&GREET_DISCRIMINATOR, &[]);
    assert_eq!(
        empty.invoke(&mut accounts, &greet, &mut channel),
        ExecutionOutcome::Failure(InvokeError::UnknownInstruction)
    );
}

#[test]
fn replay_gives_the_same_outcome_and_lines() {
    let dispatcher = greeter(signer_writable());
    let buffer = encode(&GREET_DISCRIMINATOR, &[]);
    let mut first_accounts = vec![account(1, true, false), account(2, false, true)];
    let mut second_accounts = first_accounts.clone();
    let mut channel = ResultChannel::new();
    let first = dispatcher.invoke(&mut first_accounts, &buffer, &mut channel);
    let first_render = channel.render();
    let second = dispatcher.invoke(&mut second_accounts, &buffer, &mut channel);
    let second_render = channel.render();
    assert_eq!(first, second);
    assert_eq!(first_render, second_render);
    assert_eq!(first_render.0, vec!["GM!".to_string()]);
    assert_eq!(first_accounts, second_accounts);
}

#[test]
fn channel_is_reset_between_invocations() {
    let dispatcher = greeter(signer_writable());
    let mut accounts = vec![account(1, true, false), account(2, false, true)];
    let mut channel = ResultChannel::new();
    let greet = encode(&GREET_DISCRIMINATOR, &[]);
    dispatcher.invoke(&mut accounts, &greet, &mut channel);
    assert_eq!(channel.line_count(), 1);
    let outcome = dispatcher.invoke(&mut accounts, &[1, 2], &mut channel);
    let (lines, sealed) = channel.render();
    assert!(lines.is_empty());
    assert_eq!(sealed, Some(outcome));
}

#[test]
fn duplicate_registration_is_refused() {
    let mut registry: Registry<Initialize> = Registry::new();
    assert_eq!(registry.register(GREET_DISCRIMINATOR, vec![], Initialize {}), Ok(()));
    assert_eq!(
        registry.register(GREET_DISCRIMINATOR, signer_writable(), Initialize {}),
        Err(RegistrationError::DuplicateDiscriminator)
    );
    assert_eq!(registry.len(), 1);
    assert_eq!(registry.register([1u8; 8], vec![], Initialize {}), Ok(()));
    assert_eq!(registry.len(), 2);
    assert_eq!(registry.find(&GREET_DISCRIMINATOR), Some(0));
    assert_eq!(registry.find(&[1u8; 8]), Some(1));
    assert_eq!(registry.find(&[2u8; 8]), None);
    assert!(registry.entry(1).is_some());
    assert!(registry.entry(2).is_none());
    // the first registration stands: its schema is empty
    let dispatcher = Dispatcher::new(program(), registry);
    let mut accounts: Vec<AccountDescriptor> = vec![];
    let mut channel = ResultChannel::new();
    let greet = encode(&GREET_DISCRIMINATOR, &[]);
    assert_eq!(dispatcher.invoke(&mut accounts, &greet, &mut channel), ExecutionOutcome::Success);
    assert_eq!(dispatcher.program_identity(), program());
}
