//! Terminal outcomes of an invocation and the errors they carry.

use vstd::prelude::*;
use crate::instruction::DecodeError;
use crate::validate::ValidationError;

verus! {

/// A failure that a handler raises, with a code and a message of its own.
#[derive(Clone, Debug, PartialEq, Eq)]
pub struct ApplicationError {
    pub code: u32,
    pub message: String,
}

/// The mathematical content of an application error.
pub struct Fault {
    pub code: u32,
    pub message: Seq<char>,
}

impl View for ApplicationError {
    type V = Fault;

    open spec fn view(&self) -> Fault {
        Fault { code: self.code, message: self.message@ }
    }
}

/// Everything that can end an invocation short of success.
#[derive(Clone, Debug, PartialEq, Eq)]
pub enum InvokeError {
    /// The instruction buffer could not be decoded.
    Decode(DecodeError),
    /// No handler is registered under the buffer's discriminator.
    UnknownInstruction,
    /// The accounts do not satisfy the handler's schema.
    Validation(ValidationError),
    /// The handler itself failed.
    Application(ApplicationError),
}

/// The terminal result of one invocation.
#[derive(Clone, Debug, PartialEq, Eq)]
pub enum ExecutionOutcome {
    Success,
    Failure(InvokeError),
}

/// The mathematical content of an outcome.
pub enum OutcomeView {
    Success,
    Decode(DecodeError),
    UnknownInstruction,
    Validation(ValidationError),
    Application(Fault),
}

impl View for InvokeError {
    type V = OutcomeView;

    open spec fn view(&self) -> OutcomeView {
        match self {
            InvokeError::Decode(e) => OutcomeView::Decode(*e),
            InvokeError::UnknownInstruction => OutcomeView::UnknownInstruction,
            InvokeError::Validation(e) => OutcomeView::Validation(*e),
            InvokeError::Application(e) => OutcomeView::Application(e@),
        }
    }
}

impl View for ExecutionOutcome {
    type V = OutcomeView;

    open spec fn view(&self) -> OutcomeView {
        match self {
            ExecutionOutcome::Success => OutcomeView::Success,
            ExecutionOutcome::Failure(e) => e@,
        }
    }
}

/// The outcome that a handler's own result stands for.
pub open spec fn handler_outcome(result: Result<(), Fault>) -> OutcomeView {
    match result {
        Ok(_) => OutcomeView::Success,
        Err(fault) => OutcomeView::Application(fault),
    }
}

/// The contents of a handler's result.
pub open spec fn result_view(result: Result<(), ApplicationError>) -> Result<(), Fault> {
    match result {
        Ok(_) => Ok(()),
        Err(e) => Err(e@),
    }
}

/// Code reported for a truncated instruction.
pub const CODE_TRUNCATED_INSTRUCTION: u32 = 1;

/// Code reported for a malformed payload.
pub const CODE_MALFORMED_PAYLOAD: u32 = 2;

/// Code reported for an unregistered discriminator.
pub const CODE_UNKNOWN_INSTRUCTION: u32 = 3;

/// Code reported for a wrong number of accounts.
pub const CODE_ACCOUNT_COUNT_MISMATCH: u32 = 4;

/// Code reported for a missing signature.
pub const CODE_MISSING_SIGNATURE: u32 = 5;

/// Code reported for an account that is not writable.
pub const CODE_ACCOUNT_NOT_WRITABLE: u32 = 6;

/// Code reported for a wrong derived address.
pub const CODE_INVALID_DERIVED_ADDRESS: u32 = 7;

/// Code reported for a wrong owner.
pub const CODE_OWNER_MISMATCH: u32 = 8;

impl OutcomeView {
    /// The numeric code of an outcome: 0 for success, a fixed code for
    /// each structural error, the handler's own code for its failures.
    pub open spec fn code(self) -> u32 {
        match self {
            OutcomeView::Success => 0,
            OutcomeView::Decode(DecodeError::TruncatedInstruction) => CODE_TRUNCATED_INSTRUCTION,
            OutcomeView::Decode(DecodeError::MalformedPayload(_)) => CODE_MALFORMED_PAYLOAD,
            OutcomeView::UnknownInstruction => CODE_UNKNOWN_INSTRUCTION,
            OutcomeView::Validation(ValidationError::AccountCountMismatch) =>
                CODE_ACCOUNT_COUNT_MISMATCH,
            OutcomeView::Validation(ValidationError::MissingSignature(_)) => CODE_MISSING_SIGNATURE,
            OutcomeView::Validation(ValidationError::AccountNotWritable(_)) =>
                CODE_ACCOUNT_NOT_WRITABLE,
            OutcomeView::Validation(ValidationError::InvalidDerivedAddress(_)) =>
                CODE_INVALID_DERIVED_ADDRESS,
            OutcomeView::Validation(ValidationError::OwnerMismatch(_, _, _)) => CODE_OWNER_MISMATCH,
            OutcomeView::Application(fault) => fault.code,
        }
    }

    /// The message of an outcome: a fixed text for success and for each
    /// structural error, the handler's own message for its failures.
    pub open spec fn message(self) -> Seq<char> {
        match self {
            OutcomeView::Success => "success"@,
            OutcomeView::Decode(DecodeError::TruncatedInstruction) => "truncated instruction"@,
            OutcomeView::Decode(DecodeError::MalformedPayload(_)) => "malformed payload"@,
            OutcomeView::UnknownInstruction => "unknown instruction"@,
            OutcomeView::Validation(ValidationError::AccountCountMismatch) =>
                "account count mismatch"@,
            OutcomeView::Validation(ValidationError::MissingSignature(_)) => "missing signature"@,
            OutcomeView::Validation(ValidationError::AccountNotWritable(_)) =>
                "account not writable"@,
            OutcomeView::Validation(ValidationError::InvalidDerivedAddress(_)) =>
                "invalid derived address"@,
            OutcomeView::Validation(ValidationError::OwnerMismatch(_, _, _)) => "owner mismatch"@,
            OutcomeView::Application(fault) => fault.message,
        }
    }
}

impl ExecutionOutcome {
    /// Whether the invocation succeeded.
    pub fn is_success(&self) -> (b: bool)
        ensures
            b == (self@ is Success),
    {
        match self {
            ExecutionOutcome::Success => true,
            ExecutionOutcome::Failure(_) => false,
        }
    }

    /// The outcome of a handler's own result, passed on as it is.
    pub fn from_handler(result: Result<(), ApplicationError>) -> (outcome: ExecutionOutcome)
        ensures
            outcome@ == handler_outcome(result_view(result)),
    {
        match result {
            Ok(_) => ExecutionOutcome::Success,
            Err(e) => ExecutionOutcome::Failure(InvokeError::Application(e)),
        }
    }

    /// The numeric code of the outcome.
    pub fn code(&self) -> (code: u32)
        ensures
            code == self@.code(),
    {
        match self {
            ExecutionOutcome::Success => 0,
            ExecutionOutcome::Failure(e) => e.code(),
        }
    }

    /// The message of the outcome.
    pub fn message(&self) -> (message: String)
        ensures
            message@ == self@.message(),
    {
        match self {
            ExecutionOutcome::Success => "success".to_owned(),
            ExecutionOutcome::Failure(e) => e.message(),
        }
    }

    /// A copy of the outcome with the same contents.
    pub fn duplicate(&self) -> (copy: ExecutionOutcome)
        ensures
            copy@ == self@,
    {
        match self {
            ExecutionOutcome::Success => ExecutionOutcome::Success,
            ExecutionOutcome::Failure(e) => ExecutionOutcome::Failure(e.duplicate()),
        }
    }
}

impl InvokeError {
    /// The numeric code of the error.
    pub fn code(&self) -> (code: u32)
        ensures
            code == self@.code(),
    {
        match self {
            InvokeError::Decode(DecodeError::TruncatedInstruction) => CODE_TRUNCATED_INSTRUCTION,
            InvokeError::Decode(DecodeError::MalformedPayload(_)) => CODE_MALFORMED_PAYLOAD,
            InvokeError::UnknownInstruction => CODE_UNKNOWN_INSTRUCTION,
            InvokeError::Validation(e) => match e {
                ValidationError::AccountCountMismatch => CODE_ACCOUNT_COUNT_MISMATCH,
                ValidationError::MissingSignature(_) => CODE_MISSING_SIGNATURE,
                ValidationError::AccountNotWritable(_) => CODE_ACCOUNT_NOT_WRITABLE,
                ValidationError::InvalidDerivedAddress(_) => CODE_INVALID_DERIVED_ADDRESS,
                ValidationError::OwnerMismatch(_, _, _) => CODE_OWNER_MISMATCH,
            },
            InvokeError::Application(e) => e.code,
        }
    }

    /// The message of the error.
    pub fn message(&self) -> (message: String)
        ensures
            message@ == self@.message(),
    {
        match self {
            InvokeError::Decode(DecodeError::TruncatedInstruction) =>
                "truncated instruction".to_owned(),
            InvokeError::Decode(DecodeError::MalformedPayload(_)) => "malformed payload".to_owned(),
            InvokeError::UnknownInstruction => "unknown instruction".to_owned(),
            InvokeError::Validation(e) => match e {
                ValidationError::AccountCountMismatch => "account count mismatch".to_owned(),
                ValidationError::MissingSignature(_) => "missing signature".to_owned(),
                ValidationError::AccountNotWritable(_) => "account not writable".to_owned(),
                ValidationError::InvalidDerivedAddress(_) => "invalid derived address".to_owned(),
                ValidationError::OwnerMismatch(_, _, _) => "owner mismatch".to_owned(),
            },
            InvokeError::Application(e) => e.message.clone(),
        }
    }

    /// A copy of the error with the same contents.
    pub fn duplicate(&self) -> (copy: InvokeError)
        ensures
            copy@ == self@,
    {
        match self {
            InvokeError::Decode(e) => InvokeError::Decode(*e),
            InvokeError::UnknownInstruction => InvokeError::UnknownInstruction,
            InvokeError::Validation(e) => InvokeError::Validation(*e),
            InvokeError::Application(e) => InvokeError::Application(
                ApplicationError { code: e.code, message: e.message.clone() },
            ),
        }
    }
}

} // verus!
