use vstd::prelude::*;

verus! {

/// The first number of the program's own error codes; the codes below it
/// belong to the framework and the runtime.
pub const ERROR_CODE_OFFSET: u32 = 6000;

/// The reasons for which the escrow program turns an instruction down.
///
/// | Error                 | When                                        |
/// |-----------------------|---------------------------------------------|
/// | `DescriptionTooLong`  | description longer than 200 bytes           |
/// | `InvalidAmount`       | amount is zero                              |
/// | `BuyerCannotBeSeller` | same key for buyer and seller               |
/// | `InvalidArbiter`      | arbiter equals buyer or seller              |
/// | `Unauthorized`        | caller lacks permission                     |
/// | `InvalidState`        | wrong lifecycle state for the action        |
/// | `InvalidSeller`       | seller account differs from the record      |
/// | `InvalidBuyer`        | buyer account differs from the record       |
/// | `EscrowNotSettled`    | close called on an unsettled escrow         |
#[derive(Clone, Copy, Debug, PartialEq, Eq, Structural)]
pub enum EscrowError {
    DescriptionTooLong,
    InvalidAmount,
    BuyerCannotBeSeller,
    InvalidArbiter,
    Unauthorized,
    InvalidState,
    InvalidSeller,
    InvalidBuyer,
    EscrowNotSettled,
}

/// The position of a variant in the declaration of [`EscrowError`].
pub open spec fn error_index(e: EscrowError) -> u32 {
    match e {
        EscrowError::DescriptionTooLong => 0,
        EscrowError::InvalidAmount => 1,
        EscrowError::BuyerCannotBeSeller => 2,
        EscrowError::InvalidArbiter => 3,
        EscrowError::Unauthorized => 4,
        EscrowError::InvalidState => 5,
        EscrowError::InvalidSeller => 6,
        EscrowError::InvalidBuyer => 7,
        EscrowError::EscrowNotSettled => 8,
    }
}

/// The number under which an error reaches the client.
pub open spec fn error_code(e: EscrowError) -> u32 {
    (ERROR_CODE_OFFSET + error_index(e)) as u32
}

/// The name of the variant, as the client sees it.
pub open spec fn error_name(e: EscrowError) -> Seq<char> {
    match e {
        EscrowError::DescriptionTooLong => "DescriptionTooLong"@,
        EscrowError::InvalidAmount => "InvalidAmount"@,
        EscrowError::BuyerCannotBeSeller => "BuyerCannotBeSeller"@,
        EscrowError::InvalidArbiter => "InvalidArbiter"@,
        EscrowError::Unauthorized => "Unauthorized"@,
        EscrowError::InvalidState => "InvalidState"@,
        EscrowError::InvalidSeller => "InvalidSeller"@,
        EscrowError::InvalidBuyer => "InvalidBuyer"@,
        EscrowError::EscrowNotSettled => "EscrowNotSettled"@,
    }
}

/// The human-readable message of an error.
pub open spec fn error_message(e: EscrowError) -> Seq<char> {
    match e {
        EscrowError::DescriptionTooLong => "Description exceeds 200 character limit"@,
        EscrowError::InvalidAmount => "Escrow amount must be greater than zero"@,
        EscrowError::BuyerCannotBeSeller => "Buyer and seller must be different accounts"@,
        EscrowError::InvalidArbiter => "Arbiter must be different from buyer and seller"@,
        EscrowError::Unauthorized => "Caller is not authorized to perform this action"@,
        EscrowError::InvalidState => "Escrow is not in the required state for this operation"@,
        EscrowError::InvalidSeller => "Provided seller account does not match escrow record"@,
        EscrowError::InvalidBuyer => "Provided buyer account does not match escrow record"@,
        EscrowError::EscrowNotSettled => "Escrow must be in Released or Refunded state to close"@,
    }
}

impl EscrowError {
    /// The error code: the offset plus the variant's position.
    pub fn code(&self) -> (r: u32)
        ensures
            r == error_code(*self),
    {
        match self {
            EscrowError::DescriptionTooLong => ERROR_CODE_OFFSET,
            EscrowError::InvalidAmount => ERROR_CODE_OFFSET + 1,
            EscrowError::BuyerCannotBeSeller => ERROR_CODE_OFFSET + 2,
            EscrowError::InvalidArbiter => ERROR_CODE_OFFSET + 3,
            EscrowError::Unauthorized => ERROR_CODE_OFFSET + 4,
            EscrowError::InvalidState => ERROR_CODE_OFFSET + 5,
            EscrowError::InvalidSeller => ERROR_CODE_OFFSET + 6,
            EscrowError::InvalidBuyer => ERROR_CODE_OFFSET + 7,
            EscrowError::EscrowNotSettled => ERROR_CODE_OFFSET + 8,
        }
    }

    /// The name of the variant.
    pub fn name(&self) -> (r: String)
        ensures
            r@ == error_name(*self),
    {
        match self {
            EscrowError::DescriptionTooLong => "DescriptionTooLong".to_owned(),
            EscrowError::InvalidAmount => "InvalidAmount".to_owned(),
            EscrowError::BuyerCannotBeSeller => "BuyerCannotBeSeller".to_owned(),
            EscrowError::InvalidArbiter => "InvalidArbiter".to_owned(),
            EscrowError::Unauthorized => "Unauthorized".to_owned(),
            EscrowError::InvalidState => "InvalidState".to_owned(),
            EscrowError::InvalidSeller => "InvalidSeller".to_owned(),
            EscrowError::InvalidBuyer => "InvalidBuyer".to_owned(),
            EscrowError::EscrowNotSettled => "EscrowNotSettled".to_owned(),
        }
    }

    /// The message of the error, as it is displayed.
    pub fn message(&self) -> (r: String)
        ensures
            r@ == error_message(*self),
    {
        match self {
            EscrowError::DescriptionTooLong => "Description exceeds 200 character limit".to_owned(),
            EscrowError::InvalidAmount => "Escrow amount must be greater than zero".to_owned(),
            EscrowError::BuyerCannotBeSeller => "Buyer and seller must be different accounts".to_owned(),
            EscrowError::InvalidArbiter => "Arbiter must be different from buyer and seller".to_owned(),
            EscrowError::Unauthorized => "Caller is not authorized to perform this action".to_owned(),
            EscrowError::InvalidState => "Escrow is not in the required state for this operation".to_owned(),
            EscrowError::InvalidSeller => "Provided seller account does not match escrow record".to_owned(),
            EscrowError::InvalidBuyer => "Provided buyer account does not match escrow record".to_owned(),
            EscrowError::EscrowNotSettled => "Escrow must be in Released or Refunded state to close".to_owned(),
        }
    }
}

impl From<EscrowError> for u32 {
    fn from(e: EscrowError) -> (r: u32) {
        e.code()
    }
}

impl vstd::std_specs::convert::FromSpecImpl<EscrowError> for u32 {
    open spec fn obeys_from_spec() -> bool {
        true
    }

    open spec fn from_spec(e: EscrowError) -> u32 {
        error_code(e)
    }
}

/// Why an instruction fails: a refusal of the escrow program itself, or a
/// failure that the framework reports for it.
#[derive(Clone, Copy, Debug, PartialEq, Eq, Structural)]
pub enum InstructionError {
    /// The escrow program's own refusal.
    Escrow(EscrowError),
    /// An account is not the address that its seeds and bump derive
    /// (a violated seeds constraint).
    ConstraintSeeds,
    /// A lamport balance would drop below zero or exceed `u64::MAX`.
    ArithmeticOverflow,
}

} // verus!
