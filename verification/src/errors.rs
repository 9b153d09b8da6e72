//! Error taxonomy of the escrow. Every failure is a whole-operation abort and
//! carries a stable numeric code that off-chain coordinators branch on.

use vstd::prelude::*;

verus! {

/// Why an operation was refused.
#[derive(Copy, Clone, Debug, PartialEq, Eq, PartialOrd, Ord, Hash, Structural)]
pub enum HTLCError {
    // Validation
    InvalidAmount,
    InvalidTimelock,
    InvalidFee,
    InvalidPreimage,
    InvalidRecipient,
    // State conflict
    SwapNotFound,
    SwapAlreadyExists,
    AlreadyClaimed,
    AlreadyRefunded,
    // Timing
    TimelockExpired,
    TimelockNotExpired,
    // Authorization
    Unauthorized,
    NotInitiated,
    // Collaborator failure
    TokenTransferFailed,
    InsufficientBalance,
    InsufficientCollateral,
    // Resolver
    ResolverNotFound,
    ResolverNotActive,
    // Lifecycle
    AlreadyInitialized,
    NotInitialized,
}

impl HTLCError {
    /// The documented code of each error: the thousands digit is the category,
    /// the rest numbers the error within it.
    pub open spec fn spec_code(self) -> u32 {
        match self {
            HTLCError::InvalidAmount => 1000,
            HTLCError::InvalidTimelock => 1001,
            HTLCError::InvalidFee => 1002,
            HTLCError::InvalidPreimage => 1003,
            HTLCError::InvalidRecipient => 1004,
            HTLCError::SwapNotFound => 2000,
            HTLCError::SwapAlreadyExists => 2001,
            HTLCError::AlreadyClaimed => 2002,
            HTLCError::AlreadyRefunded => 2003,
            HTLCError::TimelockExpired => 3000,
            HTLCError::TimelockNotExpired => 3001,
            HTLCError::Unauthorized => 4000,
            HTLCError::NotInitiated => 4001,
            HTLCError::TokenTransferFailed => 5000,
            HTLCError::InsufficientBalance => 5001,
            HTLCError::InsufficientCollateral => 5002,
            HTLCError::ResolverNotFound => 6000,
            HTLCError::ResolverNotActive => 6001,
            HTLCError::AlreadyInitialized => 7000,
            HTLCError::NotInitialized => 7001,
        }
    }

    /// The error that a code stands for, if any.
    pub open spec fn spec_from_code(code: u32) -> Option<HTLCError> {
        if code == 1000 {
            Some(HTLCError::InvalidAmount)
        } else if code == 1001 {
            Some(HTLCError::InvalidTimelock)
        } else if code == 1002 {
            Some(HTLCError::InvalidFee)
        } else if code == 1003 {
            Some(HTLCError::InvalidPreimage)
        } else if code == 1004 {
            Some(HTLCError::InvalidRecipient)
        } else if code == 2000 {
            Some(HTLCError::SwapNotFound)
        } else if code == 2001 {
            Some(HTLCError::SwapAlreadyExists)
        } else if code == 2002 {
            Some(HTLCError::AlreadyClaimed)
        } else if code == 2003 {
            Some(HTLCError::AlreadyRefunded)
        } else if code == 3000 {
            Some(HTLCError::TimelockExpired)
        } else if code == 3001 {
            Some(HTLCError::TimelockNotExpired)
        } else if code == 4000 {
            Some(HTLCError::Unauthorized)
        } else if code == 4001 {
            Some(HTLCError::NotInitiated)
        } else if code == 5000 {
            Some(HTLCError::TokenTransferFailed)
        } else if code == 5001 {
            Some(HTLCError::InsufficientBalance)
        } else if code == 5002 {
            Some(HTLCError::InsufficientCollateral)
        } else if code == 6000 {
            Some(HTLCError::ResolverNotFound)
        } else if code == 6001 {
            Some(HTLCError::ResolverNotActive)
        } else if code == 7000 {
            Some(HTLCError::AlreadyInitialized)
        } else if code == 7001 {
            Some(HTLCError::NotInitialized)
        } else {
            None
        }
    }

    /// The numeric code that callers see.
    #[verifier::when_used_as_spec(spec_code)]
    pub fn code(self) -> (code: u32)
        ensures
            code == self.spec_code(),
    {
        match self {
            HTLCError::InvalidAmount => 1000,
            HTLCError::InvalidTimelock => 1001,
            HTLCError::InvalidFee => 1002,
            HTLCError::InvalidPreimage => 1003,
            HTLCError::InvalidRecipient => 1004,
            HTLCError::SwapNotFound => 2000,
            HTLCError::SwapAlreadyExists => 2001,
            HTLCError::AlreadyClaimed => 2002,
            HTLCError::AlreadyRefunded => 2003,
            HTLCError::TimelockExpired => 3000,
            HTLCError::TimelockNotExpired => 3001,
            HTLCError::Unauthorized => 4000,
            HTLCError::NotInitiated => 4001,
            HTLCError::TokenTransferFailed => 5000,
            HTLCError::InsufficientBalance => 5001,
            HTLCError::InsufficientCollateral => 5002,
            HTLCError::ResolverNotFound => 6000,
            HTLCError::ResolverNotActive => 6001,
            HTLCError::AlreadyInitialized => 7000,
            HTLCError::NotInitialized => 7001,
        }
    }

    /// Decodes a code back into the error it stands for.
    #[verifier::when_used_as_spec(spec_from_code)]
    pub fn from_code(code: u32) -> (error: Option<HTLCError>)
        ensures
            error == Self::spec_from_code(code),
    {
        if code == 1000 {
            Some(HTLCError::InvalidAmount)
        } else if code == 1001 {
            Some(HTLCError::InvalidTimelock)
        } else if code == 1002 {
            Some(HTLCError::InvalidFee)
        } else if code == 1003 {
            Some(HTLCError::InvalidPreimage)
        } else if code == 1004 {
            Some(HTLCError::InvalidRecipient)
        } else if code == 2000 {
            Some(HTLCError::SwapNotFound)
        } else if code == 2001 {
            Some(HTLCError::SwapAlreadyExists)
        } else if code == 2002 {
            Some(HTLCError::AlreadyClaimed)
        } else if code == 2003 {
            Some(HTLCError::AlreadyRefunded)
        } else if code == 3000 {
            Some(HTLCError::TimelockExpired)
        } else if code == 3001 {
            Some(HTLCError::TimelockNotExpired)
        } else if code == 4000 {
            Some(HTLCError::Unauthorized)
        } else if code == 4001 {
            Some(HTLCError::NotInitiated)
        } else if code == 5000 {
            Some(HTLCError::TokenTransferFailed)
        } else if code == 5001 {
            Some(HTLCError::InsufficientBalance)
        } else if code == 5002 {
            Some(HTLCError::InsufficientCollateral)
        } else if code == 6000 {
            Some(HTLCError::ResolverNotFound)
        } else if code == 6001 {
            Some(HTLCError::ResolverNotActive)
        } else if code == 7000 {
            Some(HTLCError::AlreadyInitialized)
        } else if code == 7001 {
            Some(HTLCError::NotInitialized)
        } else {
            None
        }
    }

    /// Every error is told apart by its code: decoding the code of an error
    /// gives that error back, and a code decodes only to the error that
    /// carries it.
    pub proof fn lemma_codes_distinguish(self, code: u32)
        ensures
            Self::spec_from_code(self.spec_code()) == Some(self),
            Self::spec_from_code(code) == Some(self) <==> code == self.spec_code(),
    {
    }

    /// Two errors with the same code are the same error.
    pub proof fn lemma_code_injective(self, other: HTLCError)
        requires
            self.spec_code() == other.spec_code(),
        ensures
            self == other,
    {
    }
}

/// Why the asset-transfer collaborator could not move funds.
#[derive(Copy, Clone, Debug, PartialEq, Eq, Hash, Structural)]
pub enum TransferError {
    /// The paying side does not hold the amount.
    InsufficientBalance,
    /// Any other failure of the transfer.
    Failed,
}

impl TransferError {
    /// The escrow error that stands for a failed transfer.
    pub open spec fn spec_as_error(self) -> HTLCError {
        match self {
            TransferError::InsufficientBalance => HTLCError::InsufficientBalance,
            TransferError::Failed => HTLCError::TokenTransferFailed,
        }
    }

    /// The escrow error that stands for a failed transfer.
    #[verifier::when_used_as_spec(spec_as_error)]
    pub fn as_error(self) -> (error: HTLCError)
        ensures
            error == self.spec_as_error(),
    {
        match self {
            TransferError::InsufficientBalance => HTLCError::InsufficientBalance,
            TransferError::Failed => HTLCError::TokenTransferFailed,
        }
    }
}

} // verus!
