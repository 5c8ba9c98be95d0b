use vstd::prelude::*;

verus! {

/// A typed failure raised by one of the account capability checks.
///
/// Every check reports exactly one of these kinds; the instruction
/// surfaces it to the runtime as a program-defined numeric code.
#[derive(Clone, Copy, Debug, PartialEq, Eq, Structural)]
pub enum PinocchioError {
    /// A required authorizing party did not sign the transaction.
    NotSigner,
    /// An account's owning program does not match the expected program
    /// for its role.
    InvalidOwner,
    /// An account's byte length or contents do not match the expected
    /// fixed layout.
    InvalidAccountData,
    /// A derived or associated address does not match the supplied
    /// account's actual address.
    InvalidAddress,
}

impl PinocchioError {
    /// The numeric code under which this failure is reported to the runtime.
    pub open spec fn spec_code(self) -> u32 {
        match self {
            PinocchioError::NotSigner => 0,
            PinocchioError::InvalidOwner => 1,
            PinocchioError::InvalidAccountData => 2,
            PinocchioError::InvalidAddress => 3,
        }
    }

    pub fn code(self) -> (c: u32)
        ensures
            c == self.spec_code(),
    {
        match self {
            PinocchioError::NotSigner => 0,
            PinocchioError::InvalidOwner => 1,
            PinocchioError::InvalidAccountData => 2,
            PinocchioError::InvalidAddress => 3,
        }
    }
}

/// The failure of one instruction as reported to the runtime: one of the
/// runtime's own error kinds, or a program-defined code.
#[derive(Clone, Copy, Debug, PartialEq, Eq, Structural)]
pub enum ProgramError {
    /// The instruction was handed fewer accounts than it needs.
    NotEnoughAccountKeys,
    /// An account's recorded authority or derivation does not match.
    InvalidAccountOwner,
    /// An account's bytes cannot be interpreted as the expected record.
    InvalidAccountData,
    /// A seed tuple does not derive a valid address.
    InvalidSeeds,
    /// A payer cannot cover a required balance.
    InsufficientFunds,
    /// An account that was to be created already carries live state.
    AccountAlreadyInitialized,
    /// A balance computation would exceed the counter's range.
    ArithmeticOverflow,
    /// A program-defined failure, carrying its numeric code.
    Custom(u32),
}

impl From<PinocchioError> for ProgramError {
    fn from(val: PinocchioError) -> (r: Self) {
        ProgramError::Custom(val.code())
    }
}

impl vstd::std_specs::convert::FromSpecImpl<PinocchioError> for ProgramError {
    open spec fn obeys_from_spec() -> bool {
        true
    }

    open spec fn from_spec(val: PinocchioError) -> Self {
        ProgramError::Custom(val.spec_code())
    }
}

} // verus!
