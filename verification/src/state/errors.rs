use vstd::prelude::*;

verus! {

/// Why an instruction was refused.
#[derive(Clone, Copy, Debug, PartialEq, Eq, Structural)]
pub enum AMMErrors {
    TooManyTokens,
    ZeroValueError,
    CPRatioOverflowError,
    AdminNotInitalized,
    NotAuthorizedError,
}

impl AMMErrors {
    /// The message shown to the user for this error.
    pub fn message(&self) -> (m: &'static str)
        ensures
            m@ == match *self {
                AMMErrors::TooManyTokens => "Please enter valid token quantity"@,
                AMMErrors::ZeroValueError => "Value cannot be zero"@,
                AMMErrors::CPRatioOverflowError => "Please reduce your market cap"@,
                AMMErrors::AdminNotInitalized => "Admin not initalized"@,
                AMMErrors::NotAuthorizedError => "You are not authorized to execute this instruction"@,
            },
    {
        match self {
            AMMErrors::TooManyTokens => "Please enter valid token quantity",
            AMMErrors::ZeroValueError => "Value cannot be zero",
            AMMErrors::CPRatioOverflowError => "Please reduce your market cap",
            AMMErrors::AdminNotInitalized => "Admin not initalized",
            AMMErrors::NotAuthorizedError => "You are not authorized to execute this instruction",
        }
    }
}

} // verus!
