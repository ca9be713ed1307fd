use vstd::prelude::*;

verus! {

/// Every way an instruction can fail. All of them are final for the call
/// that reports them: nothing has been changed when one comes back.
#[derive(Clone, Copy, Debug, PartialEq, Eq, Structural)]
pub enum Errors {
    /// An account holds too little quote currency for a fixed charge.
    InsufficientFunds,
    /// Trading on the curve has ended.
    BondingCurveComplete,
    /// Migration was asked for while the curve still trades.
    BondingCurveNotComplete,
    /// The curve's liquidity has already been migrated.
    BondingCurveMigrated,
    /// The trade would return less than the tolerated minimum.
    SlippageExceeded,
    /// A quantity left the range of 64-bit unsigned integers.
    MathOverflow,
    /// A percentage above 10000 basis points.
    InvalidPercentage,
    /// The seller holds fewer tokens than the sale needs.
    InsufficientTokenBalance,
    /// A sale of zero tokens.
    InvalidAmount,
    /// The curve holds less quote currency than the sale pays out.
    InsufficientReserves,
}

impl Errors {
    /// The message of each error.
    pub open spec fn text(self) -> Seq<char> {
        match self {
            Errors::InsufficientFunds => "Insufficient funds for the operation."@,
            Errors::BondingCurveComplete => "Bonding curve complete."@,
            Errors::BondingCurveNotComplete => "Bonding curve not complete."@,
            Errors::BondingCurveMigrated => "Bonding urve has been migrated."@,
            Errors::SlippageExceeded => "Slippage tolerance exceeded"@,
            Errors::MathOverflow => "Math overflow occurred"@,
            Errors::InvalidPercentage => "Invalid percentage. Must be between 0-10000 basis points"@,
            Errors::InsufficientTokenBalance => "Insufficient token balance"@,
            Errors::InvalidAmount => "Invalid amount"@,
            Errors::InsufficientReserves => "Insufficient reserves"@,
        }
    }

    /// The message of this error, for display.
    pub fn message(&self) -> (s: String)
        ensures
            s@ == self.text(),
    {
        match self {
            Errors::InsufficientFunds => "Insufficient funds for the operation.".to_owned(),
            Errors::BondingCurveComplete => "Bonding curve complete.".to_owned(),
            Errors::BondingCurveNotComplete => "Bonding curve not complete.".to_owned(),
            Errors::BondingCurveMigrated => "Bonding urve has been migrated.".to_owned(),
            Errors::SlippageExceeded => "Slippage tolerance exceeded".to_owned(),
            Errors::MathOverflow => "Math overflow occurred".to_owned(),
            Errors::InvalidPercentage => "Invalid percentage. Must be between 0-10000 basis points".to_owned(),
            Errors::InsufficientTokenBalance => "Insufficient token balance".to_owned(),
            Errors::InvalidAmount => "Invalid amount".to_owned(),
            Errors::InsufficientReserves => "Insufficient reserves".to_owned(),
        }
    }
}

} // verus!
