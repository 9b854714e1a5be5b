use vstd::prelude::*;

verus! {

/// Why an operation was refused. A refused operation changes nothing.
#[derive(Clone, Copy, Debug, PartialEq, Eq, Structural)]
pub enum ErrorCode {
    /// An arithmetic step left the representable range, or a result did not
    /// fit in 64 bits.
    MathOverflow,
    /// A sell of zero units, or of more units than are in circulation.
    InvalidDelta,
    /// The sell would take more out of the reserve than the market-wide
    /// allowance for the current window.
    GlobalSellCapExceeded,
    /// The sell would take more out of the reserve than the wallet's
    /// allowance for the current window.
    WalletSellCapExceeded,
    /// The wallet sold too recently.
    CooldownActive,
    /// The wallet's allowance is zero, so its usage is undefined.
    InvalidCap,
    /// A basis-point invariant is broken: the three shares of a market's cost
    /// split do not add up to 100%, or an update would put the market-wide
    /// allowance or the top fee tier of the configuration above its limit.
    BadBps,
    /// A season would not end after it starts.
    BadParam,
    /// Trading is paused.
    Paused,
    /// A vault named by the caller is not the one the market was created
    /// with.
    InvalidVault,
    /// The caller is not the administrator.
    NotAuthorized,
}

impl ErrorCode {
    /// The text of [`ErrorCode::message`].
    pub open spec fn message_text(self) -> Seq<char> {
        match self {
            ErrorCode::MathOverflow => "Math overflow"@,
            ErrorCode::InvalidDelta => "Invalid delta"@,
            ErrorCode::GlobalSellCapExceeded => "Global sell cap exceeded"@,
            ErrorCode::WalletSellCapExceeded => "Wallet sell cap exceeded"@,
            ErrorCode::CooldownActive => "Sell cooldown active"@,
            ErrorCode::InvalidCap => "Invalid cap"@,
            ErrorCode::BadBps => "Bad basis points sum"@,
            ErrorCode::BadParam => "Bad parameter"@,
            ErrorCode::Paused => "System is paused"@,
            ErrorCode::InvalidVault => "Invalid vault"@,
            ErrorCode::NotAuthorized => "Not authorized"@,
        }
    }

    /// A short description of the error for people.
    pub fn message(&self) -> (r: &'static str)
        ensures
            r@ == self.message_text(),
    {
        match self {
            ErrorCode::MathOverflow => "Math overflow",
            ErrorCode::InvalidDelta => "Invalid delta",
            ErrorCode::GlobalSellCapExceeded => "Global sell cap exceeded",
            ErrorCode::WalletSellCapExceeded => "Wallet sell cap exceeded",
            ErrorCode::CooldownActive => "Sell cooldown active",
            ErrorCode::InvalidCap => "Invalid cap",
            ErrorCode::BadBps => "Bad basis points sum",
            ErrorCode::BadParam => "Bad parameter",
            ErrorCode::Paused => "System is paused",
            ErrorCode::InvalidVault => "Invalid vault",
            ErrorCode::NotAuthorized => "Not authorized",
        }
    }
}

} // verus!
