//! Errors that the canvas program reports.
use vstd::prelude::*;

verus! {

/// Errors that may be returned by the program.
#[derive(Clone, Copy, Debug, PartialEq, Eq, Structural)]
pub enum NftCanvasError {
    ProgramKeyMismatch,
    RentSysvarKeyMismatch,
    TokenProgramKeyMismatch,
    PixelAccountKeyMismatch,
    MintPoolWalletKeyMismatch,
    TeamWalletKeyMismatch,
    TeamTokenAccountKeyMismatch,
    TradePoolKeyMismatch,
    TradePoolTokenAccountKeyMismatch,
    PixelOwnerKeyMismatch,
    BuyerTokenAccountKeyMismatch,
    FunderDidNotSign,
    PixelOwnerDidNotSign,
    PixelIndexOutOfBounds,
    PixelUninitialized,
    BuyPriceTooLow,
    CouldNotDirectBuy,
    FailedToPackData,
    FailedToUnpackData,
}

impl NftCanvasError {
    /// The numeric code of the error, its position in the declaration.
    pub fn code(&self) -> (r: u32)
        ensures
            r == self.spec_code(),
    {
        match self {
            NftCanvasError::ProgramKeyMismatch => 0,
            NftCanvasError::RentSysvarKeyMismatch => 1,
            NftCanvasError::TokenProgramKeyMismatch => 2,
            NftCanvasError::PixelAccountKeyMismatch => 3,
            NftCanvasError::MintPoolWalletKeyMismatch => 4,
            NftCanvasError::TeamWalletKeyMismatch => 5,
            NftCanvasError::TeamTokenAccountKeyMismatch => 6,
            NftCanvasError::TradePoolKeyMismatch => 7,
            NftCanvasError::TradePoolTokenAccountKeyMismatch => 8,
            NftCanvasError::PixelOwnerKeyMismatch => 9,
            NftCanvasError::BuyerTokenAccountKeyMismatch => 10,
            NftCanvasError::FunderDidNotSign => 11,
            NftCanvasError::PixelOwnerDidNotSign => 12,
            NftCanvasError::PixelIndexOutOfBounds => 13,
            NftCanvasError::PixelUninitialized => 14,
            NftCanvasError::BuyPriceTooLow => 15,
            NftCanvasError::CouldNotDirectBuy => 16,
            NftCanvasError::FailedToPackData => 17,
            NftCanvasError::FailedToUnpackData => 18,
        }
    }

    pub open spec fn spec_code(&self) -> u32 {
        match self {
            NftCanvasError::ProgramKeyMismatch => 0,
            NftCanvasError::RentSysvarKeyMismatch => 1,
            NftCanvasError::TokenProgramKeyMismatch => 2,
            NftCanvasError::PixelAccountKeyMismatch => 3,
            NftCanvasError::MintPoolWalletKeyMismatch => 4,
            NftCanvasError::TeamWalletKeyMismatch => 5,
            NftCanvasError::TeamTokenAccountKeyMismatch => 6,
            NftCanvasError::TradePoolKeyMismatch => 7,
            NftCanvasError::TradePoolTokenAccountKeyMismatch => 8,
            NftCanvasError::PixelOwnerKeyMismatch => 9,
            NftCanvasError::BuyerTokenAccountKeyMismatch => 10,
            NftCanvasError::FunderDidNotSign => 11,
            NftCanvasError::PixelOwnerDidNotSign => 12,
            NftCanvasError::PixelIndexOutOfBounds => 13,
            NftCanvasError::PixelUninitialized => 14,
            NftCanvasError::BuyPriceTooLow => 15,
            NftCanvasError::CouldNotDirectBuy => 16,
            NftCanvasError::FailedToPackData => 17,
            NftCanvasError::FailedToUnpackData => 18,
        }
    }
}

} // verus!
