//! The error taxonomy: one closed enum of structured error kinds, each
//! with a stable numeric code and the contextual fields that reconstruct
//! a diagnostic.  Fields the host publishes as binary64 values are
//! carried as raw bit patterns; 32-byte account addresses are carried as
//! plain bytes and rendered by the host.

use vstd::prelude::*;
use vstd::string::StringExecFns;

use crate::text::{spec_dec, spec_dec_int, i64_to_string, u32_to_string, u64_to_string, usize_to_string};
use crate::types::{AccountType, Address, OrderSide, TokenProgram};

verus! {

/// One value of a structured diagnostic: an integer carried as-is, a
/// rendered enum, or an account address left for the host to render.
#[derive(Clone, Debug)]
pub enum DiagnosticValue {
    Unsigned(u64),
    Signed(i64),
    Text(String),
    Addr(Address),
}

/// One named field of a structured diagnostic.
#[derive(Clone, Debug)]
pub struct DiagnosticField {
    pub name: String,
    pub value: DiagnosticValue,
}

/// The structured diagnostic of one error: the stable code, the interpolated
/// message and the contextual fields, ready for the host to serialize.
#[derive(Clone, Debug)]
pub struct Diagnostic {
    pub code: u32,
    pub msg: String,
    pub fields: Vec<DiagnosticField>,
}

/// Every failure the program can report, with the context each diagnostic
/// needs.  The numeric code of a variant is stable across releases and is
/// the only part of an error that reaches the calling client synchronously.
#[derive(Debug, Clone, Copy, PartialEq)]
pub enum DeriverseErrorKind {
    InvalidAccountsNumber { expected: usize, actual: usize },
    InvalidDataLength { expected: usize, actual: usize },
    MustBeSigner { address: Address },
    MustBeReadOnly { address: Address },
    MustBeWritable { address: Address },
    InvalidTokenProgramId { expected: TokenProgram, actual: TokenProgram },
    UnsupportedTokenProgramId { address: Address },
    InvalidMintAccount { token_id: u32, expected_address: Address, actual_address: Address },
    InvalidMintProgramId { expected: TokenProgram, actual: TokenProgram, mint_address: Address },
    InvalidLutProgramId { actual: Address },
    InvalidLutAccount { expected: Address, actual: Address },
    InvalidSystemProgramId { actual: Address },
    InvalidQuantity { value: i64, min_value: i64, max_value: i64 },
    InvalidPrice { price: i64, min_price: i64, max_price: i64 },
    InsufficientFunds,
    TooManyLines { side: OrderSide, amount: u32 },
    AllocatorFailed,
    OrderAllocatorFailed { side: OrderSide },
    CrossOrder { order_id: i64, qty: i64, sum: i64 },
    MatchingEngineFailed,
    InvalidPDA { expected_address: Address, actual_address: Address, account_type: AccountType },
    InvalidNewAccount { address: Address, owner: Address, account_type: AccountType },
    InvalidProgramAccount { address: Address, owner: Address, program_id_address: Address, account_type: AccountType },
    InvalidHolderAdminAccount { actual_address: Address },
    InvalidAdminAccount { expected: Address, actual: Address },
    InvalidNewOperatorAccount { address: Address },
    InvalidOperatorAccount { address: Address },
    InvalidTokenId { id: u32 },
    UnexpectedTokenId { expected: u32, actual: u32 },
    TokenWasNotFound { id: u32, community_state_address: Address },
    InvalidProgramsTokenAccount { token_id: u32, expected_address: Address, actual_address: Address },
    InvalidInstrId { id: u32 },
    UnexpectedInstrumentId { expected: u32, actual: u32, address: Address, account_type: AccountType },
    NodeWasNotFound { id: i64, side: OrderSide },
    OrderWasNotFound { link: u32, side: OrderSide },
    ClientDataDestruction,
    TokenMustBeBaseCrncy { id: u32, mask: u32 },
    ImpossibleToUpgrade { id: u32, mask: u32 },
    InvalidBidOrdersCount,
    InvalidAskOrdersCount,
    InvalidBidLinesCount,
    InvalidAskLinesCount,
    InvalidAssociatedTokenAddress { token_id: u32, expected_address: Address, actual_address: Address },
    TooEarlyToDistribFunds { limit_time: u32, current_time: u32 },
    InsufficientDeriverseTokensSupply { amount: i64, min_amount: i64 },
    InvalidClientId { address: Address, expected: u32, actual: u32 },
    InvalidVotingCounter { actual: u32, expected: u32 },
    AlreadyVoted,
    NoTradeIOC,
    AssetNotFound { asset_type: u32, id: u32 },
    NullPointer,
    CommunityAccountHasToBeReadOnly { address: Address },
    InvalidTokenType,
    NullIndex,
    ArithmeticOverflow,
    InvalidClientDataFormat,
    InvalidOrderId { value: i64, min_value: i64, max_value: i64 },
    PerpIsNotAvailable { id: u32, mask: u32 },
    ImpossibleToWithdrawFundsDuringMarginCall,
    PerpClientCountCanNotBeZero,
    MaxPerpClientsCountReached { value: u32, max: u32 },
    InvalidLeverage { value: u32, max: u32 },
    InvalidSocializedLossOpenInterest,
    ImpossibleToClosePerpPosition,
    TooEarlyToWithdrawFees { limit_time: u32, current_time: u32 },
    FeesWithdrawalIsTooLarge { value: i64 },
    InvalidOracleFeed { expected_address: Address, actual_address: Address },
    InvalidRefDiscount { discount: u64, min: u64, max: u64 },
    InvalidRefRatio { ratio: u64, min: u64, max: u64 },
    RefProgramInactive,
    InvalidRefLinkId { ref_id: u32, first_ref_id: u32, second_ref_id: u32 },
    RefLinkExpired { ref_id: u32, expiration_time: u32, current_time: u32 },
    InvalidRefAddress { expected_address: Address, actual_address: Address },
    OperationRejected,
    MemoryMapFailed,
    MemoryMapFreeFailed,
    InvalidAccountTag { expected_account_type: AccountType, actual_tag: u32, address: Address },
    InvalidVersion { address: Address, account_type: AccountType, expected: u32, actual: u32 },
    InvalidDataAlignment { address: Address },
    InvalidAccountsAmount { expected: u32, actual: u32 },
    LegacyNativeMintNotSupported,
    IdenticalTokensInPair { token_id: u32 },
    Token2022NativeMintNotSupported,
    InvalidAccountAddress { expected_address: Address, actual_address: Address, account_type: AccountType },
    CandleWasNotFound { tag: u32 },
    InvalidAccountSize { address: Address, account_type: AccountType, expected: usize, actual: usize },
    FailedToUpgrade,
    InvalidCandlesAmount { index: usize, len: usize },
    InvalidWalletAddress { address: Address, wallet_addr: Address, actual: Address },
    InvalidCandlesContext,
    UnsupportedAccountTag { tag: u32 },
    SelfRefNotAllowed { client_primary_addr: Address },
    OffsetOutOfBounds { address: Address, offset: usize, len: usize },
    InvalidTokenOwner { token_id: u32, address: Address, expected_adderss: Address, actual_address: Address },
    DifferentTokenIds { id_left: u32, id_right: u32 },
}

impl DeriverseErrorKind {
    /// The stable numeric code of this error.  It depends on the variant
    /// alone, never on the payload fields.
    pub open spec fn spec_code(self) -> u32 {
        match self {
            DeriverseErrorKind::InvalidAccountsNumber { .. } => 101,
            DeriverseErrorKind::InvalidDataLength { .. } => 102,
            DeriverseErrorKind::MustBeSigner { .. } => 104,
            DeriverseErrorKind::MustBeReadOnly { .. } => 246,
            DeriverseErrorKind::MustBeWritable { .. } => 246,
            DeriverseErrorKind::InvalidTokenProgramId { .. } => 122,
            DeriverseErrorKind::UnsupportedTokenProgramId { .. } => 123,
            DeriverseErrorKind::InvalidMintAccount { .. } => 124,
            DeriverseErrorKind::InvalidMintProgramId { .. } => 126,
            DeriverseErrorKind::InvalidLutProgramId { .. } => 127,
            DeriverseErrorKind::InvalidLutAccount { .. } => 128,
            DeriverseErrorKind::InvalidSystemProgramId { .. } => 129,
            DeriverseErrorKind::InvalidQuantity { .. } => 130,
            DeriverseErrorKind::InvalidPrice { .. } => 131,
            DeriverseErrorKind::InsufficientFunds => 132,
            DeriverseErrorKind::TooManyLines { .. } => 136,
            DeriverseErrorKind::AllocatorFailed => 137,
            DeriverseErrorKind::OrderAllocatorFailed { .. } => 137,
            DeriverseErrorKind::CrossOrder { .. } => 138,
            DeriverseErrorKind::MatchingEngineFailed => 139,
            DeriverseErrorKind::InvalidPDA { .. } => 141,
            DeriverseErrorKind::InvalidNewAccount { .. } => 144,
            DeriverseErrorKind::InvalidProgramAccount { .. } => 143,
            DeriverseErrorKind::InvalidHolderAdminAccount { .. } => 146,
            DeriverseErrorKind::InvalidAdminAccount { .. } => 147,
            DeriverseErrorKind::InvalidNewOperatorAccount { .. } => 148,
            DeriverseErrorKind::InvalidOperatorAccount { .. } => 150,
            DeriverseErrorKind::InvalidTokenId { .. } => 151,
            DeriverseErrorKind::UnexpectedTokenId { .. } => 151,
            DeriverseErrorKind::TokenWasNotFound { .. } => 212,
            DeriverseErrorKind::InvalidProgramsTokenAccount { .. } => 155,
            DeriverseErrorKind::InvalidInstrId { .. } => 166,
            DeriverseErrorKind::UnexpectedInstrumentId { .. } => 166,
            DeriverseErrorKind::NodeWasNotFound { .. } => 175,
            DeriverseErrorKind::OrderWasNotFound { .. } => 175,
            DeriverseErrorKind::ClientDataDestruction => 183,
            DeriverseErrorKind::TokenMustBeBaseCrncy { .. } => 185,
            DeriverseErrorKind::ImpossibleToUpgrade { .. } => 189,
            DeriverseErrorKind::InvalidBidOrdersCount => 190,
            DeriverseErrorKind::InvalidAskOrdersCount => 191,
            DeriverseErrorKind::InvalidBidLinesCount => 192,
            DeriverseErrorKind::InvalidAskLinesCount => 193,
            DeriverseErrorKind::InvalidAssociatedTokenAddress { .. } => 196,
            DeriverseErrorKind::TooEarlyToDistribFunds { .. } => 201,
            DeriverseErrorKind::InsufficientDeriverseTokensSupply { .. } => 203,
            DeriverseErrorKind::InvalidClientId { .. } => 204,
            DeriverseErrorKind::InvalidVotingCounter { .. } => 205,
            DeriverseErrorKind::AlreadyVoted => 206,
            DeriverseErrorKind::NoTradeIOC => 210,
            DeriverseErrorKind::AssetNotFound { .. } => 212,
            DeriverseErrorKind::NullPointer => 214,
            DeriverseErrorKind::CommunityAccountHasToBeReadOnly { .. } => 217,
            DeriverseErrorKind::InvalidTokenType => 218,
            DeriverseErrorKind::NullIndex => 219,
            DeriverseErrorKind::ArithmeticOverflow => 223,
            DeriverseErrorKind::InvalidClientDataFormat => 224,
            DeriverseErrorKind::InvalidOrderId { .. } => 225,
            DeriverseErrorKind::PerpIsNotAvailable { .. } => 226,
            DeriverseErrorKind::ImpossibleToWithdrawFundsDuringMarginCall => 229,
            DeriverseErrorKind::PerpClientCountCanNotBeZero => 230,
            DeriverseErrorKind::MaxPerpClientsCountReached { .. } => 231,
            DeriverseErrorKind::InvalidLeverage { .. } => 232,
            DeriverseErrorKind::InvalidSocializedLossOpenInterest => 233,
            DeriverseErrorKind::ImpossibleToClosePerpPosition => 234,
            DeriverseErrorKind::TooEarlyToWithdrawFees { .. } => 235,
            DeriverseErrorKind::FeesWithdrawalIsTooLarge { .. } => 236,
            DeriverseErrorKind::InvalidOracleFeed { .. } => 237,
            DeriverseErrorKind::InvalidRefDiscount { .. } => 238,
            DeriverseErrorKind::InvalidRefRatio { .. } => 238,
            DeriverseErrorKind::RefProgramInactive => 239,
            DeriverseErrorKind::InvalidRefLinkId { .. } => 240,
            DeriverseErrorKind::RefLinkExpired { .. } => 241,
            DeriverseErrorKind::InvalidRefAddress { .. } => 242,
            DeriverseErrorKind::OperationRejected => 243,
            DeriverseErrorKind::MemoryMapFailed => 244,
            DeriverseErrorKind::MemoryMapFreeFailed => 245,
            DeriverseErrorKind::InvalidAccountTag { .. } => 247,
            DeriverseErrorKind::InvalidVersion { .. } => 249,
            DeriverseErrorKind::InvalidDataAlignment { .. } => 250,
            DeriverseErrorKind::InvalidAccountsAmount { .. } => 251,
            DeriverseErrorKind::LegacyNativeMintNotSupported => 252,
            DeriverseErrorKind::IdenticalTokensInPair { .. } => 253,
            DeriverseErrorKind::Token2022NativeMintNotSupported => 255,
            DeriverseErrorKind::InvalidAccountAddress { .. } => 256,
            DeriverseErrorKind::CandleWasNotFound { .. } => 212,
            DeriverseErrorKind::InvalidAccountSize { .. } => 250,
            DeriverseErrorKind::FailedToUpgrade => 246,
            DeriverseErrorKind::InvalidCandlesAmount { .. } => 258,
            DeriverseErrorKind::InvalidWalletAddress { .. } => 110,
            DeriverseErrorKind::InvalidCandlesContext => 224,
            DeriverseErrorKind::UnsupportedAccountTag { .. } => 212,
            DeriverseErrorKind::SelfRefNotAllowed { .. } => 239,
            DeriverseErrorKind::OffsetOutOfBounds { .. } => 250,
            DeriverseErrorKind::InvalidTokenOwner { .. } => 155,
            DeriverseErrorKind::DifferentTokenIds { .. } => 151,
        }
    }

    pub fn code(&self) -> (r: u32)
        ensures
            r == self.spec_code(),
    {
        match self {
            DeriverseErrorKind::InvalidAccountsNumber { .. } => 101,
            DeriverseErrorKind::InvalidDataLength { .. } => 102,
            DeriverseErrorKind::MustBeSigner { .. } => 104,
            DeriverseErrorKind::MustBeReadOnly { .. } => 246,
            DeriverseErrorKind::MustBeWritable { .. } => 246,
            DeriverseErrorKind::InvalidTokenProgramId { .. } => 122,
            DeriverseErrorKind::UnsupportedTokenProgramId { .. } => 123,
            DeriverseErrorKind::InvalidMintAccount { .. } => 124,
            DeriverseErrorKind::InvalidMintProgramId { .. } => 126,
            DeriverseErrorKind::InvalidLutProgramId { .. } => 127,
            DeriverseErrorKind::InvalidLutAccount { .. } => 128,
            DeriverseErrorKind::InvalidSystemProgramId { .. } => 129,
            DeriverseErrorKind::InvalidQuantity { .. } => 130,
            DeriverseErrorKind::InvalidPrice { .. } => 131,
            DeriverseErrorKind::InsufficientFunds => 132,
            DeriverseErrorKind::TooManyLines { .. } => 136,
            DeriverseErrorKind::AllocatorFailed => 137,
            DeriverseErrorKind::OrderAllocatorFailed { .. } => 137,
            DeriverseErrorKind::CrossOrder { .. } => 138,
            DeriverseErrorKind::MatchingEngineFailed => 139,
            DeriverseErrorKind::InvalidPDA { .. } => 141,
            DeriverseErrorKind::InvalidNewAccount { .. } => 144,
            DeriverseErrorKind::InvalidProgramAccount { .. } => 143,
            DeriverseErrorKind::InvalidHolderAdminAccount { .. } => 146,
            DeriverseErrorKind::InvalidAdminAccount { .. } => 147,
            DeriverseErrorKind::InvalidNewOperatorAccount { .. } => 148,
            DeriverseErrorKind::InvalidOperatorAccount { .. } => 150,
            DeriverseErrorKind::InvalidTokenId { .. } => 151,
            DeriverseErrorKind::UnexpectedTokenId { .. } => 151,
            DeriverseErrorKind::TokenWasNotFound { .. } => 212,
            DeriverseErrorKind::InvalidProgramsTokenAccount { .. } => 155,
            DeriverseErrorKind::InvalidInstrId { .. } => 166,
            DeriverseErrorKind::UnexpectedInstrumentId { .. } => 166,
            DeriverseErrorKind::NodeWasNotFound { .. } => 175,
            DeriverseErrorKind::OrderWasNotFound { .. } => 175,
            DeriverseErrorKind::ClientDataDestruction => 183,
            DeriverseErrorKind::TokenMustBeBaseCrncy { .. } => 185,
            DeriverseErrorKind::ImpossibleToUpgrade { .. } => 189,
            DeriverseErrorKind::InvalidBidOrdersCount => 190,
            DeriverseErrorKind::InvalidAskOrdersCount => 191,
            DeriverseErrorKind::InvalidBidLinesCount => 192,
            DeriverseErrorKind::InvalidAskLinesCount => 193,
            DeriverseErrorKind::InvalidAssociatedTokenAddress { .. } => 196,
            DeriverseErrorKind::TooEarlyToDistribFunds { .. } => 201,
            DeriverseErrorKind::InsufficientDeriverseTokensSupply { .. } => 203,
            DeriverseErrorKind::InvalidClientId { .. } => 204,
            DeriverseErrorKind::InvalidVotingCounter { .. } => 205,
            DeriverseErrorKind::AlreadyVoted => 206,
            DeriverseErrorKind::NoTradeIOC => 210,
            DeriverseErrorKind::AssetNotFound { .. } => 212,
            DeriverseErrorKind::NullPointer => 214,
            DeriverseErrorKind::CommunityAccountHasToBeReadOnly { .. } => 217,
            DeriverseErrorKind::InvalidTokenType => 218,
            DeriverseErrorKind::NullIndex => 219,
            DeriverseErrorKind::ArithmeticOverflow => 223,
            DeriverseErrorKind::InvalidClientDataFormat => 224,
            DeriverseErrorKind::InvalidOrderId { .. } => 225,
            DeriverseErrorKind::PerpIsNotAvailable { .. } => 226,
            DeriverseErrorKind::ImpossibleToWithdrawFundsDuringMarginCall => 229,
            DeriverseErrorKind::PerpClientCountCanNotBeZero => 230,
            DeriverseErrorKind::MaxPerpClientsCountReached { .. } => 231,
            DeriverseErrorKind::InvalidLeverage { .. } => 232,
            DeriverseErrorKind::InvalidSocializedLossOpenInterest => 233,
            DeriverseErrorKind::ImpossibleToClosePerpPosition => 234,
            DeriverseErrorKind::TooEarlyToWithdrawFees { .. } => 235,
            DeriverseErrorKind::FeesWithdrawalIsTooLarge { .. } => 236,
            DeriverseErrorKind::InvalidOracleFeed { .. } => 237,
            DeriverseErrorKind::InvalidRefDiscount { .. } => 238,
            DeriverseErrorKind::InvalidRefRatio { .. } => 238,
            DeriverseErrorKind::RefProgramInactive => 239,
            DeriverseErrorKind::InvalidRefLinkId { .. } => 240,
            DeriverseErrorKind::RefLinkExpired { .. } => 241,
            DeriverseErrorKind::InvalidRefAddress { .. } => 242,
            DeriverseErrorKind::OperationRejected => 243,
            DeriverseErrorKind::MemoryMapFailed => 244,
            DeriverseErrorKind::MemoryMapFreeFailed => 245,
            DeriverseErrorKind::InvalidAccountTag { .. } => 247,
            DeriverseErrorKind::InvalidVersion { .. } => 249,
            DeriverseErrorKind::InvalidDataAlignment { .. } => 250,
            DeriverseErrorKind::InvalidAccountsAmount { .. } => 251,
            DeriverseErrorKind::LegacyNativeMintNotSupported => 252,
            DeriverseErrorKind::IdenticalTokensInPair { .. } => 253,
            DeriverseErrorKind::Token2022NativeMintNotSupported => 255,
            DeriverseErrorKind::InvalidAccountAddress { .. } => 256,
            DeriverseErrorKind::CandleWasNotFound { .. } => 212,
            DeriverseErrorKind::InvalidAccountSize { .. } => 250,
            DeriverseErrorKind::FailedToUpgrade => 246,
            DeriverseErrorKind::InvalidCandlesAmount { .. } => 258,
            DeriverseErrorKind::InvalidWalletAddress { .. } => 110,
            DeriverseErrorKind::InvalidCandlesContext => 224,
            DeriverseErrorKind::UnsupportedAccountTag { .. } => 212,
            DeriverseErrorKind::SelfRefNotAllowed { .. } => 239,
            DeriverseErrorKind::OffsetOutOfBounds { .. } => 250,
            DeriverseErrorKind::InvalidTokenOwner { .. } => 155,
            DeriverseErrorKind::DifferentTokenIds { .. } => 151,
        }
    }

    /// The diagnostic message of this error, with the contextual fields
    /// interpolated.
    pub open spec fn spec_msg(self) -> Seq<char> {
        match self {
            DeriverseErrorKind::InvalidAccountsNumber { expected, actual } => "Invalid provided accounts number: expected "@ + spec_dec(expected as nat) + ", got "@ + spec_dec(actual as nat),
            DeriverseErrorKind::InvalidDataLength { expected, actual } => "Invalid instructions data length, expected "@ + spec_dec(expected as nat) + " < actual "@ + spec_dec(actual as nat),
            DeriverseErrorKind::MustBeSigner { address } => address.spec_text() + " must be signer"@,
            DeriverseErrorKind::MustBeReadOnly { address } => address.spec_text() + " must be read only"@,
            DeriverseErrorKind::MustBeWritable { address } => address.spec_text() + " must be writable"@,
            DeriverseErrorKind::InvalidTokenProgramId { expected, actual } => "Invalid token program ID, expected "@ + expected.spec_text() + " != actual "@ + actual.spec_text(),
            DeriverseErrorKind::UnsupportedTokenProgramId { address: _ } => "Unsupported token program id"@,
            DeriverseErrorKind::InvalidMintAccount { token_id, expected_address: _, actual_address: _ } => "Invalid mint address for token "@ + spec_dec(token_id as nat),
            DeriverseErrorKind::InvalidMintProgramId { expected, actual, mint_address: _ } => "Invalid mint token program, expected "@ + expected.spec_text() + " != actual "@ + actual.spec_text(),
            DeriverseErrorKind::InvalidLutProgramId { actual: _ } => "Invalid LUT program ID"@,
            DeriverseErrorKind::InvalidLutAccount { expected: _, actual: _ } => "Invalid LUT account"@,
            DeriverseErrorKind::InvalidSystemProgramId { actual: _ } => "Invalid System program ID"@,
            DeriverseErrorKind::InvalidQuantity { value, min_value, max_value } => "Invalid quantity value "@ + spec_dec_int(value as int) + ", acceptable range: "@ + spec_dec_int(min_value as int) + ".."@ + spec_dec_int(max_value as int),
            DeriverseErrorKind::InvalidPrice { price, min_price, max_price } => "Invalid price value "@ + spec_dec_int(price as int) + ", acceptable range: "@ + spec_dec_int(min_price as int) + ".."@ + spec_dec_int(max_price as int),
            DeriverseErrorKind::InsufficientFunds => "Insufficient funds"@,
            DeriverseErrorKind::TooManyLines { side, amount } => "Too many lines on "@ + side.spec_text() + " side provided value is "@ + spec_dec(amount as nat),
            DeriverseErrorKind::AllocatorFailed => "Allocator failed"@,
            DeriverseErrorKind::OrderAllocatorFailed { side } => "Order allocator failed, side: "@ + side.spec_text(),
            DeriverseErrorKind::CrossOrder { order_id, qty: _, sum: _ } => "Attempted to trade with yourself, order id: "@ + spec_dec_int(order_id as int),
            DeriverseErrorKind::MatchingEngineFailed => "Engine matching failed"@,
            DeriverseErrorKind::InvalidPDA { expected_address: _, actual_address: _, account_type } => "Invalid PDA for "@ + account_type.spec_text(),
            DeriverseErrorKind::InvalidNewAccount { address: _, owner: _, account_type } => "Invalid new "@ + account_type.spec_text() + " account. Owner has to be SystemProgram"@,
            DeriverseErrorKind::InvalidProgramAccount { address: _, owner: _, program_id_address, account_type } => "Invalid program "@ + account_type.spec_text() + " account. Owner have to be "@ + program_id_address.spec_text(),
            DeriverseErrorKind::InvalidHolderAdminAccount { actual_address: _ } => "Invalid Holder Admin account"@,
            DeriverseErrorKind::InvalidAdminAccount { expected: _, actual: _ } => "Invalid Admin account"@,
            DeriverseErrorKind::InvalidNewOperatorAccount { address: _ } => "Invalid new Operator account, operator with this address already exist"@,
            DeriverseErrorKind::InvalidOperatorAccount { address: _ } => "Invalid Operator account, operator with this address does not exist"@,
            DeriverseErrorKind::InvalidTokenId { id } => "Invalid token id "@ + spec_dec(id as nat),
            DeriverseErrorKind::UnexpectedTokenId { expected, actual } => "Unexpected token id, expected "@ + spec_dec(expected as nat) + " != actual "@ + spec_dec(actual as nat),
            DeriverseErrorKind::TokenWasNotFound { id, community_state_address: _ } => "Token with id "@ + spec_dec(id as nat) + " was not found"@,
            DeriverseErrorKind::InvalidProgramsTokenAccount { token_id, expected_address: _, actual_address: _ } => "Invalid program's token account for "@ + spec_dec(token_id as nat) + " token id"@,
            DeriverseErrorKind::InvalidInstrId { id } => "Invalid instrument id "@ + spec_dec(id as nat),
            DeriverseErrorKind::UnexpectedInstrumentId { expected, actual, address: _, account_type } => "Invalid instrument id in "@ + account_type.spec_name() + " account, expected "@ + spec_dec(expected as nat) + " != actual "@ + spec_dec(actual as nat),
            DeriverseErrorKind::NodeWasNotFound { id, side } => "Order node on the side "@ + side.spec_text() + " with id "@ + spec_dec_int(id as int) + " was not found"@,
            DeriverseErrorKind::OrderWasNotFound { link, side } => "Order on the side "@ + side.spec_text() + " with link "@ + spec_dec(link as nat) + " was not found"@,
            DeriverseErrorKind::ClientDataDestruction => "Client data destruction"@,
            DeriverseErrorKind::TokenMustBeBaseCrncy { id, mask: _ } => "Token with id "@ + spec_dec(id as nat) + " must be base currency"@,
            DeriverseErrorKind::ImpossibleToUpgrade { id, mask: _ } => "Impossible to upgrade instrument with id "@ + spec_dec(id as nat),
            DeriverseErrorKind::InvalidBidOrdersCount => "Invalid Bid Orders count"@,
            DeriverseErrorKind::InvalidAskOrdersCount => "Invalid Ask Orders count"@,
            DeriverseErrorKind::InvalidBidLinesCount => "Invalid Bid Lines count"@,
            DeriverseErrorKind::InvalidAskLinesCount => "Invalid Ask Lines count"@,
            DeriverseErrorKind::InvalidAssociatedTokenAddress { token_id, expected_address: _, actual_address: _ } => "Invalid associated token address for token "@ + spec_dec(token_id as nat),
            DeriverseErrorKind::TooEarlyToDistribFunds { limit_time, current_time } => "Too early to distribute funds, current time is "@ + spec_dec(current_time as nat) + " < allowed time "@ + spec_dec(limit_time as nat),
            DeriverseErrorKind::InsufficientDeriverseTokensSupply { amount, min_amount } => "Insufficient Deriverse tokens supply, amount "@ + spec_dec_int(amount as int) + " < min_amount "@ + spec_dec_int(min_amount as int),
            DeriverseErrorKind::InvalidClientId { address: _, expected: _, actual: _ } => "Invalid client Id in client community account"@,
            DeriverseErrorKind::InvalidVotingCounter { actual, expected } => "Invalid voting counter, expected "@ + spec_dec(expected as nat) + " != actual "@ + spec_dec(actual as nat),
            DeriverseErrorKind::AlreadyVoted => "Already voted"@,
            DeriverseErrorKind::NoTradeIOC => "No Trade (IOC)"@,
            DeriverseErrorKind::AssetNotFound { asset_type, id } => "Asset "@ + spec_dec(asset_type as nat) + " with id "@ + spec_dec(id as nat) + " was not found"@,
            DeriverseErrorKind::NullPointer => "Null Pointer"@,
            DeriverseErrorKind::CommunityAccountHasToBeReadOnly { address: _ } => "Community account has to be read only"@,
            DeriverseErrorKind::InvalidTokenType => "Invalid token type"@,
            DeriverseErrorKind::NullIndex => "Null Index"@,
            DeriverseErrorKind::ArithmeticOverflow => "Arithmetic overflow"@,
            DeriverseErrorKind::InvalidClientDataFormat => "Invalid data format"@,
            DeriverseErrorKind::InvalidOrderId { value, min_value, max_value: _ } => "Invalid order id "@ + spec_dec_int(value as int) + ", acceptable range: "@ + spec_dec_int(min_value as int) + ".."@,
            DeriverseErrorKind::PerpIsNotAvailable { id, mask: _ } => "Perp on instrument id "@ + spec_dec(id as nat) + " is not available"@,
            DeriverseErrorKind::ImpossibleToWithdrawFundsDuringMarginCall => "Impossible to withdraw funds during margin call"@,
            DeriverseErrorKind::PerpClientCountCanNotBeZero => "Perp client count can not be zero"@,
            DeriverseErrorKind::MaxPerpClientsCountReached { value: _, max: _ } => "Max perp clients count reached"@,
            DeriverseErrorKind::InvalidLeverage { value, max } => "Invalid leverage, leverage "@ + spec_dec(value as nat) + " > max leverage "@ + spec_dec(max as nat) + " or equal to 0"@,
            DeriverseErrorKind::InvalidSocializedLossOpenInterest => "Invalid Socialized Loss Open Interest"@,
            DeriverseErrorKind::ImpossibleToClosePerpPosition => "Impossible to close perp position"@,
            DeriverseErrorKind::TooEarlyToWithdrawFees { limit_time, current_time } => "Too early to withdraw fees, current time is "@ + spec_dec(current_time as nat) + " < allowed time "@ + spec_dec(limit_time as nat),
            DeriverseErrorKind::FeesWithdrawalIsTooLarge { value: _ } => "Fees withdrawal is too large"@,
            DeriverseErrorKind::InvalidOracleFeed { expected_address: _, actual_address: _ } => "Invalid oracle feed"@,
            DeriverseErrorKind::InvalidRefDiscount { discount, min, max } => "Invalid Ref discount "@ + spec_dec(discount as nat) + ", expected to be in range "@ + spec_dec(min as nat) + ".."@ + spec_dec(max as nat),
            DeriverseErrorKind::InvalidRefRatio { ratio, min, max } => "Invalid Ref ratio "@ + spec_dec(ratio as nat) + ", expected to be in range "@ + spec_dec(min as nat) + ".."@ + spec_dec(max as nat),
            DeriverseErrorKind::RefProgramInactive => "Ref program is inactive"@,
            DeriverseErrorKind::InvalidRefLinkId { ref_id, first_ref_id, second_ref_id } => "Invalid ref link ID "@ + spec_dec(ref_id as nat) + ", acceptable ids: "@ + spec_dec(first_ref_id as nat) + ", "@ + spec_dec(second_ref_id as nat),
            DeriverseErrorKind::RefLinkExpired { ref_id, expiration_time, current_time } => "Ref link with id "@ + spec_dec(ref_id as nat) + " is expired, current time is "@ + spec_dec(current_time as nat) + " > expiration time "@ + spec_dec(expiration_time as nat),
            DeriverseErrorKind::InvalidRefAddress { expected_address: _, actual_address: _ } => "Invalid referral client primary account address"@,
            DeriverseErrorKind::OperationRejected => "Operation Rejected"@,
            DeriverseErrorKind::MemoryMapFailed => "Memory map creation or general error"@,
            DeriverseErrorKind::MemoryMapFreeFailed => "Memory map deallocation error"@,
            DeriverseErrorKind::InvalidAccountTag { expected_account_type, actual_tag, address: _ } => "Invalid account tag in account, expected "@ + expected_account_type.spec_text() + " != actual "@ + spec_dec(actual_tag as nat),
            DeriverseErrorKind::InvalidVersion { address: _, account_type, expected, actual } => "Invalid version in "@ + account_type.spec_name() + ", expected "@ + spec_dec(expected as nat) + " != actual "@ + spec_dec(actual as nat),
            DeriverseErrorKind::InvalidDataAlignment { address } => "Invalid data alignment in "@ + address.spec_text(),
            DeriverseErrorKind::InvalidAccountsAmount { expected, actual } => "Invalid amount of provided accounts, expected "@ + spec_dec(expected as nat) + " != actual "@ + spec_dec(actual as nat),
            DeriverseErrorKind::LegacyNativeMintNotSupported => "wSOL minting at legacy solana_native address is not supported"@,
            DeriverseErrorKind::IdenticalTokensInPair { token_id: _ } => "Identical tokens are not allowed in trading pair"@,
            DeriverseErrorKind::Token2022NativeMintNotSupported => "wSOL minting at solana_native address is not supported"@,
            DeriverseErrorKind::InvalidAccountAddress { expected_address: _, actual_address: _, account_type } => "Invalid accounts address for "@ + account_type.spec_text() + " account"@,
            DeriverseErrorKind::CandleWasNotFound { tag } => "Candle with tag "@ + spec_dec(tag as nat) + " was not found"@,
            DeriverseErrorKind::InvalidAccountSize { address: _, account_type, expected, actual } => "Invalid accounts size in "@ + account_type.spec_text() + " account, expected "@ + spec_dec(expected as nat) + " < actual "@ + spec_dec(actual as nat),
            DeriverseErrorKind::FailedToUpgrade => "Failed to upgrade access manager to writable"@,
            DeriverseErrorKind::InvalidCandlesAmount { index, len } => "Invalid candles amount, expected candle on index "@ + spec_dec(index as nat) + " exist while length is "@ + spec_dec(len as nat),
            DeriverseErrorKind::InvalidWalletAddress { address: _, wallet_addr: _, actual: _ } => "Invalid wallet address"@,
            DeriverseErrorKind::InvalidCandlesContext => "Invalid candles context"@,
            DeriverseErrorKind::UnsupportedAccountTag { tag } => "Unsupported account tag "@ + spec_dec(tag as nat),
            DeriverseErrorKind::SelfRefNotAllowed { client_primary_addr: _ } => "Self-referral is not allowed, client can not be referral for himself"@,
            DeriverseErrorKind::OffsetOutOfBounds { address: _, offset, len } => "Offset "@ + spec_dec(offset as nat) + " is out of bound for data len "@ + spec_dec(len as nat),
            DeriverseErrorKind::InvalidTokenOwner { token_id, address: _, expected_adderss: _, actual_address: _ } => "Invalid token owner for "@ + spec_dec(token_id as nat) + " token"@,
            DeriverseErrorKind::DifferentTokenIds { id_left, id_right } => "Different token ids, "@ + spec_dec(id_left as nat) + " != "@ + spec_dec(id_right as nat),
        }
    }

    /// Renders the diagnostic message of this error.
    pub fn msg(&self) -> (r: String)
        ensures
            r@ == self.spec_msg(),
    {
        match self {
            DeriverseErrorKind::InvalidAccountsNumber { expected, actual } => {
                let mut s = String::from_str("Invalid provided accounts number: expected ");
                s.append(usize_to_string(*expected).as_str());
                s.append(", got ");
                s.append(usize_to_string(*actual).as_str());
                s
            },
            DeriverseErrorKind::InvalidDataLength { expected, actual } => {
                let mut s = String::from_str("Invalid instructions data length, expected ");
                s.append(usize_to_string(*expected).as_str());
                s.append(" < actual ");
                s.append(usize_to_string(*actual).as_str());
                s
            },
            DeriverseErrorKind::MustBeSigner { address } => {
                let mut s = address.text();
                s.append(" must be signer");
                s
            },
            DeriverseErrorKind::MustBeReadOnly { address } => {
                let mut s = address.text();
                s.append(" must be read only");
                s
            },
            DeriverseErrorKind::MustBeWritable { address } => {
                let mut s = address.text();
                s.append(" must be writable");
                s
            },
            DeriverseErrorKind::InvalidTokenProgramId { expected, actual } => {
                let mut s = String::from_str("Invalid token program ID, expected ");
                s.append(expected.text().as_str());
                s.append(" != actual ");
                s.append(actual.text().as_str());
                s
            },
            DeriverseErrorKind::UnsupportedTokenProgramId { address: _ } => {
                let mut s = String::from_str("Unsupported token program id");
                s
            },
            DeriverseErrorKind::InvalidMintAccount { token_id, expected_address: _, actual_address: _ } => {
                let mut s = String::from_str("Invalid mint address for token ");
                s.append(u32_to_string(*token_id).as_str());
                s
            },
            DeriverseErrorKind::InvalidMintProgramId { expected, actual, mint_address: _ } => {
                let mut s = String::from_str("Invalid mint token program, expected ");
                s.append(expected.text().as_str());
                s.append(" != actual ");
                s.append(actual.text().as_str());
                s
            },
            DeriverseErrorKind::InvalidLutProgramId { actual: _ } => {
                let mut s = String::from_str("Invalid LUT program ID");
                s
            },
            DeriverseErrorKind::InvalidLutAccount { expected: _, actual: _ } => {
                let mut s = String::from_str("Invalid LUT account");
                s
            },
            DeriverseErrorKind::InvalidSystemProgramId { actual: _ } => {
                let mut s = String::from_str("Invalid System program ID");
                s
            },
            DeriverseErrorKind::InvalidQuantity { value, min_value, max_value } => {
                let mut s = String::from_str("Invalid quantity value ");
                s.append(i64_to_string(*value).as_str());
                s.append(", acceptable range: ");
                s.append(i64_to_string(*min_value).as_str());
                s.append("..");
                s.append(i64_to_string(*max_value).as_str());
                s
            },
            DeriverseErrorKind::InvalidPrice { price, min_price, max_price } => {
                let mut s = String::from_str("Invalid price value ");
                s.append(i64_to_string(*price).as_str());
                s.append(", acceptable range: ");
                s.append(i64_to_string(*min_price).as_str());
                s.append("..");
                s.append(i64_to_string(*max_price).as_str());
                s
            },
            DeriverseErrorKind::InsufficientFunds => {
                let mut s = String::from_str("Insufficient funds");
                s
            },
            DeriverseErrorKind::TooManyLines { side, amount } => {
                let mut s = String::from_str("Too many lines on ");
                s.append(side.text().as_str());
                s.append(" side provided value is ");
                s.append(u32_to_string(*amount).as_str());
                s
            },
            DeriverseErrorKind::AllocatorFailed => {
                let mut s = String::from_str("Allocator failed");
                s
            },
            DeriverseErrorKind::OrderAllocatorFailed { side } => {
                let mut s = String::from_str("Order allocator failed, side: ");
                s.append(side.text().as_str());
                s
            },
            DeriverseErrorKind::CrossOrder { order_id, qty: _, sum: _ } => {
                let mut s = String::from_str("Attempted to trade with yourself, order id: ");
                s.append(i64_to_string(*order_id).as_str());
                s
            },
            DeriverseErrorKind::MatchingEngineFailed => {
                let mut s = String::from_str("Engine matching failed");
                s
            },
            DeriverseErrorKind::InvalidPDA { expected_address: _, actual_address: _, account_type } => {
                let mut s = String::from_str("Invalid PDA for ");
                s.append(account_type.text().as_str());
                s
            },
            DeriverseErrorKind::InvalidNewAccount { address: _, owner: _, account_type } => {
                let mut s = String::from_str("Invalid new ");
                s.append(account_type.text().as_str());
                s.append(" account. Owner has to be SystemProgram");
                s
            },
            DeriverseErrorKind::InvalidProgramAccount { address: _, owner: _, program_id_address, account_type } => {
                let mut s = String::from_str("Invalid program ");
                s.append(account_type.text().as_str());
                s.append(" account. Owner have to be ");
                s.append(program_id_address.text().as_str());
                s
            },
            DeriverseErrorKind::InvalidHolderAdminAccount { actual_address: _ } => {
                let mut s = String::from_str("Invalid Holder Admin account");
                s
            },
            DeriverseErrorKind::InvalidAdminAccount { expected: _, actual: _ } => {
                let mut s = String::from_str("Invalid Admin account");
                s
            },
            DeriverseErrorKind::InvalidNewOperatorAccount { address: _ } => {
                let mut s = String::from_str("Invalid new Operator account, operator with this address already exist");
                s
            },
            DeriverseErrorKind::InvalidOperatorAccount { address: _ } => {
                let mut s = String::from_str("Invalid Operator account, operator with this address does not exist");
                s
            },
            DeriverseErrorKind::InvalidTokenId { id } => {
                let mut s = String::from_str("Invalid token id ");
                s.append(u32_to_string(*id).as_str());
                s
            },
            DeriverseErrorKind::UnexpectedTokenId { expected, actual } => {
                let mut s = String::from_str("Unexpected token id, expected ");
                s.append(u32_to_string(*expected).as_str());
                s.append(" != actual ");
                s.append(u32_to_string(*actual).as_str());
                s
            },
            DeriverseErrorKind::TokenWasNotFound { id, community_state_address: _ } => {
                let mut s = String::from_str("Token with id ");
                s.append(u32_to_string(*id).as_str());
                s.append(" was not found");
                s
            },
            DeriverseErrorKind::InvalidProgramsTokenAccount { token_id, expected_address: _, actual_address: _ } => {
                let mut s = String::from_str("Invalid program's token account for ");
                s.append(u32_to_string(*token_id).as_str());
                s.append(" token id");
                s
            },
            DeriverseErrorKind::InvalidInstrId { id } => {
                let mut s = String::from_str("Invalid instrument id ");
                s.append(u32_to_string(*id).as_str());
                s
            },
            DeriverseErrorKind::UnexpectedInstrumentId { expected, actual, address: _, account_type } => {
                let mut s = String::from_str("Invalid instrument id in ");
                s.append(account_type.name_text().as_str());
                s.append(" account, expected ");
                s.append(u32_to_string(*expected).as_str());
                s.append(" != actual ");
                s.append(u32_to_string(*actual).as_str());
                s
            },
            DeriverseErrorKind::NodeWasNotFound { id, side } => {
                let mut s = String::from_str("Order node on the side ");
                s.append(side.text().as_str());
                s.append(" with id ");
                s.append(i64_to_string(*id).as_str());
                s.append(" was not found");
                s
            },
            DeriverseErrorKind::OrderWasNotFound { link, side } => {
                let mut s = String::from_str("Order on the side ");
                s.append(side.text().as_str());
                s.append(" with link ");
                s.append(u32_to_string(*link).as_str());
                s.append(" was not found");
                s
            },
            DeriverseErrorKind::ClientDataDestruction => {
                let mut s = String::from_str("Client data destruction");
                s
            },
            DeriverseErrorKind::TokenMustBeBaseCrncy { id, mask: _ } => {
                let mut s = String::from_str("Token with id ");
                s.append(u32_to_string(*id).as_str());
                s.append(" must be base currency");
                s
            },
            DeriverseErrorKind::ImpossibleToUpgrade { id, mask: _ } => {
                let mut s = String::from_str("Impossible to upgrade instrument with id ");
                s.append(u32_to_string(*id).as_str());
                s
            },
            DeriverseErrorKind::InvalidBidOrdersCount => {
                let mut s = String::from_str("Invalid Bid Orders count");
                s
            },
            DeriverseErrorKind::InvalidAskOrdersCount => {
                let mut s = String::from_str("Invalid Ask Orders count");
                s
            },
            DeriverseErrorKind::InvalidBidLinesCount => {
                let mut s = String::from_str("Invalid Bid Lines count");
                s
            },
            DeriverseErrorKind::InvalidAskLinesCount => {
                let mut s = String::from_str("Invalid Ask Lines count");
                s
            },
            DeriverseErrorKind::InvalidAssociatedTokenAddress { token_id, expected_address: _, actual_address: _ } => {
                let mut s = String::from_str("Invalid associated token address for token ");
                s.append(u32_to_string(*token_id).as_str());
                s
            },
            DeriverseErrorKind::TooEarlyToDistribFunds { limit_time, current_time } => {
                let mut s = String::from_str("Too early to distribute funds, current time is ");
                s.append(u32_to_string(*current_time).as_str());
                s.append(" < allowed time ");
                s.append(u32_to_string(*limit_time).as_str());
                s
            },
            DeriverseErrorKind::InsufficientDeriverseTokensSupply { amount, min_amount } => {
                let mut s = String::from_str("Insufficient Deriverse tokens supply, amount ");
                s.append(i64_to_string(*amount).as_str());
                s.append(" < min_amount ");
                s.append(i64_to_string(*min_amount).as_str());
                s
            },
            DeriverseErrorKind::InvalidClientId { address: _, expected: _, actual: _ } => {
                let mut s = String::from_str("Invalid client Id in client community account");
                s
            },
            DeriverseErrorKind::InvalidVotingCounter { actual, expected } => {
                let mut s = String::from_str("Invalid voting counter, expected ");
                s.append(u32_to_string(*expected).as_str());
                s.append(" != actual ");
                s.append(u32_to_string(*actual).as_str());
                s
            },
            DeriverseErrorKind::AlreadyVoted => {
                let mut s = String::from_str("Already voted");
                s
            },
            DeriverseErrorKind::NoTradeIOC => {
                let mut s = String::from_str("No Trade (IOC)");
                s
            },
            DeriverseErrorKind::AssetNotFound { asset_type, id } => {
                let mut s = String::from_str("Asset ");
                s.append(u32_to_string(*asset_type).as_str());
                s.append(" with id ");
                s.append(u32_to_string(*id).as_str());
                s.append(" was not found");
                s
            },
            DeriverseErrorKind::NullPointer => {
                let mut s = String::from_str("Null Pointer");
                s
            },
            DeriverseErrorKind::CommunityAccountHasToBeReadOnly { address: _ } => {
                let mut s = String::from_str("Community account has to be read only");
                s
            },
            DeriverseErrorKind::InvalidTokenType => {
                let mut s = String::from_str("Invalid token type");
                s
            },
            DeriverseErrorKind::NullIndex => {
                let mut s = String::from_str("Null Index");
                s
            },
            DeriverseErrorKind::ArithmeticOverflow => {
                let mut s = String::from_str("Arithmetic overflow");
                s
            },
            DeriverseErrorKind::InvalidClientDataFormat => {
                let mut s = String::from_str("Invalid data format");
                s
            },
            DeriverseErrorKind::InvalidOrderId { value, min_value, max_value: _ } => {
                let mut s = String::from_str("Invalid order id ");
                s.append(i64_to_string(*value).as_str());
                s.append(", acceptable range: ");
                s.append(i64_to_string(*min_value).as_str());
                s.append("..");
                s
            },
            DeriverseErrorKind::PerpIsNotAvailable { id, mask: _ } => {
                let mut s = String::from_str("Perp on instrument id ");
                s.append(u32_to_string(*id).as_str());
                s.append(" is not available");
                s
            },
            DeriverseErrorKind::ImpossibleToWithdrawFundsDuringMarginCall => {
                let mut s = String::from_str("Impossible to withdraw funds during margin call");
                s
            },
            DeriverseErrorKind::PerpClientCountCanNotBeZero => {
                let mut s = String::from_str("Perp client count can not be zero");
                s
            },
            DeriverseErrorKind::MaxPerpClientsCountReached { value: _, max: _ } => {
                let mut s = String::from_str("Max perp clients count reached");
                s
            },
            DeriverseErrorKind::InvalidLeverage { value, max } => {
                let mut s = String::from_str("Invalid leverage, leverage ");
                s.append(u32_to_string(*value).as_str());
                s.append(" > max leverage ");
                s.append(u32_to_string(*max).as_str());
                s.append(" or equal to 0");
                s
            },
            DeriverseErrorKind::InvalidSocializedLossOpenInterest => {
                let mut s = String::from_str("Invalid Socialized Loss Open Interest");
                s
            },
            DeriverseErrorKind::ImpossibleToClosePerpPosition => {
                let mut s = String::from_str("Impossible to close perp position");
                s
            },
            DeriverseErrorKind::TooEarlyToWithdrawFees { limit_time, current_time } => {
                let mut s = String::from_str("Too early to withdraw fees, current time is ");
                s.append(u32_to_string(*current_time).as_str());
                s.append(" < allowed time ");
                s.append(u32_to_string(*limit_time).as_str());
                s
            },
            DeriverseErrorKind::FeesWithdrawalIsTooLarge { value: _ } => {
                let mut s = String::from_str("Fees withdrawal is too large");
                s
            },
            DeriverseErrorKind::InvalidOracleFeed { expected_address: _, actual_address: _ } => {
                let mut s = String::from_str("Invalid oracle feed");
                s
            },
            DeriverseErrorKind::InvalidRefDiscount { discount, min, max } => {
                let mut s = String::from_str("Invalid Ref discount ");
                s.append(u64_to_string(*discount).as_str());
                s.append(", expected to be in range ");
                s.append(u64_to_string(*min).as_str());
                s.append("..");
                s.append(u64_to_string(*max).as_str());
                s
            },
            DeriverseErrorKind::InvalidRefRatio { ratio, min, max } => {
                let mut s = String::from_str("Invalid Ref ratio ");
                s.append(u64_to_string(*ratio).as_str());
                s.append(", expected to be in range ");
                s.append(u64_to_string(*min).as_str());
                s.append("..");
                s.append(u64_to_string(*max).as_str());
                s
            },
            DeriverseErrorKind::RefProgramInactive => {
                let mut s = String::from_str("Ref program is inactive");
                s
            },
            DeriverseErrorKind::InvalidRefLinkId { ref_id, first_ref_id, second_ref_id } => {
                let mut s = String::from_str("Invalid ref link ID ");
                s.append(u32_to_string(*ref_id).as_str());
                s.append(", acceptable ids: ");
                s.append(u32_to_string(*first_ref_id).as_str());
                s.append(", ");
                s.append(u32_to_string(*second_ref_id).as_str());
                s
            },
            DeriverseErrorKind::RefLinkExpired { ref_id, expiration_time, current_time } => {
                let mut s = String::from_str("Ref link with id ");
                s.append(u32_to_string(*ref_id).as_str());
                s.append(" is expired, current time is ");
                s.append(u32_to_string(*current_time).as_str());
                s.append(" > expiration time ");
                s.append(u32_to_string(*expiration_time).as_str());
                s
            },
            DeriverseErrorKind::InvalidRefAddress { expected_address: _, actual_address: _ } => {
                let mut s = String::from_str("Invalid referral client primary account address");
                s
            },
            DeriverseErrorKind::OperationRejected => {
                let mut s = String::from_str("Operation Rejected");
                s
            },
            DeriverseErrorKind::MemoryMapFailed => {
                let mut s = String::from_str("Memory map creation or general error");
                s
            },
            DeriverseErrorKind::MemoryMapFreeFailed => {
                let mut s = String::from_str("Memory map deallocation error");
                s
            },
            DeriverseErrorKind::InvalidAccountTag { expected_account_type, actual_tag, address: _ } => {
                let mut s = String::from_str("Invalid account tag in account, expected ");
                s.append(expected_account_type.text().as_str());
                s.append(" != actual ");
                s.append(u32_to_string(*actual_tag).as_str());
                s
            },
            DeriverseErrorKind::InvalidVersion { address: _, account_type, expected, actual } => {
                let mut s = String::from_str("Invalid version in ");
                s.append(account_type.name_text().as_str());
                s.append(", expected ");
                s.append(u32_to_string(*expected).as_str());
                s.append(" != actual ");
                s.append(u32_to_string(*actual).as_str());
                s
            },
            DeriverseErrorKind::InvalidDataAlignment { address } => {
                let mut s = String::from_str("Invalid data alignment in ");
                s.append(address.text().as_str());
                s
            },
            DeriverseErrorKind::InvalidAccountsAmount { expected, actual } => {
                let mut s = String::from_str("Invalid amount of provided accounts, expected ");
                s.append(u32_to_string(*expected).as_str());
                s.append(" != actual ");
                s.append(u32_to_string(*actual).as_str());
                s
            },
            DeriverseErrorKind::LegacyNativeMintNotSupported => {
                let mut s = String::from_str("wSOL minting at legacy solana_native address is not supported");
                s
            },
            DeriverseErrorKind::IdenticalTokensInPair { token_id: _ } => {
                let mut s = String::from_str("Identical tokens are not allowed in trading pair");
                s
            },
            DeriverseErrorKind::Token2022NativeMintNotSupported => {
                let mut s = String::from_str("wSOL minting at solana_native address is not supported");
                s
            },
            DeriverseErrorKind::InvalidAccountAddress { expected_address: _, actual_address: _, account_type } => {
                let mut s = String::from_str("Invalid accounts address for ");
                s.append(account_type.text().as_str());
                s.append(" account");
                s
            },
            DeriverseErrorKind::CandleWasNotFound { tag } => {
                let mut s = String::from_str("Candle with tag ");
                s.append(u32_to_string(*tag).as_str());
                s.append(" was not found");
                s
            },
            DeriverseErrorKind::InvalidAccountSize { address: _, account_type, expected, actual } => {
                let mut s = String::from_str("Invalid accounts size in ");
                s.append(account_type.text().as_str());
                s.append(" account, expected ");
                s.append(usize_to_string(*expected).as_str());
                s.append(" < actual ");
                s.append(usize_to_string(*actual).as_str());
                s
            },
            DeriverseErrorKind::FailedToUpgrade => {
                let mut s = String::from_str("Failed to upgrade access manager to writable");
                s
            },
            DeriverseErrorKind::InvalidCandlesAmount { index, len } => {
                let mut s = String::from_str("Invalid candles amount, expected candle on index ");
                s.append(usize_to_string(*index).as_str());
                s.append(" exist while length is ");
                s.append(usize_to_string(*len).as_str());
                s
            },
            DeriverseErrorKind::InvalidWalletAddress { address: _, wallet_addr: _, actual: _ } => {
                let mut s = String::from_str("Invalid wallet address");
                s
            },
            DeriverseErrorKind::InvalidCandlesContext => {
                let mut s = String::from_str("Invalid candles context");
                s
            },
            DeriverseErrorKind::UnsupportedAccountTag { tag } => {
                let mut s = String::from_str("Unsupported account tag ");
                s.append(u32_to_string(*tag).as_str());
                s
            },
            DeriverseErrorKind::SelfRefNotAllowed { client_primary_addr: _ } => {
                let mut s = String::from_str("Self-referral is not allowed, client can not be referral for himself");
                s
            },
            DeriverseErrorKind::OffsetOutOfBounds { address: _, offset, len } => {
                let mut s = String::from_str("Offset ");
                s.append(usize_to_string(*offset).as_str());
                s.append(" is out of bound for data len ");
                s.append(usize_to_string(*len).as_str());
                s
            },
            DeriverseErrorKind::InvalidTokenOwner { token_id, address: _, expected_adderss: _, actual_address: _ } => {
                let mut s = String::from_str("Invalid token owner for ");
                s.append(u32_to_string(*token_id).as_str());
                s.append(" token");
                s
            },
            DeriverseErrorKind::DifferentTokenIds { id_left, id_right } => {
                let mut s = String::from_str("Different token ids, ");
                s.append(u32_to_string(*id_left).as_str());
                s.append(" != ");
                s.append(u32_to_string(*id_right).as_str());
                s
            },
        }
    }

    /// Whether `fields` is exactly the contextual-field list of this
    /// error: every payload field, in declaration order, under its own
    /// name, with integers carried as-is, enums rendered, and addresses
    /// carried as addresses.
    pub open spec fn spec_fields_ok(self, fields: Seq<DiagnosticField>) -> bool {
        match self {
            DeriverseErrorKind::InvalidAccountsNumber { expected, actual } => {
                &&& fields.len() == 2
                &&& fields[0].name@ == "expected"@
                &&& fields[0].value == DiagnosticValue::Unsigned(expected as u64)
                &&& fields[1].name@ == "actual"@
                &&& fields[1].value == DiagnosticValue::Unsigned(actual as u64)
            },
            DeriverseErrorKind::InvalidDataLength { expected, actual } => {
                &&& fields.len() == 2
                &&& fields[0].name@ == "expected"@
                &&& fields[0].value == DiagnosticValue::Unsigned(expected as u64)
                &&& fields[1].name@ == "actual"@
                &&& fields[1].value == DiagnosticValue::Unsigned(actual as u64)
            },
            DeriverseErrorKind::MustBeSigner { address } => {
                &&& fields.len() == 1
                &&& fields[0].name@ == "address"@
                &&& fields[0].value == DiagnosticValue::Addr(address)
            },
            DeriverseErrorKind::MustBeReadOnly { address } => {
                &&& fields.len() == 1
                &&& fields[0].name@ == "address"@
                &&& fields[0].value == DiagnosticValue::Addr(address)
            },
            DeriverseErrorKind::MustBeWritable { address } => {
                &&& fields.len() == 1
                &&& fields[0].name@ == "address"@
                &&& fields[0].value == DiagnosticValue::Addr(address)
            },
            DeriverseErrorKind::InvalidTokenProgramId { expected, actual } => {
                &&& fields.len() == 2
                &&& fields[0].name@ == "expected"@
                &&& match fields[0].value {
                    DiagnosticValue::Text(s) => s@ == expected.spec_text(),
                    _ => false,
                }
                &&& fields[1].name@ == "actual"@
                &&& match fields[1].value {
                    DiagnosticValue::Text(s) => s@ == actual.spec_text(),
                    _ => false,
                }
            },
            DeriverseErrorKind::UnsupportedTokenProgramId { address } => {
                &&& fields.len() == 1
                &&& fields[0].name@ == "address"@
                &&& fields[0].value == DiagnosticValue::Addr(address)
            },
            DeriverseErrorKind::InvalidMintAccount { token_id, expected_address, actual_address } => {
                &&& fields.len() == 3
                &&& fields[0].name@ == "token_id"@
                &&& fields[0].value == DiagnosticValue::Unsigned(token_id as u64)
                &&& fields[1].name@ == "expected_address"@
                &&& fields[1].value == DiagnosticValue::Addr(expected_address)
                &&& fields[2].name@ == "actual_address"@
                &&& fields[2].value == DiagnosticValue::Addr(actual_address)
            },
            DeriverseErrorKind::InvalidMintProgramId { expected, actual, mint_address } => {
                &&& fields.len() == 3
                &&& fields[0].name@ == "expected"@
                &&& match fields[0].value {
                    DiagnosticValue::Text(s) => s@ == expected.spec_text(),
                    _ => false,
                }
                &&& fields[1].name@ == "actual"@
                &&& match fields[1].value {
                    DiagnosticValue::Text(s) => s@ == actual.spec_text(),
                    _ => false,
                }
                &&& fields[2].name@ == "mint_address"@
                &&& fields[2].value == DiagnosticValue::Addr(mint_address)
            },
            DeriverseErrorKind::InvalidLutProgramId { actual } => {
                &&& fields.len() == 1
                &&& fields[0].name@ == "actual"@
                &&& fields[0].value == DiagnosticValue::Addr(actual)
            },
            DeriverseErrorKind::InvalidLutAccount { expected, actual } => {
                &&& fields.len() == 2
                &&& fields[0].name@ == "expected"@
                &&& fields[0].value == DiagnosticValue::Addr(expected)
                &&& fields[1].name@ == "actual"@
                &&& fields[1].value == DiagnosticValue::Addr(actual)
            },
            DeriverseErrorKind::InvalidSystemProgramId { actual } => {
                &&& fields.len() == 1
                &&& fields[0].name@ == "actual"@
                &&& fields[0].value == DiagnosticValue::Addr(actual)
            },
            DeriverseErrorKind::InvalidQuantity { value, min_value, max_value } => {
                &&& fields.len() == 3
                &&& fields[0].name@ == "value"@
                &&& fields[0].value == DiagnosticValue::Signed(value)
                &&& fields[1].name@ == "min_value"@
                &&& fields[1].value == DiagnosticValue::Signed(min_value)
                &&& fields[2].name@ == "max_value"@
                &&& fields[2].value == DiagnosticValue::Signed(max_value)
            },
            DeriverseErrorKind::InvalidPrice { price, min_price, max_price } => {
                &&& fields.len() == 3
                &&& fields[0].name@ == "price"@
                &&& fields[0].value == DiagnosticValue::Signed(price)
                &&& fields[1].name@ == "min_price"@
                &&& fields[1].value == DiagnosticValue::Signed(min_price)
                &&& fields[2].name@ == "max_price"@
                &&& fields[2].value == DiagnosticValue::Signed(max_price)
            },
            DeriverseErrorKind::InsufficientFunds => fields.len() == 0,
            DeriverseErrorKind::TooManyLines { side, amount } => {
                &&& fields.len() == 2
                &&& fields[0].name@ == "side"@
                &&& match fields[0].value {
                    DiagnosticValue::Text(s) => s@ == side.spec_text(),
                    _ => false,
                }
                &&& fields[1].name@ == "amount"@
                &&& fields[1].value == DiagnosticValue::Unsigned(amount as u64)
            },
            DeriverseErrorKind::AllocatorFailed => fields.len() == 0,
            DeriverseErrorKind::OrderAllocatorFailed { side } => {
                &&& fields.len() == 1
                &&& fields[0].name@ == "side"@
                &&& match fields[0].value {
                    DiagnosticValue::Text(s) => s@ == side.spec_text(),
                    _ => false,
                }
            },
            DeriverseErrorKind::CrossOrder { order_id, qty, sum } => {
                &&& fields.len() == 3
                &&& fields[0].name@ == "order_id"@
                &&& fields[0].value == DiagnosticValue::Signed(order_id)
                &&& fields[1].name@ == "qty"@
                &&& fields[1].value == DiagnosticValue::Signed(qty)
                &&& fields[2].name@ == "sum"@
                &&& fields[2].value == DiagnosticValue::Signed(sum)
            },
            DeriverseErrorKind::MatchingEngineFailed => fields.len() == 0,
            DeriverseErrorKind::InvalidPDA { expected_address, actual_address, account_type } => {
                &&& fields.len() == 3
                &&& fields[0].name@ == "expected_address"@
                &&& fields[0].value == DiagnosticValue::Addr(expected_address)
                &&& fields[1].name@ == "actual_address"@
                &&& fields[1].value == DiagnosticValue::Addr(actual_address)
                &&& fields[2].name@ == "account_type"@
                &&& match fields[2].value {
                    DiagnosticValue::Text(s) => s@ == account_type.spec_text(),
                    _ => false,
                }
            },
            DeriverseErrorKind::InvalidNewAccount { address, owner, account_type } => {
                &&& fields.len() == 3
                &&& fields[0].name@ == "address"@
                &&& fields[0].value == DiagnosticValue::Addr(address)
                &&& fields[1].name@ == "owner"@
                &&& fields[1].value == DiagnosticValue::Addr(owner)
                &&& fields[2].name@ == "account_type"@
                &&& match fields[2].value {
                    DiagnosticValue::Text(s) => s@ == account_type.spec_text(),
                    _ => false,
                }
            },
            DeriverseErrorKind::InvalidProgramAccount { address, owner, program_id_address, account_type } => {
                &&& fields.len() == 4
                &&& fields[0].name@ == "address"@
                &&& fields[0].value == DiagnosticValue::Addr(address)
                &&& fields[1].name@ == "owner"@
                &&& fields[1].value == DiagnosticValue::Addr(owner)
                &&& fields[2].name@ == "program_id_address"@
                &&& fields[2].value == DiagnosticValue::Addr(program_id_address)
                &&& fields[3].name@ == "account_type"@
                &&& match fields[3].value {
                    DiagnosticValue::Text(s) => s@ == account_type.spec_text(),
                    _ => false,
                }
            },
            DeriverseErrorKind::InvalidHolderAdminAccount { actual_address } => {
                &&& fields.len() == 1
                &&& fields[0].name@ == "actual_address"@
                &&& fields[0].value == DiagnosticValue::Addr(actual_address)
            },
            DeriverseErrorKind::InvalidAdminAccount { expected, actual } => {
                &&& fields.len() == 2
                &&& fields[0].name@ == "expected"@
                &&& fields[0].value == DiagnosticValue::Addr(expected)
                &&& fields[1].name@ == "actual"@
                &&& fields[1].value == DiagnosticValue::Addr(actual)
            },
            DeriverseErrorKind::InvalidNewOperatorAccount { address } => {
                &&& fields.len() == 1
                &&& fields[0].name@ == "address"@
                &&& fields[0].value == DiagnosticValue::Addr(address)
            },
            DeriverseErrorKind::InvalidOperatorAccount { address } => {
                &&& fields.len() == 1
                &&& fields[0].name@ == "address"@
                &&& fields[0].value == DiagnosticValue::Addr(address)
            },
            DeriverseErrorKind::InvalidTokenId { id } => {
                &&& fields.len() == 1
                &&& fields[0].name@ == "id"@
                &&& fields[0].value == DiagnosticValue::Unsigned(id as u64)
            },
            DeriverseErrorKind::UnexpectedTokenId { expected, actual } => {
                &&& fields.len() == 2
                &&& fields[0].name@ == "expected"@
                &&& fields[0].value == DiagnosticValue::Unsigned(expected as u64)
                &&& fields[1].name@ == "actual"@
                &&& fields[1].value == DiagnosticValue::Unsigned(actual as u64)
            },
            DeriverseErrorKind::TokenWasNotFound { id, community_state_address } => {
                &&& fields.len() == 2
                &&& fields[0].name@ == "id"@
                &&& fields[0].value == DiagnosticValue::Unsigned(id as u64)
                &&& fields[1].name@ == "community_state_address"@
                &&& fields[1].value == DiagnosticValue::Addr(community_state_address)
            },
            DeriverseErrorKind::InvalidProgramsTokenAccount { token_id, expected_address, actual_address } => {
                &&& fields.len() == 3
                &&& fields[0].name@ == "token_id"@
                &&& fields[0].value == DiagnosticValue::Unsigned(token_id as u64)
                &&& fields[1].name@ == "expected_address"@
                &&& fields[1].value == DiagnosticValue::Addr(expected_address)
                &&& fields[2].name@ == "actual_address"@
                &&& fields[2].value == DiagnosticValue::Addr(actual_address)
            },
            DeriverseErrorKind::InvalidInstrId { id } => {
                &&& fields.len() == 1
                &&& fields[0].name@ == "id"@
                &&& fields[0].value == DiagnosticValue::Unsigned(id as u64)
            },
            DeriverseErrorKind::UnexpectedInstrumentId { expected, actual, address, account_type } => {
                &&& fields.len() == 4
                &&& fields[0].name@ == "expected"@
                &&& fields[0].value == DiagnosticValue::Unsigned(expected as u64)
                &&& fields[1].name@ == "actual"@
                &&& fields[1].value == DiagnosticValue::Unsigned(actual as u64)
                &&& fields[2].name@ == "address"@
                &&& fields[2].value == DiagnosticValue::Addr(address)
                &&& fields[3].name@ == "account_type"@
                &&& match fields[3].value {
                    DiagnosticValue::Text(s) => s@ == account_type.spec_text(),
                    _ => false,
                }
            },
            DeriverseErrorKind::NodeWasNotFound { id, side } => {
                &&& fields.len() == 2
                &&& fields[0].name@ == "id"@
                &&& fields[0].value == DiagnosticValue::Signed(id)
                &&& fields[1].name@ == "side"@
                &&& match fields[1].value {
                    DiagnosticValue::Text(s) => s@ == side.spec_text(),
                    _ => false,
                }
            },
            DeriverseErrorKind::OrderWasNotFound { link, side } => {
                &&& fields.len() == 2
                &&& fields[0].name@ == "link"@
                &&& fields[0].value == DiagnosticValue::Unsigned(link as u64)
                &&& fields[1].name@ == "side"@
                &&& match fields[1].value {
                    DiagnosticValue::Text(s) => s@ == side.spec_text(),
                    _ => false,
                }
            },
            DeriverseErrorKind::ClientDataDestruction => fields.len() == 0,
            DeriverseErrorKind::TokenMustBeBaseCrncy { id, mask } => {
                &&& fields.len() == 2
                &&& fields[0].name@ == "id"@
                &&& fields[0].value == DiagnosticValue::Unsigned(id as u64)
                &&& fields[1].name@ == "mask"@
                &&& fields[1].value == DiagnosticValue::Unsigned(mask as u64)
            },
            DeriverseErrorKind::ImpossibleToUpgrade { id, mask } => {
                &&& fields.len() == 2
                &&& fields[0].name@ == "id"@
                &&& fields[0].value == DiagnosticValue::Unsigned(id as u64)
                &&& fields[1].name@ == "mask"@
                &&& fields[1].value == DiagnosticValue::Unsigned(mask as u64)
            },
            DeriverseErrorKind::InvalidBidOrdersCount => fields.len() == 0,
            DeriverseErrorKind::InvalidAskOrdersCount => fields.len() == 0,
            DeriverseErrorKind::InvalidBidLinesCount => fields.len() == 0,
            DeriverseErrorKind::InvalidAskLinesCount => fields.len() == 0,
            DeriverseErrorKind::InvalidAssociatedTokenAddress { token_id, expected_address, actual_address } => {
                &&& fields.len() == 3
                &&& fields[0].name@ == "token_id"@
                &&& fields[0].value == DiagnosticValue::Unsigned(token_id as u64)
                &&& fields[1].name@ == "expected_address"@
                &&& fields[1].value == DiagnosticValue::Addr(expected_address)
                &&& fields[2].name@ == "actual_address"@
                &&& fields[2].value == DiagnosticValue::Addr(actual_address)
            },
            DeriverseErrorKind::TooEarlyToDistribFunds { limit_time, current_time } => {
                &&& fields.len() == 2
                &&& fields[0].name@ == "limit_time"@
                &&& fields[0].value == DiagnosticValue::Unsigned(limit_time as u64)
                &&& fields[1].name@ == "current_time"@
                &&& fields[1].value == DiagnosticValue::Unsigned(current_time as u64)
            },
            DeriverseErrorKind::InsufficientDeriverseTokensSupply { amount, min_amount } => {
                &&& fields.len() == 2
                &&& fields[0].name@ == "amount"@
                &&& fields[0].value == DiagnosticValue::Signed(amount)
                &&& fields[1].name@ == "min_amount"@
                &&& fields[1].value == DiagnosticValue::Signed(min_amount)
            },
            DeriverseErrorKind::InvalidClientId { address, expected, actual } => {
                &&& fields.len() == 3
                &&& fields[0].name@ == "address"@
                &&& fields[0].value == DiagnosticValue::Addr(address)
                &&& fields[1].name@ == "expected"@
                &&& fields[1].value == DiagnosticValue::Unsigned(expected as u64)
                &&& fields[2].name@ == "actual"@
                &&& fields[2].value == DiagnosticValue::Unsigned(actual as u64)
            },
            DeriverseErrorKind::InvalidVotingCounter { actual, expected } => {
                &&& fields.len() == 2
                &&& fields[0].name@ == "actual"@
                &&& fields[0].value == DiagnosticValue::Unsigned(actual as u64)
                &&& fields[1].name@ == "expected"@
                &&& fields[1].value == DiagnosticValue::Unsigned(expected as u64)
            },
            DeriverseErrorKind::AlreadyVoted => fields.len() == 0,
            DeriverseErrorKind::NoTradeIOC => fields.len() == 0,
            DeriverseErrorKind::AssetNotFound { asset_type, id } => {
                &&& fields.len() == 2
                &&& fields[0].name@ == "asset_type"@
                &&& fields[0].value == DiagnosticValue::Unsigned(asset_type as u64)
                &&& fields[1].name@ == "id"@
                &&& fields[1].value == DiagnosticValue::Unsigned(id as u64)
            },
            DeriverseErrorKind::NullPointer => fields.len() == 0,
            DeriverseErrorKind::CommunityAccountHasToBeReadOnly { address } => {
                &&& fields.len() == 1
                &&& fields[0].name@ == "address"@
                &&& fields[0].value == DiagnosticValue::Addr(address)
            },
            DeriverseErrorKind::InvalidTokenType => fields.len() == 0,
            DeriverseErrorKind::NullIndex => fields.len() == 0,
            DeriverseErrorKind::ArithmeticOverflow => fields.len() == 0,
            DeriverseErrorKind::InvalidClientDataFormat => fields.len() == 0,
            DeriverseErrorKind::InvalidOrderId { value, min_value, max_value } => {
                &&& fields.len() == 3
                &&& fields[0].name@ == "value"@
                &&& fields[0].value == DiagnosticValue::Signed(value)
                &&& fields[1].name@ == "min_value"@
                &&& fields[1].value == DiagnosticValue::Signed(min_value)
                &&& fields[2].name@ == "max_value"@
                &&& fields[2].value == DiagnosticValue::Signed(max_value)
            },
            DeriverseErrorKind::PerpIsNotAvailable { id, mask } => {
                &&& fields.len() == 2
                &&& fields[0].name@ == "id"@
                &&& fields[0].value == DiagnosticValue::Unsigned(id as u64)
                &&& fields[1].name@ == "mask"@
                &&& fields[1].value == DiagnosticValue::Unsigned(mask as u64)
            },
            DeriverseErrorKind::ImpossibleToWithdrawFundsDuringMarginCall => fields.len() == 0,
            DeriverseErrorKind::PerpClientCountCanNotBeZero => fields.len() == 0,
            DeriverseErrorKind::MaxPerpClientsCountReached { value, max } => {
                &&& fields.len() == 2
                &&& fields[0].name@ == "value"@
                &&& fields[0].value == DiagnosticValue::Unsigned(value as u64)
                &&& fields[1].name@ == "max"@
                &&& fields[1].value == DiagnosticValue::Unsigned(max as u64)
            },
            DeriverseErrorKind::InvalidLeverage { value, max } => {
                &&& fields.len() == 2
                &&& fields[0].name@ == "value"@
                &&& fields[0].value == DiagnosticValue::Unsigned(value as u64)
                &&& fields[1].name@ == "max"@
                &&& fields[1].value == DiagnosticValue::Unsigned(max as u64)
            },
            DeriverseErrorKind::InvalidSocializedLossOpenInterest => fields.len() == 0,
            DeriverseErrorKind::ImpossibleToClosePerpPosition => fields.len() == 0,
            DeriverseErrorKind::TooEarlyToWithdrawFees { limit_time, current_time } => {
                &&& fields.len() == 2
                &&& fields[0].name@ == "limit_time"@
                &&& fields[0].value == DiagnosticValue::Unsigned(limit_time as u64)
                &&& fields[1].name@ == "current_time"@
                &&& fields[1].value == DiagnosticValue::Unsigned(current_time as u64)
            },
            DeriverseErrorKind::FeesWithdrawalIsTooLarge { value } => {
                &&& fields.len() == 1
                &&& fields[0].name@ == "value"@
                &&& fields[0].value == DiagnosticValue::Signed(value)
            },
            DeriverseErrorKind::InvalidOracleFeed { expected_address, actual_address } => {
                &&& fields.len() == 2
                &&& fields[0].name@ == "expected_address"@
                &&& fields[0].value == DiagnosticValue::Addr(expected_address)
                &&& fields[1].name@ == "actual_address"@
                &&& fields[1].value == DiagnosticValue::Addr(actual_address)
            },
            DeriverseErrorKind::InvalidRefDiscount { discount, min, max } => {
                &&& fields.len() == 3
                &&& fields[0].name@ == "discount"@
                &&& fields[0].value == DiagnosticValue::Unsigned(discount)
                &&& fields[1].name@ == "min"@
                &&& fields[1].value == DiagnosticValue::Unsigned(min)
                &&& fields[2].name@ == "max"@
                &&& fields[2].value == DiagnosticValue::Unsigned(max)
            },
            DeriverseErrorKind::InvalidRefRatio { ratio, min, max } => {
                &&& fields.len() == 3
                &&& fields[0].name@ == "ratio"@
                &&& fields[0].value == DiagnosticValue::Unsigned(ratio)
                &&& fields[1].name@ == "min"@
                &&& fields[1].value == DiagnosticValue::Unsigned(min)
                &&& fields[2].name@ == "max"@
                &&& fields[2].value == DiagnosticValue::Unsigned(max)
            },
            DeriverseErrorKind::RefProgramInactive => fields.len() == 0,
            DeriverseErrorKind::InvalidRefLinkId { ref_id, first_ref_id, second_ref_id } => {
                &&& fields.len() == 3
                &&& fields[0].name@ == "ref_id"@
                &&& fields[0].value == DiagnosticValue::Unsigned(ref_id as u64)
                &&& fields[1].name@ == "first_ref_id"@
                &&& fields[1].value == DiagnosticValue::Unsigned(first_ref_id as u64)
                &&& fields[2].name@ == "second_ref_id"@
                &&& fields[2].value == DiagnosticValue::Unsigned(second_ref_id as u64)
            },
            DeriverseErrorKind::RefLinkExpired { ref_id, expiration_time, current_time } => {
                &&& fields.len() == 3
                &&& fields[0].name@ == "ref_id"@
                &&& fields[0].value == DiagnosticValue::Unsigned(ref_id as u64)
                &&& fields[1].name@ == "expiration_time"@
                &&& fields[1].value == DiagnosticValue::Unsigned(expiration_time as u64)
                &&& fields[2].name@ == "current_time"@
                &&& fields[2].value == DiagnosticValue::Unsigned(current_time as u64)
            },
            DeriverseErrorKind::InvalidRefAddress { expected_address, actual_address } => {
                &&& fields.len() == 2
                &&& fields[0].name@ == "expected_address"@
                &&& fields[0].value == DiagnosticValue::Addr(expected_address)
                &&& fields[1].name@ == "actual_address"@
                &&& fields[1].value == DiagnosticValue::Addr(actual_address)
            },
            DeriverseErrorKind::OperationRejected => fields.len() == 0,
            DeriverseErrorKind::MemoryMapFailed => fields.len() == 0,
            DeriverseErrorKind::MemoryMapFreeFailed => fields.len() == 0,
            DeriverseErrorKind::InvalidAccountTag { expected_account_type, actual_tag, address } => {
                &&& fields.len() == 3
                &&& fields[0].name@ == "expected_account_type"@
                &&& match fields[0].value {
                    DiagnosticValue::Text(s) => s@ == expected_account_type.spec_text(),
                    _ => false,
                }
                &&& fields[1].name@ == "actual_tag"@
                &&& fields[1].value == DiagnosticValue::Unsigned(actual_tag as u64)
                &&& fields[2].name@ == "address"@
                &&& fields[2].value == DiagnosticValue::Addr(address)
            },
            DeriverseErrorKind::InvalidVersion { address, account_type, expected, actual } => {
                &&& fields.len() == 4
                &&& fields[0].name@ == "address"@
                &&& fields[0].value == DiagnosticValue::Addr(address)
                &&& fields[1].name@ == "account_type"@
                &&& match fields[1].value {
                    DiagnosticValue::Text(s) => s@ == account_type.spec_text(),
                    _ => false,
                }
                &&& fields[2].name@ == "expected"@
                &&& fields[2].value == DiagnosticValue::Unsigned(expected as u64)
                &&& fields[3].name@ == "actual"@
                &&& fields[3].value == DiagnosticValue::Unsigned(actual as u64)
            },
            DeriverseErrorKind::InvalidDataAlignment { address } => {
                &&& fields.len() == 1
                &&& fields[0].name@ == "address"@
                &&& fields[0].value == DiagnosticValue::Addr(address)
            },
            DeriverseErrorKind::InvalidAccountsAmount { expected, actual } => {
                &&& fields.len() == 2
                &&& fields[0].name@ == "expected"@
                &&& fields[0].value == DiagnosticValue::Unsigned(expected as u64)
                &&& fields[1].name@ == "actual"@
                &&& fields[1].value == DiagnosticValue::Unsigned(actual as u64)
            },
            DeriverseErrorKind::LegacyNativeMintNotSupported => fields.len() == 0,
            DeriverseErrorKind::IdenticalTokensInPair { token_id } => {
                &&& fields.len() == 1
                &&& fields[0].name@ == "token_id"@
                &&& fields[0].value == DiagnosticValue::Unsigned(token_id as u64)
            },
            DeriverseErrorKind::Token2022NativeMintNotSupported => fields.len() == 0,
            DeriverseErrorKind::InvalidAccountAddress { expected_address, actual_address, account_type } => {
                &&& fields.len() == 3
                &&& fields[0].name@ == "expected_address"@
                &&& fields[0].value == DiagnosticValue::Addr(expected_address)
                &&& fields[1].name@ == "actual_address"@
                &&& fields[1].value == DiagnosticValue::Addr(actual_address)
                &&& fields[2].name@ == "account_type"@
                &&& match fields[2].value {
                    DiagnosticValue::Text(s) => s@ == account_type.spec_text(),
                    _ => false,
                }
            },
            DeriverseErrorKind::CandleWasNotFound { tag } => {
                &&& fields.len() == 1
                &&& fields[0].name@ == "tag"@
                &&& fields[0].value == DiagnosticValue::Unsigned(tag as u64)
            },
            DeriverseErrorKind::InvalidAccountSize { address, account_type, expected, actual } => {
                &&& fields.len() == 4
                &&& fields[0].name@ == "address"@
                &&& fields[0].value == DiagnosticValue::Addr(address)
                &&& fields[1].name@ == "account_type"@
                &&& match fields[1].value {
                    DiagnosticValue::Text(s) => s@ == account_type.spec_text(),
                    _ => false,
                }
                &&& fields[2].name@ == "expected"@
                &&& fields[2].value == DiagnosticValue::Unsigned(expected as u64)
                &&& fields[3].name@ == "actual"@
                &&& fields[3].value == DiagnosticValue::Unsigned(actual as u64)
            },
            DeriverseErrorKind::FailedToUpgrade => fields.len() == 0,
            DeriverseErrorKind::InvalidCandlesAmount { index, len } => {
                &&& fields.len() == 2
                &&& fields[0].name@ == "index"@
                &&& fields[0].value == DiagnosticValue::Unsigned(index as u64)
                &&& fields[1].name@ == "len"@
                &&& fields[1].value == DiagnosticValue::Unsigned(len as u64)
            },
            DeriverseErrorKind::InvalidWalletAddress { address, wallet_addr, actual } => {
                &&& fields.len() == 3
                &&& fields[0].name@ == "address"@
                &&& fields[0].value == DiagnosticValue::Addr(address)
                &&& fields[1].name@ == "wallet_addr"@
                &&& fields[1].value == DiagnosticValue::Addr(wallet_addr)
                &&& fields[2].name@ == "actual"@
                &&& fields[2].value == DiagnosticValue::Addr(actual)
            },
            DeriverseErrorKind::InvalidCandlesContext => fields.len() == 0,
            DeriverseErrorKind::UnsupportedAccountTag { tag } => {
                &&& fields.len() == 1
                &&& fields[0].name@ == "tag"@
                &&& fields[0].value == DiagnosticValue::Unsigned(tag as u64)
            },
            DeriverseErrorKind::SelfRefNotAllowed { client_primary_addr } => {
                &&& fields.len() == 1
                &&& fields[0].name@ == "client_primary_addr"@
                &&& fields[0].value == DiagnosticValue::Addr(client_primary_addr)
            },
            DeriverseErrorKind::OffsetOutOfBounds { address, offset, len } => {
                &&& fields.len() == 3
                &&& fields[0].name@ == "address"@
                &&& fields[0].value == DiagnosticValue::Addr(address)
                &&& fields[1].name@ == "offset"@
                &&& fields[1].value == DiagnosticValue::Unsigned(offset as u64)
                &&& fields[2].name@ == "len"@
                &&& fields[2].value == DiagnosticValue::Unsigned(len as u64)
            },
            DeriverseErrorKind::InvalidTokenOwner { token_id, address, expected_adderss, actual_address } => {
                &&& fields.len() == 4
                &&& fields[0].name@ == "token_id"@
                &&& fields[0].value == DiagnosticValue::Unsigned(token_id as u64)
                &&& fields[1].name@ == "address"@
                &&& fields[1].value == DiagnosticValue::Addr(address)
                &&& fields[2].name@ == "expected_adderss"@
                &&& fields[2].value == DiagnosticValue::Addr(expected_adderss)
                &&& fields[3].name@ == "actual_address"@
                &&& fields[3].value == DiagnosticValue::Addr(actual_address)
            },
            DeriverseErrorKind::DifferentTokenIds { id_left, id_right } => {
                &&& fields.len() == 2
                &&& fields[0].name@ == "id_left"@
                &&& fields[0].value == DiagnosticValue::Unsigned(id_left as u64)
                &&& fields[1].name@ == "id_right"@
                &&& fields[1].value == DiagnosticValue::Unsigned(id_right as u64)
            },
        }
    }

    /// The structured diagnostic of this error: its stable code, the
    /// interpolated message, and every contextual field by name.  The host
    /// serializes this to JSON for off-chain log indexing, rendering
    /// addresses in its own alphabet.
    pub fn to_json(&self) -> (r: Diagnostic)
        ensures
            r.code == self.spec_code(),
            r.msg@ == self.spec_msg(),
            self.spec_fields_ok(r.fields@),
    {
        let code = self.code();
        let msg = self.msg();
        let mut fields: Vec<DiagnosticField> = Vec::new();
        match self {
            DeriverseErrorKind::InvalidAccountsNumber { expected, actual } => {
                fields.push(DiagnosticField { name: String::from_str("expected"), value: DiagnosticValue::Unsigned(*expected as u64) });
                fields.push(DiagnosticField { name: String::from_str("actual"), value: DiagnosticValue::Unsigned(*actual as u64) });
            },
            DeriverseErrorKind::InvalidDataLength { expected, actual } => {
                fields.push(DiagnosticField { name: String::from_str("expected"), value: DiagnosticValue::Unsigned(*expected as u64) });
                fields.push(DiagnosticField { name: String::from_str("actual"), value: DiagnosticValue::Unsigned(*actual as u64) });
            },
            DeriverseErrorKind::MustBeSigner { address } => {
                fields.push(DiagnosticField { name: String::from_str("address"), value: DiagnosticValue::Addr(*address) });
            },
            DeriverseErrorKind::MustBeReadOnly { address } => {
                fields.push(DiagnosticField { name: String::from_str("address"), value: DiagnosticValue::Addr(*address) });
            },
            DeriverseErrorKind::MustBeWritable { address } => {
                fields.push(DiagnosticField { name: String::from_str("address"), value: DiagnosticValue::Addr(*address) });
            },
            DeriverseErrorKind::InvalidTokenProgramId { expected, actual } => {
                fields.push(DiagnosticField { name: String::from_str("expected"), value: DiagnosticValue::Text(expected.text()) });
                fields.push(DiagnosticField { name: String::from_str("actual"), value: DiagnosticValue::Text(actual.text()) });
            },
            DeriverseErrorKind::UnsupportedTokenProgramId { address } => {
                fields.push(DiagnosticField { name: String::from_str("address"), value: DiagnosticValue::Addr(*address) });
            },
            DeriverseErrorKind::InvalidMintAccount { token_id, expected_address, actual_address } => {
                fields.push(DiagnosticField { name: String::from_str("token_id"), value: DiagnosticValue::Unsigned(*token_id as u64) });
                fields.push(DiagnosticField { name: String::from_str("expected_address"), value: DiagnosticValue::Addr(*expected_address) });
                fields.push(DiagnosticField { name: String::from_str("actual_address"), value: DiagnosticValue::Addr(*actual_address) });
            },
            DeriverseErrorKind::InvalidMintProgramId { expected, actual, mint_address } => {
                fields.push(DiagnosticField { name: String::from_str("expected"), value: DiagnosticValue::Text(expected.text()) });
                fields.push(DiagnosticField { name: String::from_str("actual"), value: DiagnosticValue::Text(actual.text()) });
                fields.push(DiagnosticField { name: String::from_str("mint_address"), value: DiagnosticValue::Addr(*mint_address) });
            },
            DeriverseErrorKind::InvalidLutProgramId { actual } => {
                fields.push(DiagnosticField { name: String::from_str("actual"), value: DiagnosticValue::Addr(*actual) });
            },
            DeriverseErrorKind::InvalidLutAccount { expected, actual } => {
                fields.push(DiagnosticField { name: String::from_str("expected"), value: DiagnosticValue::Addr(*expected) });
                fields.push(DiagnosticField { name: String::from_str("actual"), value: DiagnosticValue::Addr(*actual) });
            },
            DeriverseErrorKind::InvalidSystemProgramId { actual } => {
                fields.push(DiagnosticField { name: String::from_str("actual"), value: DiagnosticValue::Addr(*actual) });
            },
            DeriverseErrorKind::InvalidQuantity { value, min_value, max_value } => {
                fields.push(DiagnosticField { name: String::from_str("value"), value: DiagnosticValue::Signed(*value) });
                fields.push(DiagnosticField { name: String::from_str("min_value"), value: DiagnosticValue::Signed(*min_value) });
                fields.push(DiagnosticField { name: String::from_str("max_value"), value: DiagnosticValue::Signed(*max_value) });
            },
            DeriverseErrorKind::InvalidPrice { price, min_price, max_price } => {
                fields.push(DiagnosticField { name: String::from_str("price"), value: DiagnosticValue::Signed(*price) });
                fields.push(DiagnosticField { name: String::from_str("min_price"), value: DiagnosticValue::Signed(*min_price) });
                fields.push(DiagnosticField { name: String::from_str("max_price"), value: DiagnosticValue::Signed(*max_price) });
            },
            DeriverseErrorKind::InsufficientFunds => {
            },
            DeriverseErrorKind::TooManyLines { side, amount } => {
                fields.push(DiagnosticField { name: String::from_str("side"), value: DiagnosticValue::Text(side.text()) });
                fields.push(DiagnosticField { name: String::from_str("amount"), value: DiagnosticValue::Unsigned(*amount as u64) });
            },
            DeriverseErrorKind::AllocatorFailed => {
            },
            DeriverseErrorKind::OrderAllocatorFailed { side } => {
                fields.push(DiagnosticField { name: String::from_str("side"), value: DiagnosticValue::Text(side.text()) });
            },
            DeriverseErrorKind::CrossOrder { order_id, qty, sum } => {
                fields.push(DiagnosticField { name: String::from_str("order_id"), value: DiagnosticValue::Signed(*order_id) });
                fields.push(DiagnosticField { name: String::from_str("qty"), value: DiagnosticValue::Signed(*qty) });
                fields.push(DiagnosticField { name: String::from_str("sum"), value: DiagnosticValue::Signed(*sum) });
            },
            DeriverseErrorKind::MatchingEngineFailed => {
            },
            DeriverseErrorKind::InvalidPDA { expected_address, actual_address, account_type } => {
                fields.push(DiagnosticField { name: String::from_str("expected_address"), value: DiagnosticValue::Addr(*expected_address) });
                fields.push(DiagnosticField { name: String::from_str("actual_address"), value: DiagnosticValue::Addr(*actual_address) });
                fields.push(DiagnosticField { name: String::from_str("account_type"), value: DiagnosticValue::Text(account_type.text()) });
            },
            DeriverseErrorKind::InvalidNewAccount { address, owner, account_type } => {
                fields.push(DiagnosticField { name: String::from_str("address"), value: DiagnosticValue::Addr(*address) });
                fields.push(DiagnosticField { name: String::from_str("owner"), value: DiagnosticValue::Addr(*owner) });
                fields.push(DiagnosticField { name: String::from_str("account_type"), value: DiagnosticValue::Text(account_type.text()) });
            },
            DeriverseErrorKind::InvalidProgramAccount { address, owner, program_id_address, account_type } => {
                fields.push(DiagnosticField { name: String::from_str("address"), value: DiagnosticValue::Addr(*address) });
                fields.push(DiagnosticField { name: String::from_str("owner"), value: DiagnosticValue::Addr(*owner) });
                fields.push(DiagnosticField { name: String::from_str("program_id_address"), value: DiagnosticValue::Addr(*program_id_address) });
                fields.push(DiagnosticField { name: String::from_str("account_type"), value: DiagnosticValue::Text(account_type.text()) });
            },
            DeriverseErrorKind::InvalidHolderAdminAccount { actual_address } => {
                fields.push(DiagnosticField { name: String::from_str("actual_address"), value: DiagnosticValue::Addr(*actual_address) });
            },
            DeriverseErrorKind::InvalidAdminAccount { expected, actual } => {
                fields.push(DiagnosticField { name: String::from_str("expected"), value: DiagnosticValue::Addr(*expected) });
                fields.push(DiagnosticField { name: String::from_str("actual"), value: DiagnosticValue::Addr(*actual) });
            },
            DeriverseErrorKind::InvalidNewOperatorAccount { address } => {
                fields.push(DiagnosticField { name: String::from_str("address"), value: DiagnosticValue::Addr(*address) });
            },
            DeriverseErrorKind::InvalidOperatorAccount { address } => {
                fields.push(DiagnosticField { name: String::from_str("address"), value: DiagnosticValue::Addr(*address) });
            },
            DeriverseErrorKind::InvalidTokenId { id } => {
                fields.push(DiagnosticField { name: String::from_str("id"), value: DiagnosticValue::Unsigned(*id as u64) });
            },
            DeriverseErrorKind::UnexpectedTokenId { expected, actual } => {
                fields.push(DiagnosticField { name: String::from_str("expected"), value: DiagnosticValue::Unsigned(*expected as u64) });
                fields.push(DiagnosticField { name: String::from_str("actual"), value: DiagnosticValue::Unsigned(*actual as u64) });
            },
            DeriverseErrorKind::TokenWasNotFound { id, community_state_address } => {
                fields.push(DiagnosticField { name: String::from_str("id"), value: DiagnosticValue::Unsigned(*id as u64) });
                fields.push(DiagnosticField { name: String::from_str("community_state_address"), value: DiagnosticValue::Addr(*community_state_address) });
            },
            DeriverseErrorKind::InvalidProgramsTokenAccount { token_id, expected_address, actual_address } => {
                fields.push(DiagnosticField { name: String::from_str("token_id"), value: DiagnosticValue::Unsigned(*token_id as u64) });
                fields.push(DiagnosticField { name: String::from_str("expected_address"), value: DiagnosticValue::Addr(*expected_address) });
                fields.push(DiagnosticField { name: String::from_str("actual_address"), value: DiagnosticValue::Addr(*actual_address) });
            },
            DeriverseErrorKind::InvalidInstrId { id } => {
                fields.push(DiagnosticField { name: String::from_str("id"), value: DiagnosticValue::Unsigned(*id as u64) });
            },
            DeriverseErrorKind::UnexpectedInstrumentId { expected, actual, address, account_type } => {
                fields.push(DiagnosticField { name: String::from_str("expected"), value: DiagnosticValue::Unsigned(*expected as u64) });
                fields.push(DiagnosticField { name: String::from_str("actual"), value: DiagnosticValue::Unsigned(*actual as u64) });
                fields.push(DiagnosticField { name: String::from_str("address"), value: DiagnosticValue::Addr(*address) });
                fields.push(DiagnosticField { name: String::from_str("account_type"), value: DiagnosticValue::Text(account_type.text()) });
            },
            DeriverseErrorKind::NodeWasNotFound { id, side } => {
                fields.push(DiagnosticField { name: String::from_str("id"), value: DiagnosticValue::Signed(*id) });
                fields.push(DiagnosticField { name: String::from_str("side"), value: DiagnosticValue::Text(side.text()) });
            },
            DeriverseErrorKind::OrderWasNotFound { link, side } => {
                fields.push(DiagnosticField { name: String::from_str("link"), value: DiagnosticValue::Unsigned(*link as u64) });
                fields.push(DiagnosticField { name: String::from_str("side"), value: DiagnosticValue::Text(side.text()) });
            },
            DeriverseErrorKind::ClientDataDestruction => {
            },
            DeriverseErrorKind::TokenMustBeBaseCrncy { id, mask } => {
                fields.push(DiagnosticField { name: String::from_str("id"), value: DiagnosticValue::Unsigned(*id as u64) });
                fields.push(DiagnosticField { name: String::from_str("mask"), value: DiagnosticValue::Unsigned(*mask as u64) });
            },
            DeriverseErrorKind::ImpossibleToUpgrade { id, mask } => {
                fields.push(DiagnosticField { name: String::from_str("id"), value: DiagnosticValue::Unsigned(*id as u64) });
                fields.push(DiagnosticField { name: String::from_str("mask"), value: DiagnosticValue::Unsigned(*mask as u64) });
            },
            DeriverseErrorKind::InvalidBidOrdersCount => {
            },
            DeriverseErrorKind::InvalidAskOrdersCount => {
            },
            DeriverseErrorKind::InvalidBidLinesCount => {
            },
            DeriverseErrorKind::InvalidAskLinesCount => {
            },
            DeriverseErrorKind::InvalidAssociatedTokenAddress { token_id, expected_address, actual_address } => {
                fields.push(DiagnosticField { name: String::from_str("token_id"), value: DiagnosticValue::Unsigned(*token_id as u64) });
                fields.push(DiagnosticField { name: String::from_str("expected_address"), value: DiagnosticValue::Addr(*expected_address) });
                fields.push(DiagnosticField { name: String::from_str("actual_address"), value: DiagnosticValue::Addr(*actual_address) });
            },
            DeriverseErrorKind::TooEarlyToDistribFunds { limit_time, current_time } => {
                fields.push(DiagnosticField { name: String::from_str("limit_time"), value: DiagnosticValue::Unsigned(*limit_time as u64) });
                fields.push(DiagnosticField { name: String::from_str("current_time"), value: DiagnosticValue::Unsigned(*current_time as u64) });
            },
            DeriverseErrorKind::InsufficientDeriverseTokensSupply { amount, min_amount } => {
                fields.push(DiagnosticField { name: String::from_str("amount"), value: DiagnosticValue::Signed(*amount) });
                fields.push(DiagnosticField { name: String::from_str("min_amount"), value: DiagnosticValue::Signed(*min_amount) });
            },
            DeriverseErrorKind::InvalidClientId { address, expected, actual } => {
                fields.push(DiagnosticField { name: String::from_str("address"), value: DiagnosticValue::Addr(*address) });
                fields.push(DiagnosticField { name: String::from_str("expected"), value: DiagnosticValue::Unsigned(*expected as u64) });
                fields.push(DiagnosticField { name: String::from_str("actual"), value: DiagnosticValue::Unsigned(*actual as u64) });
            },
            DeriverseErrorKind::InvalidVotingCounter { actual, expected } => {
                fields.push(DiagnosticField { name: String::from_str("actual"), value: DiagnosticValue::Unsigned(*actual as u64) });
                fields.push(DiagnosticField { name: String::from_str("expected"), value: DiagnosticValue::Unsigned(*expected as u64) });
            },
            DeriverseErrorKind::AlreadyVoted => {
            },
            DeriverseErrorKind::NoTradeIOC => {
            },
            DeriverseErrorKind::AssetNotFound { asset_type, id } => {
                fields.push(DiagnosticField { name: String::from_str("asset_type"), value: DiagnosticValue::Unsigned(*asset_type as u64) });
                fields.push(DiagnosticField { name: String::from_str("id"), value: DiagnosticValue::Unsigned(*id as u64) });
            },
            DeriverseErrorKind::NullPointer => {
            },
            DeriverseErrorKind::CommunityAccountHasToBeReadOnly { address } => {
                fields.push(DiagnosticField { name: String::from_str("address"), value: DiagnosticValue::Addr(*address) });
            },
            DeriverseErrorKind::InvalidTokenType => {
            },
            DeriverseErrorKind::NullIndex => {
            },
            DeriverseErrorKind::ArithmeticOverflow => {
            },
            DeriverseErrorKind::InvalidClientDataFormat => {
            },
            DeriverseErrorKind::InvalidOrderId { value, min_value, max_value } => {
                fields.push(DiagnosticField { name: String::from_str("value"), value: DiagnosticValue::Signed(*value) });
                fields.push(DiagnosticField { name: String::from_str("min_value"), value: DiagnosticValue::Signed(*min_value) });
                fields.push(DiagnosticField { name: String::from_str("max_value"), value: DiagnosticValue::Signed(*max_value) });
            },
            DeriverseErrorKind::PerpIsNotAvailable { id, mask } => {
                fields.push(DiagnosticField { name: String::from_str("id"), value: DiagnosticValue::Unsigned(*id as u64) });
                fields.push(DiagnosticField { name: String::from_str("mask"), value: DiagnosticValue::Unsigned(*mask as u64) });
            },
            DeriverseErrorKind::ImpossibleToWithdrawFundsDuringMarginCall => {
            },
            DeriverseErrorKind::PerpClientCountCanNotBeZero => {
            },
            DeriverseErrorKind::MaxPerpClientsCountReached { value, max } => {
                fields.push(DiagnosticField { name: String::from_str("value"), value: DiagnosticValue::Unsigned(*value as u64) });
                fields.push(DiagnosticField { name: String::from_str("max"), value: DiagnosticValue::Unsigned(*max as u64) });
            },
            DeriverseErrorKind::InvalidLeverage { value, max } => {
                fields.push(DiagnosticField { name: String::from_str("value"), value: DiagnosticValue::Unsigned(*value as u64) });
                fields.push(DiagnosticField { name: String::from_str("max"), value: DiagnosticValue::Unsigned(*max as u64) });
            },
            DeriverseErrorKind::InvalidSocializedLossOpenInterest => {
            },
            DeriverseErrorKind::ImpossibleToClosePerpPosition => {
            },
            DeriverseErrorKind::TooEarlyToWithdrawFees { limit_time, current_time } => {
                fields.push(DiagnosticField { name: String::from_str("limit_time"), value: DiagnosticValue::Unsigned(*limit_time as u64) });
                fields.push(DiagnosticField { name: String::from_str("current_time"), value: DiagnosticValue::Unsigned(*current_time as u64) });
            },
            DeriverseErrorKind::FeesWithdrawalIsTooLarge { value } => {
                fields.push(DiagnosticField { name: String::from_str("value"), value: DiagnosticValue::Signed(*value) });
            },
            DeriverseErrorKind::InvalidOracleFeed { expected_address, actual_address } => {
                fields.push(DiagnosticField { name: String::from_str("expected_address"), value: DiagnosticValue::Addr(*expected_address) });
                fields.push(DiagnosticField { name: String::from_str("actual_address"), value: DiagnosticValue::Addr(*actual_address) });
            },
            DeriverseErrorKind::InvalidRefDiscount { discount, min, max } => {
                fields.push(DiagnosticField { name: String::from_str("discount"), value: DiagnosticValue::Unsigned(*discount) });
                fields.push(DiagnosticField { name: String::from_str("min"), value: DiagnosticValue::Unsigned(*min) });
                fields.push(DiagnosticField { name: String::from_str("max"), value: DiagnosticValue::Unsigned(*max) });
            },
            DeriverseErrorKind::InvalidRefRatio { ratio, min, max } => {
                fields.push(DiagnosticField { name: String::from_str("ratio"), value: DiagnosticValue::Unsigned(*ratio) });
                fields.push(DiagnosticField { name: String::from_str("min"), value: DiagnosticValue::Unsigned(*min) });
                fields.push(DiagnosticField { name: String::from_str("max"), value: DiagnosticValue::Unsigned(*max) });
            },
            DeriverseErrorKind::RefProgramInactive => {
            },
            DeriverseErrorKind::InvalidRefLinkId { ref_id, first_ref_id, second_ref_id } => {
                fields.push(DiagnosticField { name: String::from_str("ref_id"), value: DiagnosticValue::Unsigned(*ref_id as u64) });
                fields.push(DiagnosticField { name: String::from_str("first_ref_id"), value: DiagnosticValue::Unsigned(*first_ref_id as u64) });
                fields.push(DiagnosticField { name: String::from_str("second_ref_id"), value: DiagnosticValue::Unsigned(*second_ref_id as u64) });
            },
            DeriverseErrorKind::RefLinkExpired { ref_id, expiration_time, current_time } => {
                fields.push(DiagnosticField { name: String::from_str("ref_id"), value: DiagnosticValue::Unsigned(*ref_id as u64) });
                fields.push(DiagnosticField { name: String::from_str("expiration_time"), value: DiagnosticValue::Unsigned(*expiration_time as u64) });
                fields.push(DiagnosticField { name: String::from_str("current_time"), value: DiagnosticValue::Unsigned(*current_time as u64) });
            },
            DeriverseErrorKind::InvalidRefAddress { expected_address, actual_address } => {
                fields.push(DiagnosticField { name: String::from_str("expected_address"), value: DiagnosticValue::Addr(*expected_address) });
                fields.push(DiagnosticField { name: String::from_str("actual_address"), value: DiagnosticValue::Addr(*actual_address) });
            },
            DeriverseErrorKind::OperationRejected => {
            },
            DeriverseErrorKind::MemoryMapFailed => {
            },
            DeriverseErrorKind::MemoryMapFreeFailed => {
            },
            DeriverseErrorKind::InvalidAccountTag { expected_account_type, actual_tag, address } => {
                fields.push(DiagnosticField { name: String::from_str("expected_account_type"), value: DiagnosticValue::Text(expected_account_type.text()) });
                fields.push(DiagnosticField { name: String::from_str("actual_tag"), value: DiagnosticValue::Unsigned(*actual_tag as u64) });
                fields.push(DiagnosticField { name: String::from_str("address"), value: DiagnosticValue::Addr(*address) });
            },
            DeriverseErrorKind::InvalidVersion { address, account_type, expected, actual } => {
                fields.push(DiagnosticField { name: String::from_str("address"), value: DiagnosticValue::Addr(*address) });
                fields.push(DiagnosticField { name: String::from_str("account_type"), value: DiagnosticValue::Text(account_type.text()) });
                fields.push(DiagnosticField { name: String::from_str("expected"), value: DiagnosticValue::Unsigned(*expected as u64) });
                fields.push(DiagnosticField { name: String::from_str("actual"), value: DiagnosticValue::Unsigned(*actual as u64) });
            },
            DeriverseErrorKind::InvalidDataAlignment { address } => {
                fields.push(DiagnosticField { name: String::from_str("address"), value: DiagnosticValue::Addr(*address) });
            },
            DeriverseErrorKind::InvalidAccountsAmount { expected, actual } => {
                fields.push(DiagnosticField { name: String::from_str("expected"), value: DiagnosticValue::Unsigned(*expected as u64) });
                fields.push(DiagnosticField { name: String::from_str("actual"), value: DiagnosticValue::Unsigned(*actual as u64) });
            },
            DeriverseErrorKind::LegacyNativeMintNotSupported => {
            },
            DeriverseErrorKind::IdenticalTokensInPair { token_id } => {
                fields.push(DiagnosticField { name: String::from_str("token_id"), value: DiagnosticValue::Unsigned(*token_id as u64) });
            },
            DeriverseErrorKind::Token2022NativeMintNotSupported => {
            },
            DeriverseErrorKind::InvalidAccountAddress { expected_address, actual_address, account_type } => {
                fields.push(DiagnosticField { name: String::from_str("expected_address"), value: DiagnosticValue::Addr(*expected_address) });
                fields.push(DiagnosticField { name: String::from_str("actual_address"), value: DiagnosticValue::Addr(*actual_address) });
                fields.push(DiagnosticField { name: String::from_str("account_type"), value: DiagnosticValue::Text(account_type.text()) });
            },
            DeriverseErrorKind::CandleWasNotFound { tag } => {
                fields.push(DiagnosticField { name: String::from_str("tag"), value: DiagnosticValue::Unsigned(*tag as u64) });
            },
            DeriverseErrorKind::InvalidAccountSize { address, account_type, expected, actual } => {
                fields.push(DiagnosticField { name: String::from_str("address"), value: DiagnosticValue::Addr(*address) });
                fields.push(DiagnosticField { name: String::from_str("account_type"), value: DiagnosticValue::Text(account_type.text()) });
                fields.push(DiagnosticField { name: String::from_str("expected"), value: DiagnosticValue::Unsigned(*expected as u64) });
                fields.push(DiagnosticField { name: String::from_str("actual"), value: DiagnosticValue::Unsigned(*actual as u64) });
            },
            DeriverseErrorKind::FailedToUpgrade => {
            },
            DeriverseErrorKind::InvalidCandlesAmount { index, len } => {
                fields.push(DiagnosticField { name: String::from_str("index"), value: DiagnosticValue::Unsigned(*index as u64) });
                fields.push(DiagnosticField { name: String::from_str("len"), value: DiagnosticValue::Unsigned(*len as u64) });
            },
            DeriverseErrorKind::InvalidWalletAddress { address, wallet_addr, actual } => {
                fields.push(DiagnosticField { name: String::from_str("address"), value: DiagnosticValue::Addr(*address) });
                fields.push(DiagnosticField { name: String::from_str("wallet_addr"), value: DiagnosticValue::Addr(*wallet_addr) });
                fields.push(DiagnosticField { name: String::from_str("actual"), value: DiagnosticValue::Addr(*actual) });
            },
            DeriverseErrorKind::InvalidCandlesContext => {
            },
            DeriverseErrorKind::UnsupportedAccountTag { tag } => {
                fields.push(DiagnosticField { name: String::from_str("tag"), value: DiagnosticValue::Unsigned(*tag as u64) });
            },
            DeriverseErrorKind::SelfRefNotAllowed { client_primary_addr } => {
                fields.push(DiagnosticField { name: String::from_str("client_primary_addr"), value: DiagnosticValue::Addr(*client_primary_addr) });
            },
            DeriverseErrorKind::OffsetOutOfBounds { address, offset, len } => {
                fields.push(DiagnosticField { name: String::from_str("address"), value: DiagnosticValue::Addr(*address) });
                fields.push(DiagnosticField { name: String::from_str("offset"), value: DiagnosticValue::Unsigned(*offset as u64) });
                fields.push(DiagnosticField { name: String::from_str("len"), value: DiagnosticValue::Unsigned(*len as u64) });
            },
            DeriverseErrorKind::InvalidTokenOwner { token_id, address, expected_adderss, actual_address } => {
                fields.push(DiagnosticField { name: String::from_str("token_id"), value: DiagnosticValue::Unsigned(*token_id as u64) });
                fields.push(DiagnosticField { name: String::from_str("address"), value: DiagnosticValue::Addr(*address) });
                fields.push(DiagnosticField { name: String::from_str("expected_adderss"), value: DiagnosticValue::Addr(*expected_adderss) });
                fields.push(DiagnosticField { name: String::from_str("actual_address"), value: DiagnosticValue::Addr(*actual_address) });
            },
            DeriverseErrorKind::DifferentTokenIds { id_left, id_right } => {
                fields.push(DiagnosticField { name: String::from_str("id_left"), value: DiagnosticValue::Unsigned(*id_left as u64) });
                fields.push(DiagnosticField { name: String::from_str("id_right"), value: DiagnosticValue::Unsigned(*id_right as u64) });
            },
        }
        Diagnostic { code, msg, fields }
    }
}

impl From<DeriverseError> for u32 {
    fn from(e: DeriverseError) -> (r: u32) {
        e.code()
    }
}

impl vstd::std_specs::convert::FromSpecImpl<DeriverseError> for u32 {
    open spec fn obeys_from_spec() -> bool {
        true
    }

    open spec fn from_spec(e: DeriverseError) -> u32 {
        e.error.spec_code()
    }
}

/// Replaces the error of a fallible result with a fixed error kind.
pub trait ResultExt<T, E>: Sized {
    /// What `context` returns: the success untouched, the error replaced.
    spec fn spec_context(self, ctx: DeriverseErrorKind) -> Result<T, DeriverseErrorKind>;

    fn context(self, ctx: DeriverseErrorKind) -> (r: Result<T, DeriverseErrorKind>)
        ensures
            r == self.spec_context(ctx),
    ;
}

impl<T, E> ResultExt<T, E> for Result<T, E> {
    open spec fn spec_context(self, ctx: DeriverseErrorKind) -> Result<T, DeriverseErrorKind> {
        match self {
            Ok(t) => Ok(t),
            Err(_) => Err(ctx),
        }
    }

    fn context(self, ctx: DeriverseErrorKind) -> (r: Result<T, DeriverseErrorKind>) {
        match self {
            Ok(t) => Ok(t),
            Err(_) => Err(ctx),
        }
    }
}

/// The source location where an error was raised: the primary debugging aid
/// in an execution environment without stack traces.
#[derive(Debug, Clone, PartialEq)]
pub struct ErrorLocation {
    pub file: String,
    pub line: u32,
}

/// An error kind together with the source location where it was raised.  The
/// location travels with the error through every propagation boundary; the
/// kind's code is what crosses the program boundary.
#[derive(Debug, Clone)]
pub struct DeriverseError {
    pub error: DeriverseErrorKind,
    pub location: ErrorLocation,
}

impl DeriverseError {
    pub fn new(error: DeriverseErrorKind, file: String, line: u32) -> (r: Self)
        ensures
            r.error == error,
            r.location.file@ == file@,
            r.location.line == line,
    {
        DeriverseError { error, location: ErrorLocation { file, line } }
    }

    /// The error kind this value carries.
    pub fn error(&self) -> (r: &DeriverseErrorKind)
        ensures
            r == &self.error,
    {
        &self.error
    }

    /// Where the error was raised.
    pub fn location(&self) -> (r: &ErrorLocation)
        ensures
            r == &self.location,
    {
        &self.location
    }

    /// The stable numeric code of the carried error kind.
    pub fn code(&self) -> (r: u32)
        ensures
            r == self.error.spec_code(),
    {
        self.error.code()
    }

    /// The structured diagnostic of the carried error kind, with the raise
    /// site appended as its last two fields, ready for the host to nest
    /// under its location object.
    pub fn to_json(&self) -> (r: Diagnostic)
        ensures
            r.code == self.error.spec_code(),
            r.msg@ == self.error.spec_msg(),
            r.fields@.len() >= 2,
            self.error.spec_fields_ok(r.fields@.take(r.fields@.len() - 2)),
            r.fields@[r.fields@.len() - 2].name@ == "file"@,
            match r.fields@[r.fields@.len() - 2].value {
                DiagnosticValue::Text(s) => s@ == self.location.file@,
                _ => false,
            },
            r.fields@[r.fields@.len() - 1].name@ == "line"@,
            r.fields@[r.fields@.len() - 1].value == DiagnosticValue::Unsigned(
                self.location.line as u64,
            ),
    {
        let mut d = self.error.to_json();
        let ghost kind_fields = d.fields@;
        d.fields.push(DiagnosticField {
            name: String::from_str("file"),
            value: DiagnosticValue::Text(String::from_str(self.location.file.as_str())),
        });
        d.fields.push(DiagnosticField {
            name: String::from_str("line"),
            value: DiagnosticValue::Unsigned(self.location.line as u64),
        });
        proof {
            assert(d.fields@.take(d.fields@.len() - 2) =~= kind_fields);
        }
        d
    }
}


/// Whether two errors are the same variant, whatever their payloads.
pub open spec fn same_variant(a: DeriverseErrorKind, b: DeriverseErrorKind) -> bool {
    match a {
        DeriverseErrorKind::InvalidAccountsNumber { .. } => b is InvalidAccountsNumber,
        DeriverseErrorKind::InvalidDataLength { .. } => b is InvalidDataLength,
        DeriverseErrorKind::MustBeSigner { .. } => b is MustBeSigner,
        DeriverseErrorKind::MustBeReadOnly { .. } => b is MustBeReadOnly,
        DeriverseErrorKind::MustBeWritable { .. } => b is MustBeWritable,
        DeriverseErrorKind::InvalidTokenProgramId { .. } => b is InvalidTokenProgramId,
        DeriverseErrorKind::UnsupportedTokenProgramId { .. } => b is UnsupportedTokenProgramId,
        DeriverseErrorKind::InvalidMintAccount { .. } => b is InvalidMintAccount,
        DeriverseErrorKind::InvalidMintProgramId { .. } => b is InvalidMintProgramId,
        DeriverseErrorKind::InvalidLutProgramId { .. } => b is InvalidLutProgramId,
        DeriverseErrorKind::InvalidLutAccount { .. } => b is InvalidLutAccount,
        DeriverseErrorKind::InvalidSystemProgramId { .. } => b is InvalidSystemProgramId,
        DeriverseErrorKind::InvalidQuantity { .. } => b is InvalidQuantity,
        DeriverseErrorKind::InvalidPrice { .. } => b is InvalidPrice,
        DeriverseErrorKind::InsufficientFunds => b is InsufficientFunds,
        DeriverseErrorKind::TooManyLines { .. } => b is TooManyLines,
        DeriverseErrorKind::AllocatorFailed => b is AllocatorFailed,
        DeriverseErrorKind::OrderAllocatorFailed { .. } => b is OrderAllocatorFailed,
        DeriverseErrorKind::CrossOrder { .. } => b is CrossOrder,
        DeriverseErrorKind::MatchingEngineFailed => b is MatchingEngineFailed,
        DeriverseErrorKind::InvalidPDA { .. } => b is InvalidPDA,
        DeriverseErrorKind::InvalidNewAccount { .. } => b is InvalidNewAccount,
        DeriverseErrorKind::InvalidProgramAccount { .. } => b is InvalidProgramAccount,
        DeriverseErrorKind::InvalidHolderAdminAccount { .. } => b is InvalidHolderAdminAccount,
        DeriverseErrorKind::InvalidAdminAccount { .. } => b is InvalidAdminAccount,
        DeriverseErrorKind::InvalidNewOperatorAccount { .. } => b is InvalidNewOperatorAccount,
        DeriverseErrorKind::InvalidOperatorAccount { .. } => b is InvalidOperatorAccount,
        DeriverseErrorKind::InvalidTokenId { .. } => b is InvalidTokenId,
        DeriverseErrorKind::UnexpectedTokenId { .. } => b is UnexpectedTokenId,
        DeriverseErrorKind::TokenWasNotFound { .. } => b is TokenWasNotFound,
        DeriverseErrorKind::InvalidProgramsTokenAccount { .. } => b is InvalidProgramsTokenAccount,
        DeriverseErrorKind::InvalidInstrId { .. } => b is InvalidInstrId,
        DeriverseErrorKind::UnexpectedInstrumentId { .. } => b is UnexpectedInstrumentId,
        DeriverseErrorKind::NodeWasNotFound { .. } => b is NodeWasNotFound,
        DeriverseErrorKind::OrderWasNotFound { .. } => b is OrderWasNotFound,
        DeriverseErrorKind::ClientDataDestruction => b is ClientDataDestruction,
        DeriverseErrorKind::TokenMustBeBaseCrncy { .. } => b is TokenMustBeBaseCrncy,
        DeriverseErrorKind::ImpossibleToUpgrade { .. } => b is ImpossibleToUpgrade,
        DeriverseErrorKind::InvalidBidOrdersCount => b is InvalidBidOrdersCount,
        DeriverseErrorKind::InvalidAskOrdersCount => b is InvalidAskOrdersCount,
        DeriverseErrorKind::InvalidBidLinesCount => b is InvalidBidLinesCount,
        DeriverseErrorKind::InvalidAskLinesCount => b is InvalidAskLinesCount,
        DeriverseErrorKind::InvalidAssociatedTokenAddress { .. } => b is InvalidAssociatedTokenAddress,
        DeriverseErrorKind::TooEarlyToDistribFunds { .. } => b is TooEarlyToDistribFunds,
        DeriverseErrorKind::InsufficientDeriverseTokensSupply { .. } => b is InsufficientDeriverseTokensSupply,
        DeriverseErrorKind::InvalidClientId { .. } => b is InvalidClientId,
        DeriverseErrorKind::InvalidVotingCounter { .. } => b is InvalidVotingCounter,
        DeriverseErrorKind::AlreadyVoted => b is AlreadyVoted,
        DeriverseErrorKind::NoTradeIOC => b is NoTradeIOC,
        DeriverseErrorKind::AssetNotFound { .. } => b is AssetNotFound,
        DeriverseErrorKind::NullPointer => b is NullPointer,
        DeriverseErrorKind::CommunityAccountHasToBeReadOnly { .. } => b is CommunityAccountHasToBeReadOnly,
        DeriverseErrorKind::InvalidTokenType => b is InvalidTokenType,
        DeriverseErrorKind::NullIndex => b is NullIndex,
        DeriverseErrorKind::ArithmeticOverflow => b is ArithmeticOverflow,
        DeriverseErrorKind::InvalidClientDataFormat => b is InvalidClientDataFormat,
        DeriverseErrorKind::InvalidOrderId { .. } => b is InvalidOrderId,
        DeriverseErrorKind::PerpIsNotAvailable { .. } => b is PerpIsNotAvailable,
        DeriverseErrorKind::ImpossibleToWithdrawFundsDuringMarginCall => b is ImpossibleToWithdrawFundsDuringMarginCall,
        DeriverseErrorKind::PerpClientCountCanNotBeZero => b is PerpClientCountCanNotBeZero,
        DeriverseErrorKind::MaxPerpClientsCountReached { .. } => b is MaxPerpClientsCountReached,
        DeriverseErrorKind::InvalidLeverage { .. } => b is InvalidLeverage,
        DeriverseErrorKind::InvalidSocializedLossOpenInterest => b is InvalidSocializedLossOpenInterest,
        DeriverseErrorKind::ImpossibleToClosePerpPosition => b is ImpossibleToClosePerpPosition,
        DeriverseErrorKind::TooEarlyToWithdrawFees { .. } => b is TooEarlyToWithdrawFees,
        DeriverseErrorKind::FeesWithdrawalIsTooLarge { .. } => b is FeesWithdrawalIsTooLarge,
        DeriverseErrorKind::InvalidOracleFeed { .. } => b is InvalidOracleFeed,
        DeriverseErrorKind::InvalidRefDiscount { .. } => b is InvalidRefDiscount,
        DeriverseErrorKind::InvalidRefRatio { .. } => b is InvalidRefRatio,
        DeriverseErrorKind::RefProgramInactive => b is RefProgramInactive,
        DeriverseErrorKind::InvalidRefLinkId { .. } => b is InvalidRefLinkId,
        DeriverseErrorKind::RefLinkExpired { .. } => b is RefLinkExpired,
        DeriverseErrorKind::InvalidRefAddress { .. } => b is InvalidRefAddress,
        DeriverseErrorKind::OperationRejected => b is OperationRejected,
        DeriverseErrorKind::MemoryMapFailed => b is MemoryMapFailed,
        DeriverseErrorKind::MemoryMapFreeFailed => b is MemoryMapFreeFailed,
        DeriverseErrorKind::InvalidAccountTag { .. } => b is InvalidAccountTag,
        DeriverseErrorKind::InvalidVersion { .. } => b is InvalidVersion,
        DeriverseErrorKind::InvalidDataAlignment { .. } => b is InvalidDataAlignment,
        DeriverseErrorKind::InvalidAccountsAmount { .. } => b is InvalidAccountsAmount,
        DeriverseErrorKind::LegacyNativeMintNotSupported => b is LegacyNativeMintNotSupported,
        DeriverseErrorKind::IdenticalTokensInPair { .. } => b is IdenticalTokensInPair,
        DeriverseErrorKind::Token2022NativeMintNotSupported => b is Token2022NativeMintNotSupported,
        DeriverseErrorKind::InvalidAccountAddress { .. } => b is InvalidAccountAddress,
        DeriverseErrorKind::CandleWasNotFound { .. } => b is CandleWasNotFound,
        DeriverseErrorKind::InvalidAccountSize { .. } => b is InvalidAccountSize,
        DeriverseErrorKind::FailedToUpgrade => b is FailedToUpgrade,
        DeriverseErrorKind::InvalidCandlesAmount { .. } => b is InvalidCandlesAmount,
        DeriverseErrorKind::InvalidWalletAddress { .. } => b is InvalidWalletAddress,
        DeriverseErrorKind::InvalidCandlesContext => b is InvalidCandlesContext,
        DeriverseErrorKind::UnsupportedAccountTag { .. } => b is UnsupportedAccountTag,
        DeriverseErrorKind::SelfRefNotAllowed { .. } => b is SelfRefNotAllowed,
        DeriverseErrorKind::OffsetOutOfBounds { .. } => b is OffsetOutOfBounds,
        DeriverseErrorKind::InvalidTokenOwner { .. } => b is InvalidTokenOwner,
        DeriverseErrorKind::DifferentTokenIds { .. } => b is DifferentTokenIds,
    }
}

/// The stable code of an error depends on its variant alone, never on the
/// payload fields: two errors of the same variant always carry the same
/// code.
pub proof fn lemma_code_depends_on_variant_alone(a: DeriverseErrorKind, b: DeriverseErrorKind)
    requires
        same_variant(a, b),
    ensures
        a.spec_code() == b.spec_code(),
{
}

} // verus!
