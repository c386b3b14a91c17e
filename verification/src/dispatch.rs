//! The entry dispatcher, reduced to what can be decided from the raw
//! instruction bytes and the shape of the transaction: byte 0 selects the
//! opcode, the account-list length is held against the registry before any
//! payload is parsed, and the payload is then decoded and validated by the
//! codec of the selected instruction.  The host-side entrypoint performs
//! the account I/O and hands the parsed instruction to its handler.

use vstd::prelude::*;

use crate::errors::DeriverseErrorKind;
use crate::instr_data::{
    AirdropData, BuyMarketSeatData, ChangeRefProgramData, DepositData, FeesDepositData, FeesWithdrawData, MoveSpotAvailFundsData, NewBaseCrncyData, NewInstrumentData, NewOperatorData, NewPerpOrderData, NewPrivateClient, NewRootAccountData, NewSpotOrderData, PerpChangeLeverageData, PerpDepositData, PerpMassCancelData, PerpOrderCancelData, PerpQuotesReplaceData, PerpStatisticsResetData, PerpWithdrawData, PointsProgramExpiration, SellMarketSeatData, SetInstrReadyForPerpUpgradeData, SpotLpData, SpotMassCancelData, SpotOrderCancelData, SpotQuotesReplaceData, SwapData, UpgradeToPerpData, VotingData, WithdrawData,
};
use crate::registry::{
    DrvInstruction, AirdropInstruction, NewBaseCrncyInstruction, BuyMarketSeatInstruction, ChangePointsProgramExpirationInstruction, ChangeRefProgramInstruction, DepositInstruction, DividendsAllocationInstruction, DividendsClaimInstruction, FeesDepositInstruction, FeesWithdrawInstruction, MoveSpotAvailFundsInstruction, NewHolderInstruction, NewInstrumentInstruction, NewOperatorInstruction, NewPerpOrderInstruction, NewPrivateClientInstruction, NewRefLinkInstruction, NewRootAccountInstruction, NewSpotOrderInstruction, NextVotingInstruction, PerpChangeLeverageInstruction, PerpDepositInstruction, PerpMassCancelInstruction, PerpOrderCancelInstruction, PerpQuotesReplaceInstruction, PerpStatisticsResetInstruction, PerpWithdrawInstruction, SellMarketSeatInstruction, SetInstrReadyForPerpUpgradeInstruction, SpotLpInstruction, SpotMassCancelInstruction, SpotOrderCancelInstruction, SpotQuotesReplaceInstruction, SwapInstruction, TerminatePrivateModeInstruction, UpgradeToPerpInstruction, VotingInstruction, WithdrawInstruction,
};

verus! {

/// One parsed, validated instruction.  `Unknown` stands for an opcode the
/// program does not handle; the original entry point treats such a
/// transaction as a no-op.  `PerpForcedClose` and `SetInstrOracleFeed`
/// carry handler-specific account data only, so there is no payload to
/// decode here.
#[derive(Clone, Copy, Debug, PartialEq)]
pub enum Instruction {
    NewHolder,
    NewOperator(NewOperatorData),
    NewRootAccount(NewRootAccountData),
    PerpWithdraw(PerpWithdrawData),
    NewBaseCrncy(NewBaseCrncyData),
    FeesDeposit(FeesDepositData),
    Deposit(DepositData),
    Withdraw(WithdrawData),
    NewInstrument(NewInstrumentData),
    UpgradeToPerp(UpgradeToPerpData),
    PerpDeposit(PerpDepositData),
    NewSpotOrder(NewSpotOrderData),
    SpotOrderCancel(SpotOrderCancelData),
    SpotLp(SpotLpData),
    SpotMassCancel(SpotMassCancelData),
    NextVoting,
    NewPerpOrder(NewPerpOrderData),
    DividendsAllocation,
    Swap(SwapData),
    Airdrop(AirdropData),
    DividendsClaim,
    PerpOrderCancel(PerpOrderCancelData),
    Voting(VotingData),
    SpotQuotesReplace(SpotQuotesReplaceData),
    PerpMassCancel(PerpMassCancelData),
    PerpChangeLeverage(PerpChangeLeverageData),
    PerpForcedClose,
    FeesWithdraw(FeesWithdrawData),
    SetInstrOracleFeed,
    SetInstrReadyForPerpUpgrade(SetInstrReadyForPerpUpgradeData),
    PerpQuotesReplace(PerpQuotesReplaceData),
    MoveSpotAvailFunds(MoveSpotAvailFundsData),
    ChangeRefProgram(ChangeRefProgramData),
    NewRefLink,
    PerpStatisticsReset(PerpStatisticsResetData),
    BuyMarketSeat(BuyMarketSeatData),
    SellMarketSeat(SellMarketSeatData),
    NewPrivateClientRequest(NewPrivateClient),
    TerminatePrivateMode,
    ChangePointsProgramExpiration(PointsProgramExpiration),
    Unknown { opcode: u8 },
}

impl Instruction {
    /// What dispatching one instruction returns, before any account is
    /// read: the validated instruction, or the error that aborts the
    /// transaction.  The account-count guard of the registry is applied
    /// before the payload is parsed.
    pub open spec fn spec_dispatch(
        data: Seq<u8>,
        accounts_len: usize,
        tokens_count: u32,
        instr_count: u32,
    ) -> Result<Instruction, DeriverseErrorKind> {
        if data.len() == 0 {
            Err(DeriverseErrorKind::InvalidDataLength { expected: 1, actual: 0 })
        } else {
            if data[0] == 0 {
                if accounts_len < NewHolderInstruction::spec_min_accounts() {
                    Err(DeriverseErrorKind::InvalidAccountsAmount {
                        expected: NewHolderInstruction::spec_min_accounts() as u32,
                        actual: accounts_len as u32,
                    })
                } else {
                    Ok(Instruction::NewHolder)
                }
            } else if data[0] == 1 {
                if accounts_len < NewOperatorInstruction::spec_min_accounts() {
                    Err(DeriverseErrorKind::InvalidAccountsAmount {
                        expected: NewOperatorInstruction::spec_min_accounts() as u32,
                        actual: accounts_len as u32,
                    })
                } else {
                    match NewOperatorData::spec_new(data) {
                        Ok(d) => Ok(Instruction::NewOperator(d)),
                        Err(e) => Err(e),
                    }
                }
            } else if data[0] == 2 {
                if accounts_len < NewRootAccountInstruction::spec_min_accounts() {
                    Err(DeriverseErrorKind::InvalidAccountsAmount {
                        expected: NewRootAccountInstruction::spec_min_accounts() as u32,
                        actual: accounts_len as u32,
                    })
                } else {
                    match NewRootAccountData::spec_new(data) {
                        Ok(d) => Ok(Instruction::NewRootAccount(d)),
                        Err(e) => Err(e),
                    }
                }
            } else if data[0] == 3 {
                if accounts_len < PerpWithdrawInstruction::spec_min_accounts() {
                    Err(DeriverseErrorKind::InvalidAccountsAmount {
                        expected: PerpWithdrawInstruction::spec_min_accounts() as u32,
                        actual: accounts_len as u32,
                    })
                } else {
                    match PerpWithdrawData::spec_new(data, instr_count) {
                        Ok(d) => Ok(Instruction::PerpWithdraw(d)),
                        Err(e) => Err(e),
                    }
                }
            } else if data[0] == 4 {
                if accounts_len < NewBaseCrncyInstruction::spec_min_accounts() {
                    Err(DeriverseErrorKind::InvalidAccountsAmount {
                        expected: NewBaseCrncyInstruction::spec_min_accounts() as u32,
                        actual: accounts_len as u32,
                    })
                } else {
                    match NewBaseCrncyData::spec_new(data) {
                        Ok(d) => Ok(Instruction::NewBaseCrncy(d)),
                        Err(e) => Err(e),
                    }
                }
            } else if data[0] == 5 {
                if accounts_len < FeesDepositInstruction::spec_min_accounts() {
                    Err(DeriverseErrorKind::InvalidAccountsAmount {
                        expected: FeesDepositInstruction::spec_min_accounts() as u32,
                        actual: accounts_len as u32,
                    })
                } else {
                    match FeesDepositData::spec_new(data, tokens_count) {
                        Ok(d) => Ok(Instruction::FeesDeposit(d)),
                        Err(e) => Err(e),
                    }
                }
            } else if data[0] == 7 {
                if accounts_len < DepositInstruction::spec_min_accounts() {
                    Err(DeriverseErrorKind::InvalidAccountsAmount {
                        expected: DepositInstruction::spec_min_accounts() as u32,
                        actual: accounts_len as u32,
                    })
                } else {
                    match DepositData::spec_new(data, tokens_count) {
                        Ok(d) => Ok(Instruction::Deposit(d)),
                        Err(e) => Err(e),
                    }
                }
            } else if data[0] == 8 {
                if accounts_len < WithdrawInstruction::spec_min_accounts() {
                    Err(DeriverseErrorKind::InvalidAccountsAmount {
                        expected: WithdrawInstruction::spec_min_accounts() as u32,
                        actual: accounts_len as u32,
                    })
                } else {
                    match WithdrawData::spec_new(data, tokens_count) {
                        Ok(d) => Ok(Instruction::Withdraw(d)),
                        Err(e) => Err(e),
                    }
                }
            } else if data[0] == 9 {
                if accounts_len < NewInstrumentInstruction::spec_min_accounts() {
                    Err(DeriverseErrorKind::InvalidAccountsAmount {
                        expected: NewInstrumentInstruction::spec_min_accounts() as u32,
                        actual: accounts_len as u32,
                    })
                } else {
                    match NewInstrumentData::spec_new(data, tokens_count) {
                        Ok(d) => Ok(Instruction::NewInstrument(d)),
                        Err(e) => Err(e),
                    }
                }
            } else if data[0] == 10 {
                if accounts_len < UpgradeToPerpInstruction::spec_min_accounts() {
                    Err(DeriverseErrorKind::InvalidAccountsAmount {
                        expected: UpgradeToPerpInstruction::spec_min_accounts() as u32,
                        actual: accounts_len as u32,
                    })
                } else {
                    match UpgradeToPerpData::spec_new(data, instr_count) {
                        Ok(d) => Ok(Instruction::UpgradeToPerp(d)),
                        Err(e) => Err(e),
                    }
                }
            } else if data[0] == 11 {
                if accounts_len < PerpDepositInstruction::spec_min_accounts() {
                    Err(DeriverseErrorKind::InvalidAccountsAmount {
                        expected: PerpDepositInstruction::spec_min_accounts() as u32,
                        actual: accounts_len as u32,
                    })
                } else {
                    match PerpDepositData::spec_new(data, instr_count) {
                        Ok(d) => Ok(Instruction::PerpDeposit(d)),
                        Err(e) => Err(e),
                    }
                }
            } else if data[0] == 12 {
                if accounts_len < NewSpotOrderInstruction::spec_min_accounts() {
                    Err(DeriverseErrorKind::InvalidAccountsAmount {
                        expected: NewSpotOrderInstruction::spec_min_accounts() as u32,
                        actual: accounts_len as u32,
                    })
                } else {
                    match NewSpotOrderData::spec_new(data, instr_count) {
                        Ok(d) => Ok(Instruction::NewSpotOrder(d)),
                        Err(e) => Err(e),
                    }
                }
            } else if data[0] == 13 {
                if accounts_len < SpotOrderCancelInstruction::spec_min_accounts() {
                    Err(DeriverseErrorKind::InvalidAccountsAmount {
                        expected: SpotOrderCancelInstruction::spec_min_accounts() as u32,
                        actual: accounts_len as u32,
                    })
                } else {
                    match SpotOrderCancelData::spec_new(data, instr_count) {
                        Ok(d) => Ok(Instruction::SpotOrderCancel(d)),
                        Err(e) => Err(e),
                    }
                }
            } else if data[0] == 14 {
                if accounts_len < SpotLpInstruction::spec_min_accounts() {
                    Err(DeriverseErrorKind::InvalidAccountsAmount {
                        expected: SpotLpInstruction::spec_min_accounts() as u32,
                        actual: accounts_len as u32,
                    })
                } else {
                    match SpotLpData::spec_new(data, instr_count) {
                        Ok(d) => Ok(Instruction::SpotLp(d)),
                        Err(e) => Err(e),
                    }
                }
            } else if data[0] == 15 {
                if accounts_len < SpotMassCancelInstruction::spec_min_accounts() {
                    Err(DeriverseErrorKind::InvalidAccountsAmount {
                        expected: SpotMassCancelInstruction::spec_min_accounts() as u32,
                        actual: accounts_len as u32,
                    })
                } else {
                    match SpotMassCancelData::spec_new(data, instr_count) {
                        Ok(d) => Ok(Instruction::SpotMassCancel(d)),
                        Err(e) => Err(e),
                    }
                }
            } else if data[0] == 16 {
                if accounts_len < NextVotingInstruction::spec_min_accounts() {
                    Err(DeriverseErrorKind::InvalidAccountsAmount {
                        expected: NextVotingInstruction::spec_min_accounts() as u32,
                        actual: accounts_len as u32,
                    })
                } else {
                    Ok(Instruction::NextVoting)
                }
            } else if data[0] == 19 {
                if accounts_len < NewPerpOrderInstruction::spec_min_accounts() {
                    Err(DeriverseErrorKind::InvalidAccountsAmount {
                        expected: NewPerpOrderInstruction::spec_min_accounts() as u32,
                        actual: accounts_len as u32,
                    })
                } else {
                    match NewPerpOrderData::spec_new(data, instr_count) {
                        Ok(d) => Ok(Instruction::NewPerpOrder(d)),
                        Err(e) => Err(e),
                    }
                }
            } else if data[0] == 25 {
                if accounts_len < DividendsAllocationInstruction::spec_min_accounts() {
                    Err(DeriverseErrorKind::InvalidAccountsAmount {
                        expected: DividendsAllocationInstruction::spec_min_accounts() as u32,
                        actual: accounts_len as u32,
                    })
                } else {
                    Ok(Instruction::DividendsAllocation)
                }
            } else if data[0] == 26 {
                if accounts_len < SwapInstruction::spec_min_accounts() {
                    Err(DeriverseErrorKind::InvalidAccountsAmount {
                        expected: SwapInstruction::spec_min_accounts() as u32,
                        actual: accounts_len as u32,
                    })
                } else {
                    match SwapData::spec_new(data, instr_count) {
                        Ok(d) => Ok(Instruction::Swap(d)),
                        Err(e) => Err(e),
                    }
                }
            } else if data[0] == 27 {
                if accounts_len < AirdropInstruction::spec_min_accounts() {
                    Err(DeriverseErrorKind::InvalidAccountsAmount {
                        expected: AirdropInstruction::spec_min_accounts() as u32,
                        actual: accounts_len as u32,
                    })
                } else {
                    match AirdropData::spec_new(data) {
                        Ok(d) => Ok(Instruction::Airdrop(d)),
                        Err(e) => Err(e),
                    }
                }
            } else if data[0] == 28 {
                if accounts_len < DividendsClaimInstruction::spec_min_accounts() {
                    Err(DeriverseErrorKind::InvalidAccountsAmount {
                        expected: DividendsClaimInstruction::spec_min_accounts() as u32,
                        actual: accounts_len as u32,
                    })
                } else {
                    Ok(Instruction::DividendsClaim)
                }
            } else if data[0] == 30 {
                if accounts_len < PerpOrderCancelInstruction::spec_min_accounts() {
                    Err(DeriverseErrorKind::InvalidAccountsAmount {
                        expected: PerpOrderCancelInstruction::spec_min_accounts() as u32,
                        actual: accounts_len as u32,
                    })
                } else {
                    match PerpOrderCancelData::spec_new(data, instr_count) {
                        Ok(d) => Ok(Instruction::PerpOrderCancel(d)),
                        Err(e) => Err(e),
                    }
                }
            } else if data[0] == 32 {
                if accounts_len < VotingInstruction::spec_min_accounts() {
                    Err(DeriverseErrorKind::InvalidAccountsAmount {
                        expected: VotingInstruction::spec_min_accounts() as u32,
                        actual: accounts_len as u32,
                    })
                } else {
                    match VotingData::spec_new(data) {
                        Ok(d) => Ok(Instruction::Voting(d)),
                        Err(e) => Err(e),
                    }
                }
            } else if data[0] == 34 {
                if accounts_len < SpotQuotesReplaceInstruction::spec_min_accounts() {
                    Err(DeriverseErrorKind::InvalidAccountsAmount {
                        expected: SpotQuotesReplaceInstruction::spec_min_accounts() as u32,
                        actual: accounts_len as u32,
                    })
                } else {
                    match SpotQuotesReplaceData::spec_new(data, instr_count) {
                        Ok(d) => Ok(Instruction::SpotQuotesReplace(d)),
                        Err(e) => Err(e),
                    }
                }
            } else if data[0] == 36 {
                if accounts_len < PerpMassCancelInstruction::spec_min_accounts() {
                    Err(DeriverseErrorKind::InvalidAccountsAmount {
                        expected: PerpMassCancelInstruction::spec_min_accounts() as u32,
                        actual: accounts_len as u32,
                    })
                } else {
                    match PerpMassCancelData::spec_new(data, instr_count) {
                        Ok(d) => Ok(Instruction::PerpMassCancel(d)),
                        Err(e) => Err(e),
                    }
                }
            } else if data[0] == 37 {
                if accounts_len < PerpChangeLeverageInstruction::spec_min_accounts() {
                    Err(DeriverseErrorKind::InvalidAccountsAmount {
                        expected: PerpChangeLeverageInstruction::spec_min_accounts() as u32,
                        actual: accounts_len as u32,
                    })
                } else {
                    match PerpChangeLeverageData::spec_new(data, instr_count) {
                        Ok(d) => Ok(Instruction::PerpChangeLeverage(d)),
                        Err(e) => Err(e),
                    }
                }
            } else if data[0] == 38 {
                Ok(Instruction::PerpForcedClose)
            } else if data[0] == 39 {
                if accounts_len < FeesWithdrawInstruction::spec_min_accounts() {
                    Err(DeriverseErrorKind::InvalidAccountsAmount {
                        expected: FeesWithdrawInstruction::spec_min_accounts() as u32,
                        actual: accounts_len as u32,
                    })
                } else {
                    match FeesWithdrawData::spec_new(data, tokens_count) {
                        Ok(d) => Ok(Instruction::FeesWithdraw(d)),
                        Err(e) => Err(e),
                    }
                }
            } else if data[0] == 40 {
                Ok(Instruction::SetInstrOracleFeed)
            } else if data[0] == 41 {
                if accounts_len < SetInstrReadyForPerpUpgradeInstruction::spec_min_accounts() {
                    Err(DeriverseErrorKind::InvalidAccountsAmount {
                        expected: SetInstrReadyForPerpUpgradeInstruction::spec_min_accounts() as u32,
                        actual: accounts_len as u32,
                    })
                } else {
                    match SetInstrReadyForPerpUpgradeData::spec_new(data, instr_count) {
                        Ok(d) => Ok(Instruction::SetInstrReadyForPerpUpgrade(d)),
                        Err(e) => Err(e),
                    }
                }
            } else if data[0] == 42 {
                if accounts_len < PerpQuotesReplaceInstruction::spec_min_accounts() {
                    Err(DeriverseErrorKind::InvalidAccountsAmount {
                        expected: PerpQuotesReplaceInstruction::spec_min_accounts() as u32,
                        actual: accounts_len as u32,
                    })
                } else {
                    match PerpQuotesReplaceData::spec_new(data, instr_count) {
                        Ok(d) => Ok(Instruction::PerpQuotesReplace(d)),
                        Err(e) => Err(e),
                    }
                }
            } else if data[0] == 43 {
                if accounts_len < MoveSpotAvailFundsInstruction::spec_min_accounts() {
                    Err(DeriverseErrorKind::InvalidAccountsAmount {
                        expected: MoveSpotAvailFundsInstruction::spec_min_accounts() as u32,
                        actual: accounts_len as u32,
                    })
                } else {
                    match MoveSpotAvailFundsData::spec_new(data, instr_count) {
                        Ok(d) => Ok(Instruction::MoveSpotAvailFunds(d)),
                        Err(e) => Err(e),
                    }
                }
            } else if data[0] == 44 {
                if accounts_len < ChangeRefProgramInstruction::spec_min_accounts() {
                    Err(DeriverseErrorKind::InvalidAccountsAmount {
                        expected: ChangeRefProgramInstruction::spec_min_accounts() as u32,
                        actual: accounts_len as u32,
                    })
                } else {
                    match ChangeRefProgramData::spec_new(data) {
                        Ok(d) => Ok(Instruction::ChangeRefProgram(d)),
                        Err(e) => Err(e),
                    }
                }
            } else if data[0] == 45 {
                if accounts_len < NewRefLinkInstruction::spec_min_accounts() {
                    Err(DeriverseErrorKind::InvalidAccountsAmount {
                        expected: NewRefLinkInstruction::spec_min_accounts() as u32,
                        actual: accounts_len as u32,
                    })
                } else {
                    Ok(Instruction::NewRefLink)
                }
            } else if data[0] == 46 {
                if accounts_len < PerpStatisticsResetInstruction::spec_min_accounts() {
                    Err(DeriverseErrorKind::InvalidAccountsAmount {
                        expected: PerpStatisticsResetInstruction::spec_min_accounts() as u32,
                        actual: accounts_len as u32,
                    })
                } else {
                    match PerpStatisticsResetData::spec_new(data, instr_count) {
                        Ok(d) => Ok(Instruction::PerpStatisticsReset(d)),
                        Err(e) => Err(e),
                    }
                }
            } else if data[0] == 47 {
                if accounts_len < BuyMarketSeatInstruction::spec_min_accounts() {
                    Err(DeriverseErrorKind::InvalidAccountsAmount {
                        expected: BuyMarketSeatInstruction::spec_min_accounts() as u32,
                        actual: accounts_len as u32,
                    })
                } else {
                    match BuyMarketSeatData::spec_new(data, instr_count) {
                        Ok(d) => Ok(Instruction::BuyMarketSeat(d)),
                        Err(e) => Err(e),
                    }
                }
            } else if data[0] == 48 {
                if accounts_len < SellMarketSeatInstruction::spec_min_accounts() {
                    Err(DeriverseErrorKind::InvalidAccountsAmount {
                        expected: SellMarketSeatInstruction::spec_min_accounts() as u32,
                        actual: accounts_len as u32,
                    })
                } else {
                    match SellMarketSeatData::spec_new(data, instr_count) {
                        Ok(d) => Ok(Instruction::SellMarketSeat(d)),
                        Err(e) => Err(e),
                    }
                }
            } else if data[0] == 49 {
                if accounts_len < NewPrivateClientInstruction::spec_min_accounts() {
                    Err(DeriverseErrorKind::InvalidAccountsAmount {
                        expected: NewPrivateClientInstruction::spec_min_accounts() as u32,
                        actual: accounts_len as u32,
                    })
                } else {
                    match NewPrivateClient::spec_new(data) {
                        Ok(d) => Ok(Instruction::NewPrivateClientRequest(d)),
                        Err(e) => Err(e),
                    }
                }
            } else if data[0] == 50 {
                if accounts_len < TerminatePrivateModeInstruction::spec_min_accounts() {
                    Err(DeriverseErrorKind::InvalidAccountsAmount {
                        expected: TerminatePrivateModeInstruction::spec_min_accounts() as u32,
                        actual: accounts_len as u32,
                    })
                } else {
                    Ok(Instruction::TerminatePrivateMode)
                }
            } else if data[0] == 51 {
                if accounts_len < ChangePointsProgramExpirationInstruction::spec_min_accounts() {
                    Err(DeriverseErrorKind::InvalidAccountsAmount {
                        expected: ChangePointsProgramExpirationInstruction::spec_min_accounts() as u32,
                        actual: accounts_len as u32,
                    })
                } else {
                    match PointsProgramExpiration::spec_new(data) {
                        Ok(d) => Ok(Instruction::ChangePointsProgramExpiration(d)),
                        Err(e) => Err(e),
                    }
                }
            } else {
                Ok(Instruction::Unknown { opcode: data[0] })
            }
        }
    }

    /// Parses and validates one instruction: the opcode from byte 0, the
    /// account-count guard from the registry, then the payload codec of
    /// the selected instruction.  `tokens_count` and `instr_count` are the
    /// counters of the root account, against which token and instrument
    /// references are checked.
    pub fn dispatch(
        data: &[u8],
        accounts_len: usize,
        tokens_count: u32,
        instr_count: u32,
    ) -> (r: Result<Instruction, DeriverseErrorKind>)
        ensures
            r == Self::spec_dispatch(data@, accounts_len, tokens_count, instr_count),
    {
        if data.len() == 0 {
            return Err(DeriverseErrorKind::InvalidDataLength { expected: 1, actual: 0 });
        }
        let opcode = data[0];
        match opcode {
            0 => {
                let min = NewHolderInstruction::min_accounts();
                if accounts_len < min {
                    return Err(DeriverseErrorKind::InvalidAccountsAmount {
                        expected: min as u32,
                        actual: accounts_len as u32,
                    });
                }
                Ok(Instruction::NewHolder)
            },
            1 => {
                let min = NewOperatorInstruction::min_accounts();
                if accounts_len < min {
                    return Err(DeriverseErrorKind::InvalidAccountsAmount {
                        expected: min as u32,
                        actual: accounts_len as u32,
                    });
                }
                match NewOperatorData::new(data) {
                    Ok(d) => Ok(Instruction::NewOperator(d)),
                    Err(e) => Err(e),
                }
            },
            2 => {
                let min = NewRootAccountInstruction::min_accounts();
                if accounts_len < min {
                    return Err(DeriverseErrorKind::InvalidAccountsAmount {
                        expected: min as u32,
                        actual: accounts_len as u32,
                    });
                }
                match NewRootAccountData::new(data) {
                    Ok(d) => Ok(Instruction::NewRootAccount(d)),
                    Err(e) => Err(e),
                }
            },
            3 => {
                let min = PerpWithdrawInstruction::min_accounts();
                if accounts_len < min {
                    return Err(DeriverseErrorKind::InvalidAccountsAmount {
                        expected: min as u32,
                        actual: accounts_len as u32,
                    });
                }
                match PerpWithdrawData::new(data, instr_count) {
                    Ok(d) => Ok(Instruction::PerpWithdraw(d)),
                    Err(e) => Err(e),
                }
            },
            4 => {
                let min = NewBaseCrncyInstruction::min_accounts();
                if accounts_len < min {
                    return Err(DeriverseErrorKind::InvalidAccountsAmount {
                        expected: min as u32,
                        actual: accounts_len as u32,
                    });
                }
                match NewBaseCrncyData::new(data) {
                    Ok(d) => Ok(Instruction::NewBaseCrncy(d)),
                    Err(e) => Err(e),
                }
            },
            5 => {
                let min = FeesDepositInstruction::min_accounts();
                if accounts_len < min {
                    return Err(DeriverseErrorKind::InvalidAccountsAmount {
                        expected: min as u32,
                        actual: accounts_len as u32,
                    });
                }
                match FeesDepositData::new(data, tokens_count) {
                    Ok(d) => Ok(Instruction::FeesDeposit(d)),
                    Err(e) => Err(e),
                }
            },
            7 => {
                let min = DepositInstruction::min_accounts();
                if accounts_len < min {
                    return Err(DeriverseErrorKind::InvalidAccountsAmount {
                        expected: min as u32,
                        actual: accounts_len as u32,
                    });
                }
                match DepositData::new(data, tokens_count) {
                    Ok(d) => Ok(Instruction::Deposit(d)),
                    Err(e) => Err(e),
                }
            },
            8 => {
                let min = WithdrawInstruction::min_accounts();
                if accounts_len < min {
                    return Err(DeriverseErrorKind::InvalidAccountsAmount {
                        expected: min as u32,
                        actual: accounts_len as u32,
                    });
                }
                match WithdrawData::new(data, tokens_count) {
                    Ok(d) => Ok(Instruction::Withdraw(d)),
                    Err(e) => Err(e),
                }
            },
            9 => {
                let min = NewInstrumentInstruction::min_accounts();
                if accounts_len < min {
                    return Err(DeriverseErrorKind::InvalidAccountsAmount {
                        expected: min as u32,
                        actual: accounts_len as u32,
                    });
                }
                match NewInstrumentData::new(data, tokens_count) {
                    Ok(d) => Ok(Instruction::NewInstrument(d)),
                    Err(e) => Err(e),
                }
            },
            10 => {
                let min = UpgradeToPerpInstruction::min_accounts();
                if accounts_len < min {
                    return Err(DeriverseErrorKind::InvalidAccountsAmount {
                        expected: min as u32,
                        actual: accounts_len as u32,
                    });
                }
                match UpgradeToPerpData::new(data, instr_count) {
                    Ok(d) => Ok(Instruction::UpgradeToPerp(d)),
                    Err(e) => Err(e),
                }
            },
            11 => {
                let min = PerpDepositInstruction::min_accounts();
                if accounts_len < min {
                    return Err(DeriverseErrorKind::InvalidAccountsAmount {
                        expected: min as u32,
                        actual: accounts_len as u32,
                    });
                }
                match PerpDepositData::new(data, instr_count) {
                    Ok(d) => Ok(Instruction::PerpDeposit(d)),
                    Err(e) => Err(e),
                }
            },
            12 => {
                let min = NewSpotOrderInstruction::min_accounts();
                if accounts_len < min {
                    return Err(DeriverseErrorKind::InvalidAccountsAmount {
                        expected: min as u32,
                        actual: accounts_len as u32,
                    });
                }
                match NewSpotOrderData::new(data, instr_count) {
                    Ok(d) => Ok(Instruction::NewSpotOrder(d)),
                    Err(e) => Err(e),
                }
            },
            13 => {
                let min = SpotOrderCancelInstruction::min_accounts();
                if accounts_len < min {
                    return Err(DeriverseErrorKind::InvalidAccountsAmount {
                        expected: min as u32,
                        actual: accounts_len as u32,
                    });
                }
                match SpotOrderCancelData::new(data, instr_count) {
                    Ok(d) => Ok(Instruction::SpotOrderCancel(d)),
                    Err(e) => Err(e),
                }
            },
            14 => {
                let min = SpotLpInstruction::min_accounts();
                if accounts_len < min {
                    return Err(DeriverseErrorKind::InvalidAccountsAmount {
                        expected: min as u32,
                        actual: accounts_len as u32,
                    });
                }
                match SpotLpData::new(data, instr_count) {
                    Ok(d) => Ok(Instruction::SpotLp(d)),
                    Err(e) => Err(e),
                }
            },
            15 => {
                let min = SpotMassCancelInstruction::min_accounts();
                if accounts_len < min {
                    return Err(DeriverseErrorKind::InvalidAccountsAmount {
                        expected: min as u32,
                        actual: accounts_len as u32,
                    });
                }
                match SpotMassCancelData::new(data, instr_count) {
                    Ok(d) => Ok(Instruction::SpotMassCancel(d)),
                    Err(e) => Err(e),
                }
            },
            16 => {
                let min = NextVotingInstruction::min_accounts();
                if accounts_len < min {
                    return Err(DeriverseErrorKind::InvalidAccountsAmount {
                        expected: min as u32,
                        actual: accounts_len as u32,
                    });
                }
                Ok(Instruction::NextVoting)
            },
            19 => {
                let min = NewPerpOrderInstruction::min_accounts();
                if accounts_len < min {
                    return Err(DeriverseErrorKind::InvalidAccountsAmount {
                        expected: min as u32,
                        actual: accounts_len as u32,
                    });
                }
                match NewPerpOrderData::new(data, instr_count) {
                    Ok(d) => Ok(Instruction::NewPerpOrder(d)),
                    Err(e) => Err(e),
                }
            },
            25 => {
                let min = DividendsAllocationInstruction::min_accounts();
                if accounts_len < min {
                    return Err(DeriverseErrorKind::InvalidAccountsAmount {
                        expected: min as u32,
                        actual: accounts_len as u32,
                    });
                }
                Ok(Instruction::DividendsAllocation)
            },
            26 => {
                let min = SwapInstruction::min_accounts();
                if accounts_len < min {
                    return Err(DeriverseErrorKind::InvalidAccountsAmount {
                        expected: min as u32,
                        actual: accounts_len as u32,
                    });
                }
                match SwapData::new(data, instr_count) {
                    Ok(d) => Ok(Instruction::Swap(d)),
                    Err(e) => Err(e),
                }
            },
            27 => {
                let min = AirdropInstruction::min_accounts();
                if accounts_len < min {
                    return Err(DeriverseErrorKind::InvalidAccountsAmount {
                        expected: min as u32,
                        actual: accounts_len as u32,
                    });
                }
                match AirdropData::new(data) {
                    Ok(d) => Ok(Instruction::Airdrop(d)),
                    Err(e) => Err(e),
                }
            },
            28 => {
                let min = DividendsClaimInstruction::min_accounts();
                if accounts_len < min {
                    return Err(DeriverseErrorKind::InvalidAccountsAmount {
                        expected: min as u32,
                        actual: accounts_len as u32,
                    });
                }
                Ok(Instruction::DividendsClaim)
            },
            30 => {
                let min = PerpOrderCancelInstruction::min_accounts();
                if accounts_len < min {
                    return Err(DeriverseErrorKind::InvalidAccountsAmount {
                        expected: min as u32,
                        actual: accounts_len as u32,
                    });
                }
                match PerpOrderCancelData::new(data, instr_count) {
                    Ok(d) => Ok(Instruction::PerpOrderCancel(d)),
                    Err(e) => Err(e),
                }
            },
            32 => {
                let min = VotingInstruction::min_accounts();
                if accounts_len < min {
                    return Err(DeriverseErrorKind::InvalidAccountsAmount {
                        expected: min as u32,
                        actual: accounts_len as u32,
                    });
                }
                match VotingData::new(data) {
                    Ok(d) => Ok(Instruction::Voting(d)),
                    Err(e) => Err(e),
                }
            },
            34 => {
                let min = SpotQuotesReplaceInstruction::min_accounts();
                if accounts_len < min {
                    return Err(DeriverseErrorKind::InvalidAccountsAmount {
                        expected: min as u32,
                        actual: accounts_len as u32,
                    });
                }
                match SpotQuotesReplaceData::new(data, instr_count) {
                    Ok(d) => Ok(Instruction::SpotQuotesReplace(d)),
                    Err(e) => Err(e),
                }
            },
            36 => {
                let min = PerpMassCancelInstruction::min_accounts();
                if accounts_len < min {
                    return Err(DeriverseErrorKind::InvalidAccountsAmount {
                        expected: min as u32,
                        actual: accounts_len as u32,
                    });
                }
                match PerpMassCancelData::new(data, instr_count) {
                    Ok(d) => Ok(Instruction::PerpMassCancel(d)),
                    Err(e) => Err(e),
                }
            },
            37 => {
                let min = PerpChangeLeverageInstruction::min_accounts();
                if accounts_len < min {
                    return Err(DeriverseErrorKind::InvalidAccountsAmount {
                        expected: min as u32,
                        actual: accounts_len as u32,
                    });
                }
                match PerpChangeLeverageData::new(data, instr_count) {
                    Ok(d) => Ok(Instruction::PerpChangeLeverage(d)),
                    Err(e) => Err(e),
                }
            },
            38 => {
                Ok(Instruction::PerpForcedClose)
            },
            39 => {
                let min = FeesWithdrawInstruction::min_accounts();
                if accounts_len < min {
                    return Err(DeriverseErrorKind::InvalidAccountsAmount {
                        expected: min as u32,
                        actual: accounts_len as u32,
                    });
                }
                match FeesWithdrawData::new(data, tokens_count) {
                    Ok(d) => Ok(Instruction::FeesWithdraw(d)),
                    Err(e) => Err(e),
                }
            },
            40 => {
                Ok(Instruction::SetInstrOracleFeed)
            },
            41 => {
                let min = SetInstrReadyForPerpUpgradeInstruction::min_accounts();
                if accounts_len < min {
                    return Err(DeriverseErrorKind::InvalidAccountsAmount {
                        expected: min as u32,
                        actual: accounts_len as u32,
                    });
                }
                match SetInstrReadyForPerpUpgradeData::new(data, instr_count) {
                    Ok(d) => Ok(Instruction::SetInstrReadyForPerpUpgrade(d)),
                    Err(e) => Err(e),
                }
            },
            42 => {
                let min = PerpQuotesReplaceInstruction::min_accounts();
                if accounts_len < min {
                    return Err(DeriverseErrorKind::InvalidAccountsAmount {
                        expected: min as u32,
                        actual: accounts_len as u32,
                    });
                }
                match PerpQuotesReplaceData::new(data, instr_count) {
                    Ok(d) => Ok(Instruction::PerpQuotesReplace(d)),
                    Err(e) => Err(e),
                }
            },
            43 => {
                let min = MoveSpotAvailFundsInstruction::min_accounts();
                if accounts_len < min {
                    return Err(DeriverseErrorKind::InvalidAccountsAmount {
                        expected: min as u32,
                        actual: accounts_len as u32,
                    });
                }
                match MoveSpotAvailFundsData::new(data, instr_count) {
                    Ok(d) => Ok(Instruction::MoveSpotAvailFunds(d)),
                    Err(e) => Err(e),
                }
            },
            44 => {
                let min = ChangeRefProgramInstruction::min_accounts();
                if accounts_len < min {
                    return Err(DeriverseErrorKind::InvalidAccountsAmount {
                        expected: min as u32,
                        actual: accounts_len as u32,
                    });
                }
                match ChangeRefProgramData::new(data) {
                    Ok(d) => Ok(Instruction::ChangeRefProgram(d)),
                    Err(e) => Err(e),
                }
            },
            45 => {
                let min = NewRefLinkInstruction::min_accounts();
                if accounts_len < min {
                    return Err(DeriverseErrorKind::InvalidAccountsAmount {
                        expected: min as u32,
                        actual: accounts_len as u32,
                    });
                }
                Ok(Instruction::NewRefLink)
            },
            46 => {
                let min = PerpStatisticsResetInstruction::min_accounts();
                if accounts_len < min {
                    return Err(DeriverseErrorKind::InvalidAccountsAmount {
                        expected: min as u32,
                        actual: accounts_len as u32,
                    });
                }
                match PerpStatisticsResetData::new(data, instr_count) {
                    Ok(d) => Ok(Instruction::PerpStatisticsReset(d)),
                    Err(e) => Err(e),
                }
            },
            47 => {
                let min = BuyMarketSeatInstruction::min_accounts();
                if accounts_len < min {
                    return Err(DeriverseErrorKind::InvalidAccountsAmount {
                        expected: min as u32,
                        actual: accounts_len as u32,
                    });
                }
                match BuyMarketSeatData::new(data, instr_count) {
                    Ok(d) => Ok(Instruction::BuyMarketSeat(d)),
                    Err(e) => Err(e),
                }
            },
            48 => {
                let min = SellMarketSeatInstruction::min_accounts();
                if accounts_len < min {
                    return Err(DeriverseErrorKind::InvalidAccountsAmount {
                        expected: min as u32,
                        actual: accounts_len as u32,
                    });
                }
                match SellMarketSeatData::new(data, instr_count) {
                    Ok(d) => Ok(Instruction::SellMarketSeat(d)),
                    Err(e) => Err(e),
                }
            },
            49 => {
                let min = NewPrivateClientInstruction::min_accounts();
                if accounts_len < min {
                    return Err(DeriverseErrorKind::InvalidAccountsAmount {
                        expected: min as u32,
                        actual: accounts_len as u32,
                    });
                }
                match NewPrivateClient::new(data) {
                    Ok(d) => Ok(Instruction::NewPrivateClientRequest(d)),
                    Err(e) => Err(e),
                }
            },
            50 => {
                let min = TerminatePrivateModeInstruction::min_accounts();
                if accounts_len < min {
                    return Err(DeriverseErrorKind::InvalidAccountsAmount {
                        expected: min as u32,
                        actual: accounts_len as u32,
                    });
                }
                Ok(Instruction::TerminatePrivateMode)
            },
            51 => {
                let min = ChangePointsProgramExpirationInstruction::min_accounts();
                if accounts_len < min {
                    return Err(DeriverseErrorKind::InvalidAccountsAmount {
                        expected: min as u32,
                        actual: accounts_len as u32,
                    });
                }
                match PointsProgramExpiration::new(data) {
                    Ok(d) => Ok(Instruction::ChangePointsProgramExpiration(d)),
                    Err(e) => Err(e),
                }
            },
            _ => Ok(Instruction::Unknown { opcode }),
        }
    }
}


/// The account-count guard precedes payload parsing: a transaction whose
/// account list is shorter than the instruction's registry entry is rejected
/// with `InvalidAccountsAmount`, whatever its payload bytes hold beyond the
/// opcode.
pub proof fn lemma_account_guard_precedes_parsing(
    data: Seq<u8>,
    accounts_len: usize,
    tokens_count: u32,
    instr_count: u32,
)
    requires
        data.len() > 0,
        data[0] == 12,
        accounts_len < NewSpotOrderInstruction::spec_min_accounts(),
    ensures
        Instruction::spec_dispatch(data, accounts_len, tokens_count, instr_count) == Err::<
            Instruction,
            DeriverseErrorKind,
        >(
            DeriverseErrorKind::InvalidAccountsAmount {
                expected: NewSpotOrderInstruction::spec_min_accounts() as u32,
                actual: accounts_len as u32,
            },
        ),
{
}

} // verus!
