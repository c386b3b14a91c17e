//! Instruction metadata registry: a zero-sized marker type per opcode that
//! publishes the opcode number and the minimum length of the transaction
//! account list.  The dispatcher rejects a transaction whose account list
//! is shorter than the instruction requires before it parses any payload.

use vstd::prelude::*;

verus! {

/// The compile-time registry entry of one instruction.
pub trait DrvInstruction {
    /// The opcode, byte 0 of the instruction data.
    spec fn spec_instruction_number() -> u8;

    /// The least number of accounts the instruction accepts.
    spec fn spec_min_accounts() -> usize;

    fn instruction_number() -> (r: u8)
        ensures
            r == Self::spec_instruction_number(),
    ;

    fn min_accounts() -> (r: usize)
        ensures
            r == Self::spec_min_accounts(),
    ;
}

pub struct NewHolderInstruction;

impl DrvInstruction for NewHolderInstruction {
    open spec fn spec_instruction_number() -> u8 {
        0
    }

    open spec fn spec_min_accounts() -> usize {
        3
    }

    fn instruction_number() -> (r: u8) {
        0
    }

    fn min_accounts() -> (r: usize) {
        3
    }
}

pub struct NewOperatorInstruction;

impl DrvInstruction for NewOperatorInstruction {
    open spec fn spec_instruction_number() -> u8 {
        1
    }

    open spec fn spec_min_accounts() -> usize {
        4
    }

    fn instruction_number() -> (r: u8) {
        1
    }

    fn min_accounts() -> (r: usize) {
        4
    }
}

pub struct NewRootAccountInstruction;

impl DrvInstruction for NewRootAccountInstruction {
    open spec fn spec_instruction_number() -> u8 {
        2
    }

    open spec fn spec_min_accounts() -> usize {
        12
    }

    fn instruction_number() -> (r: u8) {
        2
    }

    fn min_accounts() -> (r: usize) {
        12
    }
}

pub struct PerpWithdrawInstruction;

impl DrvInstruction for PerpWithdrawInstruction {
    open spec fn spec_instruction_number() -> u8 {
        3
    }

    open spec fn spec_min_accounts() -> usize {
        20
    }

    fn instruction_number() -> (r: u8) {
        3
    }

    fn min_accounts() -> (r: usize) {
        20
    }
}

pub struct NewBaseCrncyInstruction;

impl DrvInstruction for NewBaseCrncyInstruction {
    open spec fn spec_instruction_number() -> u8 {
        4
    }

    open spec fn spec_min_accounts() -> usize {
        9
    }

    fn instruction_number() -> (r: u8) {
        4
    }

    fn min_accounts() -> (r: usize) {
        9
    }
}

pub struct FeesDepositInstruction;

impl DrvInstruction for FeesDepositInstruction {
    open spec fn spec_instruction_number() -> u8 {
        5
    }

    open spec fn spec_min_accounts() -> usize {
        6
    }

    fn instruction_number() -> (r: u8) {
        5
    }

    fn min_accounts() -> (r: usize) {
        6
    }
}

pub struct DepositInstruction;

impl DrvInstruction for DepositInstruction {
    open spec fn spec_instruction_number() -> u8 {
        7
    }

    open spec fn spec_min_accounts() -> usize {
        9
    }

    fn instruction_number() -> (r: u8) {
        7
    }

    fn min_accounts() -> (r: usize) {
        9
    }
}

pub struct WithdrawInstruction;

impl DrvInstruction for WithdrawInstruction {
    open spec fn spec_instruction_number() -> u8 {
        8
    }

    open spec fn spec_min_accounts() -> usize {
        11
    }

    fn instruction_number() -> (r: u8) {
        8
    }

    fn min_accounts() -> (r: usize) {
        11
    }
}

pub struct NewInstrumentInstruction;

impl DrvInstruction for NewInstrumentInstruction {
    open spec fn spec_instruction_number() -> u8 {
        9
    }

    open spec fn spec_min_accounts() -> usize {
        23
    }

    fn instruction_number() -> (r: u8) {
        9
    }

    fn min_accounts() -> (r: usize) {
        23
    }
}

pub struct UpgradeToPerpInstruction;

impl DrvInstruction for UpgradeToPerpInstruction {
    open spec fn spec_instruction_number() -> u8 {
        10
    }

    open spec fn spec_min_accounts() -> usize {
        21
    }

    fn instruction_number() -> (r: u8) {
        10
    }

    fn min_accounts() -> (r: usize) {
        21
    }
}

pub struct PerpDepositInstruction;

impl DrvInstruction for PerpDepositInstruction {
    open spec fn spec_instruction_number() -> u8 {
        11
    }

    open spec fn spec_min_accounts() -> usize {
        19
    }

    fn instruction_number() -> (r: u8) {
        11
    }

    fn min_accounts() -> (r: usize) {
        19
    }
}

pub struct NewSpotOrderInstruction;

impl DrvInstruction for NewSpotOrderInstruction {
    open spec fn spec_instruction_number() -> u8 {
        12
    }

    open spec fn spec_min_accounts() -> usize {
        18
    }

    fn instruction_number() -> (r: u8) {
        12
    }

    fn min_accounts() -> (r: usize) {
        18
    }
}

pub struct SpotOrderCancelInstruction;

impl DrvInstruction for SpotOrderCancelInstruction {
    open spec fn spec_instruction_number() -> u8 {
        13
    }

    open spec fn spec_min_accounts() -> usize {
        14
    }

    fn instruction_number() -> (r: u8) {
        13
    }

    fn min_accounts() -> (r: usize) {
        14
    }
}

pub struct SpotLpInstruction;

impl DrvInstruction for SpotLpInstruction {
    open spec fn spec_instruction_number() -> u8 {
        14
    }

    open spec fn spec_min_accounts() -> usize {
        5
    }

    fn instruction_number() -> (r: u8) {
        14
    }

    fn min_accounts() -> (r: usize) {
        5
    }
}

pub struct SpotMassCancelInstruction;

impl DrvInstruction for SpotMassCancelInstruction {
    open spec fn spec_instruction_number() -> u8 {
        15
    }

    open spec fn spec_min_accounts() -> usize {
        14
    }

    fn instruction_number() -> (r: u8) {
        15
    }

    fn min_accounts() -> (r: usize) {
        14
    }
}

pub struct NextVotingInstruction;

impl DrvInstruction for NextVotingInstruction {
    open spec fn spec_instruction_number() -> u8 {
        16
    }

    open spec fn spec_min_accounts() -> usize {
        3
    }

    fn instruction_number() -> (r: u8) {
        16
    }

    fn min_accounts() -> (r: usize) {
        3
    }
}

pub struct NewPerpOrderInstruction;

impl DrvInstruction for NewPerpOrderInstruction {
    open spec fn spec_instruction_number() -> u8 {
        19
    }

    open spec fn spec_min_accounts() -> usize {
        21
    }

    fn instruction_number() -> (r: u8) {
        19
    }

    fn min_accounts() -> (r: usize) {
        21
    }
}

pub struct DividendsAllocationInstruction;

impl DrvInstruction for DividendsAllocationInstruction {
    open spec fn spec_instruction_number() -> u8 {
        25
    }

    open spec fn spec_min_accounts() -> usize {
        4
    }

    fn instruction_number() -> (r: u8) {
        25
    }

    fn min_accounts() -> (r: usize) {
        4
    }
}

pub struct SwapInstruction;

impl DrvInstruction for SwapInstruction {
    open spec fn spec_instruction_number() -> u8 {
        26
    }

    open spec fn spec_min_accounts() -> usize {
        28
    }

    fn instruction_number() -> (r: u8) {
        26
    }

    fn min_accounts() -> (r: usize) {
        28
    }
}

pub struct AirdropInstruction;

impl DrvInstruction for AirdropInstruction {
    open spec fn spec_instruction_number() -> u8 {
        27
    }

    open spec fn spec_min_accounts() -> usize {
        12
    }

    fn instruction_number() -> (r: u8) {
        27
    }

    fn min_accounts() -> (r: usize) {
        12
    }
}

pub struct DividendsClaimInstruction;

impl DrvInstruction for DividendsClaimInstruction {
    open spec fn spec_instruction_number() -> u8 {
        28
    }

    open spec fn spec_min_accounts() -> usize {
        6
    }

    fn instruction_number() -> (r: u8) {
        28
    }

    fn min_accounts() -> (r: usize) {
        6
    }
}

pub struct PerpOrderCancelInstruction;

impl DrvInstruction for PerpOrderCancelInstruction {
    open spec fn spec_instruction_number() -> u8 {
        30
    }

    open spec fn spec_min_accounts() -> usize {
        20
    }

    fn instruction_number() -> (r: u8) {
        30
    }

    fn min_accounts() -> (r: usize) {
        20
    }
}

pub struct VotingInstruction;

impl DrvInstruction for VotingInstruction {
    open spec fn spec_instruction_number() -> u8 {
        32
    }

    open spec fn spec_min_accounts() -> usize {
        6
    }

    fn instruction_number() -> (r: u8) {
        32
    }

    fn min_accounts() -> (r: usize) {
        6
    }
}

pub struct SpotQuotesReplaceInstruction;

impl DrvInstruction for SpotQuotesReplaceInstruction {
    open spec fn spec_instruction_number() -> u8 {
        34
    }

    open spec fn spec_min_accounts() -> usize {
        18
    }

    fn instruction_number() -> (r: u8) {
        34
    }

    fn min_accounts() -> (r: usize) {
        18
    }
}

pub struct PerpMassCancelInstruction;

impl DrvInstruction for PerpMassCancelInstruction {
    open spec fn spec_instruction_number() -> u8 {
        36
    }

    open spec fn spec_min_accounts() -> usize {
        20
    }

    fn instruction_number() -> (r: u8) {
        36
    }

    fn min_accounts() -> (r: usize) {
        20
    }
}

pub struct PerpChangeLeverageInstruction;

impl DrvInstruction for PerpChangeLeverageInstruction {
    open spec fn spec_instruction_number() -> u8 {
        37
    }

    open spec fn spec_min_accounts() -> usize {
        20
    }

    fn instruction_number() -> (r: u8) {
        37
    }

    fn min_accounts() -> (r: usize) {
        20
    }
}

pub struct FeesWithdrawInstruction;

impl DrvInstruction for FeesWithdrawInstruction {
    open spec fn spec_instruction_number() -> u8 {
        39
    }

    open spec fn spec_min_accounts() -> usize {
        6
    }

    fn instruction_number() -> (r: u8) {
        39
    }

    fn min_accounts() -> (r: usize) {
        6
    }
}

pub struct SetInstrReadyForPerpUpgradeInstruction;

impl DrvInstruction for SetInstrReadyForPerpUpgradeInstruction {
    open spec fn spec_instruction_number() -> u8 {
        41
    }

    open spec fn spec_min_accounts() -> usize {
        3
    }

    fn instruction_number() -> (r: u8) {
        41
    }

    fn min_accounts() -> (r: usize) {
        3
    }
}

pub struct PerpQuotesReplaceInstruction;

impl DrvInstruction for PerpQuotesReplaceInstruction {
    open spec fn spec_instruction_number() -> u8 {
        42
    }

    open spec fn spec_min_accounts() -> usize {
        21
    }

    fn instruction_number() -> (r: u8) {
        42
    }

    fn min_accounts() -> (r: usize) {
        21
    }
}

pub struct MoveSpotAvailFundsInstruction;

impl DrvInstruction for MoveSpotAvailFundsInstruction {
    open spec fn spec_instruction_number() -> u8 {
        43
    }

    open spec fn spec_min_accounts() -> usize {
        6
    }

    fn instruction_number() -> (r: u8) {
        43
    }

    fn min_accounts() -> (r: usize) {
        6
    }
}

pub struct ChangeRefProgramInstruction;

impl DrvInstruction for ChangeRefProgramInstruction {
    open spec fn spec_instruction_number() -> u8 {
        44
    }

    open spec fn spec_min_accounts() -> usize {
        2
    }

    fn instruction_number() -> (r: u8) {
        44
    }

    fn min_accounts() -> (r: usize) {
        2
    }
}

pub struct NewRefLinkInstruction;

impl DrvInstruction for NewRefLinkInstruction {
    open spec fn spec_instruction_number() -> u8 {
        45
    }

    open spec fn spec_min_accounts() -> usize {
        3
    }

    fn instruction_number() -> (r: u8) {
        45
    }

    fn min_accounts() -> (r: usize) {
        3
    }
}

pub struct PerpStatisticsResetInstruction;

impl DrvInstruction for PerpStatisticsResetInstruction {
    open spec fn spec_instruction_number() -> u8 {
        46
    }

    open spec fn spec_min_accounts() -> usize {
        20
    }

    fn instruction_number() -> (r: u8) {
        46
    }

    fn min_accounts() -> (r: usize) {
        20
    }
}

pub struct BuyMarketSeatInstruction;

impl DrvInstruction for BuyMarketSeatInstruction {
    open spec fn spec_instruction_number() -> u8 {
        47
    }

    open spec fn spec_min_accounts() -> usize {
        20
    }

    fn instruction_number() -> (r: u8) {
        47
    }

    fn min_accounts() -> (r: usize) {
        20
    }
}

pub struct SellMarketSeatInstruction;

impl DrvInstruction for SellMarketSeatInstruction {
    open spec fn spec_instruction_number() -> u8 {
        48
    }

    open spec fn spec_min_accounts() -> usize {
        20
    }

    fn instruction_number() -> (r: u8) {
        48
    }

    fn min_accounts() -> (r: usize) {
        20
    }
}

pub struct NewPrivateClientInstruction;

impl DrvInstruction for NewPrivateClientInstruction {
    open spec fn spec_instruction_number() -> u8 {
        49
    }

    open spec fn spec_min_accounts() -> usize {
        6
    }

    fn instruction_number() -> (r: u8) {
        49
    }

    fn min_accounts() -> (r: usize) {
        6
    }
}

pub struct TerminatePrivateModeInstruction;

impl DrvInstruction for TerminatePrivateModeInstruction {
    open spec fn spec_instruction_number() -> u8 {
        50
    }

    open spec fn spec_min_accounts() -> usize {
        3
    }

    fn instruction_number() -> (r: u8) {
        50
    }

    fn min_accounts() -> (r: usize) {
        3
    }
}

pub struct ChangePointsProgramExpirationInstruction;

impl DrvInstruction for ChangePointsProgramExpirationInstruction {
    open spec fn spec_instruction_number() -> u8 {
        51
    }

    open spec fn spec_min_accounts() -> usize {
        2
    }

    fn instruction_number() -> (r: u8) {
        51
    }

    fn min_accounts() -> (r: usize) {
        2
    }
}

pub struct ChangeAirdropAuthority;

impl DrvInstruction for ChangeAirdropAuthority {
    open spec fn spec_instruction_number() -> u8 {
        52
    }

    open spec fn spec_min_accounts() -> usize {
        3
    }

    fn instruction_number() -> (r: u8) {
        52
    }

    fn min_accounts() -> (r: usize) {
        3
    }
}

pub struct ChangePrivateModeAuthority;

impl DrvInstruction for ChangePrivateModeAuthority {
    open spec fn spec_instruction_number() -> u8 {
        53
    }

    open spec fn spec_min_accounts() -> usize {
        3
    }

    fn instruction_number() -> (r: u8) {
        53
    }

    fn min_accounts() -> (r: usize) {
        3
    }
}

pub struct SetVariance;

impl DrvInstruction for SetVariance {
    open spec fn spec_instruction_number() -> u8 {
        54
    }

    open spec fn spec_min_accounts() -> usize {
        3
    }

    fn instruction_number() -> (r: u8) {
        54
    }

    fn min_accounts() -> (r: usize) {
        3
    }
}

pub struct VotingReset;

impl DrvInstruction for VotingReset {
    open spec fn spec_instruction_number() -> u8 {
        55
    }

    open spec fn spec_min_accounts() -> usize {
        3
    }

    fn instruction_number() -> (r: u8) {
        55
    }

    fn min_accounts() -> (r: usize) {
        3
    }
}

pub struct ChangeDenominator;

impl DrvInstruction for ChangeDenominator {
    open spec fn spec_instruction_number() -> u8 {
        56
    }

    open spec fn spec_min_accounts() -> usize {
        3
    }

    fn instruction_number() -> (r: u8) {
        56
    }

    fn min_accounts() -> (r: usize) {
        3
    }
}

pub struct PerpClientsProcessingInstruction;

impl DrvInstruction for PerpClientsProcessingInstruction {
    open spec fn spec_instruction_number() -> u8 {
        57
    }

    open spec fn spec_min_accounts() -> usize {
        19
    }

    fn instruction_number() -> (r: u8) {
        57
    }

    fn min_accounts() -> (r: usize) {
        19
    }
}

pub struct SetSeatPurchasingFee;

impl DrvInstruction for SetSeatPurchasingFee {
    open spec fn spec_instruction_number() -> u8 {
        58
    }

    open spec fn spec_min_accounts() -> usize {
        2
    }

    fn instruction_number() -> (r: u8) {
        58
    }

    fn min_accounts() -> (r: usize) {
        2
    }
}

pub struct ChangeVotingInstruction;

impl DrvInstruction for ChangeVotingInstruction {
    open spec fn spec_instruction_number() -> u8 {
        59
    }

    open spec fn spec_min_accounts() -> usize {
        6
    }

    fn instruction_number() -> (r: u8) {
        59
    }

    fn min_accounts() -> (r: usize) {
        6
    }
}

pub struct GarbageCollectorInstruction;

impl DrvInstruction for GarbageCollectorInstruction {
    open spec fn spec_instruction_number() -> u8 {
        60
    }

    open spec fn spec_min_accounts() -> usize {
        6
    }

    fn instruction_number() -> (r: u8) {
        60
    }

    fn min_accounts() -> (r: usize) {
        6
    }
}

pub struct ActivateClientRefProgram;

impl DrvInstruction for ActivateClientRefProgram {
    open spec fn spec_instruction_number() -> u8 {
        61
    }

    open spec fn spec_min_accounts() -> usize {
        4
    }

    fn instruction_number() -> (r: u8) {
        61
    }

    fn min_accounts() -> (r: usize) {
        4
    }
}

pub struct CleanCandlesInstruction;

impl DrvInstruction for CleanCandlesInstruction {
    open spec fn spec_instruction_number() -> u8 {
        62
    }

    open spec fn spec_min_accounts() -> usize {
        6
    }

    fn instruction_number() -> (r: u8) {
        62
    }

    fn min_accounts() -> (r: usize) {
        6
    }
}

pub struct VmInitActivate;

impl DrvInstruction for VmInitActivate {
    open spec fn spec_instruction_number() -> u8 {
        63
    }

    open spec fn spec_min_accounts() -> usize {
        5
    }

    fn instruction_number() -> (r: u8) {
        63
    }

    fn min_accounts() -> (r: usize) {
        5
    }
}

pub struct VmInitActivateCancel;

impl DrvInstruction for VmInitActivateCancel {
    open spec fn spec_instruction_number() -> u8 {
        64
    }

    open spec fn spec_min_accounts() -> usize {
        4
    }

    fn instruction_number() -> (r: u8) {
        64
    }

    fn min_accounts() -> (r: usize) {
        4
    }
}

pub struct VmFinalizeActivate;

impl DrvInstruction for VmFinalizeActivate {
    open spec fn spec_instruction_number() -> u8 {
        65
    }

    open spec fn spec_min_accounts() -> usize {
        4
    }

    fn instruction_number() -> (r: u8) {
        65
    }

    fn min_accounts() -> (r: usize) {
        4
    }
}

pub struct VmInitDeactivate;

impl DrvInstruction for VmInitDeactivate {
    open spec fn spec_instruction_number() -> u8 {
        66
    }

    open spec fn spec_min_accounts() -> usize {
        4
    }

    fn instruction_number() -> (r: u8) {
        66
    }

    fn min_accounts() -> (r: usize) {
        4
    }
}

pub struct VmInitDeactivateCancel;

impl DrvInstruction for VmInitDeactivateCancel {
    open spec fn spec_instruction_number() -> u8 {
        67
    }

    open spec fn spec_min_accounts() -> usize {
        4
    }

    fn instruction_number() -> (r: u8) {
        67
    }

    fn min_accounts() -> (r: usize) {
        4
    }
}

pub struct VmFinalizeDeactivate;

impl DrvInstruction for VmFinalizeDeactivate {
    open spec fn spec_instruction_number() -> u8 {
        68
    }

    open spec fn spec_min_accounts() -> usize {
        4
    }

    fn instruction_number() -> (r: u8) {
        68
    }

    fn min_accounts() -> (r: usize) {
        4
    }
}

pub struct VmInitWithdraw;

impl DrvInstruction for VmInitWithdraw {
    open spec fn spec_instruction_number() -> u8 {
        69
    }

    open spec fn spec_min_accounts() -> usize {
        4
    }

    fn instruction_number() -> (r: u8) {
        69
    }

    fn min_accounts() -> (r: usize) {
        4
    }
}

pub struct VmInitWithdrawCancel;

impl DrvInstruction for VmInitWithdrawCancel {
    open spec fn spec_instruction_number() -> u8 {
        70
    }

    open spec fn spec_min_accounts() -> usize {
        4
    }

    fn instruction_number() -> (r: u8) {
        70
    }

    fn min_accounts() -> (r: usize) {
        4
    }
}

pub struct VmInitWithdrawFinalize;

impl DrvInstruction for VmInitWithdrawFinalize {
    open spec fn spec_instruction_number() -> u8 {
        71
    }

    open spec fn spec_min_accounts() -> usize {
        4
    }

    fn instruction_number() -> (r: u8) {
        71
    }

    fn min_accounts() -> (r: usize) {
        4
    }
}

pub struct VmChangeWhitelist;

impl DrvInstruction for VmChangeWhitelist {
    open spec fn spec_instruction_number() -> u8 {
        72
    }

    open spec fn spec_min_accounts() -> usize {
        4
    }

    fn instruction_number() -> (r: u8) {
        72
    }

    fn min_accounts() -> (r: usize) {
        4
    }
}

} // verus!
