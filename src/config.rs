//! This chain's cross-chain executor configuration, built once from the
//! chain's own parachain id and handed to every component that needs it.
use vstd::prelude::*;
use crate::asset::CurrencyIdConvert;
use crate::barrier::{DenyRule, DenyThenTry, Weight, standard_allow_rules};
use crate::location::{Junction, Location, loc};
use crate::reserve::AbsoluteAndRelativeReserve;

verus! {

/// The proof size charged with each instruction.
pub const DEFAULT_PROOF_SIZE: u64 = 131072;

/// The reference time charged for each instruction.
pub const UNIT_WEIGHT_REF_TIME: u64 = 200000000;

/// The most assets the holding register may hold.
pub const MAX_ASSETS_INTO_HOLDING: u32 = 64;

/// The weight charged for each instruction of a message.
pub fn unit_weight_cost() -> (r: Weight)
    ensures
        r == (Weight { ref_time: UNIT_WEIGHT_REF_TIME, proof_size: DEFAULT_PROOF_SIZE }),
{
    Weight { ref_time: UNIT_WEIGHT_REF_TIME, proof_size: DEFAULT_PROOF_SIZE }
}

/// Which calls a message may dispatch through `Transact`: any of them,
/// since arbitrary execution is already prevented by the barrier.
pub struct SafeCallFilter;

impl SafeCallFilter {
    pub fn contains<C>(_call: &C) -> (r: bool)
        ensures
            r,
    {
        true
    }
}

/// The location of a local 32-byte account.
pub struct AccountIdToMultiLocation;

impl AccountIdToMultiLocation {
    pub fn convert(account: [u8; 32]) -> (r: Location)
        ensures
            r@ == loc(0, seq![Junction::AccountId32 { id: account }]),
    {
        Location::with_one(0, Junction::AccountId32 { id: account })
    }
}

/// The executor configuration of the chain with parachain id `self_para_id`.
pub struct XcmExecutorConfig {
    pub self_para_id: u32,
    /// Recognizes the local asset for the asset transactor.
    pub currency: CurrencyIdConvert,
    /// Resolves reserves, with this chain's absolute form collapsed to here.
    pub is_reserve: AbsoluteAndRelativeReserve,
    /// Admits or rejects inbound messages.
    pub barrier: DenyThenTry,
    pub unit_weight_cost: Weight,
    pub max_assets_into_holding: u32,
}

impl XcmExecutorConfig {
    pub fn new(self_para_id: u32) -> (r: XcmExecutorConfig)
        ensures
            r.self_para_id == self_para_id,
            r.currency.self_para_id == self_para_id,
            r.is_reserve.self_location_absolute@ == loc(1, seq![Junction::Parachain(self_para_id)]),
            r.barrier.deny@ == seq![DenyRule::ReserveTransferToParent],
            r.barrier.allow@ == standard_allow_rules(),
            r.unit_weight_cost == (Weight { ref_time: UNIT_WEIGHT_REF_TIME, proof_size: DEFAULT_PROOF_SIZE }),
            r.max_assets_into_holding == MAX_ASSETS_INTO_HOLDING,
    {
        XcmExecutorConfig {
            self_para_id,
            currency: CurrencyIdConvert { self_para_id },
            is_reserve: AbsoluteAndRelativeReserve::for_parachain(self_para_id),
            barrier: DenyThenTry::standard(),
            unit_weight_cost: unit_weight_cost(),
            max_assets_into_holding: MAX_ASSETS_INTO_HOLDING,
        }
    }
}

/// The native executor of the Integritee parachain runtime.
pub struct IntegriteeParachainRuntimeExecutor;

/// The native executor of the shell parachain runtime.
pub struct ShellParachainRuntimeExecutor;

} // verus!
