//! The records of the launchpad: the platform's configuration, a campaign, its
//! bonding-curve ledger, and the values they are made of.

use vstd::prelude::*;
use vstd::std_specs::cmp::PartialEqSpecImpl;

verus! {

/// A 32-byte account address.
#[derive(Clone, Copy, Debug)]
pub struct Pubkey {
    pub bytes: [u8; 32],
}

impl Pubkey {
    /// The address made of the given bytes.
    pub fn new_from_array(bytes: [u8; 32]) -> (key: Pubkey)
        ensures
            key.bytes == bytes,
    {
        Pubkey { bytes }
    }

    /// The bytes of the address.
    pub fn to_bytes(&self) -> (bytes: [u8; 32])
        ensures
            bytes == self.bytes,
    {
        self.bytes
    }
}

impl PartialEq for Pubkey {
    fn eq(&self, other: &Self) -> (r: bool) {
        let mut i: usize = 0;
        while i < 32
            invariant
                i <= 32,
                forall|j: int| 0 <= j < i ==> self.bytes[j] == other.bytes[j],
            decreases 32 - i,
        {
            if self.bytes[i] != other.bytes[i] {
                return false;
            }
            i += 1;
        }
        proof {
            assert(self.bytes =~= other.bytes);
        }
        true
    }
}

impl Eq for Pubkey {

}

impl PartialEqSpecImpl for Pubkey {
    open spec fn obeys_eq_spec() -> bool {
        true
    }

    open spec fn eq_spec(&self, other: &Self) -> bool {
        *self == *other
    }
}

impl Default for Pubkey {
    /// The address whose bytes are all zero.
    fn default() -> (key: Pubkey)
        ensures
            key.bytes@ == Seq::new(32, |i: int| 0u8),
    {
        let key = Pubkey { bytes: [0u8; 32] };
        assert(key.bytes@ =~= Seq::new(32, |i: int| 0u8));
        key
    }
}

/// Where a campaign stands in its life.
#[derive(Clone, Copy, Debug, PartialEq, Eq, Structural)]
pub enum LaunchpadStatus {
    /// Trading on the curve is open. Every campaign starts here.
    Active,
    /// The campaign has left the curve for a liquidity pool. Nothing leaves
    /// this state.
    Graduated,
    /// Trading is suspended and can be resumed.
    Paused,
}

/// The family of a bonding curve.
#[derive(Clone, Copy, Debug, PartialEq, Eq, Structural)]
pub enum CurveType {
    /// `price(S) = base_price + slope * S`.
    Linear,
    /// `price(S) = base_price * multiplier ^ (S / step)`.
    Exponential,
    /// Declared and not implemented: every operation on it fails with
    /// `InvalidCurveParams`.
    Custom,
}

/// The parameters of a bonding curve.
#[derive(Clone, Copy, Debug, PartialEq, Eq)]
pub struct CurveParams {
    /// Price at zero supply, in the smallest payment unit per token.
    pub base_price: u64,
    /// Slope of a linear curve, or the Q32.32 multiplier of an exponential one.
    pub slope: u64,
    /// Tokens per exponent step of an exponential curve.
    pub step: u64,
    /// Cap on the supply that the curve can sell.
    pub max_supply: u64,
    /// Kept for parameters to come.
    pub reserved: [u64; 4],
}

impl CurveParams {
    /// What campaign creation demands of curve parameters: a positive base
    /// price and a positive cap.
    pub open spec fn wf(&self) -> bool {
        self.base_price > 0 && self.max_supply > 0
    }
}

/// The thresholds that a campaign must reach to graduate. Each one is
/// optional; all that are present must hold together, and an absent one never
/// blocks.
#[derive(Clone, Copy, Debug, PartialEq, Eq)]
pub struct GraduationCriteria {
    /// Least payment reserve.
    pub min_sol_raised: Option<u64>,
    /// Least supply sold through the curve.
    pub min_supply_sold: Option<u64>,
    /// Unix time from which the campaign may graduate.
    pub time_limit: Option<i64>,
    /// Reference to a graduation program; carried, never evaluated.
    pub custom_logic: Option<Pubkey>,
}

/// What a creator submits to open a campaign.
#[derive(Clone, Debug, PartialEq, Eq)]
pub struct CreateLaunchpadParams {
    /// Token name, at most 32 bytes.
    pub name: String,
    /// Token symbol, at most 8 bytes.
    pub symbol: String,
    /// Metadata URI, at most 200 bytes.
    pub uri: String,
    /// Token decimals, at most 9.
    pub decimals: u8,
    /// Amount minted up front and held for the pool after graduation.
    pub total_supply: u64,
    /// Family of the bonding curve.
    pub curve_type: CurveType,
    /// Parameters of the bonding curve.
    pub curve_params: CurveParams,
    /// Creator fee in basis points, at most 500.
    pub creator_fee_bps: u16,
    /// When the campaign may graduate.
    pub graduation_criteria: GraduationCriteria,
}

/// The configuration of the liquidity pool that a graduating campaign opens.
#[derive(Clone, Copy, Debug, PartialEq, Eq)]
pub struct MeteoraPoolConfig {
    /// Bin step, in hundredths of a percent.
    pub bin_step: u16,
    /// Base fee factor.
    pub base_factor: u16,
    /// Volatility filter period.
    pub filter_period: u16,
    /// Fee decay period.
    pub decay_period: u16,
    /// Fee reduction factor.
    pub reduction_factor: u16,
    /// Variable fee control.
    pub variable_fee_control: u32,
    /// Cap of the volatility accumulator.
    pub max_volatility_accumulator: u32,
    /// Lowest bin id.
    pub min_bin_id: i32,
    /// Highest bin id.
    pub max_bin_id: i32,
}

/// The platform's configuration: one instance, set at initialisation.
#[derive(Clone, Copy, Debug, PartialEq, Eq)]
pub struct GlobalState {
    /// The one who may change the platform.
    pub authority: Pubkey,
    /// Platform fee in basis points, at most 1000.
    pub platform_fee_bps: u16,
    /// Where platform fees are collected.
    pub fee_vault: Pubkey,
    /// Kill switch: while set, no campaign trades.
    pub paused: bool,
    /// The one who may upgrade the program.
    pub upgrade_authority: Pubkey,
    /// Bump seed of this record's address.
    pub bump: u8,
}

impl GlobalState {
    /// Stored size of the record in bytes.
    pub const LEN: usize = 32 + 2 + 32 + 1 + 32 + 1;

    /// Address seed of the record: the ASCII bytes of `global_state`.
    pub const SEEDS: [u8; 12] = [103, 108, 111, 98, 97, 108, 95, 115, 116, 97, 116, 101];
}

/// A fundraising campaign.
#[derive(Clone, Copy, Debug, PartialEq, Eq)]
pub struct LaunchpadState {
    /// Mint of the campaign's token.
    pub mint: Pubkey,
    /// The campaign's creator.
    pub creator: Pubkey,
    /// Vault that holds the payments.
    pub sol_vault: Pubkey,
    /// Vault that holds the tokens minted up front.
    pub token_vault: Pubkey,
    /// The campaign's ledger.
    pub bonding_curve: Pubkey,
    /// Where the campaign stands.
    pub status: LaunchpadStatus,
    /// Creator fee in basis points, at most 500.
    pub creator_fee_bps: u16,
    /// Amount minted up front, fixed at creation.
    pub total_supply: u64,
    /// When the campaign may graduate.
    pub graduation_criteria: GraduationCriteria,
    /// The liquidity pool, once graduated.
    pub meteora_pool: Option<Pubkey>,
    /// Unix time of creation.
    pub created_at: i64,
    /// Unix time of graduation, once graduated.
    pub graduated_at: Option<i64>,
    /// Bump seed of this record's address.
    pub bump: u8,
}

impl LaunchpadState {
    /// Stored size of the record in bytes.
    pub const LEN: usize = 32 + 32 + 32 + 32 + 32 + 1 + 2 + 8 + 64 + 33 + 8 + 9 + 1;

    /// Address seed of the record: the ASCII bytes of `launchpad`.
    pub const SEEDS: [u8; 9] = [108, 97, 117, 110, 99, 104, 112, 97, 100];
}

/// The ledger of one campaign: what the curve has sold and what it holds.
#[derive(Clone, Copy, Debug, PartialEq, Eq)]
pub struct BondingCurveState {
    /// The campaign that owns this ledger.
    pub launchpad: Pubkey,
    /// Family of the curve.
    pub curve_type: CurveType,
    /// Parameters of the curve.
    pub curve_params: CurveParams,
    /// Tokens sold through the curve so far.
    pub supply_sold: u64,
    /// Payment held, net of fees.
    pub sol_reserves: u64,
    /// Offset for perceived depth; no operation reads it.
    pub virtual_sol_reserves: u64,
    /// Offset for perceived depth; no operation reads it.
    pub virtual_token_reserves: u64,
    /// Fees taken so far.
    pub fee_collected: u64,
    /// Price at `supply_sold`, as of the last trade.
    pub last_price: u64,
    /// Bump seed of this record's address.
    pub bump: u8,
}

impl BondingCurveState {
    /// Stored size of the record in bytes.
    pub const LEN: usize = 32 + 1 + 64 + 8 + 8 + 8 + 8 + 8 + 8 + 1;

    /// Address seed of the record: the ASCII bytes of `bonding_curve`.
    pub const SEEDS: [u8; 13] = [98, 111, 110, 100, 105, 110, 103, 95, 99, 117, 114, 118, 101];

    /// The ledger's invariant: the curve has sold no more than its cap.
    pub open spec fn wf(&self) -> bool {
        self.supply_sold <= self.curve_params.max_supply
    }
}

/// A creator's record over all campaigns.
#[derive(Clone, Copy, Debug, PartialEq, Eq)]
pub struct CreatorProfile {
    /// The creator's wallet.
    pub creator: Pubkey,
    /// Campaigns opened.
    pub launches_count: u32,
    /// Campaigns that graduated.
    pub successful_launches: u32,
    /// Trading volume over all campaigns.
    pub total_volume: u64,
    /// Whether the creator is verified.
    pub verified: bool,
    /// Reputation, from 0 to 1000.
    pub reputation_score: u16,
    /// Unix time at which the profile was made.
    pub created_at: i64,
    /// Bump seed of this record's address.
    pub bump: u8,
}

impl CreatorProfile {
    /// Stored size of the record in bytes.
    pub const LEN: usize = 32 + 4 + 4 + 8 + 1 + 2 + 8 + 1;

    /// Address seed of the record: the ASCII bytes of `creator_profile`.
    pub const SEEDS: [u8; 15] = [
        99,
        114,
        101,
        97,
        116,
        111,
        114,
        95,
        112,
        114,
        111,
        102,
        105,
        108,
        101,
    ];
}

} // verus!
