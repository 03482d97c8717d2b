//! Decisions the runtimes' configuration makes: which addresses hold
//! precompiles, which asset is native, which calls contracts may make, which
//! XCM locations count as governance, and the fee thresholds.
use vstd::prelude::*;
use crate::bytes::{be_bytes, be_bytes_vec};

verus! {

/// Address of the confidential assets precompile (`0x800`).
pub const CONFIDENTIAL_ASSETS_PRECOMPILE: u64 = 2048;

/// `H160::from_low_u64_be(a)`: 12 zero bytes, then `a` big-endian.
pub open spec fn low_address(a: u64) -> Seq<u8> {
    Seq::new(12, |i: int| 0u8) + be_bytes(a as int, 8)
}

/// The address whose low 8 bytes hold `a` (big-endian).
pub fn hash(a: u64) -> (r: [u8; 20])
    ensures
        r@ == low_address(a),
{
    let be = be_bytes_vec(a as u128, 8);
    let mut out = [0u8; 20];
    let mut i: usize = 0;
    while i < 8
        invariant
            i <= 8,
            be@.len() == 8,
            out@.len() == 20,
            forall|j: int| 0 <= j < 12 ==> out@[j] == 0u8,
            forall|j: int| 12 <= j < 12 + i ==> out@[j] == be@[j - 12],
        decreases 8 - i,
    {
        out[12 + i] = be[i];
        i = i + 1;
    }
    assert(out@ =~= low_address(a));
    out
}

/// The precompiles of the EVM rollup runtime.
pub enum FrontierPrecompile {
    ECRecover,
    Sha256,
    Ripemd160,
    Identity,
    Modexp,
    Sha3FIPS256,
    ECRecoverPublicKey,
    ConfidentialAssets,
}

/// Low number of the address at which each precompile sits.
pub open spec fn precompile_number(p: FrontierPrecompile) -> u64 {
    match p {
        FrontierPrecompile::ECRecover => 1,
        FrontierPrecompile::Sha256 => 2,
        FrontierPrecompile::Ripemd160 => 3,
        FrontierPrecompile::Identity => 4,
        FrontierPrecompile::Modexp => 5,
        FrontierPrecompile::Sha3FIPS256 => 1024,
        FrontierPrecompile::ECRecoverPublicKey => 1025,
        FrontierPrecompile::ConfidentialAssets => CONFIDENTIAL_ASSETS_PRECOMPILE,
    }
}

/// Where each precompile of the EVM rollup sits: the Ethereum ones at 1 to 5,
/// `Sha3FIPS256` at 1024, `ECRecoverPublicKey` at 1025 and the
/// confidential-assets precompile at 2048; no two share an address.
pub proof fn law_precompile_numbers(p: FrontierPrecompile, q: FrontierPrecompile)
    ensures
        precompile_number(FrontierPrecompile::ECRecover) == 1,
        precompile_number(FrontierPrecompile::Sha256) == 2,
        precompile_number(FrontierPrecompile::Ripemd160) == 3,
        precompile_number(FrontierPrecompile::Identity) == 4,
        precompile_number(FrontierPrecompile::Modexp) == 5,
        precompile_number(FrontierPrecompile::Sha3FIPS256) == 1024,
        precompile_number(FrontierPrecompile::ECRecoverPublicKey) == 1025,
        precompile_number(FrontierPrecompile::ConfidentialAssets) == 2048,
        precompile_number(p) == precompile_number(q) ==> p == q,
{
}

/// The low numbers of the used addresses, in order.
pub open spec fn used_numbers() -> Seq<u64> {
    seq![1u64, 2, 3, 4, 5, 1024, 1025, 2048]
}

/// The precompile set of the EVM rollup runtime.
pub struct FrontierPrecompiles;

/// Answer of `is_precompile`.
pub struct IsPrecompileResult {
    pub is_precompile: bool,
    pub extra_cost: u64,
}

impl FrontierPrecompiles {
    /// Creates the precompile set.
    pub fn new() -> (r: Self) {
        FrontierPrecompiles
    }

    /// The addresses used by precompiles.
    pub fn used_addresses() -> (r: [[u8; 20]; 8])
        ensures
            forall|i: int| 0 <= i < 8 ==> #[trigger] r@[i]@ == low_address(used_numbers()[i]),
    {
        [
            hash(1),
            hash(2),
            hash(3),
            hash(4),
            hash(5),
            hash(1024),
            hash(1025),
            hash(CONFIDENTIAL_ASSETS_PRECOMPILE),
        ]
    }

    /// Which precompile, if any, sits at `address`.
    pub fn execute_target(&self, address: &[u8; 20]) -> (r: Option<FrontierPrecompile>)
        ensures
            r matches Some(p) ==> address@ == low_address(precompile_number(p)),
            r is None ==> forall|i: int| 0 <= i < 8 ==> address@ != low_address(
                #[trigger] used_numbers()[i],
            ),
    {
        let used = Self::used_addresses();
        let kinds = [
            FrontierPrecompile::ECRecover,
            FrontierPrecompile::Sha256,
            FrontierPrecompile::Ripemd160,
            FrontierPrecompile::Identity,
            FrontierPrecompile::Modexp,
            FrontierPrecompile::Sha3FIPS256,
            FrontierPrecompile::ECRecoverPublicKey,
            FrontierPrecompile::ConfidentialAssets,
        ];
        let mut i: usize = 0;
        while i < 8
            invariant
                i <= 8,
                forall|k: int| 0 <= k < 8 ==> #[trigger] used@[k]@ == low_address(used_numbers()[k]),
                forall|k: int| 0 <= k < 8 ==> precompile_number(#[trigger] kinds@[k]) == used_numbers()[k],
                forall|k: int| 0 <= k < i ==> address@ != low_address(#[trigger] used_numbers()[k]),
            decreases 8 - i,
        {
            if address_eq(address, &used[i]) {
                let p = match i {
                    0 => FrontierPrecompile::ECRecover,
                    1 => FrontierPrecompile::Sha256,
                    2 => FrontierPrecompile::Ripemd160,
                    3 => FrontierPrecompile::Identity,
                    4 => FrontierPrecompile::Modexp,
                    5 => FrontierPrecompile::Sha3FIPS256,
                    6 => FrontierPrecompile::ECRecoverPublicKey,
                    _ => FrontierPrecompile::ConfidentialAssets,
                };
                return Some(p);
            }
            i = i + 1;
        }
        None
    }

    /// Whether `address` holds a precompile (no extra cost).
    pub fn is_precompile(&self, address: &[u8; 20], _gas: u64) -> (r: IsPrecompileResult)
        ensures
            r.is_precompile <==> exists|i: int| 0 <= i < 8 && address@ == low_address(
                #[trigger] used_numbers()[i],
            ),
            r.extra_cost == 0,
    {
        let target = self.execute_target(address);
        let found = match target {
            Some(p) => {
                proof {
                    let i: int = match p {
                        FrontierPrecompile::ECRecover => 0,
                        FrontierPrecompile::Sha256 => 1,
                        FrontierPrecompile::Ripemd160 => 2,
                        FrontierPrecompile::Identity => 3,
                        FrontierPrecompile::Modexp => 4,
                        FrontierPrecompile::Sha3FIPS256 => 5,
                        FrontierPrecompile::ECRecoverPublicKey => 6,
                        FrontierPrecompile::ConfidentialAssets => 7,
                    };
                    assert(used_numbers()[i] == precompile_number(p));
                }
                true
            },
            None => false,
        };
        IsPrecompileResult { is_precompile: found, extra_cost: 0 }
    }
}

/// Byte-wise equality of two addresses.
pub fn address_eq(a: &[u8; 20], b: &[u8; 20]) -> (r: bool)
    ensures
        r == (a@ == b@),
{
    let mut i: usize = 0;
    while i < 20
        invariant
            i <= 20,
            a@.len() == 20,
            b@.len() == 20,
            forall|j: int| 0 <= j < i ==> a@[j] == b@[j],
        decreases 20 - i,
    {
        if a[i] != b[i] {
            return false;
        }
        i = i + 1;
    }
    assert(a@ =~= b@);
    true
}

/// The id of the native asset.
pub struct NativeAssetId;

impl NativeAssetId {
    /// The native asset is asset `0`.
    pub fn get() -> (r: u128)
        ensures
            r == 0,
    {
        0
    }
}

/// Whether `asset` is the native asset.
pub fn is_native(asset: &u128) -> (r: bool)
    ensures
        r == (*asset == 0),
{
    *asset == NativeAssetId::get()
}

/// Which pallet moves the public side of an asset.
pub enum RampRoute {
    /// The native currency (`pallet_balances`).
    NativeCurrency,
    /// Any other asset (`pallet_assets`).
    Assets,
}

/// The public ramp of the runtimes: native funds go through the currency,
/// every other asset through the assets pallet.
pub struct PublicRamp;

impl PublicRamp {
    /// The pallet that moves, mints and burns `asset`.
    pub fn route(asset: &u128) -> (r: RampRoute)
        ensures
            r is NativeCurrency <==> *asset == 0,
    {
        if is_native(asset) {
            RampRoute::NativeCurrency
        } else {
            RampRoute::Assets
        }
    }
}

/// Minimum gas price of the EVM rollup.
pub struct FixedGasPrice;

impl FixedGasPrice {
    /// One gwei, with no extra weight.
    pub fn min_gas_price() -> (r: (u128, u64))
        ensures
            r.0 == 1_000_000_000 && r.1 == 0,
    {
        (1_000_000_000, 0)
    }
}

/// Base fee thresholds of the EVM rollup, in parts per million.
pub struct BaseFeeThreshold;

impl BaseFeeThreshold {
    /// Lower threshold: 0%.
    pub fn lower() -> (r: u32)
        ensures
            r == 0,
    {
        0
    }

    /// Ideal fullness: 50%.
    pub fn ideal() -> (r: u32)
        ensures
            r == 500_000,
    {
        500_000
    }

    /// Upper threshold: 100%.
    pub fn upper() -> (r: u32)
        ensures
            r == 1_000_000,
    {
        1_000_000
    }
}

/// The pallet a runtime call goes to, as far as the contract call filter reads it.
pub enum RuntimeCallPallet {
    System,
    Balances,
    Assets,
    Revive,
    ConfidentialAssets,
    Other,
}

/// Calls contracts may make through `seal_call_runtime`.
pub struct ContractCallFilter;

impl ContractCallFilter {
    /// Only confidential assets calls are allowed.
    pub fn contains(call: &RuntimeCallPallet) -> (r: bool)
        ensures
            r <==> *call is ConfidentialAssets,
    {
        match call {
            RuntimeCallPallet::ConfidentialAssets => true,
            _ => false,
        }
    }
}

/// Which runtime calls are contract-runtime calls: the conversion of a
/// runtime call into a `pallet_revive` call succeeds for revive calls only.
pub fn revive_call_of(call: &RuntimeCallPallet) -> (r: Result<(), ()>)
    ensures
        r is Ok <==> *call is Revive,
{
    match call {
        RuntimeCallPallet::Revive => Ok(()),
        _ => Err(()),
    }
}

/// A pluralistic body an XCM location may name.
pub enum BodyId {
    Unit,
    Executive,
    Technical,
    Legislative,
    Judicial,
    Defense,
    Administration,
    Treasury,
    Other,
}

/// A junction of an XCM location, as far as the barrier reads it.
pub enum Junction {
    Parachain(u32),
    Plurality { id: BodyId },
    Other,
}

/// An XCM location: the number of parents and the interior junctions.
pub struct Location {
    pub parents: u8,
    pub interior: Vec<Junction>,
}

/// The parent chain, or its executive body.
pub struct ParentOrParentsExecutivePlurality;

impl ParentOrParentsExecutivePlurality {
    /// `(1, [])` or `(1, [Plurality { id: Executive, .. }])`.
    pub fn contains(location: &Location) -> (r: bool)
        ensures
            r <==> location.parents == 1 && (location.interior@.len() == 0 || (
            location.interior@.len() == 1 && location.interior@[0] matches Junction::Plurality {
                id: BodyId::Executive,
            })),
    {
        if location.parents != 1 {
            return false;
        }
        if location.interior.len() == 0 {
            return true;
        }
        if location.interior.len() != 1 {
            return false;
        }
        match &location.interior[0] {
            Junction::Plurality { id: BodyId::Executive } => true,
            _ => false,
        }
    }
}

/// Builds foreign asset ids for the assets pallet's benchmarks.
pub struct XcmBenchmarkHelper;

impl XcmBenchmarkHelper {
    /// The location of sibling parachain `id`: `(1, [Parachain(id)])`.
    pub fn create_asset_id_parameter(id: u32) -> (r: Location)
        ensures
            r.parents == 1,
            r.interior@.len() == 1,
            r.interior@[0] == Junction::Parachain(id),
    {
        let mut interior: Vec<Junction> = Vec::new();
        interior.push(Junction::Parachain(id));
        Location { parents: 1, interior }
    }
}

/// Converts an XCM origin into a dispatch origin: this runtime converts none,
/// and hands back the default location (`parents: 0`, no junctions).
pub struct XcmOriginToTransactDispatchOrigin;

impl XcmOriginToTransactDispatchOrigin {
    /// Always refuses, returning the default location.
    pub fn convert_origin(_origin: Location) -> (r: Result<(), Location>)
        ensures
            r matches Err(l) && l.parents == 0 && l.interior@.len() == 0,
    {
        Err(Location { parents: 0, interior: Vec::new() })
    }
}

/// The pallets of the EVM parachain runtime.
#[derive(Clone, Copy, Debug, PartialEq, Eq)]
pub enum RuntimePallet {
    System,
    Timestamp,
    ParachainSystem,
    ParachainInfo,
    Balances,
    TransactionPayment,
    Assets,
    Sudo,
    Authorship,
    CollatorSelection,
    Session,
    Aura,
    AuraExt,
    XcmpQueue,
    PolkadotXcm,
    CumulusXcm,
    MessageQueue,
    Zkhe,
    ConfidentialAssets,
    Ethereum,
    EVM,
    EVMChainId,
    BaseFee,
}

/// The index each pallet has in the EVM parachain runtime's calls and events.
pub open spec fn pallet_index_spec(p: RuntimePallet) -> u8 {
    match p {
        RuntimePallet::System => 0,
        RuntimePallet::Timestamp => 1,
        RuntimePallet::ParachainSystem => 2,
        RuntimePallet::ParachainInfo => 3,
        RuntimePallet::Balances => 10,
        RuntimePallet::TransactionPayment => 11,
        RuntimePallet::Assets => 12,
        RuntimePallet::Sudo => 15,
        RuntimePallet::Authorship => 20,
        RuntimePallet::CollatorSelection => 21,
        RuntimePallet::Session => 22,
        RuntimePallet::Aura => 23,
        RuntimePallet::AuraExt => 24,
        RuntimePallet::XcmpQueue => 30,
        RuntimePallet::PolkadotXcm => 31,
        RuntimePallet::CumulusXcm => 32,
        RuntimePallet::MessageQueue => 33,
        RuntimePallet::Zkhe => 40,
        RuntimePallet::ConfidentialAssets => 41,
        RuntimePallet::Ethereum => 50,
        RuntimePallet::EVM => 51,
        RuntimePallet::EVMChainId => 52,
        RuntimePallet::BaseFee => 53,
    }
}

/// The EVM parachain runtime.
pub struct Runtime;

impl Runtime {
    /// The index of `p` in the runtime.
    pub fn pallet_index(p: RuntimePallet) -> (r: u8)
        ensures
            r == pallet_index_spec(p),
    {
        match p {
            RuntimePallet::System => 0,
            RuntimePallet::Timestamp => 1,
            RuntimePallet::ParachainSystem => 2,
            RuntimePallet::ParachainInfo => 3,
            RuntimePallet::Balances => 10,
            RuntimePallet::TransactionPayment => 11,
            RuntimePallet::Assets => 12,
            RuntimePallet::Sudo => 15,
            RuntimePallet::Authorship => 20,
            RuntimePallet::CollatorSelection => 21,
            RuntimePallet::Session => 22,
            RuntimePallet::Aura => 23,
            RuntimePallet::AuraExt => 24,
            RuntimePallet::XcmpQueue => 30,
            RuntimePallet::PolkadotXcm => 31,
            RuntimePallet::CumulusXcm => 32,
            RuntimePallet::MessageQueue => 33,
            RuntimePallet::Zkhe => 40,
            RuntimePallet::ConfidentialAssets => 41,
            RuntimePallet::Ethereum => 50,
            RuntimePallet::EVM => 51,
            RuntimePallet::EVMChainId => 52,
            RuntimePallet::BaseFee => 53,
        }
    }

    /// The pallet at index `i`, if any.
    pub fn pallet_at(i: u8) -> (r: Option<RuntimePallet>)
        ensures
            r matches Some(p) ==> pallet_index_spec(p) == i,
            r is None ==> forall|p: RuntimePallet| pallet_index_spec(p) != i,
    {
        match i {
            0 => Some(RuntimePallet::System),
            1 => Some(RuntimePallet::Timestamp),
            2 => Some(RuntimePallet::ParachainSystem),
            3 => Some(RuntimePallet::ParachainInfo),
            10 => Some(RuntimePallet::Balances),
            11 => Some(RuntimePallet::TransactionPayment),
            12 => Some(RuntimePallet::Assets),
            15 => Some(RuntimePallet::Sudo),
            20 => Some(RuntimePallet::Authorship),
            21 => Some(RuntimePallet::CollatorSelection),
            22 => Some(RuntimePallet::Session),
            23 => Some(RuntimePallet::Aura),
            24 => Some(RuntimePallet::AuraExt),
            30 => Some(RuntimePallet::XcmpQueue),
            31 => Some(RuntimePallet::PolkadotXcm),
            32 => Some(RuntimePallet::CumulusXcm),
            33 => Some(RuntimePallet::MessageQueue),
            40 => Some(RuntimePallet::Zkhe),
            41 => Some(RuntimePallet::ConfidentialAssets),
            50 => Some(RuntimePallet::Ethereum),
            51 => Some(RuntimePallet::EVM),
            52 => Some(RuntimePallet::EVMChainId),
            53 => Some(RuntimePallet::BaseFee),
            _ => None,
        }
    }
}

/// No two pallets of the runtime share an index.
pub proof fn law_pallet_indices_distinct(p: RuntimePallet, q: RuntimePallet)
    ensures
        pallet_index_spec(p) == pallet_index_spec(q) ==> p == q,
{
}

} // verus!
