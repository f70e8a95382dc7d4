//! The XCM settings of the Millau runtime that are values or decisions: which assets it
//! trusts to be teleported from where, its weights and limits, and its transfer fees.
use vstd::prelude::*;
use crate::currency::{spec_account_location, Fungibility, MultiAsset, XcmAssetId};
use crate::location::{
    spec_universal_location, universal_location, Junction, LocationView, MultiLocation, NetworkId,
};

verus! {

/// An amount of weight: computation time and proof size.
#[derive(Clone, Copy, Debug)]
pub struct Weight {
    pub ref_time: u64,
    pub proof_size: u64,
}

/// The weight of one XCM instruction: a safe overestimate.
pub fn base_xcm_weight() -> (res: Weight)
    ensures
        res.ref_time == 1_000_000_000,
        res.proof_size == 64 * 1024,
{
    Weight { ref_time: 1_000_000_000, proof_size: 64 * 1024 }
}

/// The most instructions in one XCM message.
pub const MAX_INSTRUCTIONS: u32 = 100;

/// The most assets in one cross-chain transfer.
pub const MAX_ASSETS_FOR_TRANSFER: usize = 2;

/// The most assets that one message can put into the holding register.
pub const MAX_ASSETS_INTO_HOLDING: u32 = 64;

/// The size of the queue of locations whose XCM version is being discovered.
pub const VERSION_DISCOVERY_QUEUE_SIZE: u32 = 100;

/// The most lockers of an asset.
pub const MAX_LOCKERS: u32 = 8;

/// The location of this chain's token: here.
pub open spec fn token_location() -> LocationView {
    LocationView { parents: 0, interior: Seq::empty() }
}

/// The location of the Millau network.
pub open spec fn millau_location() -> LocationView {
    LocationView { parents: 0, interior: seq![Junction::GlobalConsensus(NetworkId::Kusama)] }
}

/// The location of the Rialto network.
pub open spec fn rialto_location() -> LocationView {
    LocationView { parents: 0, interior: seq![Junction::GlobalConsensus(NetworkId::Polkadot)] }
}

/// `asset` is some amount of this chain's token.
pub open spec fn is_native_token(asset: MultiAsset) -> bool {
    &&& asset.fun is Fungible
    &&& asset.id matches XcmAssetId::Concrete(loc)
    &&& loc@ == token_location()
}

/// `asset` is issued at `origin`.
pub open spec fn is_issued_at(asset: MultiAsset, origin: LocationView) -> bool {
    asset.id matches XcmAssetId::Concrete(loc) && loc@ == origin
}

/// The chain trusts `origin` to teleport `asset`: this chain's token from the Millau or
/// the Rialto network, or any asset from where it is issued.
pub open spec fn spec_trusted_teleporter(asset: MultiAsset, origin: LocationView) -> bool {
    ||| is_native_token(asset) && origin == millau_location()
    ||| is_native_token(asset) && origin == rialto_location()
    ||| is_issued_at(asset, origin)
}

/// What teleport trust means, stated directly: the asset is identified by a location, and
/// either that location is the origin, or the asset is a fungible amount of what lies here
/// (no parents, no junctions) and the origin is the Millau or the Rialto network.
pub open spec fn teleport_trust_by_location(asset: MultiAsset, origin: LocationView) -> bool {
    match asset.id {
        XcmAssetId::Concrete(loc) => loc@ == origin || (asset.fun is Fungible && loc.parents == 0
            && loc.interior@.len() == 0 && origin.parents == 0 && (origin.interior == seq![
            Junction::GlobalConsensus(NetworkId::Kusama),
        ] || origin.interior == seq![Junction::GlobalConsensus(NetworkId::Polkadot)])),
        XcmAssetId::Abstract(_) => false,
    }
}

/// The chain trusts an origin to teleport an asset exactly when the asset is issued at the
/// origin, or it is a fungible amount of the asset that lies here and the origin is the
/// Millau or the Rialto network; an asset anywhere else (such as the parent's token) is
/// trusted only from where it is issued.
pub proof fn lemma_teleport_trust(asset: MultiAsset, origin: LocationView)
    ensures
        spec_trusted_teleporter(asset, origin) <==> teleport_trust_by_location(asset, origin),
{
    if let XcmAssetId::Concrete(loc) = asset.id {
        if loc.parents == 0 && loc.interior@.len() == 0 {
            assert(loc@.interior =~= Seq::<Junction>::empty());
        }
    }
}

/// The location of a whole network.
fn network_location(n: NetworkId) -> (res: MultiLocation)
    ensures
        res@ == (LocationView { parents: 0, interior: seq![Junction::GlobalConsensus(n)] }),
{
    let mut interior: Vec<Junction> = Vec::new();
    interior.push(Junction::GlobalConsensus(n));
    let loc = MultiLocation::new(0, interior);
    assert(loc@.interior =~= seq![Junction::GlobalConsensus(n)]);
    loc
}

/// Whether `asset` is some amount of this chain's token.
fn native_token(asset: &MultiAsset) -> (r: bool)
    ensures
        r == is_native_token(*asset),
{
    match (&asset.id, &asset.fun) {
        (XcmAssetId::Concrete(loc), Fungibility::Fungible(_)) => {
            if loc.parents == 0 && loc.interior.len() == 0 {
                assert(loc@.interior =~= Seq::<Junction>::empty());
                true
            } else {
                false
            }
        },
        _ => false,
    }
}

/// The assets that this chain trusts to be teleported to it, by where they come from.
pub struct TrustedTeleporters;

impl TrustedTeleporters {
    /// Whether the chain trusts `origin` to teleport `asset`.
    pub fn contains(asset: &MultiAsset, origin: &MultiLocation) -> (r: bool)
        ensures
            r == spec_trusted_teleporter(*asset, origin@),
            r == teleport_trust_by_location(*asset, origin@),
    {
        proof {
            lemma_teleport_trust(*asset, origin@);
        }
        let native = native_token(asset);
        if native && origin.equals(&network_location(NetworkId::Kusama)) {
            return true;
        }
        if native && origin.equals(&network_location(NetworkId::Polkadot)) {
            return true;
        }
        match &asset.id {
            XcmAssetId::Concrete(loc) => loc.equals(origin),
            XcmAssetId::Abstract(_) => false,
        }
    }
}

/// The XCM executor settings of the chain.
pub struct XcmConfig;

impl XcmConfig {
    /// Where the chain stands in the consensus universe.
    pub fn universal_location() -> (res: Vec<Junction>)
        ensures
            res@ == spec_universal_location(),
    {
        universal_location()
    }

    /// Whether the chain takes `origin` as a reserve of `asset`: it takes no location as one.
    pub fn is_reserve(asset: &MultiAsset, origin: &MultiLocation) -> (r: bool)
        ensures
            !r,
    {
        false
    }

    /// Whether the chain trusts `origin` to teleport `asset`.
    pub fn is_teleporter(asset: &MultiAsset, origin: &MultiLocation) -> (r: bool)
        ensures
            r == spec_trusted_teleporter(*asset, origin@),
            r == teleport_trust_by_location(*asset, origin@),
    {
        TrustedTeleporters::contains(asset, origin)
    }
}

/// The least fee of a cross-chain transfer to `location`: none is set for any location.
pub fn parachain_min_fee(location: &MultiLocation) -> (res: Option<u128>)
    ensures
        res is None,
{
    None
}

/// The account that a location controls, when it is a local 32-byte account id on any
/// network, on this chain's network or on the Rialto network.
pub open spec fn spec_sovereign_account(loc: LocationView) -> Option<[u8; 32]> {
    if loc.parents == 0 && loc.interior.len() == 1 {
        match loc.interior[0] {
            Junction::AccountId32 { network, id } => {
                if network == None::<NetworkId> || network == Some(NetworkId::Kusama) || network
                    == Some(NetworkId::Polkadot) {
                    Some(id)
                } else {
                    None
                }
            },
            _ => None,
        }
    } else {
        None
    }
}

/// Converts locations into the local accounts that they control.
pub struct SovereignAccountOf;

impl SovereignAccountOf {
    /// The account that `location` controls, if any.
    pub fn convert_location(location: &MultiLocation) -> (res: Option<[u8; 32]>)
        ensures
            res == spec_sovereign_account(location@),
    {
        if location.parents != 0 || location.interior.len() != 1 {
            return None;
        }
        match &location.interior[0] {
            Junction::AccountId32 { network: None, id } => Some(*id),
            Junction::AccountId32 { network: Some(NetworkId::Kusama), id } => Some(*id),
            Junction::AccountId32 { network: Some(NetworkId::Polkadot), id } => Some(*id),
            _ => None,
        }
    }
}

/// The location of a local account controls that account.
pub proof fn lemma_account_location_round_trip(account: [u8; 32])
    ensures
        spec_sovereign_account(spec_account_location(account)) == Some(account),
{
}

} // verus!
