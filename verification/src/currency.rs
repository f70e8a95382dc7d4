//! Conversions between the runtime's assets and accounts and XCM locations.
use vstd::prelude::*;
use crate::location::{Junction, LocationView, MultiLocation};

verus! {

/// The id of the chain's own asset.
pub const CORE_ASSET_ID: u32 = 0;

/// How an XCM asset is identified: by the location that issues it, or by an abstract name.
#[derive(Clone, Debug)]
pub enum XcmAssetId {
    Concrete(MultiLocation),
    Abstract([u8; 32]),
}

/// How much of an asset, or which instance of it.
#[derive(Clone, Copy, Debug)]
pub enum Fungibility {
    Fungible(u128),
    NonFungible(u128),
}

/// An amount or instance of an identified asset.
#[derive(Clone, Debug)]
pub struct MultiAsset {
    pub id: XcmAssetId,
    pub fun: Fungibility,
}

/// The location of the chain's own asset on a parachain: up to the relay chain, then
/// into the parachain and to the asset's index.
pub open spec fn spec_core_asset_location(parachain_id: u32, id: u32) -> LocationView {
    LocationView {
        parents: 1,
        interior: seq![Junction::Parachain(parachain_id), Junction::GeneralIndex(id as u128)],
    }
}

/// Converts the runtime's asset ids into XCM locations.
pub struct CurrencyIdConvert;

impl CurrencyIdConvert {
    /// The location of asset `id`. The chain's own asset lies on this parachain, whose
    /// id is `parachain_id`; any other asset is where the asset registry puts it, and
    /// `registered` is the registry's answer for `id`.
    pub fn convert(id: u32, parachain_id: u32, registered: Option<MultiLocation>) -> (res: Option<
        MultiLocation,
    >)
        ensures
            id == CORE_ASSET_ID ==> (res matches Some(loc) && loc@ == spec_core_asset_location(
                parachain_id,
                id,
            )),
            id != CORE_ASSET_ID ==> res == registered,
    {
        if id == CORE_ASSET_ID {
            let mut interior: Vec<Junction> = Vec::new();
            interior.push(Junction::Parachain(parachain_id));
            interior.push(Junction::GeneralIndex(id as u128));
            let loc = MultiLocation::new(1, interior);
            assert(loc@.interior =~= spec_core_asset_location(parachain_id, id).interior);
            Some(loc)
        } else {
            registered
        }
    }

    /// The asset id of an abstractly named asset: there is none.
    pub fn convert_asset(asset: &MultiAsset) -> (res: Option<XcmAssetId>)
        requires
            asset.id is Abstract,
        ensures
            res is None,
    {
        match &asset.id {
            XcmAssetId::Concrete(_) => None,
            XcmAssetId::Abstract(_) => None,
        }
    }
}

/// The location of a local account: a 32-byte account id on any network.
pub open spec fn spec_account_location(account: [u8; 32]) -> LocationView {
    LocationView {
        parents: 0,
        interior: seq![Junction::AccountId32 { network: None, id: account }],
    }
}

/// Converts the runtime's accounts into XCM locations.
pub struct AccountIdToMultiLocation;

impl AccountIdToMultiLocation {
    /// The location of `account`.
    pub fn convert(account: [u8; 32]) -> (res: MultiLocation)
        ensures
            res@ == spec_account_location(account),
    {
        let mut interior: Vec<Junction> = Vec::new();
        interior.push(Junction::AccountId32 { network: None, id: account });
        assert(interior@ =~= spec_account_location(account).interior);
        MultiLocation::new(0, interior)
    }
}

} // verus!
