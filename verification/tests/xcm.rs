use millau_bridge::bridge::{
    ToRialtoBridge, ToRialtoParachainBridge, XcmBridgeRoute, XcmRouter, RIALTO_PARACHAIN_ID,
};
use millau_bridge::config::{
    base_xcm_weight, parachain_min_fee, SovereignAccountOf, TrustedTeleporters, XcmConfig, MAX_ASSETS_FOR_TRANSFER,
    MAX_INSTRUCTIONS,
};
use millau_bridge::currency::{
    AccountIdToMultiLocation, CurrencyIdConvert, Fungibility, MultiAsset, XcmAssetId,
    CORE_ASSET_ID,
};
use millau_bridge::location::{
    relative_to, universal_location, CustomNetworkId, Junction, MultiLocation, NetworkId,
};
use millau_bridge::messages_lane::MillauMessagesToRialto;

fn is_gc(j: &Junction, n: NetworkId) -> bool {
    matches!((j, n), (Junction::GlobalConsensus(NetworkId::Polkadot), NetworkId::Polkadot)
        | (Junction::GlobalConsensus(NetworkId::Kusama), NetworkId::Kusama)
        | (Junction::GlobalConsensus(NetworkId::Westend), NetworkId::Westend))
}

fn loc(parents: u8, interior: Vec<Junction>) -> MultiLocation {
    MultiLocation::new(parents, interior)
}

#[test]
fn custom_networks() {
    assert!(matches!(CustomNetworkId::Millau.as_network_id(), NetworkId::Kusama));
    assert!(matches!(CustomNetworkId::Rialto.as_network_id(), NetworkId::Polkadot));
    assert!(matches!(CustomNetworkId::RialtoParachain.as_network_id(), NetworkId::Westend));
    let here = universal_location();
    assert_eq!(here.len(), 1);
    assert!(is_gc(&here[0], NetworkId::Kusama));
}

#[test]
fn rialto_bridge_destination() {
    let dest = ToRialtoBridge::build_destination();
    assert_eq!(dest.parents, 1);
    assert_eq!(dest.interior.len(), 1);
    assert!(is_gc(&dest.interior[0], NetworkId::Polkadot));
    assert!(ToRialtoBridge::verify_destination(&dest));
    assert_eq!(ToRialtoBridge::xcm_lane().0, [0u8, 0, 0, 0]);
    assert_eq!(ToRialtoBridge::universal_location().len(), 1);
}

#[test]
fn rialto_parachain_bridge_destination() {
    let dest = ToRialtoParachainBridge::build_destination();
    assert_eq!(dest.parents, 1);
    assert_eq!(dest.interior.len(), 1);
    assert!(is_gc(&dest.interior[0], NetworkId::Westend));
    assert!(!ToRialtoParachainBridge::verify_destination(&dest));
    assert_eq!(ToRialtoParachainBridge::xcm_lane().0, [0u8, 0, 0, 0]);
    assert!(is_gc(&ToRialtoParachainBridge::universal_location()[0], NetworkId::Kusama));
}

#[test]
fn bridges_accept_the_router_destinations() {
    let to_rialto = loc(1, vec![Junction::GlobalConsensus(NetworkId::Polkadot)]);
    let to_parachain = loc(
        1,
        vec![
            Junction::GlobalConsensus(NetworkId::Polkadot),
            Junction::Parachain(RIALTO_PARACHAIN_ID),
        ],
    );
    assert!(ToRialtoBridge::verify_destination(&to_rialto));
    assert!(!ToRialtoParachainBridge::verify_destination(&to_rialto));
    assert!(ToRialtoParachainBridge::verify_destination(&to_parachain));
    assert!(!ToRialtoBridge::verify_destination(&to_parachain));
    let other_para = loc(
        1,
        vec![Junction::GlobalConsensus(NetworkId::Polkadot), Junction::Parachain(2001)],
    );
    assert!(!ToRialtoParachainBridge::verify_destination(&other_para));
    let wrong_parents = loc(2, vec![Junction::GlobalConsensus(NetworkId::Polkadot)]);
    assert!(!ToRialtoBridge::verify_destination(&wrong_parents));
    let kusama = loc(1, vec![Junction::GlobalConsensus(NetworkId::Kusama)]);
    assert!(!ToRialtoBridge::verify_destination(&kusama));
}

#[test]
fn relative_to_drops_the_shared_prefix() {
    let target = vec![
        Junction::GlobalConsensus(NetworkId::Kusama),
        Junction::Parachain(1000),
        Junction::PalletInstance(50),
    ];
    let viewer = vec![
        Junction::GlobalConsensus(NetworkId::Kusama),
        Junction::Parachain(2000),
    ];
    let r = relative_to(&target, &viewer);
    assert_eq!(r.parents, 1);
    assert_eq!(r.interior.len(), 2);
    assert!(matches!(r.interior[0], Junction::Parachain(1000)));
    assert!(matches!(r.interior[1], Junction::PalletInstance(50)));
    let same = relative_to(&viewer, &viewer);
    assert_eq!(same.parents, 0);
    assert!(same.interior.is_empty());
}

#[test]
fn location_and_junction_equality() {
    let a = loc(0, vec![Junction::AccountId32 { network: None, id: [1u8; 32] }]);
    let b = loc(0, vec![Junction::AccountId32 { network: None, id: [1u8; 32] }]);
    let c = loc(0, vec![Junction::AccountId32 { network: None, id: [2u8; 32] }]);
    let d = loc(
        0,
        vec![Junction::AccountId32 { network: Some(NetworkId::Kusama), id: [1u8; 32] }],
    );
    assert!(a.equals(&b));
    assert!(!a.equals(&c));
    assert!(!a.equals(&d));
    assert!(!a.equals(&loc(1, vec![])));
}

#[test]
fn currency_id_convert_core_asset() {
    let l = CurrencyIdConvert::convert(CORE_ASSET_ID, 2000, None).unwrap();
    assert_eq!(l.parents, 1);
    assert_eq!(l.interior.len(), 2);
    assert!(matches!(l.interior[0], Junction::Parachain(2000)));
    assert!(matches!(l.interior[1], Junction::GeneralIndex(0)));
}

#[test]
fn currency_id_convert_registered_assets() {
    let registered = loc(1, vec![Junction::Parachain(3000), Junction::GeneralIndex(9)]);
    let l = CurrencyIdConvert::convert(7, 2000, Some(registered.clone())).unwrap();
    assert!(l.equals(&registered));
    assert!(CurrencyIdConvert::convert(7, 2000, None).is_none());
}

#[test]
fn currency_id_convert_abstract_asset() {
    let asset = MultiAsset { id: XcmAssetId::Abstract([0u8; 32]), fun: Fungibility::Fungible(1) };
    assert!(CurrencyIdConvert::convert_asset(&asset).is_none());
}

#[test]
fn account_id_to_multi_location() {
    let l = AccountIdToMultiLocation::convert([4u8; 32]);
    assert_eq!(l.parents, 0);
    assert_eq!(l.interior.len(), 1);
    assert!(matches!(l.interior[0], Junction::AccountId32 { network: None, id } if id == [4u8; 32]));
}

#[test]
fn trusted_teleporters() {
    let native = MultiAsset {
        id: XcmAssetId::Concrete(loc(0, vec![])),
        fun: Fungibility::Fungible(10),
    };
    let millau = loc(0, vec![Junction::GlobalConsensus(NetworkId::Kusama)]);
    let rialto = loc(0, vec![Junction::GlobalConsensus(NetworkId::Polkadot)]);
    let westend = loc(0, vec![Junction::GlobalConsensus(NetworkId::Westend)]);
    assert!(TrustedTeleporters::contains(&native, &millau));
    assert!(TrustedTeleporters::contains(&native, &rialto));
    assert!(!TrustedTeleporters::contains(&native, &westend));
    let nft = MultiAsset {
        id: XcmAssetId::Concrete(loc(0, vec![])),
        fun: Fungibility::NonFungible(1),
    };
    assert!(!TrustedTeleporters::contains(&nft, &millau));
    let foreign = MultiAsset {
        id: XcmAssetId::Concrete(westend.clone()),
        fun: Fungibility::Fungible(1),
    };
    assert!(TrustedTeleporters::contains(&foreign, &westend));
    assert!(!TrustedTeleporters::contains(&foreign, &rialto));
}

#[test]
fn xcm_settings() {
    let w = base_xcm_weight();
    assert_eq!(w.ref_time, 1_000_000_000);
    assert_eq!(w.proof_size, 65536);
    assert_eq!(MAX_INSTRUCTIONS, 100);
    assert_eq!(MAX_ASSETS_FOR_TRANSFER, 2);
    assert_eq!(parachain_min_fee(&loc(1, vec![])), None);
}

#[test]
fn messages_lane_parameter_names() {
    assert_eq!(
        MillauMessagesToRialto::source_to_target_conversion_rate_parameter_name(),
        Some("MillauToRialtoConversionRate")
    );
    assert_eq!(
        MillauMessagesToRialto::target_to_source_conversion_rate_parameter_name(),
        Some("RialtoToMillauConversionRate")
    );
    assert_eq!(MillauMessagesToRialto::source_fee_multiplier_parameter_name(), None);
    assert_eq!(MillauMessagesToRialto::target_fee_multiplier_parameter_name(), None);
    assert_eq!(MillauMessagesToRialto::at_source_transaction_payment_pallet_name(), None);
    assert_eq!(MillauMessagesToRialto::at_target_transaction_payment_pallet_name(), None);
}

#[test]
fn router_picks_the_bridge_of_the_destination() {
    let to_rialto = loc(1, vec![Junction::GlobalConsensus(NetworkId::Polkadot)]);
    let to_parachain = loc(
        1,
        vec![
            Junction::GlobalConsensus(NetworkId::Polkadot),
            Junction::Parachain(RIALTO_PARACHAIN_ID),
        ],
    );
    assert_eq!(XcmRouter::route(&to_rialto), Some(XcmBridgeRoute::Rialto));
    assert_eq!(XcmRouter::route(&to_parachain), Some(XcmBridgeRoute::RialtoParachain));
    assert_eq!(XcmRouter::route(&loc(1, vec![Junction::GlobalConsensus(NetworkId::Westend)])), None);
    assert_eq!(XcmRouter::route(&ToRialtoBridge::build_destination()), Some(XcmBridgeRoute::Rialto));
}

#[test]
fn sovereign_accounts_of_locations() {
    let account = [6u8; 32];
    let here = AccountIdToMultiLocation::convert(account);
    assert_eq!(SovereignAccountOf::convert_location(&here), Some(account));
    let on = |n: Option<NetworkId>| loc(0, vec![Junction::AccountId32 { network: n, id: account }]);
    assert_eq!(SovereignAccountOf::convert_location(&on(Some(NetworkId::Kusama))), Some(account));
    assert_eq!(SovereignAccountOf::convert_location(&on(Some(NetworkId::Polkadot))), Some(account));
    assert_eq!(SovereignAccountOf::convert_location(&on(Some(NetworkId::Westend))), None);
    let up = loc(1, vec![Junction::AccountId32 { network: None, id: account }]);
    assert_eq!(SovereignAccountOf::convert_location(&up), None);
    assert_eq!(SovereignAccountOf::convert_location(&loc(0, vec![Junction::Parachain(1)])), None);
}

#[test]
fn xcm_config_reserves_and_teleporters() {
    let native = MultiAsset {
        id: XcmAssetId::Concrete(loc(0, vec![])),
        fun: Fungibility::Fungible(10),
    };
    let rialto = loc(0, vec![Junction::GlobalConsensus(NetworkId::Polkadot)]);
    assert!(!XcmConfig::is_reserve(&native, &rialto));
    assert!(XcmConfig::is_teleporter(&native, &rialto));
    assert!(!XcmConfig::is_teleporter(&native, &loc(1, vec![])));
    let here = XcmConfig::universal_location();
    assert!(is_gc(&here[0], NetworkId::Kusama));
}
