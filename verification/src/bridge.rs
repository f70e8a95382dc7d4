//! The two XCM bridges of this chain: to the Rialto chain and to the Rialto parachain.
//! Each says which destinations it serves, builds its own destination and names its lane.
use vstd::prelude::*;
use crate::location::{
    network_interior, relative_to, rialto_network, rialto_parachain_network,
    spec_network_interior, spec_relative_to, spec_universal_location,
    universal_location, lemma_other_network_from_here, CustomNetworkId, Junction,
    LocationView, MultiLocation, NetworkId,
};

verus! {

/// The parachain id of the Rialto parachain.
pub const RIALTO_PARACHAIN_ID: u32 = 2000;

/// The identifier of a message lane.
#[derive(Clone, Copy, Debug)]
pub struct LaneId(pub [u8; 4]);

/// The lane that XCM messages to the Rialto chain use.
pub open spec fn spec_rialto_xcm_lane() -> Seq<u8> {
    seq![0u8, 0u8, 0u8, 0u8]
}

/// The lane that XCM messages to the Rialto parachain use.
pub open spec fn spec_rialto_parachain_xcm_lane() -> Seq<u8> {
    seq![0u8, 0u8, 0u8, 0u8]
}

/// The destinations that the bridge to the Rialto chain serves: the Rialto network,
/// one parent up.
pub open spec fn rialto_accepts(dest: LocationView) -> bool {
    dest.parents == 1 && dest.interior == seq![Junction::GlobalConsensus(NetworkId::Polkadot)]
}

/// The destinations that the bridge to the Rialto parachain serves: the Rialto parachain
/// inside the Rialto network, one parent up.
pub open spec fn rialto_parachain_accepts(dest: LocationView) -> bool {
    dest.parents == 1 && dest.interior == seq![
        Junction::GlobalConsensus(rialto_network()),
        Junction::Parachain(RIALTO_PARACHAIN_ID),
    ]
}

/// The bridge to the Rialto chain.
pub struct ToRialtoBridge;

impl ToRialtoBridge {
    /// Where this chain stands in the consensus universe.
    pub fn universal_location() -> (res: Vec<Junction>)
        ensures
            res@ == spec_universal_location(),
    {
        universal_location()
    }

    /// Whether this bridge serves `dest`.
    pub fn verify_destination(dest: &MultiLocation) -> (r: bool)
        ensures
            r == rialto_accepts(dest@),
            r <==> (dest.parents == 1 && dest.interior@.len() == 1 && dest.interior@[0]
                == Junction::GlobalConsensus(NetworkId::Polkadot)),
    {
        if dest.parents != 1 || dest.interior.len() != 1 {
            return false;
        }
        match &dest.interior[0] {
            Junction::GlobalConsensus(NetworkId::Polkadot) => {
                assert(dest.interior@ =~= seq![Junction::GlobalConsensus(NetworkId::Polkadot)]);
                true
            },
            _ => false,
        }
    }

    /// The Rialto network as seen from this chain.
    pub fn build_destination() -> (res: MultiLocation)
        ensures
            res@ == spec_relative_to(
                spec_network_interior(rialto_network()),
                spec_universal_location(),
            ),
            res@ == (LocationView {
                parents: 1,
                interior: seq![Junction::GlobalConsensus(NetworkId::Polkadot)],
            }),
    {
        let dest = network_interior(CustomNetworkId::Rialto.as_network_id());
        let here = universal_location();
        proof {
            lemma_other_network_from_here(rialto_network());
        }
        relative_to(&dest, &here)
    }

    /// The lane that this bridge sends XCM messages over.
    pub fn xcm_lane() -> (res: LaneId)
        ensures
            res.0@ == spec_rialto_xcm_lane(),
    {
        let lane = LaneId([0u8, 0u8, 0u8, 0u8]);
        assert(lane.0@ =~= spec_rialto_xcm_lane());
        lane
    }
}

/// The bridge to the Rialto parachain.
pub struct ToRialtoParachainBridge;

impl ToRialtoParachainBridge {
    /// Where this chain stands in the consensus universe.
    pub fn universal_location() -> (res: Vec<Junction>)
        ensures
            res@ == spec_universal_location(),
    {
        universal_location()
    }

    /// Whether this bridge serves `dest`.
    pub fn verify_destination(dest: &MultiLocation) -> (r: bool)
        ensures
            r == rialto_parachain_accepts(dest@),
            r <==> (dest.parents == 1 && dest.interior@.len() == 2 && dest.interior@[0]
                == Junction::GlobalConsensus(NetworkId::Polkadot) && dest.interior@[1]
                == Junction::Parachain(2000)),
    {
        if dest.parents != 1 || dest.interior.len() != 2 {
            return false;
        }
        let rialto = CustomNetworkId::Rialto.as_network_id();
        match (&dest.interior[0], &dest.interior[1]) {
            (Junction::GlobalConsensus(r), Junction::Parachain(id)) => {
                if r.equals(&rialto) && *id == RIALTO_PARACHAIN_ID {
                    assert(dest.interior@ =~= seq![
                        Junction::GlobalConsensus(rialto_network()),
                        Junction::Parachain(RIALTO_PARACHAIN_ID),
                    ]);
                    true
                } else {
                    false
                }
            },
            _ => false,
        }
    }

    /// The Rialto parachain's network as seen from this chain.
    pub fn build_destination() -> (res: MultiLocation)
        ensures
            res@ == spec_relative_to(
                spec_network_interior(rialto_parachain_network()),
                spec_universal_location(),
            ),
            res@ == (LocationView {
                parents: 1,
                interior: seq![Junction::GlobalConsensus(NetworkId::Westend)],
            }),
    {
        let dest = network_interior(CustomNetworkId::RialtoParachain.as_network_id());
        let here = universal_location();
        proof {
            lemma_other_network_from_here(rialto_parachain_network());
        }
        relative_to(&dest, &here)
    }

    /// The lane that this bridge sends XCM messages over.
    pub fn xcm_lane() -> (res: LaneId)
        ensures
            res.0@ == spec_rialto_parachain_xcm_lane(),
    {
        let lane = LaneId([0u8, 0u8, 0u8, 0u8]);
        assert(lane.0@ =~= spec_rialto_parachain_xcm_lane());
        lane
    }
}

/// The destination that the bridge to the Rialto chain builds is one that it serves.
pub proof fn lemma_rialto_bridge_serves_its_destination()
    ensures
        rialto_accepts(
            spec_relative_to(spec_network_interior(rialto_network()), spec_universal_location()),
        ),
{
    lemma_other_network_from_here(rialto_network());
}

/// The two bridges serve disjoint sets of destinations, so a router that tries them in
/// turn never has a choice to make.
pub proof fn lemma_bridges_serve_disjoint_destinations(dest: LocationView)
    ensures
        !(rialto_accepts(dest) && rialto_parachain_accepts(dest)),
{
    if rialto_accepts(dest) {
        assert(dest.interior.len() == 1);
    }
}

/// The bridge that an outgoing XCM message takes.
#[derive(Clone, Copy, Debug, PartialEq, Eq, Structural)]
pub enum XcmBridgeRoute {
    Rialto,
    RialtoParachain,
}

/// The bridge that a message to `dest` takes: the first bridge that serves `dest`.
pub open spec fn spec_route(dest: LocationView) -> Option<XcmBridgeRoute> {
    if rialto_accepts(dest) {
        Some(XcmBridgeRoute::Rialto)
    } else if rialto_parachain_accepts(dest) {
        Some(XcmBridgeRoute::RialtoParachain)
    } else {
        None
    }
}

/// The XCM router of this chain: it hands a message to the first of its bridges that
/// serves the message's destination.
pub struct XcmRouter;

impl XcmRouter {
    /// The bridge that a message to `dest` takes, if any.
    pub fn route(dest: &MultiLocation) -> (res: Option<XcmBridgeRoute>)
        ensures
            res == spec_route(dest@),
            res == Some(XcmBridgeRoute::Rialto) ==> dest.parents == 1 && dest.interior@
                == seq![Junction::GlobalConsensus(NetworkId::Polkadot)],
            res == Some(XcmBridgeRoute::RialtoParachain) ==> dest.parents == 1
                && dest.interior@ == seq![
                Junction::GlobalConsensus(NetworkId::Polkadot),
                Junction::Parachain(2000),
            ],
            res is None ==> !(dest.parents == 1 && (dest.interior@ == seq![
                Junction::GlobalConsensus(NetworkId::Polkadot),
            ] || dest.interior@ == seq![
                Junction::GlobalConsensus(NetworkId::Polkadot),
                Junction::Parachain(2000),
            ])),
    {
        if ToRialtoBridge::verify_destination(dest) {
            Some(XcmBridgeRoute::Rialto)
        } else if ToRialtoParachainBridge::verify_destination(dest) {
            Some(XcmBridgeRoute::RialtoParachain)
        } else {
            None
        }
    }
}

/// A message goes over a bridge only to a destination inside the Rialto network: over the
/// Rialto bridge only to the Rialto network itself, over the Rialto parachain bridge only
/// to parachain 2000 of the Rialto network, one parent up in both cases.
pub proof fn lemma_routes_stay_inside_rialto(dest: LocationView)
    ensures
        spec_route(dest) == Some(XcmBridgeRoute::Rialto) <==> dest.parents == 1 && dest.interior
            == seq![Junction::GlobalConsensus(NetworkId::Polkadot)],
        spec_route(dest) == Some(XcmBridgeRoute::RialtoParachain) <==> dest.parents == 1
            && dest.interior == seq![
            Junction::GlobalConsensus(NetworkId::Polkadot),
            Junction::Parachain(2000),
        ],
{
    lemma_bridges_serve_disjoint_destinations(dest);
}

/// The router takes a message to the bridge that serves its destination, whichever order
/// the bridges are tried in.
pub proof fn lemma_route_is_the_serving_bridge(dest: LocationView)
    ensures
        spec_route(dest) == Some(XcmBridgeRoute::Rialto) <==> rialto_accepts(dest),
        spec_route(dest) == Some(XcmBridgeRoute::RialtoParachain) <==> rialto_parachain_accepts(
            dest,
        ),
        spec_route(dest) is None <==> !rialto_accepts(dest) && !rialto_parachain_accepts(dest),
{
    lemma_bridges_serve_disjoint_destinations(dest);
}

} // verus!
