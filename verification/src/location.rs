//! XCM locations: networks, junctions and multi-locations, as plain values, with the
//! relative-location computation that the bridge routers use.
use vstd::prelude::*;

verus! {

broadcast use vstd::array::group_array_axioms;

/// The most junctions that an interior location holds.
pub const MAX_JUNCTIONS: usize = 8;

/// A global consensus system (the `NetworkId` of XCM v3).
#[derive(Clone, Copy, Debug)]
pub enum NetworkId {
    ByGenesis([u8; 32]),
    ByFork { block_number: u64, block_hash: [u8; 32] },
    Polkadot,
    Kusama,
    Westend,
    Rococo,
    Wococo,
    Ethereum { chain_id: u64 },
    BitcoinCore,
    BitcoinCash,
}

/// One step of an interior location (the `Junction` of XCM v3, without `Plurality`).
#[derive(Clone, Copy, Debug)]
pub enum Junction {
    Parachain(u32),
    AccountId32 { network: Option<NetworkId>, id: [u8; 32] },
    AccountIndex64 { network: Option<NetworkId>, index: u64 },
    AccountKey20 { network: Option<NetworkId>, key: [u8; 20] },
    PalletInstance(u8),
    GeneralIndex(u128),
    GeneralKey { length: u8, data: [u8; 32] },
    OnlyChild,
    GlobalConsensus(NetworkId),
}

/// A location relative to the current one: `parents` steps up, then down the `interior`.
#[derive(Clone, Debug)]
pub struct MultiLocation {
    pub parents: u8,
    pub interior: Vec<Junction>,
}

/// What a `MultiLocation` denotes.
pub struct LocationView {
    pub parents: u8,
    pub interior: Seq<Junction>,
}

impl View for MultiLocation {
    type V = LocationView;

    open spec fn view(&self) -> LocationView {
        LocationView { parents: self.parents, interior: self.interior@ }
    }
}

impl LocationView {
    /// An interior holds at most `MAX_JUNCTIONS` junctions.
    pub open spec fn wf(self) -> bool {
        self.interior.len() <= MAX_JUNCTIONS
    }
}

/// Byte arrays of the same length are equal exactly when their bytes are.
pub fn bytes_eq<const N: usize>(a: &[u8; N], b: &[u8; N]) -> (r: bool)
    ensures
        r == (*a == *b),
{
    let mut i: usize = 0;
    while i < N
        invariant
            i <= N,
            forall|j: int| 0 <= j < i ==> a[j] == b[j],
        decreases N - i,
    {
        if a[i] != b[i] {
            return false;
        }
        i = i + 1;
    }
    assert(*a =~= *b);
    true
}

impl NetworkId {
    /// Structural equality of two networks.
    pub fn equals(&self, other: &NetworkId) -> (r: bool)
        ensures
            r == (*self == *other),
    {
        match (self, other) {
            (NetworkId::ByGenesis(a), NetworkId::ByGenesis(b)) => bytes_eq(a, b),
            (
                NetworkId::ByFork { block_number: n1, block_hash: h1 },
                NetworkId::ByFork { block_number: n2, block_hash: h2 },
            ) => *n1 == *n2 && bytes_eq(h1, h2),
            (NetworkId::Polkadot, NetworkId::Polkadot) => true,
            (NetworkId::Kusama, NetworkId::Kusama) => true,
            (NetworkId::Westend, NetworkId::Westend) => true,
            (NetworkId::Rococo, NetworkId::Rococo) => true,
            (NetworkId::Wococo, NetworkId::Wococo) => true,
            (NetworkId::Ethereum { chain_id: a }, NetworkId::Ethereum { chain_id: b }) => *a == *b,
            (NetworkId::BitcoinCore, NetworkId::BitcoinCore) => true,
            (NetworkId::BitcoinCash, NetworkId::BitcoinCash) => true,
            _ => false,
        }
    }
}

/// Structural equality of two optional networks.
pub fn option_network_eq(a: &Option<NetworkId>, b: &Option<NetworkId>) -> (r: bool)
    ensures
        r == (*a == *b),
{
    match (a, b) {
        (None, None) => true,
        (Some(x), Some(y)) => x.equals(y),
        _ => false,
    }
}

impl Junction {
    /// Structural equality of two junctions.
    pub fn equals(&self, other: &Junction) -> (r: bool)
        ensures
            r == (*self == *other),
    {
        match (self, other) {
            (Junction::Parachain(a), Junction::Parachain(b)) => *a == *b,
            (
                Junction::AccountId32 { network: n1, id: i1 },
                Junction::AccountId32 { network: n2, id: i2 },
            ) => option_network_eq(n1, n2) && bytes_eq(i1, i2),
            (
                Junction::AccountIndex64 { network: n1, index: i1 },
                Junction::AccountIndex64 { network: n2, index: i2 },
            ) => option_network_eq(n1, n2) && *i1 == *i2,
            (
                Junction::AccountKey20 { network: n1, key: k1 },
                Junction::AccountKey20 { network: n2, key: k2 },
            ) => option_network_eq(n1, n2) && bytes_eq(k1, k2),
            (Junction::PalletInstance(a), Junction::PalletInstance(b)) => *a == *b,
            (Junction::GeneralIndex(a), Junction::GeneralIndex(b)) => *a == *b,
            (
                Junction::GeneralKey { length: l1, data: d1 },
                Junction::GeneralKey { length: l2, data: d2 },
            ) => *l1 == *l2 && bytes_eq(d1, d2),
            (Junction::OnlyChild, Junction::OnlyChild) => true,
            (Junction::GlobalConsensus(a), Junction::GlobalConsensus(b)) => a.equals(b),
            _ => false,
        }
    }
}

/// The number of leading junctions, from index `i` on, that `target` and `viewer` share.
pub open spec fn common_prefix_from(target: Seq<Junction>, viewer: Seq<Junction>, i: nat) -> nat
    decreases target.len() - i,
{
    if i < target.len() && i < viewer.len() && target[i as int] == viewer[i as int] {
        common_prefix_from(target, viewer, i + 1)
    } else {
        i
    }
}

/// `target`, an interior location, as seen from the interior location `viewer`: up
/// past the junctions of `viewer` that the two do not share, then down the rest of `target`.
pub open spec fn spec_relative_to(target: Seq<Junction>, viewer: Seq<Junction>) -> LocationView {
    let shared = common_prefix_from(target, viewer, 0);
    LocationView {
        parents: (viewer.len() - shared) as u8,
        interior: target.skip(shared as int),
    }
}

proof fn lemma_common_prefix_shape(t: Seq<Junction>, v: Seq<Junction>, i: nat)
    requires
        i <= t.len(),
        i <= v.len(),
        forall|j: int| 0 <= j < i ==> t[j] == v[j],
    ensures
        i <= common_prefix_from(t, v, i) <= t.len(),
        common_prefix_from(t, v, i) <= v.len(),
        forall|j: int| 0 <= j < common_prefix_from(t, v, i) ==> t[j] == v[j],
        common_prefix_from(t, v, i) == t.len() || common_prefix_from(t, v, i) == v.len()
            || t[common_prefix_from(t, v, i) as int] != v[common_prefix_from(t, v, i) as int],
    decreases t.len() - i,
{
    if i < t.len() && i < v.len() && t[i as int] == v[i as int] {
        lemma_common_prefix_shape(t, v, i + 1);
    }
}

/// Seen from `viewer`, `target` is reached by dropping the longest run of leading
/// junctions that the two share: what is left of `target` is the interior, and each
/// junction of `viewer` past the shared run is one parent.
pub proof fn lemma_relative_to_drops_longest_shared_prefix(target: Seq<Junction>, viewer: Seq<Junction>)
    requires
        target.len() <= MAX_JUNCTIONS,
        viewer.len() <= MAX_JUNCTIONS,
    ensures
        ({
            let r = spec_relative_to(target, viewer);
            let k = target.len() - r.interior.len();
            &&& r.interior.len() <= target.len()
            &&& k <= viewer.len()
            &&& r.interior == target.skip(k)
            &&& target.take(k) == viewer.take(k)
            &&& r.parents == viewer.len() - k
            &&& (k == target.len() || k == viewer.len() || target[k] != viewer[k])
        }),
{
    lemma_common_prefix_shape(target, viewer, 0);
    let k = common_prefix_from(target, viewer, 0);
    assert(target.take(k as int) =~= viewer.take(k as int));
}

/// A location inside the viewer is reached without going up: its interior is what follows
/// the viewer.
pub proof fn lemma_relative_to_inner_location(viewer: Seq<Junction>, suffix: Seq<Junction>)
    requires
        viewer.len() + suffix.len() <= MAX_JUNCTIONS,
    ensures
        spec_relative_to(viewer + suffix, viewer) == (LocationView { parents: 0, interior: suffix }),
{
    let t = viewer + suffix;
    lemma_common_prefix_shape(t, viewer, 0);
    let k = common_prefix_from(t, viewer, 0);
    if k < viewer.len() {
        assert(t[k as int] == viewer[k as int]);
    }
    assert(k == viewer.len());
    assert(t.skip(k as int) =~= suffix);
}

/// `Junctions::relative_to` of the `xcm` crate, whose whole behaviour is `spec_relative_to`:
/// the shared leading junctions are dropped and each remaining junction of the viewer
/// becomes one parent.
pub fn relative_to(target: &Vec<Junction>, viewer: &Vec<Junction>) -> (res: MultiLocation)
    requires
        target@.len() <= MAX_JUNCTIONS,
        viewer@.len() <= MAX_JUNCTIONS,
    ensures
        res@ == spec_relative_to(target@, viewer@),
        res@.wf(),
        res@.interior.len() <= target@.len(),
        target@.len() - res@.interior.len() <= viewer@.len(),
        res@.interior == target@.skip(target@.len() - res@.interior.len()),
        target@.take(target@.len() - res@.interior.len()) == viewer@.take(
            target@.len() - res@.interior.len(),
        ),
        res@.parents == viewer@.len() - (target@.len() - res@.interior.len()),
        res@.interior.len() == 0 || target@.len() - res@.interior.len() == viewer@.len()
            || target@[target@.len() - res@.interior.len()] != viewer@[target@.len()
            - res@.interior.len()],
{
    proof {
        lemma_relative_to_drops_longest_shared_prefix(target@, viewer@);
    }
    let mut i: usize = 0;
    while i < target.len() && i < viewer.len() && target[i].equals(&viewer[i])
        invariant
            i <= target@.len(),
            i <= viewer@.len(),
            common_prefix_from(target@, viewer@, i as nat) == common_prefix_from(target@, viewer@, 0),
        decreases target@.len() - i,
    {
        i = i + 1;
    }
    let mut interior: Vec<Junction> = Vec::new();
    let mut k: usize = i;
    while k < target.len()
        invariant
            i <= k <= target@.len(),
            interior@ == target@.subrange(i as int, k as int),
        decreases target@.len() - k,
    {
        interior.push(target[k]);
        k = k + 1;
        assert(interior@ =~= target@.subrange(i as int, k as int));
    }
    assert(interior@ =~= target@.skip(i as int));
    MultiLocation { parents: (viewer.len() - i) as u8, interior }
}

/// The networks of the chains that this bridge connects (`CustomNetworkId` of the bridge
/// runtime common code).
#[derive(Clone, Copy, Debug)]
pub enum CustomNetworkId {
    Millau,
    Rialto,
    RialtoParachain,
}

pub open spec fn spec_network_of(c: CustomNetworkId) -> NetworkId {
    match c {
        CustomNetworkId::Millau => NetworkId::Kusama,
        CustomNetworkId::Rialto => NetworkId::Polkadot,
        CustomNetworkId::RialtoParachain => NetworkId::Westend,
    }
}

impl CustomNetworkId {
    /// The XCM network that stands for this chain.
    pub fn as_network_id(&self) -> (r: NetworkId)
        ensures
            r == spec_network_of(*self),
    {
        match self {
            CustomNetworkId::Millau => NetworkId::Kusama,
            CustomNetworkId::Rialto => NetworkId::Polkadot,
            CustomNetworkId::RialtoParachain => NetworkId::Westend,
        }
    }
}

/// The network of this chain.
pub open spec fn this_network() -> NetworkId {
    spec_network_of(CustomNetworkId::Millau)
}

/// The network of the Rialto chain.
pub open spec fn rialto_network() -> NetworkId {
    spec_network_of(CustomNetworkId::Rialto)
}

/// The network of the Rialto parachain.
pub open spec fn rialto_parachain_network() -> NetworkId {
    spec_network_of(CustomNetworkId::RialtoParachain)
}

/// The interior location that stands for a whole network.
pub open spec fn spec_network_interior(n: NetworkId) -> Seq<Junction> {
    seq![Junction::GlobalConsensus(n)]
}

/// The interior location that stands for a whole network: its global consensus.
pub fn network_interior(n: NetworkId) -> (res: Vec<Junction>)
    ensures
        res@ == spec_network_interior(n),
{
    let mut v: Vec<Junction> = Vec::new();
    v.push(Junction::GlobalConsensus(n));
    assert(v@ =~= spec_network_interior(n));
    v
}

/// Where this chain stands in the consensus universe: its own network.
pub open spec fn spec_universal_location() -> Seq<Junction> {
    spec_network_interior(this_network())
}

/// Where this chain stands in the consensus universe (`UniversalLocation`).
pub fn universal_location() -> (res: Vec<Junction>)
    ensures
        res@ == spec_universal_location(),
{
    network_interior(CustomNetworkId::Millau.as_network_id())
}

impl MultiLocation {
    /// A location from its parts (`MultiLocation::new`).
    pub fn new(parents: u8, interior: Vec<Junction>) -> (res: MultiLocation)
        ensures
            res.parents == parents,
            res.interior@ == interior@,
    {
        MultiLocation { parents, interior }
    }
}

/// Seen from this chain, another whole network is one parent up and then down into
/// that network's global consensus.
pub proof fn lemma_other_network_from_here(n: NetworkId)
    requires
        n != this_network(),
    ensures
        spec_relative_to(spec_network_interior(n), spec_universal_location()) == (LocationView {
            parents: 1,
            interior: spec_network_interior(n),
        }),
{
    let t = spec_network_interior(n);
    let v = spec_universal_location();
    assert(t[0] != v[0]);
    assert(common_prefix_from(t, v, 0) == 0);
    assert(t.skip(0) =~= t);
}


impl MultiLocation {
    /// Whether two locations are the same.
    pub fn equals(&self, other: &MultiLocation) -> (r: bool)
        ensures
            r == (self@ == other@),
    {
        if self.parents != other.parents || self.interior.len() != other.interior.len() {
            return false;
        }
        let mut i: usize = 0;
        while i < self.interior.len()
            invariant
                i <= self.interior@.len(),
                self.interior@.len() == other.interior@.len(),
                forall|j: int| 0 <= j < i ==> self.interior@[j] == other.interior@[j],
            decreases self.interior@.len() - i,
        {
            if !self.interior[i].equals(&other.interior[i]) {
                return false;
            }
            i = i + 1;
        }
        assert(self.interior@ =~= other.interior@);
        true
    }
}

} // verus!
