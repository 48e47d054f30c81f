//! Relative locations of consensus systems, and their counterparts in the `staging_xcm` crate.
use staging_xcm::v3::BodyId as OutsideBodyId;
use staging_xcm::v3::BodyPart as OutsideBodyPart;
use staging_xcm::v3::Junction as OutsideJunction;
use staging_xcm::v3::Junctions as OutsideJunctions;
use staging_xcm::v3::MultiLocation as OutsideLocation;
use staging_xcm::v3::NetworkId as OutsideNetworkId;
use vstd::prelude::*;

verus! {

/// A data structure existing within consensus, identified globally.
#[derive(Clone, Copy, Debug, PartialEq, Eq)]
pub enum NetworkId {
    /// The network with this genesis block hash.
    ByGenesis([u8; 32]),
    /// The network whose block of this number has this hash.
    ByFork { block_number: u64, block_hash: [u8; 32] },
    Polkadot,
    Kusama,
    Westend,
    Rococo,
    Wococo,
    /// An Ethereum network, by its chain id.
    Ethereum { chain_id: u64 },
    BitcoinCore,
    BitcoinCash,
}

/// A pluralistic body.
#[derive(Clone, Copy, Debug, PartialEq, Eq)]
pub enum BodyId {
    Unit,
    Moniker([u8; 4]),
    Index(u32),
    Executive,
    Technical,
    Legislative,
    Judicial,
    Defense,
    Administration,
    Treasury,
}

/// A part of a pluralistic body.
#[derive(Clone, Copy, Debug, PartialEq, Eq)]
pub enum BodyPart {
    Voice,
    Members { count: u32 },
    Fraction { nom: u32, denom: u32 },
    AtLeastProportion { nom: u32, denom: u32 },
    MoreThanProportion { nom: u32, denom: u32 },
}

/// A single step of a path, over some representation `N` of networks, `B` of bodies and `P` of
/// parts of bodies.
#[derive(Clone, Copy, Debug, PartialEq, Eq)]
pub enum JunctionOf<N, B, P> {
    Parachain(u32),
    AccountId32 { network: Option<N>, id: [u8; 32] },
    AccountIndex64 { network: Option<N>, index: u64 },
    AccountKey20 { network: Option<N>, key: [u8; 20] },
    PalletInstance(u8),
    GeneralIndex(u128),
    GeneralKey { length: u8, data: [u8; 32] },
    OnlyChild,
    Plurality { id: B, part: P },
    GlobalConsensus(N),
}

/// A single step of the path of a location.
pub type Junction = JunctionOf<NetworkId, BodyId, BodyPart>;

/// The interior part of a location: at most eight steps.
#[derive(Clone, Copy, Debug, PartialEq, Eq)]
pub enum Junctions {
    Here,
    X1(Junction),
    X2(Junction, Junction),
    X3(Junction, Junction, Junction),
    X4(Junction, Junction, Junction, Junction),
    X5(Junction, Junction, Junction, Junction, Junction),
    X6(Junction, Junction, Junction, Junction, Junction, Junction),
    X7(Junction, Junction, Junction, Junction, Junction, Junction, Junction),
    X8(Junction, Junction, Junction, Junction, Junction, Junction, Junction, Junction),
}

/// The location of one consensus system relative to another: up `parents` times, then down
/// along `interior`.
#[derive(Clone, Copy, Debug, PartialEq, Eq)]
pub struct MultiLocation {
    pub parents: u8,
    pub interior: Junctions,
}

/// What a location says: how far it goes up, and the path that it then follows.
pub struct LocationView {
    pub parents: u8,
    pub path: Seq<Junction>,
}

impl View for Junctions {
    type V = Seq<Junction>;

    open spec fn view(&self) -> Seq<Junction> {
        match *self {
            Junctions::Here => seq![],
            Junctions::X1(a) => seq![a],
            Junctions::X2(a, b) => seq![a, b],
            Junctions::X3(a, b, c) => seq![a, b, c],
            Junctions::X4(a, b, c, d) => seq![a, b, c, d],
            Junctions::X5(a, b, c, d, e) => seq![a, b, c, d, e],
            Junctions::X6(a, b, c, d, e, f) => seq![a, b, c, d, e, f],
            Junctions::X7(a, b, c, d, e, f, g) => seq![a, b, c, d, e, f, g],
            Junctions::X8(a, b, c, d, e, f, g, h) => seq![a, b, c, d, e, f, g, h],
        }
    }
}

impl View for MultiLocation {
    type V = LocationView;

    open spec fn view(&self) -> LocationView {
        LocationView { parents: self.parents, path: self.interior@ }
    }
}

/// `staging_xcm::v3::NetworkId`, carried through unread.
#[verifier::external_type_specification]
#[verifier::external_body]
pub struct ExNetworkId(OutsideNetworkId);

/// `staging_xcm::v3::BodyId`, carried through unread.
#[verifier::external_type_specification]
#[verifier::external_body]
pub struct ExBodyId(OutsideBodyId);

/// `staging_xcm::v3::BodyPart`, carried through unread.
#[verifier::external_type_specification]
#[verifier::external_body]
pub struct ExBodyPart(OutsideBodyPart);

/// `staging_xcm::v3::Junction`, carried through unread.
#[verifier::external_type_specification]
#[verifier::external_body]
pub struct ExJunction(OutsideJunction);

/// `staging_xcm::v3::MultiLocation`, carried through unread.
#[verifier::external_type_specification]
#[verifier::external_body]
pub struct ExMultiLocation(OutsideLocation);

/// The network that a `staging_xcm::v3::NetworkId` stands for.
pub uninterp spec fn network_of(network: OutsideNetworkId) -> NetworkId;

/// The body that a `staging_xcm::v3::BodyId` stands for.
pub uninterp spec fn body_of(id: OutsideBodyId) -> BodyId;

/// The part of a body that a `staging_xcm::v3::BodyPart` stands for.
pub uninterp spec fn part_of(part: OutsideBodyPart) -> BodyPart;

/// The step that a `staging_xcm::v3::Junction` stands for.
pub uninterp spec fn step_of(junction: OutsideJunction) -> Junction;

/// What a `staging_xcm::v3::MultiLocation` holds: its parents and its interior junctions in
/// order.
pub uninterp spec fn location_of(location: OutsideLocation) -> LocationView;

/// The network of an optional `staging_xcm::v3::NetworkId`.
pub open spec fn optional_network_of(network: Option<OutsideNetworkId>) -> Option<NetworkId> {
    match network {
        Some(n) => Some(network_of(n)),
        None => None,
    }
}

/// The step that is made of parts which are still `staging_xcm` values.
pub open spec fn step_of_parts(
    junction: JunctionOf<OutsideNetworkId, OutsideBodyId, OutsideBodyPart>,
) -> Junction {
    match junction {
        JunctionOf::Parachain(id) => JunctionOf::Parachain(id),
        JunctionOf::AccountId32 { network, id } => JunctionOf::AccountId32 {
            network: optional_network_of(network),
            id,
        },
        JunctionOf::AccountIndex64 { network, index } => JunctionOf::AccountIndex64 {
            network: optional_network_of(network),
            index,
        },
        JunctionOf::AccountKey20 { network, key } => JunctionOf::AccountKey20 {
            network: optional_network_of(network),
            key,
        },
        JunctionOf::PalletInstance(index) => JunctionOf::PalletInstance(index),
        JunctionOf::GeneralIndex(index) => JunctionOf::GeneralIndex(index),
        JunctionOf::GeneralKey { length, data } => JunctionOf::GeneralKey { length, data },
        JunctionOf::OnlyChild => JunctionOf::OnlyChild,
        JunctionOf::Plurality { id, part } => JunctionOf::Plurality {
            id: body_of(id),
            part: part_of(part),
        },
        JunctionOf::GlobalConsensus(network) => JunctionOf::GlobalConsensus(network_of(network)),
    }
}

/// The `staging_xcm::v3::NetworkId` of the same name and fields.
#[verifier::external_body]
fn outside_network(network: NetworkId) -> (r: OutsideNetworkId)
    ensures
        network_of(r) == network,
{
    match network {
        NetworkId::ByGenesis(hash) => OutsideNetworkId::ByGenesis(hash),
        NetworkId::ByFork { block_number, block_hash } => {
            OutsideNetworkId::ByFork { block_number, block_hash }
        },
        NetworkId::Polkadot => OutsideNetworkId::Polkadot,
        NetworkId::Kusama => OutsideNetworkId::Kusama,
        NetworkId::Westend => OutsideNetworkId::Westend,
        NetworkId::Rococo => OutsideNetworkId::Rococo,
        NetworkId::Wococo => OutsideNetworkId::Wococo,
        NetworkId::Ethereum { chain_id } => OutsideNetworkId::Ethereum { chain_id },
        NetworkId::BitcoinCore => OutsideNetworkId::BitcoinCore,
        NetworkId::BitcoinCash => OutsideNetworkId::BitcoinCash,
    }
}

/// The `staging_xcm::v3::BodyId` of the same name and fields.
#[verifier::external_body]
fn outside_body(id: BodyId) -> (r: OutsideBodyId)
    ensures
        body_of(r) == id,
{
    match id {
        BodyId::Unit => OutsideBodyId::Unit,
        BodyId::Moniker(name) => OutsideBodyId::Moniker(name),
        BodyId::Index(index) => OutsideBodyId::Index(index),
        BodyId::Executive => OutsideBodyId::Executive,
        BodyId::Technical => OutsideBodyId::Technical,
        BodyId::Legislative => OutsideBodyId::Legislative,
        BodyId::Judicial => OutsideBodyId::Judicial,
        BodyId::Defense => OutsideBodyId::Defense,
        BodyId::Administration => OutsideBodyId::Administration,
        BodyId::Treasury => OutsideBodyId::Treasury,
    }
}

/// The `staging_xcm::v3::BodyPart` of the same name and fields.
#[verifier::external_body]
fn outside_part(part: BodyPart) -> (r: OutsideBodyPart)
    ensures
        part_of(r) == part,
{
    match part {
        BodyPart::Voice => OutsideBodyPart::Voice,
        BodyPart::Members { count } => OutsideBodyPart::Members { count },
        BodyPart::Fraction { nom, denom } => OutsideBodyPart::Fraction { nom, denom },
        BodyPart::AtLeastProportion { nom, denom } => {
            OutsideBodyPart::AtLeastProportion { nom, denom }
        },
        BodyPart::MoreThanProportion { nom, denom } => {
            OutsideBodyPart::MoreThanProportion { nom, denom }
        },
    }
}

/// The `staging_xcm::v3::Junction` of the same name and fields.
#[verifier::external_body]
fn outside_junction(
    junction: JunctionOf<OutsideNetworkId, OutsideBodyId, OutsideBodyPart>,
) -> (r: OutsideJunction)
    ensures
        step_of(r) == step_of_parts(junction),
{
    match junction {
        JunctionOf::Parachain(id) => OutsideJunction::Parachain(id),
        JunctionOf::AccountId32 { network, id } => OutsideJunction::AccountId32 { network, id },
        JunctionOf::AccountIndex64 { network, index } => OutsideJunction::AccountIndex64 { network, index },
        JunctionOf::AccountKey20 { network, key } => OutsideJunction::AccountKey20 { network, key },
        JunctionOf::PalletInstance(index) => OutsideJunction::PalletInstance(index),
        JunctionOf::GeneralIndex(index) => OutsideJunction::GeneralIndex(index),
        JunctionOf::GeneralKey { length, data } => OutsideJunction::GeneralKey { length, data },
        JunctionOf::OnlyChild => OutsideJunction::OnlyChild,
        JunctionOf::Plurality { id, part } => OutsideJunction::Plurality { id, part },
        JunctionOf::GlobalConsensus(network) => OutsideJunction::GlobalConsensus(network),
    }
}

/// `staging_xcm::v3::MultiLocation::new` with the interior `Here`: the location with that many
/// parents and no step.
#[verifier::external_body]
fn outside_ancestor(parents: u8) -> (r: OutsideLocation)
    ensures
        location_of(r) == (LocationView { parents, path: seq![] }),
{
    OutsideLocation::new(parents, OutsideJunctions::Here)
}

/// `staging_xcm::v3::MultiLocation::push_interior`: appends a step if there are fewer than
/// eight, and otherwise hands the step back and changes nothing.
#[verifier::external_body]
fn push_interior(location: &mut OutsideLocation, junction: OutsideJunction) -> (r: Result<
    (),
    OutsideJunction,
>)
    ensures
        r is Ok <==> location_of(*old(location)).path.len() < 8,
        r is Ok ==> location_of(*final(location)) == (LocationView {
            parents: location_of(*old(location)).parents,
            path: location_of(*old(location)).path.push(step_of(junction)),
        }),
        r is Err ==> location_of(*final(location)) == location_of(*old(location)),
{
    location.push_interior(junction)
}

/// Converts an optional network.
fn optional_outside_network(network: Option<NetworkId>) -> (r: Option<OutsideNetworkId>)
    ensures
        optional_network_of(r) == network,
{
    match network {
        Some(n) => Some(outside_network(n)),
        None => None,
    }
}

impl JunctionOf<NetworkId, BodyId, BodyPart> {
    /// The same step as a value of the `staging_xcm` crate.
    fn to_outside(self) -> (r: OutsideJunction)
        ensures
            step_of(r) == self,
    {
        let parts = match self {
            JunctionOf::Parachain(id) => JunctionOf::Parachain(id),
            JunctionOf::AccountId32 { network, id } => JunctionOf::AccountId32 {
                network: optional_outside_network(network),
                id,
            },
            JunctionOf::AccountIndex64 { network, index } => JunctionOf::AccountIndex64 {
                network: optional_outside_network(network),
                index,
            },
            JunctionOf::AccountKey20 { network, key } => JunctionOf::AccountKey20 {
                network: optional_outside_network(network),
                key,
            },
            JunctionOf::PalletInstance(index) => JunctionOf::PalletInstance(index),
            JunctionOf::GeneralIndex(index) => JunctionOf::GeneralIndex(index),
            JunctionOf::GeneralKey { length, data } => JunctionOf::GeneralKey { length, data },
            JunctionOf::OnlyChild => JunctionOf::OnlyChild,
            JunctionOf::Plurality { id, part } => JunctionOf::Plurality {
                id: outside_body(id),
                part: outside_part(part),
            },
            JunctionOf::GlobalConsensus(network) => JunctionOf::GlobalConsensus(
                outside_network(network),
            ),
        };
        outside_junction(parts)
    }
}

impl Junctions {
    /// The steps in order.
    pub fn to_vec(&self) -> (r: Vec<Junction>)
        ensures
            r@ == self@,
    {
        match *self {
            Junctions::Here => Vec::new(),
            Junctions::X1(a) => vec![a],
            Junctions::X2(a, b) => vec![a, b],
            Junctions::X3(a, b, c) => vec![a, b, c],
            Junctions::X4(a, b, c, d) => vec![a, b, c, d],
            Junctions::X5(a, b, c, d, e) => vec![a, b, c, d, e],
            Junctions::X6(a, b, c, d, e, f) => vec![a, b, c, d, e, f],
            Junctions::X7(a, b, c, d, e, f, g) => vec![a, b, c, d, e, f, g],
            Junctions::X8(a, b, c, d, e, f, g, h) => vec![a, b, c, d, e, f, g, h],
        }
    }
}

impl MultiLocation {
    /// The location of the parent of the local system.
    pub fn parent() -> (r: MultiLocation)
        ensures
            r == (MultiLocation { parents: 1, interior: Junctions::Here }),
    {
        MultiLocation { parents: 1, interior: Junctions::Here }
    }

    /// The same location as a value of the `staging_xcm` crate.
    pub fn to_outside(&self) -> (r: OutsideLocation)
        ensures
            location_of(r) == self@,
    {
        let steps = self.interior.to_vec();
        let mut location = outside_ancestor(self.parents);
        let mut i: usize = 0;
        assert(self.interior@.take(0) =~= seq![]);
        while i < steps.len()
            invariant
                i <= steps@.len() <= 8,
                steps@ == self.interior@,
                location_of(location) == (LocationView {
                    parents: self.parents,
                    path: self.interior@.take(i as int),
                }),
            decreases steps.len() - i,
        {
            let pushed = push_interior(&mut location, steps[i].to_outside());
            assert(self.interior@.take(i as int).push(self.interior@[i as int])
                =~= self.interior@.take(i + 1));
            i += 1;
        }
        assert(self.interior@.take(i as int) =~= self.interior@);
        location
    }
}

/// Different locations say different things: a location is determined by its view.
pub proof fn location_view_is_injective(a: MultiLocation, b: MultiLocation)
    requires
        a@ == b@,
    ensures
        a == b,
{
    let s = a.interior@;
    let t = b.interior@;
    assert(s.len() == t.len());
    assert(s[0] == t[0] && s[1] == t[1] && s[2] == t[2] && s[3] == t[3]);
    assert(s[4] == t[4] && s[5] == t[5] && s[6] == t[6] && s[7] == t[7]);
}

/// A path lists the steps of a location in order, none left out.
pub proof fn path_lists_every_step(
    a: Junction,
    b: Junction,
    c: Junction,
    d: Junction,
    e: Junction,
    f: Junction,
    g: Junction,
    h: Junction,
)
    ensures
        Junctions::Here@ == Seq::<Junction>::empty(),
        Junctions::X1(a)@ == seq![a],
        Junctions::X2(a, b)@ == seq![a, b],
        Junctions::X3(a, b, c)@ == seq![a, b, c],
        Junctions::X4(a, b, c, d)@ == seq![a, b, c, d],
        Junctions::X5(a, b, c, d, e)@ == seq![a, b, c, d, e],
        Junctions::X6(a, b, c, d, e, f)@ == seq![a, b, c, d, e, f],
        Junctions::X7(a, b, c, d, e, f, g)@ == seq![a, b, c, d, e, f, g],
        Junctions::X8(a, b, c, d, e, f, g, h)@ == seq![a, b, c, d, e, f, g, h],
{
}

/// A location that is handed to the `staging_xcm` crate keeps its parents and its path, so that
/// different locations stay different there.
pub proof fn outside_locations_stay_apart(
    a: MultiLocation,
    b: MultiLocation,
    r: OutsideLocation,
    s: OutsideLocation,
)
    requires
        call_ensures(MultiLocation::to_outside, (&a,), r),
        call_ensures(MultiLocation::to_outside, (&b,), s),
    ensures
        location_of(r).parents == a.parents,
        location_of(r).path == a.interior@,
        location_of(r) == location_of(s) <==> a == b,
{
    if a@ == b@ {
        location_view_is_injective(a, b);
    }
}

/// The steps of a location, written out, are its path.
pub proof fn steps_are_the_path(interior: Junctions, r: Vec<Junction>)
    requires
        call_ensures(Junctions::to_vec, (&interior,), r),
    ensures
        r@ == interior@,
        r@.len() <= 8,
{
}

/// The parent is one step up, with nothing below it.
pub proof fn parent_is_one_step_up(r: MultiLocation)
    requires
        call_ensures(MultiLocation::parent, (), r),
    ensures
        r.parents == 1,
        r.interior@.len() == 0,
{
}

} // verus!
