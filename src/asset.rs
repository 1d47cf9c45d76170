//! The local asset and its two accepted location forms.
use vstd::prelude::*;
use crate::location::{Junction, Location, LocationModel};

verus! {

/// The assets this chain recognizes as its own.
#[derive(PartialEq, Eq, Structural, Clone, Copy, Debug)]
pub enum CurrencyId {
    TEER,
}

/// How an asset is identified: by where it lives, or by an opaque name.
#[derive(Debug)]
pub enum AssetId {
    Concrete(Location),
    Abstract([u8; 32]),
}

/// An amount of a fungible asset together with its identity.
#[derive(Debug)]
pub struct Asset {
    pub id: AssetId,
    pub amount: u128,
}

/// The mathematical value of an `AssetId`.
pub ghost enum AssetIdModel {
    Concrete(LocationModel),
    Abstract([u8; 32]),
}

impl View for AssetId {
    type V = AssetIdModel;

    open spec fn view(&self) -> AssetIdModel {
        match self {
            AssetId::Concrete(l) => AssetIdModel::Concrete(l@),
            AssetId::Abstract(k) => AssetIdModel::Abstract(*k),
        }
    }
}

/// The bytes of the native token's key: `TEER` followed by ASCII zeros.
pub open spec fn teer_key_bytes() -> Seq<u8> {
    seq![84u8, 69u8, 69u8, 82u8] + Seq::new(28, |i: int| 48u8)
}

/// Whether a junction is the native token's key.
pub open spec fn is_teer_key(j: Junction) -> bool {
    match j {
        Junction::GeneralKey { length, data } => length == 4 && data@ == teer_key_bytes(),
        _ => false,
    }
}

/// The relative form of the native token's location: one hop up, then this
/// chain, then the token's key.
pub open spec fn is_relative_teer(m: LocationModel, self_para_id: u32) -> bool {
    &&& m.parents == 1
    &&& m.interior.len() == 2
    &&& m.interior[0] == Junction::Parachain(self_para_id)
    &&& is_teer_key(m.interior[1])
}

/// The local form of the native token's location: the token's key alone.
pub open spec fn is_local_teer(m: LocationModel) -> bool {
    &&& m.parents == 0
    &&& m.interior.len() == 1
    &&& is_teer_key(m.interior[0])
}

/// Which local asset, if any, a location names.
pub open spec fn location_to_currency(m: LocationModel, self_para_id: u32) -> Option<CurrencyId> {
    if is_relative_teer(m, self_para_id) || is_local_teer(m) {
        Some(CurrencyId::TEER)
    } else {
        None
    }
}

/// Which local asset, if any, an asset identity names.
pub open spec fn asset_id_to_currency(id: AssetIdModel, self_para_id: u32) -> Option<CurrencyId> {
    match id {
        AssetIdModel::Concrete(m) => location_to_currency(m, self_para_id),
        AssetIdModel::Abstract(_) => None,
    }
}

/// The native token's key junction.
pub fn teer_general_key() -> (r: Junction)
    ensures
        is_teer_key(r),
{
    let data: [u8; 32] = [
        84, 69, 69, 82, 48, 48, 48, 48, 48, 48, 48, 48, 48, 48, 48, 48,
        48, 48, 48, 48, 48, 48, 48, 48, 48, 48, 48, 48, 48, 48, 48, 48,
    ];
    assert(data@ =~= teer_key_bytes());
    Junction::GeneralKey { length: 4, data }
}

/// Converts between the local asset and its locations, for the chain whose
/// own parachain id is `self_para_id`.
#[derive(Clone, Copy, Debug)]
pub struct CurrencyIdConvert {
    pub self_para_id: u32,
}

impl CurrencyIdConvert {
    /// The relative location of a local asset.
    pub fn convert_currency(&self, id: CurrencyId) -> (r: Option<Location>)
        ensures
            r matches Some(l) && is_relative_teer(l@, self.self_para_id),
    {
        match id {
            CurrencyId::TEER => Some(
                Location::with_two(1, Junction::Parachain(self.self_para_id), teer_general_key()),
            ),
        }
    }

    /// The local asset that a location names. Only the relative form under
    /// this chain's own id and the local key-only form are accepted.
    pub fn convert(&self, location: &Location) -> (r: Option<CurrencyId>)
        ensures
            r == location_to_currency(location@, self.self_para_id),
    {
        let interior = location.interior();
        if location.parents() == 1 && interior.len() == 2 {
            let para = Junction::Parachain(self.self_para_id);
            if crate::location::junction_eq(&interior[0], &para) && is_teer(&interior[1]) {
                return Some(CurrencyId::TEER);
            }
        } else if location.parents() == 0 && interior.len() == 1 {
            if is_teer(&interior[0]) {
                return Some(CurrencyId::TEER);
            }
        }
        None
    }

    /// The local asset that a concrete asset names; `None` for an abstract one.
    pub fn convert_asset(&self, asset: &Asset) -> (r: Option<CurrencyId>)
        ensures
            r == asset_id_to_currency(asset.id@, self.self_para_id),
    {
        match &asset.id {
            AssetId::Concrete(location) => self.convert(location),
            AssetId::Abstract(_) => None,
        }
    }

    /// The amount of the local asset that an asset carries, for the asset
    /// transactor; `None` when the asset is not the local one.
    pub fn matches_fungible(&self, asset: &Asset) -> (r: Option<u128>)
        ensures
            r == (if asset_id_to_currency(asset.id@, self.self_para_id) == Some(CurrencyId::TEER) {
                Some(asset.amount)
            } else {
                None::<u128>
            }),
    {
        match self.convert_asset(asset) {
            Some(CurrencyId::TEER) => Some(asset.amount),
            None => None,
        }
    }
}

fn is_teer(j: &Junction) -> (r: bool)
    ensures
        r == is_teer_key(*j),
{
    let key = teer_general_key();
    proof {
        broadcast use vstd::array::group_array_axioms;
        if is_teer_key(*j) {
            if let (Junction::GeneralKey { data: a, .. }, Junction::GeneralKey { data: b, .. }) = (*j, key) {
                assert(a =~= b);
            }
        }
    }
    crate::location::junction_eq(j, &key)
}

/// Resolving the location of a local asset gives that asset back.
pub proof fn lemma_currency_round_trip(id: CurrencyId, self_para_id: u32, m: LocationModel)
    requires
        is_relative_teer(m, self_para_id),
    ensures
        location_to_currency(m, self_para_id) == Some(id),
{
    match id {
        CurrencyId::TEER => {},
    }
}

/// A location whose chain scope is another chain's id never names the local
/// asset, whatever key follows it.
pub proof fn lemma_foreign_chain_rejected(m: LocationModel, self_para_id: u32, other: u32)
    requires
        other != self_para_id,
        m.interior.len() > 0,
        m.interior[0] == Junction::Parachain(other),
    ensures
        location_to_currency(m, self_para_id) is None,
{
}

} // verus!
