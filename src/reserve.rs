//! Reserve resolution: which location holds custody of an inbound asset.
use vstd::prelude::*;
use crate::asset::{Asset, AssetId, AssetIdModel};
use crate::location::{Junction, Location, LocationModel, here_model, loc, parent_model};

verus! {

/// The chain part of a location, as seen from here: the sibling or child
/// chain it names, the parent when it lies under the parent otherwise, and
/// nothing for any other shape.
pub open spec fn chain_part(m: LocationModel) -> Option<LocationModel> {
    if m.parents == 1 && m.interior.len() > 0 && m.interior[0] is Parachain {
        Some(loc(1, seq![m.interior[0]]))
    } else if m.parents == 1 {
        Some(parent_model())
    } else if m.parents == 0 && m.interior.len() > 0 && m.interior[0] is Parachain {
        Some(loc(0, seq![m.interior[0]]))
    } else {
        None
    }
}

/// The reserve of an asset in the relative view: here for a location under
/// this scope that does not start with a chain, else its chain part.
pub open spec fn relative_reserve_of(id: AssetIdModel) -> Option<LocationModel> {
    match id {
        AssetIdModel::Concrete(m) => if m.parents == 0 && !(m.interior.len() > 0
            && m.interior[0] is Parachain) {
            Some(here_model())
        } else {
            chain_part(m)
        },
        AssetIdModel::Abstract(_) => None,
    }
}

/// The relative reserve with the absolute form of this chain collapsed to
/// here.
pub open spec fn canonical_reserve(
    relative: Option<LocationModel>,
    self_absolute: LocationModel,
) -> Option<LocationModel> {
    match relative {
        Some(r) => if r == self_absolute {
            Some(here_model())
        } else {
            Some(r)
        },
        None => None,
    }
}

/// The chain part of a location.
pub fn chain_part_of(location: &Location) -> (r: Option<Location>)
    ensures
        match r {
            Some(l) => chain_part(location@) == Some(l@),
            None => chain_part(location@) is None,
        },
{
    let first = location.first_interior();
    let parents = location.parents();
    match first {
        Some(Junction::Parachain(id)) if parents == 1 => Some(
            Location::with_one(1, Junction::Parachain(id)),
        ),
        _ if parents == 1 => Some(Location::parent()),
        Some(Junction::Parachain(id)) if parents == 0 => Some(
            Location::with_one(0, Junction::Parachain(id)),
        ),
        _ => None,
    }
}

/// The reserve of an asset relative to this chain.
pub fn relative_reserve(asset: &Asset) -> (r: Option<Location>)
    ensures
        match r {
            Some(l) => relative_reserve_of(asset.id@) == Some(l@),
            None => relative_reserve_of(asset.id@) is None,
        },
{
    match &asset.id {
        AssetId::Concrete(location) => {
            let starts_with_chain = match location.first_interior() {
                Some(Junction::Parachain(_)) => true,
                _ => false,
            };
            if location.parents() == 0 && !starts_with_chain {
                Some(Location::here())
            } else {
                chain_part_of(location)
            }
        },
        AssetId::Abstract(_) => None,
    }
}

/// Resolves reserves in the relative view, but treats the absolute form of
/// this chain, `self_location_absolute`, as here.
#[derive(Debug)]
pub struct AbsoluteAndRelativeReserve {
    pub self_location_absolute: Location,
}

impl AbsoluteAndRelativeReserve {
    /// The reserve for this chain with parachain id `self_para_id`: its
    /// absolute form is one hop up, then its own chain scope.
    pub fn for_parachain(self_para_id: u32) -> (r: AbsoluteAndRelativeReserve)
        ensures
            r.self_location_absolute@ == loc(1, seq![Junction::Parachain(self_para_id)]),
    {
        AbsoluteAndRelativeReserve {
            self_location_absolute: Location::with_one(1, Junction::Parachain(self_para_id)),
        }
    }

    /// The canonical reserve location of an asset.
    pub fn reserve(&self, asset: &Asset) -> (r: Option<Location>)
        ensures
            match r {
                Some(l) => canonical_reserve(
                    relative_reserve_of(asset.id@),
                    self.self_location_absolute@,
                ) == Some(l@),
                None => canonical_reserve(
                    relative_reserve_of(asset.id@),
                    self.self_location_absolute@,
                ) is None,
            },
    {
        match relative_reserve(asset) {
            Some(relative) => if relative.same_as(&self.self_location_absolute) {
                Some(Location::here())
            } else {
                Some(relative)
            },
            None => None,
        }
    }

    /// Whether `origin` is the reserve of `asset`, so that the asset may be
    /// accepted as a reserve transfer from it.
    pub fn is_reserve(&self, asset: &Asset, origin: &Location) -> (r: bool)
        ensures
            r == (canonical_reserve(relative_reserve_of(asset.id@), self.self_location_absolute@)
                == Some(origin@)),
    {
        match self.reserve(asset) {
            Some(reserve) => reserve.same_as(origin),
            None => false,
        }
    }
}

/// An asset located at or under this chain's absolute form and one located
/// here have the same reserve: here.
pub proof fn lemma_absolute_self_is_here(m: LocationModel, self_para_id: u32)
    requires
        m.parents == 1,
        m.interior.len() > 0,
        m.interior[0] == Junction::Parachain(self_para_id),
    ensures
        canonical_reserve(
            relative_reserve_of(AssetIdModel::Concrete(m)),
            loc(1, seq![Junction::Parachain(self_para_id)]),
        ) == Some(here_model()),
        canonical_reserve(
            relative_reserve_of(AssetIdModel::Concrete(here_model())),
            loc(1, seq![Junction::Parachain(self_para_id)]),
        ) == Some(here_model()),
{
}

/// Resolving the reserve of an asset located at a resolved reserve gives that
/// reserve again.
pub proof fn lemma_reserve_idempotent(id: AssetIdModel, self_absolute: LocationModel)
    requires
        canonical_reserve(relative_reserve_of(id), self_absolute) is Some,
    ensures
        canonical_reserve(
            relative_reserve_of(
                AssetIdModel::Concrete(
                    canonical_reserve(relative_reserve_of(id), self_absolute).unwrap(),
                ),
            ),
            self_absolute,
        ) == canonical_reserve(relative_reserve_of(id), self_absolute),
{
    let r = relative_reserve_of(id).unwrap();
    if r != self_absolute {
        assert(r.interior.len() > 0 ==> seq![r.interior[0]] =~= r.interior);
    }
}

} // verus!
