//! Locations: a count of scope hops towards the shared root, followed by a
//! path of junctions that descends into nested scopes.
use vstd::prelude::*;

verus! {

/// The largest number of junctions that a location may hold.
pub const MAX_JUNCTIONS: usize = 8;

/// One step of a location's interior path.
#[derive(Clone, Copy, Debug)]
pub enum Junction {
    /// A chain scope, named by its parachain id.
    Parachain(u32),
    /// An account scope, named by a 32-byte account id.
    AccountId32 { id: [u8; 32] },
    /// A fixed-length opaque key; only the first `length` bytes are meaningful.
    GeneralKey { length: u8, data: [u8; 32] },
}

/// Why a location could not be built.
#[derive(PartialEq, Eq, Structural, Clone, Copy, Debug)]
pub enum LocationError {
    /// More junctions than a location can hold.
    TooManyJunctions,
}

/// A location: `parents` hops up, then the `interior` path down.
#[derive(Debug)]
pub struct Location {
    parents: u8,
    interior: Vec<Junction>,
}

/// The mathematical value of a `Location`.
pub ghost struct LocationModel {
    pub parents: u8,
    pub interior: Seq<Junction>,
}

pub open spec fn loc(parents: u8, interior: Seq<Junction>) -> LocationModel {
    LocationModel { parents, interior }
}

/// The location `(0, [])`: the current scope itself.
pub open spec fn here_model() -> LocationModel {
    loc(0, Seq::empty())
}

/// The location `(1, [])`: the enclosing scope.
pub open spec fn parent_model() -> LocationModel {
    loc(1, Seq::empty())
}

impl View for Location {
    type V = LocationModel;

    closed spec fn view(&self) -> LocationModel {
        loc(self.parents, self.interior@)
    }
}

fn bytes_equal(a: &[u8; 32], b: &[u8; 32]) -> (r: bool)
    ensures
        r == (*a == *b),
{
    broadcast use vstd::array::group_array_axioms;
    let mut i: usize = 0;
    while i < 32
        invariant
            0 <= i <= 32,
            forall|j: int| 0 <= j < i ==> a[j] == b[j],
        decreases 32 - i,
    {
        if a[i] != b[i] {
            return false;
        }
        i = i + 1;
    }
    assert(*a =~= *b);
    true
}

/// Structural equality of two junctions.
pub fn junction_eq(a: &Junction, b: &Junction) -> (r: bool)
    ensures
        r == (*a == *b),
{
    match (a, b) {
        (Junction::Parachain(x), Junction::Parachain(y)) => *x == *y,
        (Junction::AccountId32 { id: x }, Junction::AccountId32 { id: y }) => bytes_equal(x, y),
        (
            Junction::GeneralKey { length: lx, data: dx },
            Junction::GeneralKey { length: ly, data: dy },
        ) => *lx == *ly && bytes_equal(dx, dy),
        _ => false,
    }
}

impl Location {
    /// Builds a location from its parts; a path longer than `MAX_JUNCTIONS`
    /// is rejected.
    pub fn new(parents: u8, interior: Vec<Junction>) -> (r: Result<Location, LocationError>)
        ensures
            interior@.len() <= MAX_JUNCTIONS ==> (r matches Ok(l) && l@ == loc(parents, interior@)),
            interior@.len() > MAX_JUNCTIONS ==> r == Err::<Location, _>(
                LocationError::TooManyJunctions,
            ),
    {
        if interior.len() > MAX_JUNCTIONS {
            Err(LocationError::TooManyJunctions)
        } else {
            Ok(Location { parents, interior })
        }
    }

    /// The current scope itself.
    pub fn here() -> (r: Location)
        ensures
            r@ == here_model(),
    {
        Location { parents: 0, interior: Vec::new() }
    }

    /// The enclosing scope.
    pub fn parent() -> (r: Location)
        ensures
            r@ == parent_model(),
    {
        Location { parents: 1, interior: Vec::new() }
    }

    /// `parents` hops up, then one junction down.
    pub fn with_one(parents: u8, j: Junction) -> (r: Location)
        ensures
            r@ == loc(parents, seq![j]),
    {
        let mut interior: Vec<Junction> = Vec::new();
        interior.push(j);
        assert(interior@ =~= seq![j]);
        Location { parents, interior }
    }

    /// `parents` hops up, then two junctions down.
    pub fn with_two(parents: u8, j0: Junction, j1: Junction) -> (r: Location)
        ensures
            r@ == loc(parents, seq![j0, j1]),
    {
        let mut interior: Vec<Junction> = Vec::new();
        interior.push(j0);
        interior.push(j1);
        assert(interior@ =~= seq![j0, j1]);
        Location { parents, interior }
    }

    pub fn parents(&self) -> (r: u8)
        ensures
            r == self@.parents,
    {
        self.parents
    }

    pub fn interior(&self) -> (r: &[Junction])
        ensures
            r@ == self@.interior,
    {
        self.interior.as_slice()
    }

    /// The first junction of the interior path, if any.
    pub fn first_interior(&self) -> (r: Option<Junction>)
        ensures
            self@.interior.len() == 0 ==> r is None,
            self@.interior.len() > 0 ==> r == Some(self@.interior[0]),
    {
        if self.interior.len() == 0 {
            None
        } else {
            Some(self.interior[0])
        }
    }

    /// A copy of this location.
    pub fn duplicate(&self) -> (r: Location)
        ensures
            r@ == self@,
    {
        let mut interior: Vec<Junction> = Vec::new();
        let mut i: usize = 0;
        while i < self.interior.len()
            invariant
                0 <= i <= self.interior@.len(),
                interior@ == self.interior@.subrange(0, i as int),
            decreases self.interior@.len() - i,
        {
            interior.push(self.interior[i]);
            i = i + 1;
            assert(interior@ =~= self.interior@.subrange(0, i as int));
        }
        assert(interior@ =~= self.interior@);
        Location { parents: self.parents, interior }
    }

    /// Structural equality: same hop count and the same path, with no
    /// normalization of either side.
    pub fn same_as(&self, other: &Location) -> (r: bool)
        ensures
            r == (self@ == other@),
    {
        if self.parents != other.parents || self.interior.len() != other.interior.len() {
            return false;
        }
        let mut i: usize = 0;
        while i < self.interior.len()
            invariant
                0 <= i <= self.interior@.len(),
                self.interior@.len() == other.interior@.len(),
                forall|j: int| 0 <= j < i ==> self.interior@[j] == other.interior@[j],
            decreases self.interior@.len() - i,
        {
            if !junction_eq(&self.interior[i], &other.interior[i]) {
                return false;
            }
            i = i + 1;
        }
        assert(self.interior@ =~= other.interior@);
        true
    }
}

} // verus!
