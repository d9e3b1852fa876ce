//! The snapshot of one tick: aircraft, airports and where they are.

use vstd::prelude::*;

verus! {

/// Position units per unit of the level's coordinate space: coordinates are
/// held in thousandths, so that every comparison is exact integer work.
pub const UNITS: i64 = 1000;

/// A point of the level, in thousandths of a coordinate unit. Coordinates
/// may be negative.
#[derive(Clone, Copy, Debug, PartialEq, Eq, Structural)]
pub struct Position {
    pub x: i64,
    pub y: i64,
}

/// A landing target with the heading that a landing aircraft must have.
#[derive(Clone, Copy, Debug, PartialEq, Eq, Structural)]
pub struct Airport {
    pub position: Position,
    pub direction: i32,
}

/// A controlled aircraft. The identifier is the server's; it is only read
/// and handed back.
#[derive(Clone, Debug)]
pub struct Aircraft {
    pub id: String,
    pub position: Position,
    pub direction: i32,
}

/// What contracts see of an aircraft.
pub struct AircraftView {
    pub id: Seq<char>,
    pub position: Position,
    pub direction: i32,
}

impl View for Aircraft {
    type V = AircraftView;

    open spec fn view(&self) -> AircraftView {
        AircraftView { id: self.id@, position: self.position, direction: self.direction }
    }
}

/// One tick's world: the aircraft and the airports, each in the server's
/// order, which the policies rely on.
#[derive(Clone, Debug)]
pub struct GameState {
    pub aircrafts: Vec<Aircraft>,
    pub airports: Vec<Airport>,
}

/// What contracts see of a snapshot.
pub struct GameStateView {
    pub aircrafts: Seq<AircraftView>,
    pub airports: Seq<Airport>,
}

impl View for GameState {
    type V = GameStateView;

    open spec fn view(&self) -> GameStateView {
        GameStateView {
            aircrafts: Seq::new(self.aircrafts@.len(), |i: int| self.aircrafts@[i]@),
            airports: self.airports@,
        }
    }
}

impl GameStateView {
    /// A snapshot without aircraft or without airports gives no policy
    /// anything to steer.
    pub open spec fn is_vacant(self) -> bool {
        self.aircrafts.len() == 0 || self.airports.len() == 0
    }

    /// No two aircraft share an identifier.
    pub open spec fn distinct_ids(self) -> bool {
        forall|i: int, j: int|
            0 <= i < j < self.aircrafts.len() ==> self.aircrafts[i].id != self.aircrafts[j].id
    }
}

impl GameState {
    /// The aircraft that leads the server's list.
    pub fn first_aircraft(&self) -> (a: &Aircraft)
        requires
            self.aircrafts@.len() > 0,
        ensures
            a@ == self@.aircrafts[0],
    {
        &self.aircrafts[0]
    }

    /// The aircraft that closes the server's list.
    pub fn last_aircraft(&self) -> (a: &Aircraft)
        requires
            self.aircrafts@.len() > 0,
        ensures
            a@ == self@.aircrafts[self@.aircrafts.len() - 1],
    {
        &self.aircrafts[self.aircrafts.len() - 1]
    }

    /// The aircraft at `index` of the server's list.
    pub fn aircraft_at(&self, index: usize) -> (a: &Aircraft)
        requires
            index < self.aircrafts@.len(),
        ensures
            a@ == self@.aircrafts[index as int],
    {
        &self.aircrafts[index]
    }

    /// The airport at `index` of the server's list.
    pub fn airport_at(&self, index: usize) -> (p: Airport)
        requires
            index < self.airports@.len(),
        ensures
            p == self@.airports[index as int],
    {
        self.airports[index]
    }

    /// Whether there is nothing to steer or nowhere to land.
    pub fn is_vacant(&self) -> (r: bool)
        ensures
            r == self@.is_vacant(),
    {
        self.aircrafts.len() == 0 || self.airports.len() == 0
    }
}

} // verus!
