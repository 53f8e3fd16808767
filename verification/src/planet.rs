//! What the control thread shows of a planet: its energy cells and its
//! rocket, as counts and as the text of a label.

use vstd::prelude::*;
use crate::protocol::{ActorId, PlanetSnapshot};

verus! {

/// The id of the actor behind a planet on the map.
#[derive(Clone, Copy, Debug, PartialEq, Eq, Structural)]
pub struct PlanetId(pub ActorId);

/// The name under which a planet is shown.
#[derive(Debug)]
pub struct PlanetName(pub String);

/// How many energy cells a planet has and how many of them are charged.
#[derive(Clone, Copy, Debug, PartialEq, Eq, Structural)]
pub struct PlanetCell {
    pub num_cell: usize,
    pub charged_cell: usize,
}

/// Whether a planet has a rocket ready.
#[derive(Clone, Copy, Debug, PartialEq, Eq, Structural)]
pub struct PlanetRocket(pub bool);

/// The number of cells, the number of charged cells and the rocket of one
/// planet, as last reported.
#[derive(Clone, Copy, Debug, PartialEq, Eq, Structural)]
pub struct PlanetState(pub usize, pub usize, pub bool);

/// The label text of one charged cell.
pub const CHARGED_CELL: &'static str = "\u{f0079} ";

/// The label text of one empty cell.
pub const EMPTY_CELL: &'static str = "\u{f007a} ";

/// The label text of a rocket.
pub const ROCKET: &'static str = "\u{f13af}";

/// The most cells whose label is sure to fit in a string: a cell takes two
/// characters of at most four bytes each.
pub const MAX_SHOWN_CELLS: usize = 0x0fff_ffff;

/// `unit` written `n` times in a row.
pub open spec fn repeated(unit: Seq<char>, n: nat) -> Seq<char>
    decreases n,
{
    if n == 0 {
        Seq::<char>::empty()
    } else {
        repeated(unit, (n - 1) as nat) + unit
    }
}

/// The text for `charged` charged cells followed by `empty` empty ones.
pub open spec fn spec_cell_string(charged: nat, empty: nat) -> Seq<char> {
    repeated(CHARGED_CELL@, charged) + repeated(EMPTY_CELL@, empty)
}

/// `repeated` grows by the length of its unit with each repetition.
pub proof fn lemma_repeated_len(unit: Seq<char>, n: nat)
    ensures
        repeated(unit, n).len() == n * unit.len(),
    decreases n,
{
    if n == 0 {
        assert(0 * unit.len() == 0) by (nonlinear_arith);
    } else {
        let m = (n - 1) as nat;
        lemma_repeated_len(unit, m);
        assert(n * unit.len() == m * unit.len() + unit.len()) by (nonlinear_arith)
            requires
                n == m + 1,
        ;
    }
}

/// Appends `unit` to `text` `n` times. The bound keeps the text within what
/// a string can hold: a character takes at most four bytes.
fn push_repeated(text: &mut String, unit: &str, n: usize)
    requires
        unit@.len() == 2,
        (old(text)@.len() + 2 * n) * 4 <= isize::MAX,
    ensures
        final(text)@ == old(text)@ + repeated(unit@, n as nat),
{
    let mut i: usize = 0;
    proof {
        assert(text@ =~= old(text)@ + repeated(unit@, 0));
    }
    while i < n
        invariant
            i <= n,
            unit@.len() == 2,
            (old(text)@.len() + 2 * n) * 4 <= isize::MAX,
            text@ == old(text)@ + repeated(unit@, i as nat),
        decreases n - i,
    {
        text.append(unit);
        i = i + 1;
        proof {
            assert(text@ =~= old(text)@ + repeated(unit@, i as nat));
        }
    }
}

/// The label for a planet's cells: one mark for each charged cell, then one
/// for each empty cell.
pub fn cell_string(cell: &PlanetCell) -> (text: String)
    requires
        cell.charged_cell <= cell.num_cell,
        cell.num_cell <= MAX_SHOWN_CELLS,
    ensures
        text@ == spec_cell_string(
            cell.charged_cell as nat,
            (cell.num_cell - cell.charged_cell) as nat,
        ),
{
    proof {
        reveal_strlit("\u{f0079} ");
        reveal_strlit("\u{f007a} ");
        lemma_repeated_len(CHARGED_CELL@, cell.charged_cell as nat);
        assert((cell.charged_cell as nat) * CHARGED_CELL@.len() == 2 * cell.charged_cell)
            by (nonlinear_arith)
            requires
                CHARGED_CELL@.len() == 2,
        ;
    }
    let mut cells = String::new();
    push_repeated(&mut cells, CHARGED_CELL, cell.charged_cell);
    push_repeated(&mut cells, EMPTY_CELL, cell.num_cell - cell.charged_cell);
    proof {
        assert(cells@ =~= spec_cell_string(
            cell.charged_cell as nat,
            (cell.num_cell - cell.charged_cell) as nat,
        ));
    }
    cells
}

/// The label for a planet's rocket: the rocket mark, or nothing.
pub fn rocket_string(rocket: &PlanetRocket) -> (text: String)
    ensures
        text@ == if rocket.0 {
            ROCKET@
        } else {
            Seq::<char>::empty()
        },
{
    if rocket.0 {
        ROCKET.to_owned()
    } else {
        String::new()
    }
}

impl PlanetSnapshot {
    /// The cell counts that this snapshot reports.
    pub open spec fn spec_cells(&self) -> PlanetCell {
        PlanetCell {
            num_cell: self.energy_cells@.len() as usize,
            charged_cell: self.charged_cells_count,
        }
    }

    /// The cell counts that this snapshot reports.
    pub fn cells(&self) -> (cell: PlanetCell)
        ensures
            cell == self.spec_cells(),
    {
        PlanetCell { num_cell: self.energy_cells.len(), charged_cell: self.charged_cells_count }
    }

    /// The rocket that this snapshot reports.
    pub fn rocket(&self) -> (rocket: PlanetRocket)
        ensures
            rocket.0 == self.has_rocket,
    {
        PlanetRocket(self.has_rocket)
    }
}

impl PlanetState {
    /// The state that a snapshot reports, in full.
    pub fn from_snapshot(snapshot: &PlanetSnapshot) -> (state: PlanetState)
        ensures
            state.0 == snapshot.energy_cells@.len(),
            state.1 == snapshot.charged_cells_count,
            state.2 == snapshot.has_rocket,
    {
        PlanetState(
            snapshot.energy_cells.len(),
            snapshot.charged_cells_count,
            snapshot.has_rocket,
        )
    }

    /// Takes the charged cells and the rocket from a snapshot and keeps the
    /// number of cells.
    pub fn refresh(&mut self, snapshot: &PlanetSnapshot)
        ensures
            final(self).0 == old(self).0,
            final(self).1 == snapshot.charged_cells_count,
            final(self).2 == snapshot.has_rocket,
    {
        self.1 = snapshot.charged_cells_count;
        self.2 = snapshot.has_rocket;
    }

    /// The cell counts of this state.
    pub fn cells(&self) -> (cell: PlanetCell)
        ensures
            cell.num_cell == self.0,
            cell.charged_cell == self.1,
    {
        PlanetCell { num_cell: self.0, charged_cell: self.1 }
    }
}

} // verus!
