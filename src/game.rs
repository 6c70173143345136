//! A game: the grid, the pieces on it, the controls, and whose turn it is.
use vstd::prelude::*;
use crate::entities::{Actor, Entity, after_hit, last_hit};
use crate::geometry::Point;
use crate::grid::HexGrid;
use crate::ui::{Clickable, UIButton};

verus! {

/// Least time, in milliseconds, between two dispatched turns.
pub const TURN_INTERVAL_MS: u64 = 1500;

/// Whose move the game waits for.
#[derive(Clone, Copy, Debug, PartialEq, Eq, Structural)]
pub enum Turn {
    Player,
    AI,
}

/// The grid, the pieces on it, the on-screen controls, which piece the
/// player's clicks move, and whose turn it is.
#[derive(Debug)]
pub struct Game {
    pub map: HexGrid,
    pub entities: Vec<Actor>,
    pub ui: Vec<UIButton>,
    pub select: usize,
    pub turn: Turn,
}

/// What `process_input` may be handed: a grid as laid out, and a selected
/// piece whenever there is a click to pass on to it.
pub open spec fn input_ready(g: Game, click: Option<Point>) -> bool {
    g.map.wf() && (click is Some ==> g.select < g.entities@.len())
}

/// `after` is `before` once a click (if any) has been handled: every
/// control sees the click, then the selected piece moves onto the last
/// cell the click lands on.
pub open spec fn input_handled(before: Game, after: Game, click: Option<Point>) -> bool {
    match click {
        None => after == before,
        Some(m) => {
            &&& after.map == before.map
            &&& after.select == before.select
            &&& after.turn == before.turn
            &&& after.ui@.len() == before.ui@.len()
            &&& forall|i: int|
                0 <= i < before.ui@.len() ==> #[trigger] after.ui@[i] == before.ui@[i].clicked(m)
            &&& after.entities@.len() == before.entities@.len()
            &&& forall|i: int|
                0 <= i < before.entities@.len() && i != before.select ==> #[trigger] after.entities@[i]
                    == before.entities@[i]
            &&& after_hit(
                before.entities@[before.select as int],
                after.entities@[before.select as int],
                last_hit(before.map.grid@, m),
            )
        },
    }
}

impl Game {
    /// Handles the click of this poll, if any.
    pub fn process_input(&mut self, click: Option<Point>)
        requires
            input_ready(*old(self), click),
        ensures
            input_handled(*old(self), *final(self), click),
    {
        if let Some(mpos) = click {
            let n: usize = self.ui.len();
            let mut i: usize = 0;
            while i < n
                invariant
                    n == old(self).ui@.len(),
                    i <= n,
                    self.ui@.len() == n,
                    self.map == old(self).map,
                    self.entities == old(self).entities,
                    self.select == old(self).select,
                    self.turn == old(self).turn,
                    forall|j: int| 0 <= j < i ==> #[trigger] self.ui@[j] == old(self).ui@[j].clicked(mpos),
                    forall|j: int| i <= j < n ==> #[trigger] self.ui@[j] == old(self).ui@[j],
                decreases n - i,
            {
                let mut button: UIButton = self.ui.remove(i);
                button.process_click(mpos);
                self.ui.insert(i, button);
                i = i + 1;
            }
            let sel: usize = self.select;
            let mut piece: Actor = self.entities[sel];
            self.map.process_click(mpos, &mut piece);
            self.entities.set(sel, piece);
        }
    }

    /// Offers a turn to every piece that asks for one. No kind of piece asks
    /// yet, so the game is left as it is.
    pub fn process_ai(&mut self)
        requires
            old(self).map.wf(),
        ensures
            *final(self) == *old(self),
    {
        let n: usize = self.entities.len();
        let mut i: usize = 0;
        while i < n
            invariant
                n == self.entities@.len(),
                i <= n,
                *self == *old(self),
            decreases n - i,
        {
            if self.entities[i].needs_updating() {
                let mut piece: Actor = self.entities[i];
                piece.take_turn(&mut self.map);
                self.entities.set(i, piece);
            }
            i = i + 1;
        }
    }

    /// Adds a piece to the game.
    pub fn spawn_entity(&mut self, entity: Actor)
        ensures
            final(self).entities@ == old(self).entities@.push(entity),
            final(self).map == old(self).map,
            final(self).ui == old(self).ui,
            final(self).select == old(self).select,
            final(self).turn == old(self).turn,
    {
        self.entities.push(entity);
    }

    /// Dispatches a turn once more than `TURN_INTERVAL_MS` have passed since
    /// the last one: the player's input on the player's turn, the pieces'
    /// own moves otherwise. Returns whether a turn was dispatched.
    pub fn run_turn(&mut self, elapsed_ms: u64, click: Option<Point>) -> (ran: bool)
        requires
            input_ready(*old(self), click),
        ensures
            ran == (elapsed_ms > TURN_INTERVAL_MS),
            !ran ==> *final(self) == *old(self),
            ran && old(self).turn == Turn::Player ==> input_handled(*old(self), *final(self), click),
            ran && old(self).turn == Turn::AI ==> *final(self) == *old(self),
    {
        if elapsed_ms > TURN_INTERVAL_MS {
            match self.turn {
                Turn::Player => self.process_input(click),
                Turn::AI => self.process_ai(),
            }
            true
        } else {
            false
        }
    }
}

} // verus!
