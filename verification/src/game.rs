//! The game: one snake and a collection of food on a fixed board, advanced
//! one tick at a time.

use vstd::prelude::*;

use rand::seq::IteratorRandom;

use crate::direction::Direction;
use crate::snake::Snake;

verus! {

/// The number of food items one replenishment adds on a board with `cells`
/// cells, given `len` items present and `target` configured: the shortfall,
/// capped by the number of cells the board has to offer.
pub open spec fn replenish_count(len: int, target: int, cells: int) -> int {
    let owed = if target > len {
        target - len
    } else {
        0
    };
    if owed <= cells {
        owed
    } else {
        cells
    }
}

/// An immutable food position on the board.
#[derive(Clone, Copy)]
pub struct Food {
    pub pos: (u16, u16),
}

impl Food {
    /// Food at position `(x, y)`.
    pub fn new(x: u16, y: u16) -> (f: Food)
        ensures
            f.pos.0 == x,
            f.pos.1 == y,
    {
        Food { pos: (x, y) }
    }
}

/// Configuration of a game: the target number of simultaneous food items
/// that replenishment maintains.
#[derive(Clone, Copy)]
pub struct ConfigGame {
    pub food_amount: u16,
}

impl Default for ConfigGame {
    /// The default configuration keeps one food item on the board.
    fn default() -> (r: Self)
        ensures
            r.food_amount == 1,
    {
        ConfigGame { food_amount: 1 }
    }
}

/// A running game: one snake, a collection of food, and the board bounds.
///
/// The playable interior is `[1, width) x [1, height)`: both the low edge 0
/// and the dimension value itself are walls.
pub struct Game {
    pub snake: Snake,
    pub food: Vec<Food>,
    pub initial_pos: (u16, u16),
    pub config: ConfigGame,
    pub height: u16,
    pub width: u16,
}

impl Game {
    /// The snake's next position lies in the playable interior.
    pub open spec fn next_inside(self) -> bool {
        &&& 0 < self.snake.next_x() < self.width
        &&& 0 < self.snake.next_y() < self.height
    }

    /// The game as it stands once the buffered heading is committed at the
    /// start of a tick.
    pub open spec fn committed(self) -> Game {
        Game { snake: Snake { direction: self.snake.next_direction, ..self.snake }, ..self }
    }

    /// The tick at hand ends the game: the snake is already dead, would
    /// leave the playable interior, or would run into its own body.
    pub open spec fn step_dies(self) -> bool {
        !self.snake.alive || !self.next_inside() || self.snake.hits_self()
    }

    /// Some food item lies on the snake's next position.
    pub open spec fn next_hits_food(self) -> bool {
        exists|i: int|
            0 <= i < self.food@.len() && self.food@[i].pos.0 == self.snake.next_x()
                && self.food@[i].pos.1 == self.snake.next_y()
    }

    /// The food items that survive consumption this tick: those not on the
    /// snake's next position, in their original order.
    pub open spec fn surviving_food(self) -> Seq<Food> {
        self.food@.filter(
            |f: Food| !(f.pos.0 == self.snake.next_x() && f.pos.1 == self.snake.next_y()),
        )
    }

    /// The number of cells of the full board.
    pub open spec fn board_cell_count(self) -> int {
        self.width * self.height
    }

    /// A fresh game: a single-segment snake at `pos` heading right, no food,
    /// and a target of one food item.
    pub fn new(pos: (u16, u16), width: u16, height: u16) -> (g: Game)
        ensures
            g.snake.is_spawn(pos),
            g.snake.wf(),
            g.food@ == Seq::<Food>::empty(),
            g.initial_pos == pos,
            g.config.food_amount == 1,
            g.width == width,
            g.height == height,
    {
        let g = Game {
            snake: Snake::new(pos),
            initial_pos: pos,
            food: Vec::new(),
            height,
            width,
            config: ConfigGame { food_amount: 1 },
        };
        proof {
            assert(g.food@ =~= Seq::<Food>::empty());
        }
        g
    }

    /// Restart: the snake respawns at the original position and all food is
    /// cleared; board bounds and configuration are retained.
    pub fn reset(&mut self)
        ensures
            final(self).snake.is_spawn(old(self).initial_pos),
            final(self).snake.wf(),
            final(self).food@ == Seq::<Food>::empty(),
            final(self).initial_pos == old(self).initial_pos,
            final(self).config == old(self).config,
            final(self).width == old(self).width,
            final(self).height == old(self).height,
    {
        self.snake = Snake::new(self.initial_pos);
        self.food = Vec::new();
        proof {
            assert(self.food@ =~= Seq::<Food>::empty());
        }
    }

    /// True iff the snake's next position lies in the playable interior
    /// `[1, width) x [1, height)`.
    pub fn snake_inside(&self) -> (r: bool)
        requires
            self.snake.next_pos_in_range(),
        ensures
            r == self.next_inside(),
    {
        let next_pos = self.snake.next_pos();

        next_pos.0 < self.width && next_pos.1 < self.height && next_pos.0 != 0 && next_pos.1 != 0
    }

    /// Resolve consumption: every food item on the snake's next position is
    /// removed, and if any was, one growth unit is marked on the snake.
    pub fn snake_collion_food(&mut self)
        requires
            old(self).snake.next_pos_in_range(),
        ensures
            final(self).food@ == old(self).surviving_food(),
            final(self).snake == (Snake {
                grow: old(self).snake.grow || old(self).next_hits_food(),
                ..old(self).snake
            }),
            final(self).initial_pos == old(self).initial_pos,
            final(self).config == old(self).config,
            final(self).width == old(self).width,
            final(self).height == old(self).height,
    {
        let next_pos = self.snake.next_pos();
        let ghost pred = |f: Food|
            !(f.pos.0 == self.snake.next_x() && f.pos.1 == self.snake.next_y());

        let mut remaining: Vec<Food> = Vec::new();
        let mut ate = false;

        proof {
            assert(self.food@.subrange(0, 0).filter(pred) =~= Seq::<Food>::empty());
            assert(remaining@ =~= Seq::<Food>::empty());
        }

        for i in 0..self.food.len()
            invariant
                self.snake.next_pos_in_range(),
                next_pos.0 == self.snake.next_x(),
                next_pos.1 == self.snake.next_y(),
                pred == (|f: Food|
                    !(f.pos.0 == self.snake.next_x() && f.pos.1 == self.snake.next_y())),
                remaining@ == self.food@.subrange(0, i as int).filter(pred),
                ate == exists|j: int|
                    0 <= j < i && self.food@[j].pos.0 == self.snake.next_x()
                        && self.food@[j].pos.1 == self.snake.next_y(),
        {
            let ghost prefix = self.food@.subrange(0, i as int);
            let f = self.food[i];
            if f.pos.0 != next_pos.0 || f.pos.1 != next_pos.1 {
                remaining.push(f);
            } else {
                ate = true;
            }
            proof {
                reveal(Seq::filter);
                assert(self.food@.subrange(0, i + 1).drop_last() =~= prefix);
                assert(self.food@.subrange(0, i + 1).last() == f);
            }
        }

        proof {
            assert(self.food@.subrange(0, self.food@.len() as int) =~= self.food@);
        }

        self.food = remaining;
        if ate {
            self.snake.eat();
        }
    }

    /// Replenish the food collection up to the configured target with
    /// uniformly random board positions.
    ///
    /// The positions are drawn from the full board, without excluding cells
    /// occupied by the snake or by existing food; the items already present
    /// are kept, in their order. Replenishment never pushes the count above
    /// the target, and reaches the target whenever the board has enough
    /// cells.
    pub fn generate_food(&mut self)
        ensures
            final(self).snake == old(self).snake,
            final(self).initial_pos == old(self).initial_pos,
            final(self).config == old(self).config,
            final(self).width == old(self).width,
            final(self).height == old(self).height,
            final(self).food@.len() == old(self).food@.len() + replenish_count(
                old(self).food@.len() as int,
                old(self).config.food_amount as int,
                old(self).board_cell_count(),
            ),
            final(self).food@.subrange(0, old(self).food@.len() as int) == old(self).food@,
            forall|k: int|
                old(self).food@.len() <= k < final(self).food@.len() ==> (
                #[trigger] final(self).food@[k]).pos.0 < old(self).width
                    && final(self).food@[k].pos.1 < old(self).height,
            final(self).food@.len() <= (if old(self).food@.len()
                >= old(self).config.food_amount {
                old(self).food@.len() as int
            } else {
                old(self).config.food_amount as int
            }),
            old(self).config.food_amount - old(self).food@.len() <= old(self).board_cell_count() && old(self).config.food_amount > old(self).food@.len()
                ==> final(self).food@.len() == old(self).config.food_amount,
    {
        let target = self.config.food_amount as usize;

        if target <= self.food.len() {
            proof {
                assert(self.food@.subrange(0, self.food@.len() as int) =~= self.food@);
            }
            return ;
        }

        let deficit = target - self.food.len();
        let cells = board_cells(self.width, self.height);
        let picked = sample_positions(&cells, deficit);

        let ghost present = self.food@;
        let mut i: usize = 0;
        while i < picked.len()
            invariant
                i <= picked@.len(),
                self.food@.len() == present.len() + i,
                self.food@.subrange(0, present.len() as int) == present,
                self.snake == old(self).snake,
                self.initial_pos == old(self).initial_pos,
                self.config == old(self).config,
                self.width == old(self).width,
                self.height == old(self).height,
                forall|k: int|
                    0 <= k < picked@.len() ==> cells@.contains(#[trigger] picked@[k]),
                forall|k: int|
                    0 <= k < cells@.len() ==> (#[trigger] cells@[k]).0 < self.width
                        && cells@[k].1 < self.height,
                forall|k: int|
                    present.len() <= k < self.food@.len() ==> (#[trigger] self.food@[k]).pos.0
                        < self.width && self.food@[k].pos.1 < self.height,
            decreases picked@.len() - i,
        {
            let ghost before = self.food@;
            let p = picked[i];
            self.food.push(Food::new(p.0, p.1));
            i = i + 1;
            proof {
                assert(cells@.contains(picked@[i - 1]));
                assert(self.food@.subrange(0, present.len() as int) =~= before.subrange(
                    0,
                    present.len() as int,
                ));
            }
        }
    }

    /// Advance the world one tick; the result says whether the game
    /// continues.
    ///
    /// The buffered heading is committed first. The tick ends the game -
    /// permanently, death is terminal - when the snake is already dead,
    /// when its next position leaves the playable interior, or when it runs
    /// into its own body; the body and the food are then left untouched.
    /// Otherwise food on the next position is consumed, the collection is
    /// replenished up to the configured target, and the snake advances.
    pub fn next(&mut self) -> (r: bool)
        requires
            old(self).snake.alive ==> old(self).snake.wf(),
            old(self).snake.alive ==> old(self).committed().snake.next_pos_in_range(),
        ensures
            final(self).initial_pos == old(self).initial_pos,
            final(self).config == old(self).config,
            final(self).width == old(self).width,
            final(self).height == old(self).height,
            final(self).snake.direction == old(self).snake.next_direction,
            final(self).snake.next_direction == old(self).snake.next_direction,
            r == !old(self).committed().step_dies(),
            !r ==> final(self).snake == (Snake {
                alive: false,
                direction: old(self).snake.next_direction,
                ..old(self).snake
            }),
            !r ==> final(self).food@ == old(self).food@,
            r ==> final(self).snake.alive && final(self).snake.grow == false && final(self).snake.wf(),
            r ==> final(self).snake.head_pos.0 == old(self).committed().snake.next_x() && final(self).snake.head_pos.1 == old(self).committed().snake.next_y(),
            r && (old(self).snake.grow || old(self).committed().next_hits_food()) ==> final(self).snake.body@ == old(self).snake.body@.push(final(self).snake.head_pos),
            r && !(old(self).snake.grow || old(self).committed().next_hits_food()) ==> final(self).snake.body@ == old(self).snake.body@.subrange(
                1,
                old(self).snake.body@.len() as int,
            ).push(final(self).snake.head_pos),
            r ==> final(self).food@.subrange(
                0,
                old(self).committed().surviving_food().len() as int,
            ) == old(self).committed().surviving_food(),
            r ==> final(self).food@.len() == old(self).committed().surviving_food().len()
                + replenish_count(
                old(self).committed().surviving_food().len() as int,
                old(self).config.food_amount as int,
                old(self).board_cell_count(),
            ),
            r ==> forall|k: int|
                old(self).committed().surviving_food().len() <= k < final(self).food@.len() ==> (
                #[trigger] final(self).food@[k]).pos.0 < old(self).width
                    && final(self).food@[k].pos.1 < old(self).height,
    {
        self.snake.direction = self.snake.next_direction;

        if !self.snake.alive || !self.snake_inside() || self.snake.self_collision() {
            self.snake.alive = false;
            return false;
        }

        self.snake_collion_food();
        self.generate_food();
        self.snake.walk();

        true
    }

    /// Buffer a heading change for the next tick.
    ///
    /// A candidate that is not orthogonal to the current heading - a direct
    /// reversal, or the current heading itself - is silently dropped and the
    /// buffered heading persists. A legal candidate only replaces the
    /// buffered heading: the committed one is untouched until the next tick
    /// commits the buffer, so of several calls between two ticks the last
    /// legal one wins.
    pub fn input(&mut self, direction: Direction)
        ensures
            old(self).snake.direction.legal_next(direction) ==> *final(self) == (Game {
                snake: Snake { next_direction: direction, ..old(self).snake },
                ..*old(self)
            }),
            !old(self).snake.direction.legal_next(direction) ==> *final(self) == *old(self),
    {
        if !self.snake.direction.is_valid_direction(direction) {
            return ;
        }

        self.snake.next_direction = direction;
    }
}

/// Death is terminal: once the snake is dead, every further tick dies too,
/// whatever heading was buffered meanwhile, so [`Game::next`] returns false
/// again and - by its contract - leaves body and food untouched.
pub proof fn lemma_dead_is_terminal(g: Game)
    requires
        !g.snake.alive,
    ensures
        g.committed().step_dies(),
{
}

/// Every cell of a `width` x `height` board, column by column.
fn board_cells(width: u16, height: u16) -> (r: Vec<(u16, u16)>)
    ensures
        r@.len() == width * height,
        forall|k: int| 0 <= k < r@.len() ==> (#[trigger] r@[k]).0 < width && r@[k].1 < height,
{
    let mut cells: Vec<(u16, u16)> = Vec::new();

    let mut x: usize = 0;
    while x < width as usize
        invariant
            x <= width,
            cells@.len() == x * height,
            forall|k: int|
                0 <= k < cells@.len() ==> (#[trigger] cells@[k]).0 < width && cells@[k].1
                    < height,
        decreases width - x,
    {
        let mut y: usize = 0;
        while y < height as usize
            invariant
                x < width,
                y <= height,
                cells@.len() == x * height + y,
                forall|k: int|
                    0 <= k < cells@.len() ==> (#[trigger] cells@[k]).0 < width && cells@[k].1
                        < height,
            decreases height - y,
        {
            cells.push((x as u16, y as u16));
            y = y + 1;
        }
        x = x + 1;
        proof {
            assert(x * height == (x - 1) * height + height) by (nonlinear_arith);
        }
    }

    cells
}

/// Relies on rand's `IteratorRandom::sample`: it draws `amount` elements of
/// the iterator uniformly at random without repeating a slot - all of them
/// when the iterator is shorter than `amount` - and every element of the
/// result is one the iterator produced.
#[verifier::external_body]
fn sample_positions(cells: &Vec<(u16, u16)>, amount: usize) -> (r: Vec<(u16, u16)>)
    ensures
        amount <= cells@.len() ==> r@.len() == amount,
        amount > cells@.len() ==> r@.len() == cells@.len(),
        forall|k: int| 0 <= k < r@.len() ==> cells@.contains(#[trigger] r@[k]),
{
    cells.iter().copied().sample(&mut rand::rng(), amount)
}

} // verus!
