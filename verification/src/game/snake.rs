//! The snake: an ordered run of cells from tail to head.

use std::collections::VecDeque;
use vstd::prelude::*;

use super::canvas::DrawOp;
use super::coord::Coord;
use super::direction::Direction;

verus! {

/// The colour in which the snake is painted.
pub const SNAKE_COLOR: &'static str = "green";

/// What a snake is, mathematically: its cells from tail to head, and the cell
/// that its last move vacated, as long as that cell is still remembered.
pub struct Body {
    pub cells: Seq<Coord>,
    pub vacated: Option<Coord>,
}

impl Body {
    /// A straight horizontal body of `n` cells whose head is `at` and whose
    /// tail lies `n - 1` cells to the right of it.
    pub open spec fn straight(at: Coord, n: nat) -> Body {
        Body {
            cells: Seq::new(n, |k: int| Coord((at.0 + n - 1 - k) as isize, at.1)),
            vacated: None,
        }
    }

    /// The head: the last cell.
    pub open spec fn head(self) -> Coord
        recommends
            self.cells.len() > 0,
    {
        self.cells.last()
    }

    /// The tail: the first cell.
    pub open spec fn tail(self) -> Coord
        recommends
            self.cells.len() > 0,
    {
        self.cells.first()
    }

    /// Whether no cell occurs twice.
    pub open spec fn distinct(self) -> bool {
        self.cells.no_duplicates()
    }

    /// Whether some cell of the body, the head included, is `c`.
    pub open spec fn occupies(self, c: Coord) -> bool {
        self.cells.contains(c)
    }

    /// Whether some cell of the body other than the head is `c`.
    pub open spec fn trails_over(self, c: Coord) -> bool {
        self.cells.drop_last().contains(c)
    }

    /// The body after one move in direction `dir`: the tail cell is given up
    /// and remembered, and the neighbour of the head becomes the new head.
    pub open spec fn advance(self, dir: Direction) -> Body
        recommends
            self.cells.len() > 0,
    {
        Body {
            cells: self.cells.drop_first().push(self.head().step(dir)),
            vacated: Some(self.tail()),
        }
    }

    /// Whether the body can eat what lies on `target`: its head is there and
    /// the cell that it last vacated is still remembered.
    pub open spec fn can_eat(self, target: Coord) -> bool {
        self.head() == target && self.vacated is Some
    }

    /// The body after eating: the vacated cell is the tail again, and is no
    /// longer remembered.
    pub open spec fn eat(self) -> Body
        recommends
            self.vacated is Some,
    {
        Body { cells: seq![self.vacated->0] + self.cells, vacated: None }
    }

    /// The commands that bring a canvas up to date with the body when cells
    /// are `size` pixels wide: the vacated cell, if one is remembered, is
    /// erased, and then every cell is painted, tail first. Erasing comes
    /// first because the head may have moved onto the vacated cell.
    pub open spec fn frame(self, size: int) -> Seq<DrawOp<'static>> {
        self.erasure(size) + self.cells.map_values(|c: Coord| c.fill_op(size, SNAKE_COLOR))
    }

    /// The commands of `frame` that erase: one for the vacated cell, if one
    /// is remembered.
    pub open spec fn erasure(self, size: int) -> Seq<DrawOp<'static>> {
        match self.vacated {
            Some(t) => seq![t.clear_op(size)],
            None => seq![],
        }
    }
}

/// The snake. Its cells are kept tail first in a double-ended queue, so that
/// a move takes one cell off the front and puts one on the back.
#[derive(Debug)]
pub struct Snake {
    body: VecDeque<Coord>,
    prev_tail: Option<Coord>,
}

impl View for Snake {
    type V = Body;

    closed spec fn view(&self) -> Body {
        Body { cells: self.body@, vacated: self.prev_tail }
    }
}

impl Snake {
    /// A snake is well formed when it has at least one cell, and so a head.
    pub open spec fn wf(&self) -> bool {
        self@.cells.len() > 0
    }

    /// Creates a straight snake of `length` cells with its head at `at` and
    /// its tail to the right of it. A `length` below one gives no cells at
    /// all, and a snake that is not well formed.
    pub fn new(at: Coord, length: isize) -> (snake: Snake)
        requires
            length > 0 ==> at.0 + length - 1 <= isize::MAX,
        ensures
            snake@ == Body::straight(at, if length > 0 { length as nat } else { 0 }),
            snake@.distinct(),
            length > 0 ==> snake.wf() && snake@.head() == at && snake@.tail() == Coord(
                (at.0 + length - 1) as isize,
                at.1,
            ),
    {
        let mut body: VecDeque<Coord> = VecDeque::with_capacity(3);
        let mut i: isize = 0;
        while i < length
            invariant
                0 <= i,
                i <= length || i == 0,
                length > 0 ==> at.0 + length - 1 <= isize::MAX,
                body@ == Seq::new(i as nat, |k: int| Coord((at.0 + i - 1 - k) as isize, at.1)),
            decreases length - i,
        {
            body.push_front(Coord(at.0 + i, at.1));
            i += 1;
        }
        proof {
            let n: nat = if length > 0 { length as nat } else { 0 };
            assert(body@ =~= Body::straight(at, n).cells);
            lemma_straight(at, n);
        }
        Snake { body, prev_tail: None }
    }

    /// Returns the number of cells.
    pub fn len(&self) -> (n: usize)
        ensures
            n == self@.cells.len(),
    {
        self.body.len()
    }

    /// Returns the head.
    pub fn head(&self) -> (h: &Coord)
        requires
            self.wf(),
        ensures
            *h == self@.head(),
    {
        &self.body[self.body.len() - 1]
    }

    /// Returns the tail.
    pub fn tail(&self) -> (t: &Coord)
        requires
            self.wf(),
        ensures
            *t == self@.tail(),
    {
        &self.body[0]
    }

    /// Returns the cell that the last move vacated, if it is still
    /// remembered.
    pub fn prev_tail(&self) -> (t: Option<Coord>)
        ensures
            t == self@.vacated,
    {
        self.prev_tail
    }

    /// Moves the snake by one cell in direction `dir`: the tail is taken off
    /// and remembered, and the neighbour of the head is put on as the new
    /// head.
    ///
    /// The new head is worked out after the tail has gone, so a snake of a
    /// single cell cannot move.
    pub fn tick(&mut self, dir: Direction)
        requires
            old(self)@.cells.len() >= 2,
            old(self)@.head().can_step(dir),
        ensures
            final(self)@ == old(self)@.advance(dir),
            final(self).wf(),
    {
        let tail = self.body.pop_front();
        self.prev_tail = tail;
        let next_head = self.new_head(dir);
        self.body.push_back(next_head);
    }

    /// Lets the snake eat what lies on `coord`, if its head is there and a
    /// vacated cell is remembered: that cell is put back as the tail, and the
    /// snake is one cell longer than before its last move. Otherwise nothing
    /// changes.
    pub fn try_eat(&mut self, coord: Coord) -> (ate: bool)
        requires
            old(self).wf(),
        ensures
            ate == old(self)@.can_eat(coord),
            final(self)@ == if ate { old(self)@.eat() } else { old(self)@ },
            final(self).wf(),
    {
        let head = *self.head();
        match (head == coord, self.prev_tail) {
            (true, Some(prev_tail)) => {
                self.body.push_front(prev_tail);
                self.prev_tail = None;
                true
            },
            _ => false,
        }
    }

    /// Tells whether some cell of the snake, the head included, is `coord`.
    pub fn is_snake(&mut self, coord: &Coord) -> (found: bool)
        ensures
            found == old(self)@.occupies(*coord),
            *final(self) == *old(self),
    {
        let mut i: usize = 0;
        while i < self.body.len()
            invariant
                i <= self.body@.len(),
                forall|k: int| 0 <= k < i ==> self.body@[k] != *coord,
                *self == *old(self),
            decreases self.body@.len() - i,
        {
            if self.body[i] == *coord {
                return true;
            }
            i += 1;
        }
        false
    }

    /// Tells whether some cell of the snake other than the head is `coord`.
    pub fn is_snake_body(&self, coord: Coord) -> (found: bool)
        requires
            self.wf(),
        ensures
            found == self@.trails_over(coord),
    {
        let body_count: usize = self.body.len() - 1;
        let mut i: usize = 0;
        while i < body_count
            invariant
                body_count == self.body@.len() - 1,
                i <= body_count,
                forall|k: int| 0 <= k < i ==> self.body@[k] != coord,
            decreases body_count - i,
        {
            if self.body[i] == coord {
                assert(self.body@.drop_last()[i as int] == coord);
                return true;
            }
            i += 1;
        }
        false
    }

    /// Returns the commands that bring a canvas up to date with the snake
    /// when cells are `size` pixels wide: the vacated cell is erased first,
    /// and then every cell is painted.
    pub fn draw(&self, size: isize) -> (ops: Vec<DrawOp<'static>>)
        ensures
            ops@ == self@.frame(size as int),
    {
        let mut ops: Vec<DrawOp<'static>> = Vec::new();
        if let Some(tail) = self.prev_tail {
            ops.push(tail.clear(size));
        }
        let mut i: usize = 0;
        while i < self.body.len()
            invariant
                i <= self.body@.len(),
                ops@ == self@.erasure(size as int) + self.body@.take(i as int).map_values(
                    |c: Coord| c.fill_op(size as int, SNAKE_COLOR),
                ),
            decreases self.body@.len() - i,
        {
            ops.push(self.body[i].draw(size, SNAKE_COLOR));
            i += 1;
        }
        ops
    }

    /// Works out the cell that the head moves to in direction `dir`.
    fn new_head(&self, dir: Direction) -> (c: Coord)
        requires
            self.wf(),
            self@.head().can_step(dir),
        ensures
            c == self@.head().step(dir),
    {
        let head = *self.head();
        let Coord(x, y) = head;
        match dir {
            Direction::Up => Coord(x, y - 1),
            Direction::Down => Coord(x, y + 1),
            Direction::Left => Coord(x - 1, y),
            Direction::Right => Coord(x + 1, y),
        }
    }
}

/// A straight body of `n` cells has `n` cells, no two of them the same; if it
/// has any, its head is at the given cell and its tail `n - 1` cells to the
/// right of it, and the cells between run from the tail to the head.
pub proof fn lemma_straight(at: Coord, n: nat)
    requires
        n > 0 ==> at.0 + n - 1 <= isize::MAX,
    ensures
        Body::straight(at, n).cells.len() == n,
        Body::straight(at, n).distinct(),
        Body::straight(at, n).vacated is None,
        n > 0 ==> Body::straight(at, n).head() == at,
        n > 0 ==> Body::straight(at, n).tail() == Coord((at.0 + n - 1) as isize, at.1),
        forall|k: int|
            0 <= k < n ==> #[trigger] Body::straight(at, n).cells[k] == Coord(
                (at.0 + n - 1 - k) as isize,
                at.1,
            ),
{
}

/// The commands of a frame paint every cell of the body, in order from the
/// tail, and nothing is erased once the painting has begun: whatever the
/// frame erases, every cell of the body ends up painted.
pub proof fn lemma_frame_paints_last(body: Body, size: int)
    ensures
        body.frame(size).len() == body.erasure(size).len() + body.cells.len(),
        body.erasure(size).len() <= 1,
        forall|k: int|
            0 <= k < body.cells.len() ==> #[trigger] body.frame(size)[body.erasure(size).len() + k]
                == body.cells[k].fill_op(size, SNAKE_COLOR),
        forall|i: int|
            body.erasure(size).len() <= i < body.frame(size).len() ==> #[trigger] body.frame(
                size,
            )[i] is Fill,
{
}

/// A move keeps the number of cells, puts the head on the neighbouring cell,
/// and vacates the cell that was the tail; the cells in between shift by one
/// place towards the tail.
pub proof fn lemma_advance(body: Body, dir: Direction)
    requires
        body.cells.len() > 0,
    ensures
        body.advance(dir).cells.len() == body.cells.len(),
        body.advance(dir).head() == body.head().step(dir),
        body.advance(dir).vacated == Some(body.tail()),
        forall|k: int|
            0 <= k < body.cells.len() - 1 ==> #[trigger] body.advance(dir).cells[k]
                == body.cells[k + 1],
{
}

/// A body that has just moved can eat what lies under its new head. Eating
/// then makes it one cell longer than before the move, puts the cell that
/// the move vacated back as the tail, and leaves the body as it was before
/// the move with the new head added.
pub proof fn lemma_advance_then_eat(body: Body, dir: Direction)
    requires
        body.cells.len() > 0,
    ensures
        body.advance(dir).can_eat(body.advance(dir).head()),
        body.advance(dir).eat().cells.len() == body.cells.len() + 1,
        body.advance(dir).eat().tail() == body.tail(),
        body.advance(dir).eat().head() == body.head().step(dir),
        body.advance(dir).eat().cells == body.cells.push(body.head().step(dir)),
        body.advance(dir).eat().vacated is None,
{
    let grown = body.advance(dir).eat().cells;
    assert(grown =~= body.cells.push(body.head().step(dir)));
}

/// A move keeps a body free of repeated cells, provided that the new head
/// does not run over the body.
pub proof fn lemma_advance_distinct(body: Body, dir: Direction)
    requires
        body.cells.len() > 0,
        body.distinct(),
        !body.advance(dir).trails_over(body.advance(dir).head()),
    ensures
        body.advance(dir).distinct(),
{
    let after = body.advance(dir).cells;
    let n = after.len() as int;
    assert forall|i: int, j: int| 0 <= i < n && 0 <= j < n && i != j implies after[i]
        != after[j] by {
        if i == n - 1 {
            assert(after.drop_last()[j] == after[j]);
        } else if j == n - 1 {
            assert(after.drop_last()[i] == after[i]);
        } else {
            assert(after[i] == body.cells[i + 1]);
            assert(after[j] == body.cells[j + 1]);
        }
    }
}

/// Eating after a move keeps a body free of repeated cells, provided that
/// the new head does not run over the body.
pub proof fn lemma_eat_distinct(body: Body, dir: Direction)
    requires
        body.cells.len() > 0,
        body.distinct(),
        !body.advance(dir).eat().trails_over(body.advance(dir).head()),
    ensures
        body.advance(dir).eat().distinct(),
{
    lemma_advance_then_eat(body, dir);
    let grown = body.advance(dir).eat().cells;
    let n = grown.len() as int;
    assert(grown.drop_last() =~= body.cells);
    assert forall|i: int, j: int| 0 <= i < n && 0 <= j < n && i != j implies grown[i]
        != grown[j] by {
        if i == n - 1 {
            assert(body.cells[j] == grown[j]);
        } else if j == n - 1 {
            assert(body.cells[i] == grown[i]);
        } else {
            assert(grown[i] == body.cells[i]);
            assert(grown[j] == body.cells[j]);
        }
    }
}

/// In a body without repeated cells the head does not count as run over, and
/// every cell before the head does.
pub proof fn lemma_trails_over(body: Body)
    requires
        body.cells.len() > 0,
        body.distinct(),
    ensures
        body.occupies(body.head()),
        !body.trails_over(body.head()),
        forall|k: int|
            0 <= k < body.cells.len() - 1 ==> body.trails_over(#[trigger] body.cells[k]),
{
    let n = body.cells.len() as int;
    assert(body.cells[n - 1] == body.head());
    assert forall|k: int| 0 <= k < n - 1 implies body.trails_over(#[trigger] body.cells[k]) by {
        assert(body.cells.drop_last()[k] == body.cells[k]);
    }
    if body.trails_over(body.head()) {
        let k = choose|k: int|
            0 <= k < body.cells.drop_last().len() && body.cells.drop_last()[k] == body.head();
        assert(body.cells[k] == body.cells[n - 1]);
    }
}

/// Whatever the body, a cell is run over exactly when it is one of the cells
/// before the head, and is occupied exactly when it is run over or is the
/// head.
pub proof fn lemma_occupies(body: Body, c: Coord)
    requires
        body.cells.len() > 0,
    ensures
        body.trails_over(c) <==> exists|k: int|
            0 <= k < body.cells.len() - 1 && #[trigger] body.cells[k] == c,
        body.occupies(c) <==> body.trails_over(c) || c == body.head(),
{
    let n = body.cells.len() as int;
    let front = body.cells.drop_last();
    if body.trails_over(c) {
        let k = choose|k: int| 0 <= k < front.len() && front[k] == c;
        assert(body.cells[k] == c);
    }
    if exists|k: int| 0 <= k < n - 1 && #[trigger] body.cells[k] == c {
        let k = choose|k: int| 0 <= k < n - 1 && #[trigger] body.cells[k] == c;
        assert(front[k] == c);
    }
    if body.occupies(c) {
        let k = choose|k: int| 0 <= k < n && body.cells[k] == c;
        if k < n - 1 {
            assert(front[k] == c);
        }
    }
    if c == body.head() {
        assert(body.cells[n - 1] == c);
    }
}

} // verus!
