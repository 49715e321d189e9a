//! The snake: an ordered body from tail to head and a direction of motion,
//! with the algorithms that move it, grow it and test it for crossing itself.

use std::collections::VecDeque;
use vstd::prelude::*;

use crate::geometry::{move_point, move_spec, same_point, Direction, Point};
use crate::render::{drawings, DrawCommand, Drawing};

verus! {

/// Whether `dir` moves along the `y` axis.
pub open spec fn is_vertical(dir: Direction) -> bool {
    dir == Direction::Up || dir == Direction::Down
}

/// The direction a snake heading `current` takes when `requested` comes in:
/// only a quarter turn is taken; a request along the current axis, or none,
/// keeps `current`.
pub open spec fn resolve_direction(current: Direction, requested: Option<Direction>) -> Direction {
    match requested {
        Some(dir) => if is_vertical(dir) != is_vertical(current) {
            dir
        } else {
            current
        },
        None => current,
    }
}

/// What a snake is: its cells from tail to head, and its direction.
pub struct SnakeModel {
    pub body: Seq<Point>,
    pub direction: Direction,
}

impl SnakeModel {
    /// A snake always has a head.
    pub open spec fn wf(self) -> bool {
        self.body.len() > 0
    }

    /// The last cell of the body.
    pub open spec fn head(self) -> Point {
        self.body.last()
    }

    /// The snake one step further on: the cell ahead becomes the head and the
    /// tail cell is dropped. Where the cell ahead has no coordinates the
    /// snake stays where it is.
    pub open spec fn crawl(self) -> SnakeModel {
        match move_spec(self.head(), self.direction) {
            Some(next) => SnakeModel { body: self.body.drop_first().push(next), ..self },
            None => self,
        }
    }

    /// The snake after it has resolved `requested` against its direction and
    /// crawled.
    pub open spec fn update(self, requested: Option<Direction>) -> SnakeModel {
        SnakeModel { direction: resolve_direction(self.direction, requested), ..self }.crawl()
    }

    /// The grown snake when the head is on `food`: a copy of the tail cell
    /// is put in front of the body.
    pub open spec fn eat(self, food: Point) -> Option<SnakeModel> {
        if self.head() == food {
            Some(SnakeModel { body: seq![self.body[0]] + self.body, ..self })
        } else {
            None
        }
    }

    /// Whether the head's cell also holds an earlier part of the body.
    pub open spec fn self_cross(self) -> bool {
        exists|i: int| 0 <= i < self.body.len() - 1 && self.body[i] == self.head()
    }
}

/// Moving never changes a snake's length, whether it crawls on or turns
/// first, and keeps it well formed.
pub proof fn lemma_moves_keep_length(s: SnakeModel, requested: Option<Direction>)
    requires
        s.wf(),
    ensures
        s.crawl().body.len() == s.body.len(),
        s.update(requested).body.len() == s.body.len(),
        s.update(requested).wf(),
{
}

/// A snake whose head is on the food grows by exactly one cell when it eats,
/// keeps its head and direction, and keeps its new length when it crawls on.
pub proof fn lemma_eat_grows_by_one(s: SnakeModel, food: Point)
    requires
        s.wf(),
        s.head() == food,
    ensures
        s.eat(food) is Some,
        s.eat(food).unwrap().body.len() == s.body.len() + 1,
        s.eat(food).unwrap().head() == s.head(),
        s.eat(food).unwrap().direction == s.direction,
        s.eat(food).unwrap().crawl().body.len() == s.body.len() + 1,
{
    let grown = s.eat(food).unwrap();
    assert(grown.body.last() == s.body.last());
    lemma_moves_keep_length(grown, None);
}

/// A snake never reverses into its own neck: a request along the axis it
/// moves on is ignored, and a request across it is taken.
pub proof fn lemma_reversal_lock(s: SnakeModel, requested: Direction)
    ensures
        is_vertical(requested) == is_vertical(s.direction) ==> s.update(Some(requested)).direction
            == s.direction,
        is_vertical(requested) != is_vertical(s.direction) ==> s.update(Some(requested)).direction
            == requested,
{
}

/// A snake of a single cell never crosses itself.
pub proof fn lemma_single_cell_never_crosses(s: SnakeModel)
    requires
        s.body.len() == 1,
    ensures
        !s.self_cross(),
{
}

/// The text a snake's cell is drawn with.
pub open spec fn body_glyph() -> Seq<char> {
    seq!['@']
}

/// The text that blanks a cell.
pub open spec fn blank_glyph() -> Seq<char> {
    seq![' ']
}

/// One drawing of `glyph` at each of `cells`, in order.
pub open spec fn cells_drawn(cells: Seq<Point>, glyph: Seq<char>) -> Seq<Drawing> {
    Seq::new(cells.len(), |i: int| Drawing::Draw(cells[i], glyph))
}

/// Appends to `out` one drawing of `glyph` at each of `cells`.
fn draw_cells(out: &mut Vec<DrawCommand>, cells: &VecDeque<Point>, glyph: &str)
    ensures
        drawings(final(out)@) == drawings(old(out)@) + cells_drawn(cells@, glyph@),
{
    let ghost start = out@;
    let mut i: usize = 0;
    while i < cells.len()
        invariant
            i <= cells@.len(),
            drawings(out@) == drawings(start) + cells_drawn(cells@.subrange(0, i as int), glyph@),
        decreases cells@.len() - i,
    {
        let ghost before = out@;
        let text = String::from_str(glyph);
        out.push(DrawCommand::Draw(cells[i], text));
        assert(drawings(out@) =~= drawings(before).push(Drawing::Draw(cells@[i as int], glyph@)));
        assert(cells_drawn(cells@.subrange(0, i + 1), glyph@) =~= cells_drawn(
            cells@.subrange(0, i as int),
            glyph@,
        ).push(Drawing::Draw(cells@[i as int], glyph@)));
        i = i + 1;
    }
    assert(cells@.subrange(0, i as int) =~= cells@);
}

/// A snake on the grid. `body` runs from the tail to the head.
pub struct Snake {
    pub body: VecDeque<Point>,
    pub direction: Direction,
}

impl View for Snake {
    type V = SnakeModel;

    open spec fn view(&self) -> SnakeModel {
        SnakeModel { body: self.body@, direction: self.direction }
    }
}

/// A copy of `cells`, in the same order.
fn copy_cells(cells: &VecDeque<Point>) -> (r: VecDeque<Point>)
    ensures
        r@ == cells@,
{
    let mut copy = VecDeque::new();
    let mut i: usize = 0;
    while i < cells.len()
        invariant
            i <= cells@.len(),
            copy@ == cells@.subrange(0, i as int),
        decreases cells@.len() - i,
    {
        copy.push_back(cells[i]);
        i = i + 1;
        assert(copy@ =~= cells@.subrange(0, i as int));
    }
    assert(copy@ =~= cells@);
    copy
}

impl Snake {
    /// A snake of the one cell `head`, heading `direction`.
    pub fn new(head: Point, direction: Direction) -> (r: Snake)
        ensures
            r@ == (SnakeModel { body: seq![head], direction }),
    {
        let mut body = VecDeque::new();
        body.push_back(head);
        Snake { body, direction }
    }

    /// The cell of the head.
    pub fn head(&self) -> (r: Point)
        requires
            self@.wf(),
        ensures
            r == self@.head(),
    {
        self.body[self.body.len() - 1]
    }

    /// The snake one step further on, in its own direction, without growing.
    pub fn crawl(&self) -> (r: Snake)
        requires
            self@.wf(),
        ensures
            r@ == self@.crawl(),
    {
        let direction = self.direction;
        let mut body = copy_cells(&self.body);
        if let Some(new_head) = move_point(&self.head(), &direction) {
            body.push_back(new_head);
            body.pop_front();
            assert(body@ =~= self.body@.drop_first().push(new_head));
        }
        Snake { body, direction }
    }

    /// The snake after taking `requested` as a quarter turn, where it is one,
    /// and crawling.
    pub fn update(&self, requested: Option<Direction>) -> (r: Snake)
        requires
            self@.wf(),
        ensures
            r@ == self@.update(requested),
    {
        let direction = match requested {
            Some(Direction::Up) | Some(Direction::Down) => match self.direction {
                Direction::Left | Direction::Right => requested.unwrap(),
                _ => self.direction,
            },
            Some(Direction::Left) | Some(Direction::Right) => match self.direction {
                Direction::Up | Direction::Down => requested.unwrap(),
                _ => self.direction,
            },
            None => self.direction,
        };
        let turned = Snake { body: copy_cells(&self.body), direction };
        turned.crawl()
    }

    /// The snake grown by one cell when its head is on `food`, else `None`.
    pub fn eat(&self, food: &Point) -> (r: Option<Snake>)
        requires
            self@.wf(),
        ensures
            match r {
                Some(grown) => self@.eat(*food) == Some(grown@),
                None => self@.eat(*food) is None,
            },
    {
        if same_point(&self.head(), food) {
            let mut body = copy_cells(&self.body);
            body.push_front(self.body[0]);
            Some(Snake { body, direction: self.direction })
        } else {
            None
        }
    }

    /// Blanks each of the snake's cells, from tail to head.
    pub fn clear(&self, out: &mut Vec<DrawCommand>)
        ensures
            drawings(final(out)@) == drawings(old(out)@) + cells_drawn(self.body@, blank_glyph()),
    {
        proof {
            reveal_strlit(" ");
            assert(" "@ =~= blank_glyph());
        }
        draw_cells(out, &self.body, " ");
    }

    /// Draws each of the snake's cells, from tail to head.
    pub fn draw(&self, out: &mut Vec<DrawCommand>)
        ensures
            drawings(final(out)@) == drawings(old(out)@) + cells_drawn(self.body@, body_glyph()),
    {
        proof {
            reveal_strlit("@");
            assert("@"@ =~= body_glyph());
        }
        draw_cells(out, &self.body, "@");
    }

    /// Whether the head's cell also holds an earlier part of the body.
    pub fn self_cross(&self) -> (r: bool)
        requires
            self@.wf(),
        ensures
            r == self@.self_cross(),
    {
        let head = self.head();
        let last = self.body.len() - 1;
        let mut i: usize = 0;
        while i < last
            invariant
                last == self.body@.len() - 1,
                head == self@.head(),
                i <= last,
                forall|j: int| 0 <= j < i ==> self.body@[j] != head,
            decreases last - i,
        {
            if same_point(&self.body[i], &head) {
                return true;
            }
            i = i + 1;
        }
        false
    }
}

} // verus!
