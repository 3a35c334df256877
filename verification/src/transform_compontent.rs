//! Grid coordinates.

use vstd::prelude::*;

verus! {

/// A grid cell in unbounded integer coordinates. Contracts speak of cells so
/// that "the cell to the left" is meaningful for every stored position.
pub struct Cell {
    pub x: int,
    pub y: int,
}

impl Cell {
    /// The cell `dx` columns to the right and `dy` rows below this one.
    pub open spec fn offset(self, dx: int, dy: int) -> Cell {
        Cell { x: self.x + dx, y: self.y + dy }
    }

    /// The cell directly below.
    pub open spec fn below(self) -> Cell {
        self.offset(0, 1)
    }

    /// The cell directly above.
    pub open spec fn above(self) -> Cell {
        self.offset(0, -1)
    }
}

/// A stored grid position: column `x`, row `y`, rows growing downwards.
#[derive(Clone, Copy, Debug, PartialEq, Eq, Structural)]
pub struct Position {
    pub x: i32,
    pub y: i32,
}

impl View for Position {
    type V = Cell;

    open spec fn view(&self) -> Cell {
        Cell { x: self.x as int, y: self.y as int }
    }
}

impl Position {
    pub fn new(x: i32, y: i32) -> (p: Position)
        ensures
            p == (Position { x, y }),
    {
        Position { x, y }
    }

    /// Whether this position is the cell `dx` columns right of and `dy` rows
    /// below `origin`. Never overflows: a cell outside the stored range holds
    /// nothing.
    pub fn is_offset_of(&self, origin: &Position, dx: i32, dy: i32) -> (hit: bool)
        ensures
            hit == (self@ == origin@.offset(dx as int, dy as int)),
    {
        self.x as i64 == origin.x as i64 + dx as i64 && self.y as i64 == origin.y as i64 + dy as i64
    }
}

/// Where an entity stands on the grid.
#[derive(Clone, Copy, Debug, PartialEq, Eq, Structural)]
pub struct TransformComponent {
    pub position: Position,
}

impl Default for TransformComponent {
    fn default() -> (t: TransformComponent)
        ensures
            t.position == (Position { x: 0, y: 0 }),
    {
        TransformComponent { position: Position { x: 0, y: 0 } }
    }
}

/// Something that occupies one grid cell.
pub trait Located {
    /// The cell this item occupies.
    spec fn cell(&self) -> Cell;

    /// The stored position of this item.
    fn position(&self) -> (p: Position)
        ensures
            p@ == self.cell(),
    ;
}

/// Whether some item of `items` occupies cell `c`.
pub open spec fn occupied<T: Located>(items: Seq<T>, c: Cell) -> bool {
    exists|i: int| 0 <= i < items.len() && (#[trigger] items[i]).cell() == c
}

/// Whether `i` is the index of the first item of `items` on cell `c`.
pub open spec fn is_first_at<T: Located>(items: Seq<T>, c: Cell, i: int) -> bool {
    &&& 0 <= i < items.len()
    &&& items[i].cell() == c
    &&& forall|j: int| 0 <= j < i ==> (#[trigger] items[j]).cell() != c
}

/// The index of the first item of `items` on cell `c`, if there is one.
pub open spec fn first_at<T: Located>(items: Seq<T>, c: Cell) -> Option<int> {
    if occupied(items, c) {
        Some(choose|i: int| is_first_at(items, c, i))
    } else {
        None
    }
}

/// The first item on a cell is unique, so naming any index that qualifies
/// names the one `first_at` picks.
pub proof fn first_at_is(items: Seq<impl Located>, c: Cell, i: int)
    requires
        is_first_at(items, c, i),
    ensures
        first_at(items, c) == Some(i),
{
    // Of two first items the later one would have the earlier one before it.
    let k = choose|k: int| is_first_at(items, c, k);
    assert(is_first_at(items, c, k));
}

/// What `first_at` picks is the first item on the cell.
pub proof fn first_at_is_first(items: Seq<impl Located>, c: Cell)
    ensures
        first_at(items, c) matches Some(i) ==> is_first_at(items, c, i),
        first_at(items, c) is Some <==> occupied(items, c),
{
    if occupied(items, c) {
        let k = choose|k: int| 0 <= k < items.len() && (#[trigger] items[k]).cell() == c;
        least_on_cell(items, c, k);
    }
}

/// If an item is on the cell, some item is the first one on it.
proof fn least_on_cell(items: Seq<impl Located>, c: Cell, k: int)
    requires
        0 <= k < items.len(),
        items[k].cell() == c,
    ensures
        exists|i: int| is_first_at(items, c, i),
    decreases k,
{
    if exists|j: int| 0 <= j < k && (#[trigger] items[j]).cell() == c {
        let j = choose|j: int| 0 <= j < k && (#[trigger] items[j]).cell() == c;
        least_on_cell(items, c, j);
    } else {
        assert(is_first_at(items, c, k));
    }
}

/// Whether some item lies `dx` columns right of and `dy` rows below `origin`.
pub fn any_at<T: Located>(items: &Vec<T>, origin: &Position, dx: i32, dy: i32) -> (hit: bool)
    ensures
        hit == occupied(items@, origin@.offset(dx as int, dy as int)),
{
    let mut i: usize = 0;
    while i < items.len()
        invariant
            i <= items.len(),
            forall|j: int|
                0 <= j < i ==> (#[trigger] items@[j]).cell() != origin@.offset(dx as int, dy as int),
        decreases items.len() - i,
    {
        if items[i].position().is_offset_of(origin, dx, dy) {
            return true;
        }
        i += 1;
    }
    false
}

/// The index of the first item that lies `dx` columns right of and `dy` rows
/// below `origin`.
pub fn find_at<T: Located>(items: &Vec<T>, origin: &Position, dx: i32, dy: i32) -> (found: Option<usize>)
    ensures
        match found {
            Some(i) => first_at(items@, origin@.offset(dx as int, dy as int)) == Some(i as int),
            None => first_at(items@, origin@.offset(dx as int, dy as int)).is_none(),
        },
        found matches Some(i) ==> i < items.len(),
{
    let mut i: usize = 0;
    while i < items.len()
        invariant
            i <= items.len(),
            forall|j: int|
                0 <= j < i ==> (#[trigger] items@[j]).cell() != origin@.offset(dx as int, dy as int),
        decreases items.len() - i,
    {
        if items[i].position().is_offset_of(origin, dx, dy) {
            proof {
                first_at_is(items@, origin@.offset(dx as int, dy as int), i as int);
            }
            return Some(i);
        }
        i += 1;
    }
    None
}

} // verus!
