//! Screen regions and the fixed partition of the terminal area.

use vstd::prelude::*;

verus! {

/// Width of the left column, in cells.
pub const LEFT_WIDTH: u16 = 40;

/// Height of the top cell of the left column, in cells.
pub const TOP_HEIGHT: u16 = 20;

/// Height of each of the two chart bands under the table, in cells.
pub const CHART_HEIGHT: u16 = 6;

/// An axis-aligned rectangle of terminal cells.
#[derive(Clone, Copy, Debug, PartialEq, Eq, Structural)]
pub struct Region {
    pub x: u16,
    pub y: u16,
    pub width: u16,
    pub height: u16,
}

impl Region {
    /// The right and bottom edges are representable coordinates.
    pub open spec fn wf(self) -> bool {
        &&& self.x + self.width <= u16::MAX
        &&& self.y + self.height <= u16::MAX
    }

    /// Whether the cell at (`col`, `row`) lies inside the region.
    pub open spec fn covers(self, col: int, row: int) -> bool {
        &&& self.x <= col < self.x + self.width
        &&& self.y <= row < self.y + self.height
    }

    /// Whether every cell of the region lies inside `outer`.
    pub open spec fn inside(self, outer: Region) -> bool {
        forall|col: int, row: int| #[trigger] self.covers(col, row) ==> outer.covers(col, row)
    }

    /// Builds a region at (`x`, `y`). A width or height that would carry the
    /// right or bottom edge past the largest coordinate is cut back to it.
    pub fn new(x: u16, y: u16, width: u16, height: u16) -> (region: Region)
        ensures
            region.wf(),
            region.x == x,
            region.y == y,
            region.width == if x + width <= u16::MAX { width as int } else { u16::MAX - x },
            region.height == if y + height <= u16::MAX { height as int } else { u16::MAX - y },
    {
        let room_x: u16 = u16::MAX - x;
        let room_y: u16 = u16::MAX - y;
        Region {
            x,
            y,
            width: if width > room_x { room_x } else { width },
            height: if height > room_y { room_y } else { height },
        }
    }
}

impl Region {
    /// The region cut into a left part `fixed` cells wide and a right part
    /// that takes what is left. A region narrower than `fixed` goes to the
    /// left part whole.
    pub open spec fn columns(self, fixed: u16) -> (Region, Region) {
        let lead = leading(self.width, fixed);
        (
            Region { x: self.x, y: self.y, width: lead, height: self.height },
            Region {
                x: (self.x + lead) as u16,
                y: self.y,
                width: (self.width - lead) as u16,
                height: self.height,
            },
        )
    }

    /// The region cut into a top part `fixed` cells high and a bottom part
    /// that takes what is left. A region lower than `fixed` goes to the top
    /// part whole.
    pub open spec fn rows(self, fixed: u16) -> (Region, Region) {
        let lead = leading(self.height, fixed);
        (
            Region { x: self.x, y: self.y, width: self.width, height: lead },
            Region {
                x: self.x,
                y: (self.y + lead) as u16,
                width: self.width,
                height: (self.height - lead) as u16,
            },
        )
    }

    /// The region cut into two parts of equal height, one above the other.
    /// With an odd height the top part is one row higher.
    pub open spec fn halves(self) -> (Region, Region) {
        self.rows(upper_half(self.height))
    }

    /// Cuts the region into a left part of fixed width and the rest.
    pub fn split_columns(self, fixed: u16) -> (parts: (Region, Region))
        requires
            self.wf(),
        ensures
            parts == self.columns(fixed),
            parts.0.wf(),
            parts.1.wf(),
    {
        let lead: u16 = if self.width < fixed { self.width } else { fixed };
        (
            Region { x: self.x, y: self.y, width: lead, height: self.height },
            Region { x: self.x + lead, y: self.y, width: self.width - lead, height: self.height },
        )
    }

    /// Cuts the region into a top part of fixed height and the rest.
    pub fn split_rows(self, fixed: u16) -> (parts: (Region, Region))
        requires
            self.wf(),
        ensures
            parts == self.rows(fixed),
            parts.0.wf(),
            parts.1.wf(),
    {
        let lead: u16 = if self.height < fixed { self.height } else { fixed };
        (
            Region { x: self.x, y: self.y, width: self.width, height: lead },
            Region { x: self.x, y: self.y + lead, width: self.width, height: self.height - lead },
        )
    }

    /// Cuts the region into an upper and a lower half.
    pub fn split_halves(self) -> (parts: (Region, Region))
        requires
            self.wf(),
        ensures
            parts == self.halves(),
            parts.0.wf(),
            parts.1.wf(),
    {
        let upper: u16 = self.height - self.height / 2;
        self.split_rows(upper)
    }
}

/// The length given to a leading part of `fixed` cells out of `total`.
pub open spec fn leading(total: u16, fixed: u16) -> u16 {
    if total < fixed {
        total
    } else {
        fixed
    }
}

/// Half of `total`, rounded up.
pub open spec fn upper_half(total: u16) -> u16 {
    (total - total / 2) as u16
}

/// No position lies in both regions.
pub open spec fn apart(a: Region, b: Region) -> bool {
    forall|col: int, row: int| !(#[trigger] a.covers(col, row) && b.covers(col, row))
}

/// The four cells of the dashboard, named by their place on the screen.
#[derive(Clone, Copy, Debug, PartialEq, Eq, Structural)]
pub struct Partition {
    pub left_top: Region,
    pub left_bottom: Region,
    pub right_top: Region,
    pub right_bottom: Region,
}

impl Partition {
    /// Whether one of the cells covers (`col`, `row`).
    pub open spec fn covers(self, col: int, row: int) -> bool {
        ||| self.left_top.covers(col, row)
        ||| self.left_bottom.covers(col, row)
        ||| self.right_top.covers(col, row)
        ||| self.right_bottom.covers(col, row)
    }

    /// No two cells share a position.
    pub open spec fn disjoint(self) -> bool {
        &&& apart(self.left_top, self.left_bottom)
        &&& apart(self.left_top, self.right_top)
        &&& apart(self.left_top, self.right_bottom)
        &&& apart(self.left_bottom, self.right_top)
        &&& apart(self.left_bottom, self.right_bottom)
        &&& apart(self.right_top, self.right_bottom)
    }

    /// The cells are pairwise disjoint and their union is `area`.
    pub open spec fn tiles(self, area: Region) -> bool {
        &&& self.disjoint()
        &&& forall|col: int, row: int| self.covers(col, row) <==> #[trigger] area.covers(col, row)
    }

    /// The partition of `area`: a left column `LEFT_WIDTH` wide whose top
    /// cell is `TOP_HEIGHT` high, and a right column cut into halves.
    pub open spec fn of(area: Region) -> Partition {
        let (left, right) = area.columns(LEFT_WIDTH);
        let (left_top, left_bottom) = left.rows(TOP_HEIGHT);
        let (right_top, right_bottom) = right.halves();
        Partition { left_top, left_bottom, right_top, right_bottom }
    }

    /// Divides `area` among the four cells.
    pub fn new(area: Region) -> (cells: Partition)
        requires
            area.wf(),
        ensures
            cells == Partition::of(area),
            cells.tiles(area),
            cells.left_top.wf(),
            cells.left_bottom.wf(),
            cells.right_top.wf(),
            cells.right_bottom.wf(),
    {
        let (left, right) = area.split_columns(LEFT_WIDTH);
        let (left_top, left_bottom) = left.split_rows(TOP_HEIGHT);
        let (right_top, right_bottom) = right.split_halves();
        proof {
            lemma_partition_tiles(area);
        }
        Partition { left_top, left_bottom, right_top, right_bottom }
    }
}

/// The cells of the partition are pairwise disjoint and together cover the
/// area exactly, whatever its size.
pub proof fn lemma_partition_tiles(area: Region)
    requires
        area.wf(),
    ensures
        Partition::of(area).tiles(area),
{
    let cells = Partition::of(area);
    assert forall|col: int, row: int| cells.covers(col, row) <==> #[trigger] area.covers(
        col,
        row,
    ) by {
    }
}

/// The three bands of the statistics cell, from top to bottom.
#[derive(Clone, Copy, Debug, PartialEq, Eq, Structural)]
pub struct Bands {
    pub table: Region,
    pub load: Region,
    pub history: Region,
}

impl Bands {
    /// Whether one of the bands covers (`col`, `row`).
    pub open spec fn covers(self, col: int, row: int) -> bool {
        ||| self.table.covers(col, row)
        ||| self.load.covers(col, row)
        ||| self.history.covers(col, row)
    }

    /// No two bands share a position.
    pub open spec fn disjoint(self) -> bool {
        &&& apart(self.table, self.load)
        &&& apart(self.table, self.history)
        &&& apart(self.load, self.history)
    }

    /// The bands are pairwise disjoint and their union is `area`.
    pub open spec fn tiles(self, area: Region) -> bool {
        &&& self.disjoint()
        &&& forall|col: int, row: int| self.covers(col, row) <==> #[trigger] area.covers(col, row)
    }

    /// The bands of `area`: the two charts take the bottom rows,
    /// `CHART_HEIGHT` each, and the table what is above them. Where `area`
    /// is too low for both charts they share its rows, the upper one getting
    /// the odd row, and the table has none.
    pub open spec fn of(area: Region) -> Bands {
        let charts_height = leading(area.height, (2 * CHART_HEIGHT) as u16);
        let (table, charts) = area.rows((area.height - charts_height) as u16);
        let (load, history) = charts.halves();
        Bands { table, load, history }
    }

    /// Divides `area` among the three bands.
    pub fn new(area: Region) -> (bands: Bands)
        requires
            area.wf(),
        ensures
            bands == Bands::of(area),
            bands.tiles(area),
            bands.table.wf(),
            bands.load.wf(),
            bands.history.wf(),
    {
        let charts_height: u16 = if area.height < 2 * CHART_HEIGHT {
            area.height
        } else {
            2 * CHART_HEIGHT
        };
        let (table, charts) = area.split_rows(area.height - charts_height);
        let (load, history) = charts.split_halves();
        proof {
            lemma_bands_tile(area);
        }
        Bands { table, load, history }
    }
}

/// The bands are pairwise disjoint and together cover the area exactly,
/// whatever its size.
pub proof fn lemma_bands_tile(area: Region)
    requires
        area.wf(),
    ensures
        Bands::of(area).tiles(area),
{
    let bands = Bands::of(area);
    assert forall|col: int, row: int| bands.covers(col, row) <==> #[trigger] area.covers(
        col,
        row,
    ) by {
    }
}

impl Region {
    /// The rows of the region, from top to bottom, each by its coordinate.
    pub fn row_positions(&self) -> (rows: Vec<u16>)
        requires
            self.wf(),
        ensures
            rows.len() == self.height,
            forall|i: int| 0 <= i < rows.len() ==> rows[i] == self.y + i,
    {
        let mut rows: Vec<u16> = Vec::new();
        let mut i: u16 = 0;
        while i < self.height
            invariant
                self.wf(),
                i <= self.height,
                rows.len() == i,
                forall|k: int| 0 <= k < rows.len() ==> rows[k] == self.y + k,
            decreases self.height - i,
        {
            rows.push(self.y + i);
            i += 1;
        }
        rows
    }
}

} // verus!
