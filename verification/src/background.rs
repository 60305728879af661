//! Decorative background: a cellular automaton the size of the screen,
//! advanced one generation per render pass and drawn as a grid of
//! characters beneath the foreground panels.  The automaton itself is
//! gridlife's; this module pins what it hands back — the grid keeps its
//! dimensions, each render pass advances the alive pattern by exactly
//! one generation, and the text is the rendering of the advanced grid,
//! one newline-closed row per grid row.

use vstd::prelude::*;

verus! {

#[verifier::external_type_specification]
#[verifier::external_body]
#[verifier::reject_recursive_types(T)]
pub struct ExGrid<T>(gridlife::Grid<T>);

#[verifier::external_type_specification]
#[verifier::external_body]
pub struct ExCellState(gridlife::CellState);

/// Columns of cells that the grid was created with.
pub uninterp spec fn grid_width(g: gridlife::Grid<gridlife::CellState>) -> nat;

/// Rows of cells that the grid was created with.
pub uninterp spec fn grid_height(g: gridlife::Grid<gridlife::CellState>) -> nat;

/// The grid's cell store matches its dimensions — one cell per column
/// and row, as every grid built by gridlife's constructors has it.
/// gridlife's generation step and renderer expect nothing less.
pub uninterp spec fn grid_consistent(g: gridlife::Grid<gridlife::CellState>) -> bool;

/// Which of the grid's cells are alive, row by row.
pub uninterp spec fn grid_cells(g: gridlife::Grid<gridlife::CellState>) -> Seq<bool>;

/// The alive pattern that one generation of gridlife's automaton turns
/// `cells` into, on a grid of the given dimensions.  The step is a
/// function of the pattern and the dimensions alone.
pub uninterp spec fn life_step(width: nat, height: nat, cells: Seq<bool>) -> Seq<bool>;

/// The text that gridlife renders a grid value as.
pub uninterp spec fn grid_portrait(g: gridlife::Grid<gridlife::CellState>) -> Seq<char>;

/// Relies on gridlife's `Grid::new_random`: a grid with the given
/// numbers of columns and rows, its cells seeded at random.  Nothing is
/// assumed about which cells start alive.
#[verifier::external_body]
fn new_random_grid(width: usize, height: usize) -> (g: gridlife::Grid<gridlife::CellState>)
    requires
        width * height <= usize::MAX,
    ensures
        grid_width(g) == width,
        grid_height(g) == height,
        grid_consistent(g),
{
    gridlife::Grid::new_random(width, height)
}

/// Relies on gridlife's `Grid::update_states`: one generation of the
/// automaton — the alive pattern is stepped in place, and the grid
/// keeps its dimensions.  The step works in 32-bit cell coordinates,
/// so the cell count must stay below their range.
#[verifier::external_body]
fn advance_grid(g: &mut gridlife::Grid<gridlife::CellState>)
    requires
        grid_consistent(*old(g)),
        grid_width(*old(g)) * grid_height(*old(g)) < 0x8000_0000,
    ensures
        grid_width(*final(g)) == grid_width(*old(g)),
        grid_height(*final(g)) == grid_height(*old(g)),
        grid_consistent(*final(g)),
        grid_cells(*final(g)) == life_step(
            grid_width(*old(g)),
            grid_height(*old(g)),
            grid_cells(*old(g)),
        ),
{
    g.update_states();
}

/// Relies on gridlife's `Display` for `Grid`: one text row per grid
/// row, one character per cell, each row closed by a newline.
#[verifier::external_body]
fn grid_text(g: &gridlife::Grid<gridlife::CellState>) -> (r: String)
    requires
        grid_consistent(*g),
    ensures
        r@ == grid_portrait(*g),
        r@.len() == grid_height(*g) * (grid_width(*g) + 1),
        forall|i: int|
            0 <= i < r@.len() && i % (grid_width(*g) + 1) as int == grid_width(*g) as int
                ==> r@[i] == '\n',
{
    g.to_string()
}

/// The animated backdrop of the page.
pub struct Background {
    grid: gridlife::Grid<gridlife::CellState>,
}

impl Background {
    /// The held grid is one that gridlife built — its cell store
    /// matches its dimensions — and is small enough for the generation
    /// step's 32-bit cell coordinates.
    pub closed spec fn wf(&self) -> bool {
        &&& grid_consistent(self.grid)
        &&& grid_width(self.grid) * grid_height(self.grid) < 0x8000_0000
    }

    /// Columns of the backdrop, in character cells.
    pub closed spec fn width(&self) -> nat {
        grid_width(self.grid)
    }

    /// Rows of the backdrop, in character cells.
    pub closed spec fn height(&self) -> nat {
        grid_height(self.grid)
    }

    /// Which of the backdrop's cells are alive, row by row.
    pub closed spec fn cells(&self) -> Seq<bool> {
        grid_cells(self.grid)
    }

    /// The text that the held grid renders as.
    pub closed spec fn portrait(&self) -> Seq<char> {
        grid_portrait(self.grid)
    }

    /// A randomly seeded backdrop covering `width` by `height`
    /// character cells.
    pub fn new(width: usize, height: usize) -> (b: Self)
        requires
            width * height < 0x8000_0000,
        ensures
            b.wf(),
            b.width() == width,
            b.height() == height,
    {
        Background { grid: new_random_grid(width, height) }
    }

    /// Advances the automaton by exactly one generation and renders the
    /// result: the returned text is the advanced grid's rendering, one
    /// newline-closed row of characters per grid row, ready to be split
    /// into lines and drawn behind the page.
    pub fn next_frame(&mut self) -> (text: String)
        requires
            old(self).wf(),
        ensures
            final(self).wf(),
            final(self).width() == old(self).width(),
            final(self).height() == old(self).height(),
            final(self).cells() == life_step(
                old(self).width(),
                old(self).height(),
                old(self).cells(),
            ),
            text@ == final(self).portrait(),
            text@.len() == old(self).height() * (old(self).width() + 1),
            forall|i: int|
                0 <= i < text@.len() && i % (old(self).width() + 1) as int == old(
                    self,
                ).width() as int ==> text@[i] == '\n',
    {
        advance_grid(&mut self.grid);
        grid_text(&self.grid)
    }
}

} // verus!
