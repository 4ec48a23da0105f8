//! What the embedding program found out about the surface that a scene is
//! painted on.

use crate::state::LibraryGrid;
use vstd::prelude::*;

verus! {

/// How much fits where on a surface. The numbers follow from measuring text and
/// boxes, which is done elsewhere; a cell is the room that one letter takes.
#[derive(Clone, Debug)]
pub struct SurfaceFacts {
    /// How many cards and chips stand beside each other.
    pub grid: LibraryGrid,
    /// Whether the surface is higher than wide.
    pub portrait: bool,
    /// Whether the status of the device fits beside the rooms.
    pub status_fits: bool,
    /// How many cards fit on the shelf.
    pub shelf_capacity: usize,
    /// Whether the cards of the shelf have room for a caption.
    pub caption_fits: bool,
    /// The cells across a card of the shelf.
    pub shelf_cells: i64,
    /// The cells across the badge of a card of the shelf.
    pub shelf_badge_cells: i64,
    /// The cells between the title of a card of the shelf and the footer, over
    /// all lines.
    pub shelf_reason_cells: i64,
    /// The cells across each chip of the toolbar.
    pub chip_cells: [i64; 4],
    /// How many rows of cards the library shows.
    pub library_rows: usize,
    /// The cells across a card of the library.
    pub card_cells: i64,
    /// The cells across the badge of a card of the library.
    pub card_badge_cells: i64,
    /// How many results a search shows.
    pub result_capacity: usize,
    /// The cells for the title and for the caption of each result.
    pub result_cells: Vec<(i64, i64)>,
    /// Whether the facts about a title fit above the footer.
    pub facts_fit: bool,
    /// How many rows the settings show.
    pub row_capacity: usize,
    /// Whether the quick panel has room for its reassurance.
    pub truth_fits: bool,
}

impl SurfaceFacts {
    /// What holds of every surface: it has a grid and shows at least one card,
    /// row and result.
    pub open spec fn wf(self) -> bool {
        &&& self.grid.wf()
        &&& self.shelf_capacity >= 1
        &&& self.library_rows >= 1
        &&& self.result_capacity >= 1
        &&& self.row_capacity >= 1
    }

    /// Whether cards and chips are packed as on a small surface.
    pub open spec fn small(self) -> bool {
        self.grid.columns < 6
    }

    /// Whether cards and chips are packed as on a small surface.
    pub fn compact(&self) -> (small: bool)
        ensures
            small == self.small(),
    {
        self.grid.columns < 6
    }
}

} // verus!
