//! What the control pad does on each route.

use crate::library::TOOLBAR_ITEM_COUNT;
use crate::navigation::{floored, least};
use crate::ports::AxisMove;
use crate::state::{most_focus, LibraryGrid, Route, SettingsRoom, ShellCore, ShellModel};
use vstd::prelude::*;

verus! {

/// The focus right of a chip of the toolbar.
pub open spec fn right_of_chip(grid: LibraryGrid, focus: int) -> int {
    if !grid.wraps() || (grid.column_of(focus - 1) + 1 < grid.toolbar_columns && focus
        < TOOLBAR_ITEM_COUNT) {
        least(focus + 1, TOOLBAR_ITEM_COUNT as int)
    } else {
        focus
    }
}

/// The focus right of a card of the library. The right edge is hard.
pub open spec fn right_of_card(grid: LibraryGrid, focus: int, count: int) -> int {
    if (focus - 5) % (grid.columns as int) + 1 < grid.columns && focus - 4 < count {
        focus + 1
    } else {
        focus
    }
}

/// The focus left of a chip of the toolbar.
pub open spec fn left_of_chip(grid: LibraryGrid, focus: int) -> int {
    if !grid.wraps() || grid.column_of(focus - 1) > 0 {
        focus - 1
    } else {
        focus
    }
}

/// The focus left of a card of the library. The left edge is hard.
pub open spec fn left_of_card(grid: LibraryGrid, focus: int) -> int {
    if (focus - 5) % (grid.columns as int) > 0 {
        focus - 1
    } else {
        focus
    }
}

/// The focus below the search field or a chip: the chip below, or the nearest
/// card of the first row. An empty library has nothing below.
pub open spec fn below_toolbar(grid: LibraryGrid, focus: int, count: int) -> int {
    if count == 0 {
        focus
    } else if grid.wraps() && focus == 0 {
        1
    } else if grid.wraps() && focus - 1 + grid.toolbar_columns < TOOLBAR_ITEM_COUNT {
        focus + grid.toolbar_columns
    } else {
        let column = if grid.wraps() {
            grid.column_below(grid.column_of(floored(focus - 1)))
        } else {
            floored(focus - 1)
        };
        5 + least(column, count - 1)
    }
}

/// The focus below a card of the library. The lower edge is hard.
pub open spec fn below_card(grid: LibraryGrid, focus: int, count: int) -> int {
    if focus - 5 + grid.columns < count {
        focus + grid.columns
    } else {
        focus
    }
}

/// The focus above a card of the library: the card above, or the nearest chip.
pub open spec fn above_card(grid: LibraryGrid, focus: int) -> int {
    if focus - 5 >= grid.columns {
        focus - grid.columns
    } else if grid.wraps() {
        let chip = (grid.rows() - 1) * grid.toolbar_columns + grid.column_above(
            (focus - 5) % (grid.columns as int),
        );
        least(chip, TOOLBAR_ITEM_COUNT - 1) + 1
    } else {
        least(focus - 5, TOOLBAR_ITEM_COUNT - 1) + 1
    }
}

/// The focus above a chip of the toolbar: the chip above, or the search field.
pub open spec fn above_chip(grid: LibraryGrid, focus: int) -> int {
    if grid.wraps() {
        if grid.row_of(focus - 1) > 0 {
            focus - grid.toolbar_columns
        } else {
            0
        }
    } else {
        focus - 1
    }
}

/// Between cards, left undoes right.
pub proof fn law_left_undoes_right(grid: LibraryGrid, focus: int, count: int)
    requires
        grid.wf(),
        5 <= focus,
        right_of_card(grid, focus, count) != focus,
    ensures
        left_of_card(grid, right_of_card(grid, focus, count)) == focus,
{
    let columns = grid.columns as int;
    let item = focus - 5;
    vstd::arithmetic::div_mod::lemma_fundamental_div_mod(item, columns);
    vstd::arithmetic::div_mod::lemma_mod_bound(item, columns);
    let row = item / columns;
    let column = item % columns;
    assert(item + 1 == columns * row + (column + 1));
    vstd::arithmetic::div_mod::lemma_mod_multiples_vanish(row, column + 1, columns);
    vstd::arithmetic::div_mod::lemma_small_mod((column + 1) as nat, columns as nat);
}

/// Between cards, right undoes left, as long as the focus stands on a card.
pub proof fn law_right_undoes_left(grid: LibraryGrid, focus: int, count: int)
    requires
        grid.wf(),
        5 <= focus < count + 5,
        left_of_card(grid, focus) != focus,
    ensures
        right_of_card(grid, left_of_card(grid, focus), count) == focus,
{
    let columns = grid.columns as int;
    let item = focus - 5;
    vstd::arithmetic::div_mod::lemma_fundamental_div_mod(item, columns);
    vstd::arithmetic::div_mod::lemma_mod_bound(item, columns);
    let row = item / columns;
    let column = item % columns;
    assert(item - 1 == columns * row + (column - 1));
    vstd::arithmetic::div_mod::lemma_mod_multiples_vanish(row, column - 1, columns);
    vstd::arithmetic::div_mod::lemma_small_mod((column - 1) as nat, columns as nat);
}

/// Between cards, up undoes down.
pub proof fn law_up_undoes_down(grid: LibraryGrid, focus: int, count: int)
    requires
        grid.wf(),
        5 <= focus,
        below_card(grid, focus, count) != focus,
    ensures
        above_card(grid, below_card(grid, focus, count)) == focus,
{
}

/// Between cards, down undoes up, as long as the focus stands on a card.
pub proof fn law_down_undoes_up(grid: LibraryGrid, focus: int, count: int)
    requires
        grid.wf(),
        5 <= focus < count + 5,
        focus - 5 >= grid.columns,
    ensures
        below_card(grid, above_card(grid, focus), count) == focus,
{
}

/// From any chip the way down leads to a chip or to a card that exists.
pub proof fn law_down_from_the_toolbar_stays_inside(grid: LibraryGrid, focus: int, count: int)
    requires
        grid.wf(),
        0 <= focus <= 4,
        count >= 0,
    ensures
        0 <= below_toolbar(grid, focus, count) < count + 5,
{
    lemma_columns(grid, focus, 0);
}

/// The columns that chips and cards lead to are columns of the grid.
proof fn lemma_columns(grid: LibraryGrid, focus: int, card: int)
    requires
        grid.wf(),
        0 <= focus <= 4,
        0 <= card < grid.columns,
    ensures
        0 <= grid.column_of(floored(focus - 1)) < grid.toolbar_columns,
        0 <= grid.column_below(grid.column_of(floored(focus - 1))) < grid.columns,
        0 <= grid.column_above(card) < grid.toolbar_columns,
        1 <= grid.rows() <= 4,
{
    let toolbar = grid.toolbar_columns as int;
    let columns = grid.columns as int;
    assert(toolbar == 1 || toolbar == 2 || toolbar == 3 || toolbar == 4);
    let column = grid.column_of(floored(focus - 1));
    assert((2 * column + 1) * columns >= 0) by (nonlinear_arith)
        requires
            column >= 0,
            columns >= 1,
    ;
    vstd::arithmetic::div_mod::lemma_div_pos_is_pos((2 * column + 1) * columns, 2 * toolbar);
    assert((2 * card + 1) * toolbar >= 0) by (nonlinear_arith)
        requires
            card >= 0,
            toolbar >= 1,
    ;
    vstd::arithmetic::div_mod::lemma_div_pos_is_pos((2 * card + 1) * toolbar, 2 * columns);
}

impl ShellModel {
    /// The focus after a move in the library.
    pub open spec fn library_focus(self, axis: AxisMove) -> int {
        let grid = self.titles.library_grid;
        let focus = self.nav.focus;
        let count = self.titles.library_items.len() as int;
        match axis {
            AxisMove::Right => if focus >= 5 {
                right_of_card(grid, focus, count)
            } else if focus >= 1 {
                right_of_chip(grid, focus)
            } else {
                self.one_on()
            },
            AxisMove::Left => if focus >= 5 {
                left_of_card(grid, focus)
            } else if focus >= 2 {
                left_of_chip(grid, focus)
            } else {
                self.one_back()
            },
            AxisMove::Down => if focus >= 5 {
                below_card(grid, focus, count)
            } else {
                below_toolbar(grid, focus, count)
            },
            AxisMove::Up => if focus >= 5 {
                above_card(grid, focus)
            } else if focus >= 1 {
                above_chip(grid, focus)
            } else {
                0
            },
        }
    }

    /// The focus after a move in the details of a title: the variants stand
    /// above the two buttons, which stand side by side.
    pub open spec fn detail_focus(self, axis: AxisMove) -> int {
        let focus = self.nav.focus;
        let rows = self.detail_rows().len() as int;
        match axis {
            AxisMove::Right => if self.play_focus() == Some(focus) {
                focus + 1
            } else {
                focus
            },
            AxisMove::Left => match self.play_focus() {
                Some(play) if focus == play + 1 => play,
                _ => focus,
            },
            AxisMove::Down => if focus < rows {
                least(focus + 1, self.pin_focus())
            } else {
                focus
            },
            AxisMove::Up => if rows > 0 && focus >= rows {
                rows - 1
            } else {
                self.one_back()
            },
        }
    }

    /// The state with the focus on a room of the settings, which is then shown.
    pub open spec fn focusing_room(self, place: int) -> ShellModel {
        self.showing_room(self.rooms()[place]).focusing(place)
    }

    /// The state after a move in the settings.
    pub open spec fn settings_moved(self, axis: AxisMove) -> ShellModel {
        match axis {
            AxisMove::Right => self.entering_rows(),
            AxisMove::Left => if self.settings.settings_in_rows {
                self.leaving_rows()
            } else {
                self.focusing(self.one_back())
            },
            AxisMove::Down => if self.settings.settings_in_rows {
                self.along_rows(true)
            } else {
                self.focusing_room(least(self.nav.focus + 1, self.room_count() - 1))
            },
            AxisMove::Up => if self.settings.settings_in_rows {
                self.along_rows(false)
            } else {
                self.focusing_room(self.one_back())
            },
        }
    }

    /// The state after a move.
    pub open spec fn moved(self, axis: AxisMove) -> ShellModel {
        match self.nav.route {
            Route::Library => self.focusing(self.library_focus(axis)),
            Route::Details => self.focusing(self.detail_focus(axis)),
            Route::Settings => self.settings_moved(axis),
            _ => match axis {
                AxisMove::Down | AxisMove::Right => self.focusing(self.one_on()),
                AxisMove::Up | AxisMove::Left => self.focusing(self.one_back()),
            },
        }
    }

    /// Whether a move can be carried out: rows are needed only of a room with a
    /// service behind it, and the room above must exist.
    pub open spec fn movable(self, axis: AxisMove) -> bool {
        self.nav.route == Route::Settings ==> match axis {
            AxisMove::Right => self.settings.settings_in_rows || self.room_known(),
            AxisMove::Left => true,
            AxisMove::Down => !self.settings.settings_row_focused
                || !self.settings.settings_in_rows || self.room_known(),
            AxisMove::Up => if self.settings.settings_in_rows {
                !self.settings.settings_row_focused || self.room_known()
            } else {
                self.one_back() < self.room_count()
            },
        }
    }

    /// A move in the library leads to a focus that occurs.
    pub proof fn lemma_library_focus(self, axis: AxisMove)
        requires
            self.ok(),
            self.nav.route == Route::Library,
        ensures
            0 <= self.library_focus(axis) <= most_focus(),
            self.titles.library_grid.wf(),
    {
        self.lemma_sizes();
        self.lemma_focus_count();
        assert(self.titles.library_grid.wf()) by {
            reveal(ShellModel::ok);
        }
        let grid = self.titles.library_grid;
        let focus = self.nav.focus;
        if focus >= 5 {
            vstd::arithmetic::div_mod::lemma_mod_bound(focus - 5, grid.columns as int);
            lemma_columns(grid, 0, (focus - 5) % (grid.columns as int));
            lemma_last_row(grid, grid.column_above((focus - 5) % (grid.columns as int)));
        } else {
            lemma_columns(grid, focus, 0);
            if focus >= 1 {
                lemma_chip_above(grid, focus);
            }
        }
    }

    /// A move in the details leads to a focus that occurs.
    pub proof fn lemma_detail_focus(self, axis: AxisMove)
        requires
            self.ok(),
        ensures
            0 <= self.detail_focus(axis) <= most_focus(),
    {
        self.lemma_sizes();
        self.lemma_focus_count();
    }

    pub proof fn lemma_showing_room_ok(self, room: SettingsRoom)
        requires
            self.ok(),
        ensures
            self.showing_room(room).ok(),
    {
        reveal(ShellModel::ok);
    }

}

/// A chip of the last row of the toolbar has a place.
proof fn lemma_last_row(grid: LibraryGrid, column: int)
    requires
        grid.wf(),
        0 <= column < grid.toolbar_columns,
    ensures
        0 <= (grid.rows() - 1) * grid.toolbar_columns + column <= 16,
{
    let toolbar = grid.toolbar_columns as int;
    assert(toolbar == 1 || toolbar == 2 || toolbar == 3 || toolbar == 4);
    assert(grid.rows() == 4 || grid.rows() == 2 || grid.rows() == 1);
    assert((grid.rows() - 1) * toolbar == if toolbar == 1 {
        3int
    } else if toolbar == 2 {
        2
    } else if toolbar == 3 {
        3
    } else {
        0
    });
}

/// A chip below the first row has a chip above it.
proof fn lemma_chip_above(grid: LibraryGrid, focus: int)
    requires
        grid.wf(),
        1 <= focus <= 4,
    ensures
        grid.row_of(focus - 1) > 0 ==> focus > grid.toolbar_columns,
        grid.row_of(focus - 1) >= 0,
{
    let toolbar = grid.toolbar_columns as int;
    assert(toolbar == 1 || toolbar == 2 || toolbar == 3 || toolbar == 4);
}

impl ShellCore {
    fn find_library_focus(&self, axis: AxisMove) -> (focus: usize)
        requires
            self.wf(),
            self@.nav.route == Route::Library,
        ensures
            focus == self@.library_focus(axis),
    {
        proof {
            self@.lemma_library_focus(axis);
            self@.lemma_sizes();
        }
        let grid = self.titles.library_grid;
        let focus: usize = self.nav.focus;
        let count: usize = self.titles.library_items.len();
        match axis {
            AxisMove::Right => if focus >= 5 {
                if (focus - 5) % grid.columns + 1 < grid.columns && focus - 4 < count {
                    focus + 1
                } else {
                    focus
                }
            } else if focus >= 1 {
                if !grid.wrapped_toolbar() || (grid.toolbar_column(focus - 1) + 1
                    < grid.toolbar_columns && focus < TOOLBAR_ITEM_COUNT) {
                    if focus < TOOLBAR_ITEM_COUNT {
                        focus + 1
                    } else {
                        TOOLBAR_ITEM_COUNT
                    }
                } else {
                    focus
                }
            } else {
                self.focus_after()
            },
            AxisMove::Left => if focus >= 5 {
                if (focus - 5) % grid.columns > 0 {
                    focus - 1
                } else {
                    focus
                }
            } else if focus >= 2 {
                if !grid.wrapped_toolbar() || grid.toolbar_column(focus - 1) > 0 {
                    focus - 1
                } else {
                    focus
                }
            } else {
                self.focus_before()
            },
            AxisMove::Down => if focus >= 5 {
                if focus - 5 + grid.columns < count {
                    focus + grid.columns
                } else {
                    focus
                }
            } else if count == 0 {
                focus
            } else if grid.wrapped_toolbar() && focus == 0 {
                1
            } else if grid.wrapped_toolbar() && focus - 1 + grid.toolbar_columns
                < TOOLBAR_ITEM_COUNT {
                focus + grid.toolbar_columns
            } else {
                let chip: usize = if focus >= 1 {
                    focus - 1
                } else {
                    0
                };
                let column: usize = if grid.wrapped_toolbar() {
                    grid.toolbar_to_grid_column(grid.toolbar_column(chip))
                } else {
                    chip
                };
                5 + if column <= count - 1 {
                    column
                } else {
                    count - 1
                }
            },
            AxisMove::Up => if focus >= 5 {
                if focus - 5 >= grid.columns {
                    focus - grid.columns
                } else if grid.wrapped_toolbar() {
                    let column: usize = grid.grid_to_toolbar_column((focus - 5) % grid.columns);
                    proof {
                        lemma_last_row(grid, column as int);
                        lemma_last_row(grid, 0);
                    }
                    let chip: usize = (grid.toolbar_rows() - 1) * grid.toolbar_columns + column;
                    if chip <= TOOLBAR_ITEM_COUNT - 1 {
                        chip + 1
                    } else {
                        TOOLBAR_ITEM_COUNT
                    }
                } else if focus - 5 <= TOOLBAR_ITEM_COUNT - 1 {
                    focus - 4
                } else {
                    TOOLBAR_ITEM_COUNT
                }
            } else if focus >= 1 {
                proof {
                    lemma_chip_above(grid, focus as int);
                }
                if grid.wrapped_toolbar() {
                    if grid.toolbar_row(focus - 1) > 0 {
                        focus - grid.toolbar_columns
                    } else {
                        0
                    }
                } else {
                    focus - 1
                }
            } else {
                0
            },
        }
    }

    fn find_detail_focus(&self, axis: AxisMove) -> (focus: usize)
        requires
            self.wf(),
        ensures
            focus == self@.detail_focus(axis),
    {
        proof {
            self@.lemma_sizes();
        }
        let focus: usize = self.nav.focus;
        match axis {
            AxisMove::Right => match self.detail_play_focus() {
                Some(play) if focus == play => focus + 1,
                _ => focus,
            },
            AxisMove::Left => match self.detail_play_focus() {
                Some(play) if focus == play + 1 => play,
                _ => focus,
            },
            AxisMove::Down => {
                let rows: usize = self.detail_focusable_variants().len();
                if focus < rows {
                    let pin: usize = self.detail_pin_focus();
                    if focus + 1 <= pin {
                        focus + 1
                    } else {
                        pin
                    }
                } else {
                    focus
                }
            },
            AxisMove::Up => {
                let rows: usize = self.detail_focusable_variants().len();
                if rows > 0 && focus >= rows {
                    rows - 1
                } else {
                    self.focus_before()
                }
            },
        }
    }

    fn focus_after(&self) -> (focus: usize)
        requires
            self.wf(),
            self@.countable(),
        ensures
            focus == self@.one_on(),
    {
        proof {
            self@.lemma_sizes();
        }
        let last: usize = self.focus_count() - 1;
        if self.nav.focus + 1 <= last {
            self.nav.focus + 1
        } else {
            last
        }
    }

    fn focus_before(&self) -> (focus: usize)
        ensures
            focus == self@.one_back(),
    {
        if self.nav.focus >= 1 {
            self.nav.focus - 1
        } else {
            0
        }
    }

    fn show_room(&mut self, room: SettingsRoom)
        requires
            old(self).wf(),
        ensures
            final(self)@ == old(self)@.showing_room(room),
            final(self).wf(),
    {
        self.settings.settings_room = room;
        proof {
            old(self)@.lemma_showing_room_ok(room);
        }
    }

    fn focus_room(&mut self, place: usize)
        requires
            old(self).wf(),
            place < old(self)@.room_count(),
        ensures
            final(self)@ == old(self)@.focusing_room(place as int),
            final(self).wf(),
    {
        let rooms = self.settings_rooms();
        self.show_room(rooms[place]);
        self.set_focus(place);
    }

    fn move_in_settings(&mut self, axis: AxisMove)
        requires
            old(self).wf(),
            old(self)@.nav.route == Route::Settings,
            old(self)@.movable(axis),
        ensures
            final(self)@ == old(self)@.settings_moved(axis),
            final(self).wf(),
    {
        proof {
            self@.lemma_sizes();
        }
        match axis {
            AxisMove::Right => self.enter_settings_rows(),
            AxisMove::Left => if self.settings.settings_in_rows {
                self.leave_settings_rows();
            } else {
                let focus: usize = self.focus_before();
                self.set_focus(focus);
            },
            AxisMove::Down => if self.settings.settings_in_rows {
                self.move_settings_focus(true);
            } else {
                let last: usize = self.settings_rooms().len() - 1;
                let place: usize = if self.nav.focus + 1 <= last {
                    self.nav.focus + 1
                } else {
                    last
                };
                self.focus_room(place);
            },
            AxisMove::Up => if self.settings.settings_in_rows {
                self.move_settings_focus(false);
            } else {
                let place: usize = self.focus_before();
                self.focus_room(place);
            },
        }
    }

    /// Carries out a move of the control pad.
    pub fn move_focus(&mut self, axis: AxisMove)
        requires
            old(self).wf(),
            old(self)@.movable(axis),
        ensures
            final(self)@ == old(self)@.moved(axis),
            final(self).wf(),
    {
        proof {
            self@.lemma_sizes();
        }
        match self.nav.route {
            Route::Library => {
                proof {
                    self@.lemma_library_focus(axis);
                }
                let focus: usize = self.find_library_focus(axis);
                self.set_focus(focus);
            },
            Route::Details => {
                proof {
                    self@.lemma_detail_focus(axis);
                }
                let focus: usize = self.find_detail_focus(axis);
                self.set_focus(focus);
            },
            Route::Settings => self.move_in_settings(axis),
            _ => match axis {
                AxisMove::Down | AxisMove::Right => {
                    let focus: usize = self.focus_after();
                    proof {
                        self@.lemma_focus_count();
                    }
                    self.set_focus(focus);
                },
                AxisMove::Up | AxisMove::Left => {
                    let focus: usize = self.focus_before();
                    self.set_focus(focus);
                },
            },
        }
    }
}

} // verus!
