//! Where moves lead: along lists, over the cards and chips of the library, through
//! the details and around the settings.

use crate::answers::{at_ease, lemma_ready_total, ready_before};
use crate::catalog::VariantModel;
use crate::home_scene::window_from;
use crate::library::shelf;
use crate::navigation::window_start;
use crate::ports::{ActionModel, AxisMove};
use crate::state::{LibraryGrid, Route, SettingsRoom, ShellModel};
use crate::surface::SurfaceFacts;
use crate::titles::{first_ready, lemma_first_ready};
use vstd::prelude::*;

verus! {

/// The focus after a move.
pub open spec fn focus_after(shell: ShellModel, axis: AxisMove) -> int {
    shell.step(ActionModel::Move(axis)).0.nav.focus
}

proof fn lemma_moved(shell: ShellModel, axis: AxisMove)
    requires
        at_ease(shell),
    ensures
        shell.step(ActionModel::Move(axis)) == (
            shell.bumped().moved(axis),
            None::<crate::state::EffectModel>,
        ),
{
}

/// On the shelf, in the results of a search, in the choice of variants and in the
/// quick panel, down and right lead one place on and up and left one place back,
/// as far as there are places. No move leaves the route.
pub proof fn law_lists_are_walked_place_by_place(shell: ShellModel)
    requires
        at_ease(shell),
        shell.nav.route == Route::Home || shell.nav.route == Route::Search || shell.nav.route
            == Route::VariantChooser || shell.nav.route == Route::Quick,
        0 <= shell.nav.focus < shell.focus_count(),
    ensures
        ({
            let focus = shell.nav.focus;
            let on = if focus + 1 < shell.focus_count() {
                focus + 1
            } else {
                focus
            };
            let back = if focus > 0 {
                focus - 1
            } else {
                0
            };
            &&& focus_after(shell, AxisMove::Down) == on
            &&& focus_after(shell, AxisMove::Right) == on
            &&& focus_after(shell, AxisMove::Up) == back
            &&& focus_after(shell, AxisMove::Left) == back
            &&& shell.step(ActionModel::Move(AxisMove::Down)).0.nav.route == shell.nav.route
            &&& shell.step(ActionModel::Move(AxisMove::Up)).0.nav.route == shell.nav.route
        }),
{
    lemma_moved(shell, AxisMove::Down);
    lemma_moved(shell, AxisMove::Right);
    lemma_moved(shell, AxisMove::Up);
    lemma_moved(shell, AxisMove::Left);
    let bumped = shell.bumped();
    assert(bumped.power == shell.power);
    assert(bumped.focus_count() == shell.focus_count());
}

/// There is a place for each title on the shelf, for each result of a search and
/// for each variant that can be launched, and one where there is none; the library
/// has five places before its cards.
pub proof fn law_there_is_a_place_for_each_thing(shell: ShellModel, place: int)
    ensures
        shell.nav.route == Route::Home && shelf(shell.titles.items).len() > 0
            ==> shell.focus_count() == shelf(shell.titles.items).len(),
        shell.nav.route == Route::Home && shelf(shell.titles.items).len() == 0
            ==> shell.focus_count() == 1,
        shell.nav.route == Route::Search && shell.titles.search_results.len() > 0
            ==> shell.focus_count() == shell.titles.search_results.len(),
        shell.nav.route == Route::Search && shell.titles.search_results.len() == 0
            ==> shell.focus_count() == 1,
        shell.nav.route == Route::Library ==> shell.focus_count()
            == shell.titles.library_items.len() + 5,
        shell.nav.route == Route::VariantChooser && shell.nav.selected_item == Some(place) ==> {
            let variants = shell.titles.items[place].variants;
            let count = ready_before(variants, variants.len() as int);
            shell.focus_count() == (if count > 0 {
                count
            } else {
                1
            })
        },
{
    if shell.nav.route == Route::VariantChooser && shell.nav.selected_item == Some(place) {
        lemma_ready_total(shell.titles.items[place].variants, 0);
    }
}

proof fn lemma_row_and_column(columns: int, row: int, column: int)
    requires
        0 <= column < columns,
        0 <= row,
    ensures
        (row * columns + column) % columns == column,
        (row * columns + column) / columns == row,
{
    vstd::arithmetic::div_mod::lemma_fundamental_div_mod_converse(
        row * columns + column,
        columns,
        row,
        column,
    );
}

/// Over the cards of the library, right and left lead to the next card of the same
/// row and down and up to the card of the same column in the next row; where there
/// is none the focus stays.
pub proof fn law_cards_are_walked_by_rows_and_columns(shell: ShellModel, row: int, column: int)
    requires
        at_ease(shell),
        shell.nav.route == Route::Library,
        shell.titles.library_grid.wf(),
        0 <= row,
        0 <= column < shell.titles.library_grid.columns,
        row * shell.titles.library_grid.columns + column < shell.titles.library_items.len(),
        shell.nav.focus == row * shell.titles.library_grid.columns + column + 5,
    ensures
        ({
            let columns = shell.titles.library_grid.columns as int;
            let count = shell.titles.library_items.len() as int;
            let focus = shell.nav.focus;
            let place = focus - 5;
            &&& focus_after(shell, AxisMove::Right) == (if column + 1 < columns && place + 1
                < count {
                focus + 1
            } else {
                focus
            })
            &&& focus_after(shell, AxisMove::Left) == (if column > 0 {
                focus - 1
            } else {
                focus
            })
            &&& focus_after(shell, AxisMove::Down) == (if place + columns < count {
                focus + columns
            } else {
                focus
            })
            &&& row > 0 ==> focus_after(shell, AxisMove::Up) == focus - columns
        }),
{
    let columns = shell.titles.library_grid.columns as int;
    lemma_row_and_column(columns, row, column);
    lemma_moved(shell, AxisMove::Right);
    lemma_moved(shell, AxisMove::Left);
    lemma_moved(shell, AxisMove::Down);
    lemma_moved(shell, AxisMove::Up);
    assert(row * columns >= 0) by (nonlinear_arith)
        requires
            row >= 0,
            columns >= 1,
    ;
    if row > 0 {
        assert(row * columns >= columns) by (nonlinear_arith)
            requires
                row >= 1,
                columns >= 1,
        ;
    }
}

/// Where the search field and the four chips stand in one line, right and left lead
/// along it. Down leads from a chip to the card of its column, or to the last card,
/// and up from a card of the first row to the chip of its column, or to the last
/// chip.
pub proof fn law_a_toolbar_in_one_line_is_walked_along(shell: ShellModel)
    requires
        at_ease(shell),
        shell.nav.route == Route::Library,
        shell.titles.library_grid.wf(),
        shell.titles.library_grid.toolbar_columns == 4,
        shell.nav.focus >= 0,
    ensures
        ({
            let focus = shell.nav.focus;
            let count = shell.titles.library_items.len() as int;
            &&& focus < 4 ==> focus_after(shell, AxisMove::Right) == focus + 1
            &&& focus == 4 ==> focus_after(shell, AxisMove::Right) == 4
            &&& 1 <= focus <= 4 ==> focus_after(shell, AxisMove::Left) == focus - 1
            &&& focus == 0 ==> focus_after(shell, AxisMove::Left) == 0
            &&& focus <= 4 && count == 0 ==> focus_after(shell, AxisMove::Down) == focus
            &&& focus == 0 && count > 0 ==> focus_after(shell, AxisMove::Down) == 5
            &&& 1 <= focus <= 4 && count >= focus ==> focus_after(shell, AxisMove::Down) == focus
                + 4
            &&& 1 <= focus <= 4 && 0 < count < focus ==> focus_after(shell, AxisMove::Down) == count
                + 4
            &&& 5 <= focus < 5 + shell.titles.library_grid.columns ==> focus_after(
                shell,
                AxisMove::Up,
            ) == (if focus < 9 {
                focus - 4
            } else {
                4
            })
            &&& focus == 0 ==> focus_after(shell, AxisMove::Up) == 0
        }),
{
    lemma_moved(shell, AxisMove::Right);
    lemma_moved(shell, AxisMove::Left);
    lemma_moved(shell, AxisMove::Down);
    lemma_moved(shell, AxisMove::Up);
    assert(!shell.titles.library_grid.wraps());
}

/// Where the chips stand in several lines, right and left lead along a line, down
/// to the chip below and up to the chip above; the search field stands above the
/// first line.
pub proof fn law_a_toolbar_in_lines_is_walked_by_lines(shell: ShellModel, line: int, column: int)
    requires
        at_ease(shell),
        shell.nav.route == Route::Library,
        shell.titles.library_grid.wf(),
        shell.titles.library_grid.toolbar_columns < 4,
        0 <= line,
        0 <= column < shell.titles.library_grid.toolbar_columns,
        line * shell.titles.library_grid.toolbar_columns + column < 4,
        shell.nav.focus == line * shell.titles.library_grid.toolbar_columns + column + 1,
        shell.titles.library_items.len() > 0,
    ensures
        ({
            let across = shell.titles.library_grid.toolbar_columns as int;
            let focus = shell.nav.focus;
            &&& focus_after(shell, AxisMove::Right) == (if column + 1 < across && focus < 4 {
                focus + 1
            } else {
                focus
            })
            &&& column > 0 ==> focus_after(shell, AxisMove::Left) == focus - 1
            &&& column == 0 && line > 0 ==> focus_after(shell, AxisMove::Left) == focus
            &&& line > 0 ==> focus_after(shell, AxisMove::Up) == focus - across
            &&& line == 0 ==> focus_after(shell, AxisMove::Up) == 0
            &&& focus + across <= 4 ==> focus_after(shell, AxisMove::Down) == focus + across
            &&& focus + across > 4 ==> focus_after(shell, AxisMove::Down) >= 5
        }),
{
    let grid = shell.titles.library_grid;
    let across = grid.toolbar_columns as int;
    lemma_row_and_column(across, line, column);
    lemma_moved(shell, AxisMove::Right);
    lemma_moved(shell, AxisMove::Left);
    lemma_moved(shell, AxisMove::Down);
    lemma_moved(shell, AxisMove::Up);
    assert(across == 1 || across == 2 || across == 3);
    vstd::arithmetic::div_mod::lemma_fundamental_div_mod(3 + across, across);
    vstd::arithmetic::div_mod::lemma_mod_bound(3 + across, across);
    let lines = (3 + across) / across;
    assert(lines >= 2) by (nonlinear_arith)
        requires
            3 + across == across * lines + (3 + across) % across,
            0 <= (3 + across) % across < across,
            1 <= across <= 3,
    ;
    assert(grid.rows() == lines);
    assert(line * across >= 0) by (nonlinear_arith)
        requires
            line >= 0,
            across >= 1,
    ;
    if line == 0 {
        assert(line * across == 0) by (nonlinear_arith)
            requires
                line == 0,
        ;
    } else {
        assert(line * across >= across) by (nonlinear_arith)
            requires
                line >= 1,
                across >= 1,
        ;
    }
    law_columns_meet_in_the_middle(grid, column, 0);
}

/// The card below a chip is the one in whose column the middle of the chip stands,
/// and the chip above a card the one in whose column the middle of the card stands.
pub proof fn law_columns_meet_in_the_middle(grid: LibraryGrid, chip: int, card: int)
    requires
        grid.wf(),
        0 <= chip < grid.toolbar_columns,
        0 <= card < grid.columns,
    ensures
        ({
            let below = grid.column_below(chip);
            let above = grid.column_above(card);
            let across = grid.toolbar_columns as int;
            let columns = grid.columns as int;
            &&& 0 <= below < columns
            &&& below * (2 * across) <= (2 * chip + 1) * columns < (below + 1) * (2 * across)
            &&& 0 <= above < across
            &&& above * (2 * columns) <= (2 * card + 1) * across < (above + 1) * (2 * columns)
        }),
{
    let across = grid.toolbar_columns as int;
    let columns = grid.columns as int;
    lemma_middle(chip, across, columns);
    lemma_middle(card, columns, across);
}

proof fn lemma_middle(from: int, across: int, columns: int)
    requires
        0 <= from < across,
        1 <= columns,
    ensures
        ({
            let found = ((2 * from + 1) * columns) / (2 * across);
            &&& 0 <= found < columns
            &&& found * (2 * across) <= (2 * from + 1) * columns < (found + 1) * (2 * across)
        }),
{
    let middle = (2 * from + 1) * columns;
    let size = 2 * across;
    let found = middle / size;
    assert(0 <= middle < size * columns) by (nonlinear_arith)
        requires
            0 <= from < across,
            1 <= columns,
            middle == (2 * from + 1) * columns,
            size == 2 * across,
    ;
    vstd::arithmetic::div_mod::lemma_fundamental_div_mod(middle, size);
    vstd::arithmetic::div_mod::lemma_mod_bound(middle, size);
    assert(found * size <= middle < (found + 1) * size) by (nonlinear_arith)
        requires
            middle == size * found + middle % size,
            0 <= middle % size < size,
    ;
    assert(0 <= found < columns) by (nonlinear_arith)
        requires
            found * size <= middle < (found + 1) * size,
            0 <= middle < size * columns,
            size >= 2,
    ;
}

/// In the details, down and up lead through the rows and from the last row to the
/// buttons and back; right and left lead between the two buttons.
pub proof fn law_details_are_walked_by_rows_and_buttons(shell: ShellModel, place: int)
    requires
        at_ease(shell),
        shell.nav.route == Route::Details,
        shell.nav.selected_item == Some(place),
        0 <= shell.nav.focus,
    ensures
        ({
            let focus = shell.nav.focus;
            let rows = shell.detail_rows().len() as int;
            let variants = shell.titles.items[place].variants;
            let plays = ready_before(variants, variants.len() as int) > 0;
            &&& focus < rows && plays ==> focus_after(shell, AxisMove::Down) == focus + 1
            &&& focus >= rows ==> focus_after(shell, AxisMove::Down) == focus
            &&& 0 < focus < rows ==> focus_after(shell, AxisMove::Up) == focus - 1
            &&& focus >= rows && rows > 0 ==> focus_after(shell, AxisMove::Up) == rows - 1
            &&& plays && focus == rows ==> focus_after(shell, AxisMove::Right) == rows + 1
            &&& plays && focus == rows + 1 ==> focus_after(shell, AxisMove::Left) == rows
            &&& focus < rows ==> focus_after(shell, AxisMove::Right) == focus && focus_after(
                shell,
                AxisMove::Left,
            ) == focus
        }),
{
    let bumped = shell.bumped();
    lemma_ready_total(shell.titles.items[place].variants, 0);
    lemma_moved(shell, AxisMove::Right);
    lemma_moved(shell, AxisMove::Left);
    lemma_moved(shell, AxisMove::Down);
    lemma_moved(shell, AxisMove::Up);
    assert(bumped.detail_rows() == shell.detail_rows());
    assert(bumped.play_focus() == shell.play_focus());
}

/// Among the rooms of the settings, down and up lead to the next room and show it,
/// right leads into its rows, and left leads back out of them to the room.
pub proof fn law_rooms_of_the_settings_are_walked(shell: ShellModel)
    requires
        at_ease(shell),
        shell.nav.route == Route::Settings,
        0 <= shell.nav.focus,
    ensures
        ({
            let down = shell.step(ActionModel::Move(AxisMove::Down)).0;
            let up = shell.step(ActionModel::Move(AxisMove::Up)).0;
            let right = shell.step(ActionModel::Move(AxisMove::Right)).0;
            let left = shell.step(ActionModel::Move(AxisMove::Left)).0;
            let focus = shell.nav.focus;
            let rooms = shell.rooms();
            &&& !shell.settings.settings_in_rows ==> {
                &&& focus + 1 < rooms.len() ==> down.nav.focus == focus + 1
                    && down.settings.settings_room == rooms[focus + 1]
                &&& focus + 1 == rooms.len() ==> down.nav.focus == focus
                    && down.settings.settings_room == rooms[focus]
                &&& 0 < focus < rooms.len() ==> up.nav.focus == focus - 1
                    && up.settings.settings_room == rooms[focus - 1]
                &&& focus == 0 ==> up.nav.focus == 0 && up.settings.settings_room == rooms[0]
                &&& right.settings.settings_in_rows
                &&& right.settings.settings_room == shell.settings.settings_room
            }
            &&& shell.settings.settings_in_rows ==> {
                &&& !left.settings.settings_in_rows
                &&& left.settings.settings_room == shell.settings.settings_room
                &&& 0 <= left.nav.focus < rooms.len() && rooms.contains(
                    shell.settings.settings_room,
                ) ==> rooms[left.nav.focus] == shell.settings.settings_room
                &&& right == shell.bumped()
            }
        }),
{
    lemma_moved(shell, AxisMove::Right);
    lemma_moved(shell, AxisMove::Left);
    lemma_moved(shell, AxisMove::Down);
    lemma_moved(shell, AxisMove::Up);
    let bumped = shell.bumped();
    assert(bumped.rooms() == shell.rooms());
    if shell.rooms().contains(shell.settings.settings_room) {
        let rooms = shell.rooms();
        let i = choose|i: int| 0 <= i < rooms.len() && rooms[i] == shell.settings.settings_room;
        assert(rooms[i] == shell.settings.settings_room);
    }
}

proof fn lemma_row_after(shell: ShellModel, from: int)
    requires
        0 <= from,
    ensures
        match shell.row_after(from) {
            Some(row) => {
                &&& from <= row < shell.row_count()
                &&& shell.row_action(row) is Some
                &&& forall|i: int| from <= i < row ==> #[trigger] shell.row_action(i) is None
            },
            None => forall|i: int|
                from <= i < shell.row_count() ==> #[trigger] shell.row_action(i) is None,
        },
    decreases shell.row_count() - from,
{
    if from < shell.row_count() && shell.row_action(from) is None {
        lemma_row_after(shell, from + 1);
    }
}

proof fn lemma_row_before(shell: ShellModel, upto: int)
    requires
        upto <= shell.row_count(),
    ensures
        match shell.row_before(upto) {
            Some(row) => {
                &&& 0 <= row < upto
                &&& shell.row_action(row) is Some
                &&& forall|i: int| row < i < upto ==> #[trigger] shell.row_action(i) is None
            },
            None => forall|i: int| 0 <= i < upto ==> #[trigger] shell.row_action(i) is None,
        },
    decreases upto,
{
    if upto > 0 && shell.row_action(upto - 1) is None {
        lemma_row_before(shell, upto - 1);
    }
}

/// Within the rows of a room, down and up lead to the next row that does something,
/// past those that do nothing, and nowhere where there is none.
pub proof fn law_rows_that_do_nothing_are_passed(shell: ShellModel, other: int)
    requires
        at_ease(shell),
        shell.nav.route == Route::Settings,
        shell.settings.settings_in_rows,
        shell.settings.settings_row_focused,
        0 <= shell.nav.focus < shell.row_count(),
        0 <= other < shell.row_count(),
        shell.row_action(other) is Some,
    ensures
        ({
            let focus = shell.nav.focus;
            let down = focus_after(shell, AxisMove::Down);
            let up = focus_after(shell, AxisMove::Up);
            &&& other > focus ==> focus < down <= other && shell.row_action(down) is Some
            &&& other < focus ==> other <= up < focus && shell.row_action(up) is Some
            &&& down >= focus
            &&& up <= focus
        }),
{
    lemma_moved(shell, AxisMove::Down);
    lemma_moved(shell, AxisMove::Up);
    let bumped = shell.bumped();
    assert(bumped.row_count() == shell.row_count());
    assert forall|i: int| #[trigger] bumped.row_action(i) == shell.row_action(i) by {}
    lemma_row_after(bumped, bumped.nav.focus + 1);
    lemma_row_before(bumped, bumped.nav.focus);
    assert(bumped.row_action(other) is Some);
}

proof fn lemma_nearest(shell: ShellModel, place: int, upto: int)
    ensures
        match shell.nearest_row(place, upto) {
            Some(row) => {
                &&& 0 <= row < upto
                &&& shell.row_action(row) is Some
                &&& forall|i: int|
                    0 <= i < upto && #[trigger] shell.row_action(i) is Some ==> (row - place) * (row
                        - place) <= (i - place) * (i - place)
                &&& forall|i: int|
                    0 <= i < row && #[trigger] shell.row_action(i) is Some ==> (row - place) * (row
                        - place) < (i - place) * (i - place)
            },
            None => forall|i: int| 0 <= i < upto ==> #[trigger] shell.row_action(i) is None,
        },
    decreases upto,
{
    if upto > 0 {
        lemma_nearest(shell, place, upto - 1);
        let last = upto - 1;
        if shell.row_action(last) is Some {
            if let Some(before) = shell.nearest_row(place, upto - 1) {
                lemma_nearer(last, before, place);
                lemma_nearer(before, last, place);
                let row = shell.nearest_row(place, upto)->0;
                assert forall|i: int| 0 <= i < upto && #[trigger] shell.row_action(i) is Some implies (
                row - place) * (row - place) <= (i - place) * (i - place) by {
                    if i < last {
                        assert((before - place) * (before - place) <= (i - place) * (i - place));
                    }
                }
                assert forall|i: int| 0 <= i < row && #[trigger] shell.row_action(i) is Some implies (
                row - place) * (row - place) < (i - place) * (i - place) by {
                    if row == last {
                        assert((before - place) * (before - place) <= (i - place) * (i - place));
                    }
                }
            }
        }
    }
}

proof fn lemma_nearer(left: int, right: int, place: int)
    ensures
        ShellModel::row_distance(left, place) <= ShellModel::row_distance(right, place) ==> (left
            - place) * (left - place) <= (right - place) * (right - place),
        ShellModel::row_distance(left, place) < ShellModel::row_distance(right, place) ==> (left
            - place) * (left - place) < (right - place) * (right - place),
{
    let a = ShellModel::row_distance(left, place);
    let b = ShellModel::row_distance(right, place);
    assert((left - place) * (left - place) == a * a) by (nonlinear_arith)
        requires
            a == left - place || a == place - left,
    ;
    assert((right - place) * (right - place) == b * b) by (nonlinear_arith)
        requires
            b == right - place || b == place - right,
    ;
    if a <= b {
        assert(a * a <= b * b) by (nonlinear_arith)
            requires
                0 <= a <= b,
        ;
    }
    if a < b {
        assert(a * a < b * b) by (nonlinear_arith)
            requires
                0 <= a < b,
        ;
    }
}

/// Entering the rows of a room puts the focus on the row nearest to the one where
/// it stood last that does something, on the upper one of two that are as near, and
/// on none where none does.
pub proof fn law_rows_are_entered_where_they_were_left(shell: ShellModel, other: int)
    requires
        at_ease(shell),
        shell.nav.route == Route::Settings,
        !shell.settings.settings_in_rows,
        0 <= other < shell.row_count(),
    ensures
        ({
            let after = shell.step(ActionModel::Move(AxisMove::Right)).0;
            let left = shell.settings.settings_saved_focus[match shell.settings.settings_room {
                SettingsRoom::Accessibility => 0int,
                SettingsRoom::Controls => 1int,
                SettingsRoom::Display => 2int,
                SettingsRoom::Network => 3int,
                SettingsRoom::System => 4int,
            }] as int;
            let row = after.nav.focus;
            &&& shell.row_action(other) is Some ==> {
                &&& after.settings.settings_row_focused
                &&& 0 <= row < shell.row_count()
                &&& shell.row_action(row) is Some
                &&& (row - left) * (row - left) <= (other - left) * (other - left)
                &&& other < row ==> (row - left) * (row - left) < (other - left) * (other - left)
            }
            &&& after.settings.settings_in_rows
            &&& !after.settings.settings_row_focused ==> after.nav.focus == 0
            &&& after.settings.settings_row_focused == (exists|i: int|
                0 <= i < shell.row_count() && #[trigger] shell.row_action(i) is Some)
            &&& shell.step(ActionModel::Activate) == shell.step(ActionModel::Move(AxisMove::Right))
        }),
{
    lemma_moved(shell, AxisMove::Right);
    let bumped = shell.bumped();
    let saved = shell.settings.settings_saved_focus[shell.settings.settings_room.slot()] as int;
    assert forall|i: int| #[trigger] bumped.row_action(i) == shell.row_action(i) by {}
    lemma_nearest(bumped, saved, bumped.row_count());
    assert(bumped.row_count() == shell.row_count());
    assert(bumped.row_action(other) == shell.row_action(other));
    if let Some(row) = bumped.nearest_row(saved, bumped.row_count()) {
        assert(shell.row_action(row) is Some);
    } else {
        assert forall|i: int| 0 <= i < shell.row_count() implies #[trigger] shell.row_action(
            i,
        ) is None by {
            assert(bumped.row_action(i) is None);
        }
    }
    assert(bumped.plain_step(ActionModel::Activate) == (
        bumped.entering_rows(),
        None::<crate::state::EffectModel>,
    ));
}

/// Every route keeps its own focus, and so does every room of the settings.
pub proof fn law_every_place_keeps_its_own_focus(
    left: Route,
    right: Route,
    room: SettingsRoom,
    other: SettingsRoom,
)
    ensures
        left.slot() == right.slot() ==> left == right,
        0 <= left.slot() < 7,
        room.slot() == other.slot() ==> room == other,
        0 <= room.slot() < 5,
{
}

/// Going to a route puts the focus where it stood there last, as far as there are
/// places, and keeps where it stood on the route that is left.
pub proof fn law_routes_are_entered_where_they_were_left(shell: ShellModel, route: Route)
    requires
        shell.nav.saved_focus.len() == 7,
        route != shell.nav.route,
        0 <= shell.nav.focus <= usize::MAX,
    ensures
        ({
            let there = shell.going(route);
            let was = shell.nav.saved_focus[route.slot()] as int;
            &&& there.nav.route == route
            &&& was < there.focus_count() ==> there.nav.focus == was
            &&& was >= there.focus_count() ==> there.nav.focus == there.focus_count() - 1
            &&& there.nav.saved_focus[shell.nav.route.slot()] == shell.nav.focus
            &&& there.titles == shell.titles
            &&& there.session == shell.session
            &&& there.settings == shell.settings
        }),
{
    let left = shell.leaving_for(route);
    assert(left.focus_count() == shell.going(route).focus_count()) by {
        assert(left.power == shell.going(route).power);
    }
}

/// Leaving the rows of a room and entering them again leads to the same row.
pub proof fn law_rows_lead_back(shell: ShellModel)
    requires
        at_ease(shell),
        shell.nav.route == Route::Settings,
        shell.settings.settings_in_rows,
        shell.settings.settings_row_focused,
        shell.settings.settings_saved_focus.len() == 5,
        0 <= shell.nav.focus < shell.row_count(),
        shell.nav.focus <= usize::MAX,
        shell.row_action(shell.nav.focus) is Some,
    ensures
        ({
            let out = shell.step(ActionModel::Move(AxisMove::Left)).0;
            let back = out.step(ActionModel::Move(AxisMove::Right)).0;
            &&& back.settings.settings_in_rows
            &&& back.settings.settings_row_focused
            &&& back.nav.focus == shell.nav.focus
        }),
{
    lemma_moved(shell, AxisMove::Left);
    let out = shell.step(ActionModel::Move(AxisMove::Left)).0;
    lemma_moved(out, AxisMove::Right);
    let again = out.bumped();
    let saved = again.settings.settings_saved_focus[again.settings.settings_room.slot()] as int;
    assert(saved == shell.nav.focus);
    assert(again.row_count() == shell.row_count());
    assert(again.row_action(saved) == shell.row_action(saved));
    lemma_nearest(again, saved, again.row_count());
    let row = again.nearest_row(saved, again.row_count())->0;
    assert((saved - saved) * (saved - saved) == 0);
    assert(row == saved) by (nonlinear_arith)
        requires
            (row - saved) * (row - saved) <= 0,
    ;
}

/// What is shown of a list starts at its first place while the focus fits into it,
/// and ends at the focus from there on.
pub proof fn law_windows_move_with_the_focus(focus: int, capacity: int, count: int)
    requires
        1 <= capacity,
        0 <= focus < count,
    ensures
        focus < capacity ==> window_from(focus, capacity, count) == 0,
        focus >= capacity ==> window_from(focus, capacity, count) == focus - capacity + 1,
{
}

/// The details show the variants around the one that would be launched: from the
/// one before it.
pub proof fn law_details_begin_before_what_they_launch(variants: Seq<VariantModel>)
    ensures
        first_ready(variants, 0) matches Some(place) ==> {
            &&& place >= 1 ==> window_start(variants) == place - 1
            &&& place == 0 ==> window_start(variants) == 0
        },
{
    lemma_first_ready(variants, 0);
}

/// Where the chips stand in several lines, down leads from the last of them to the
/// card in whose column the chip's middle stands, or to the last card, and up leads
/// from a card of the first row to the chip of the last line in whose column the
/// card's middle stands, or to the last chip.
pub proof fn law_lines_of_chips_lead_to_cards_and_back(shell: ShellModel, column: int)
    requires
        at_ease(shell),
        shell.nav.route == Route::Library,
        shell.titles.library_grid.wf(),
        shell.titles.library_grid.toolbar_columns < 4,
        shell.titles.library_items.len() > 0,
    ensures
        ({
            let grid = shell.titles.library_grid;
            let across = grid.toolbar_columns as int;
            let count = shell.titles.library_items.len() as int;
            let lines = (4 + across - 1) / across;
            let focus = shell.nav.focus;
            &&& focus == 0 ==> focus_after(shell, AxisMove::Down) == 1
            &&& 1 <= focus <= 4 && focus + across > 4 && column == (focus - 1) % across
                && grid.column_below(column) < count ==> focus_after(shell, AxisMove::Down) == 5
                + grid.column_below(column)
            &&& 0 <= column < grid.columns && focus == column + 5 && (lines - 1) * across
                + grid.column_above(column) < 4 ==> focus_after(shell, AxisMove::Up) == (lines - 1)
                * across + grid.column_above(column) + 1
        }),
{
    let grid = shell.titles.library_grid;
    let across = grid.toolbar_columns as int;
    lemma_moved(shell, AxisMove::Down);
    lemma_moved(shell, AxisMove::Up);
    vstd::arithmetic::div_mod::lemma_fundamental_div_mod(3 + across, across);
    vstd::arithmetic::div_mod::lemma_mod_bound(3 + across, across);
    let lines = (3 + across) / across;
    assert(lines >= 2) by (nonlinear_arith)
        requires
            3 + across == across * lines + (3 + across) % across,
            0 <= (3 + across) % across < across,
            1 <= across <= 3,
    ;
    assert(grid.rows() == lines);
    if 0 <= column < grid.columns {
        vstd::arithmetic::div_mod::lemma_small_mod(column as nat, grid.columns as nat);
    }
}

/// The library shows its first rows while the row in focus is among them, and from
/// there on the rows that end with it.
pub proof fn law_the_library_scrolls_with_the_focus(
    shell: ShellModel,
    facts: SurfaceFacts,
    row: int,
    column: int,
    place: int,
)
    requires
        facts.wf(),
        0 <= row,
        0 <= column < facts.grid.columns,
        shell.nav.focus == row * facts.grid.columns + column + 5,
        0 <= place,
    ensures
        ({
            let first = if row < facts.library_rows {
                0
            } else {
                row - facts.library_rows + 1
            };
            let its_row = place / (facts.grid.columns as int);
            shell.card_shown(facts, place) == (first <= its_row < first + facts.library_rows)
        }),
{
    let columns = facts.grid.columns as int;
    lemma_row_and_column(columns, row, column);
    assert(row * columns >= 0) by (nonlinear_arith)
        requires
            row >= 0,
            columns >= 1,
    ;
}

} // verus!
