use ipd_tournament::widget::grid::{Cell, CellMessage, Grid, GridMessage};
use ipd_tournament::widget::inspectors::{MatchInspector, MatchInspectorMessage};
use ipd_tournament::widget::labels::{LabelList, LabelListMessage};
use ipd_tournament::game::NUM_ROUNDS;

#[test]
fn new_grid_has_numbered_unselected_cells() {
    let g = Grid::new(3, 2, true);
    assert_eq!(g.cells.len(), 6);
    assert!(g.cells.iter().enumerate().all(|(i, c)| c.id == i && !c.is_selected));
    assert!(g.mark_diagonals);
}

#[test]
fn grid_focus_and_unfocus_touch_one_cell() {
    let mut g = Grid::new(3, 2, false);
    g.update(GridMessage::Focus(1, 2));
    assert!(g.cells[5].is_selected);
    assert_eq!(g.cells.iter().filter(|c| c.is_selected).count(), 1);
    g.update(GridMessage::Focus(0, 1));
    assert!(g.cells[1].is_selected && g.cells[5].is_selected);
    g.update(GridMessage::Unfocus(1, 2));
    assert!(!g.cells[5].is_selected);
    assert!(g.cells[1].is_selected);
}

#[test]
fn cell_messages() {
    let mut c = Cell::new(4);
    assert_eq!(c, Cell { id: 4, is_selected: false });
    c.update(CellMessage::ToggleFocus);
    assert!(c.is_selected);
    c.update(CellMessage::ToggleFocus);
    assert!(!c.is_selected);
    c.update(CellMessage::Focus);
    c.update(CellMessage::Focus);
    assert!(c.is_selected);
    c.update(CellMessage::Unfocus);
    assert_eq!(c, Cell { id: 4, is_selected: false });
}

#[test]
fn match_inspector_grid_has_a_row_per_round() {
    let mut m = MatchInspector::default();
    assert_eq!(m.grid.num_cols, 2);
    assert_eq!(m.grid.num_rows, NUM_ROUNDS);
    assert_eq!(m.grid.cells.len(), 2 * NUM_ROUNDS);
    m.update(MatchInspectorMessage::GridMessage(GridMessage::Focus(3, 1)));
    assert!(m.grid.cells[7].is_selected);
}

#[test]
fn label_selection() {
    let mut l = LabelList::new();
    assert!(!l.is_selected(2));
    l.update(LabelListMessage::Focus(2));
    l.update(LabelListMessage::Focus(5));
    assert!(l.is_selected(2) && l.is_selected(5));
    l.update(LabelListMessage::Unfocus(2));
    assert!(!l.is_selected(2));
    assert_eq!(l.selected_indicies.len(), 1);
}
