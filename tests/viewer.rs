use ipd_tournament::stats::Fraction;
use ipd_tournament::widget::app::{Colors, Message, ResultsInspector, Task, CELL_SIZE};
use ipd_tournament::widget::grid::GridMessage;
use ipd_tournament::widget::inspectors::MatchInspectorMessage;
use ipd_tournament::widget::labels::LabelListMessage;

fn colors(n: usize) -> Colors {
    Colors {
        cell_colors: vec![Fraction { num: 0, den: 1 }; n * n],
        strategy_colors: vec![Fraction { num: 0, den: 1 }; n],
    }
}

fn loaded(n: usize, stats: usize) -> ResultsInspector {
    let (mut v, task) = ResultsInspector::new();
    assert_eq!(task, Task::Load);
    assert_eq!(v.update(Message::Raw(n, stats)), Task::CalculateColors(0));
    assert_eq!(v.update(Message::Loaded(colors(n))), Task::Maximize);
    v
}

#[test]
fn viewer_goes_from_loading_to_loaded() {
    let v = loaded(3, 2);
    match v {
        ResultsInspector::Loaded(s) => {
            assert_eq!(s.grid.cells.len(), 9);
            assert!(s.grid.mark_diagonals);
            assert_eq!(s.cell_size, CELL_SIZE);
            assert_eq!(s.selected_cell, None);
            assert_eq!(s.selected_stat, 0);
        }
        _ => panic!("not loaded"),
    }
}

#[test]
fn focusing_a_cell_releases_the_previous_one() {
    let mut v = loaded(3, 2);
    assert_eq!(v.update(Message::GridMessage(GridMessage::Focus(0, 1))), Task::Idle);
    assert_eq!(v.update(Message::GridMessage(GridMessage::Focus(2, 2))), Task::Idle);
    if let ResultsInspector::Loaded(s) = &v {
        assert_eq!(s.selected_cell, Some((2, 2)));
        assert!(!s.grid.cells[1].is_selected);
        assert!(s.grid.cells[8].is_selected);
    } else {
        panic!("not loaded");
    }
    v.update(Message::GridMessage(GridMessage::Unfocus(1, 1)));
    v.update(Message::LabelListMessage(LabelListMessage::Focus(0)));
    if let ResultsInspector::Loaded(s) = &v {
        assert_eq!(s.selected_cell, Some((2, 2)));
    }
    v.update(Message::GridMessage(GridMessage::Unfocus(2, 2)));
    if let ResultsInspector::Loaded(s) = &v {
        assert_eq!(s.selected_cell, None);
        assert!(s.grid.cells.iter().all(|c| !c.is_selected));
    }
}

#[test]
fn cycling_statistics_wraps_round() {
    let mut v = loaded(2, 3);
    assert_eq!(v.update(Message::CycleSelectedStat), Task::CalculateColors(1));
    assert_eq!(v.update(Message::CycleSelectedStat), Task::CalculateColors(2));
    assert_eq!(v.update(Message::CycleSelectedStat), Task::CalculateColors(0));
    assert_eq!(v.update(Message::RecalculateColor), Task::CalculateColors(0));
    assert_eq!(v.update(Message::Loaded(colors(2))), Task::Idle);
}

#[test]
fn match_inspector_messages_reach_its_grid() {
    let mut v = loaded(2, 1);
    v.update(Message::MatchInspectorMessage(MatchInspectorMessage::GridMessage(GridMessage::Focus(4, 0))));
    if let ResultsInspector::Loaded(s) = &v {
        assert!(s.match_inspector.grid.cells[8].is_selected);
    }
}
