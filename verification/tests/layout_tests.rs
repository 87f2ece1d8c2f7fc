use process_files_in_ftp::datetime::DateTimeParts;
use process_files_in_ftp::layout::{
    cell_kind, execution_details, execution_label, file_row_cells, row_height, Action, CellKind,
    LayoutMain, LayoutShowProcess, Menu,
};

fn at(hour: u32, minute: u32, second: u32) -> DateTimeParts {
    DateTimeParts { year: 2024, month: 3, day: 9, hour, minute, second, nanosecond: 0 }
}

#[test]
fn screens_start_in_a_known_state() {
    let _main = LayoutMain::new();
    let l = LayoutShowProcess::new();
    assert!(l.current_action.is_none());
    assert_eq!(l.selected_index_list, 0);
    assert_eq!(l.files_processed, 0);
    assert!(matches!(Menu::Main, Menu::Main));
}

#[test]
fn keys_move_the_selection_within_the_list() {
    let mut l = LayoutShowProcess::new();
    l.set_current_action(Some(Action::KeyUp));
    l.apply_navigation(3);
    assert_eq!(l.selected_index_list, 0);
    l.set_current_action(Some(Action::KeyDown));
    l.apply_navigation(3);
    l.apply_navigation(3);
    l.apply_navigation(3);
    assert_eq!(l.selected_index_list, 2);
    l.set_current_action(Some(Action::KeyUp));
    l.apply_navigation(3);
    assert_eq!(l.selected_index_list, 1);
    l.set_current_action(None);
    l.apply_navigation(3);
    assert_eq!(l.selected_index_list, 1);
}

#[test]
fn up_undoes_down() {
    let mut l = LayoutShowProcess::new();
    l.selected_index_list = 4;
    l.set_current_action(Some(Action::KeyDown));
    l.apply_navigation(10);
    l.set_current_action(Some(Action::KeyUp));
    l.apply_navigation(10);
    assert_eq!(l.selected_index_list, 4);
}

#[test]
fn unreadable_count_is_zero() {
    let mut l = LayoutShowProcess::new();
    l.set_files_processed(Some(17));
    assert_eq!(l.files_processed, 17);
    l.set_files_processed(None);
    assert_eq!(l.files_processed, 0);
}

#[test]
fn list_entries_of_runs() {
    let finished = execution_label(12, &at(8, 1, 2), Some(at(9, 30, 0)), 40);
    assert!(finished.finished);
    assert_eq!(finished.text, "12) 09/03 08:01:02 - 09:30:00 [40]");
    let running = execution_label(13, &at(10, 0, 0), None, 7);
    assert!(!running.finished);
    assert_eq!(running.text, "13) 09/03 10:00:00 - __/__ [7]");
}

#[test]
fn file_table_rows() {
    let name = "foto.jpg".to_string();
    let done = file_row_cells(-5, &at(1, 2, 3), Some(at(1, 2, 9)), &name);
    assert_eq!(done, vec!["1", "-5", "01:02:03", "01:02:09", "foto.jpg"]);
    let open = file_row_cells(77, &at(1, 2, 3), None, &name);
    assert_eq!(open, vec!["0", "77", "01:02:03", "__/__", "foto.jpg"]);
}

#[test]
fn row_height_counts_line_breaks() {
    assert_eq!(row_height(&vec![]), 1);
    assert_eq!(row_height(&vec!["a".to_string(), "b\nc\nd".to_string(), "e\n".to_string()]), 3);
}

#[test]
fn status_column_cells() {
    assert_eq!(cell_kind(0, "1"), CellKind::Finished);
    assert_eq!(cell_kind(0, "0"), CellKind::InProgress);
    assert_eq!(cell_kind(0, "x"), CellKind::UnknownStatus);
    assert_eq!(cell_kind(3, "1"), CellKind::Plain);
}

#[test]
fn detail_panel_lines() {
    let d = execution_details(9, 120, &at(7, 0, 0), Some(at(7, 45, 30)), "2730.00");
    assert!(d.finished);
    assert_eq!(d.id_line, "   9");
    assert_eq!(d.total_files_line, "   120");
    assert_eq!(d.start_line, "2024-03-09 07:00:00");
    assert_eq!(d.end_line, "2024-03-09 07:45:30");
    assert_eq!(d.state_line, "  Finalizado  ");
    assert_eq!(d.seconds_line, "   2730.00 segundos");
    let r = execution_details(10, 1, &at(7, 0, 0), None, "0");
    assert_eq!(r.end_line, "__/__");
    assert_eq!(r.state_line, "  En proceso  ");
}
