use jlo_tui::api::models::Log;
use jlo_tui::time::Timestamp;
use jlo_tui::ui::logs::LogsViewState;

fn record(id: i64) -> Log {
    Log {
        id,
        app_id: 1,
        app_name: String::from("billing"),
        level: String::from("INFO"),
        message: format!("message {}", id),
        structured_data: None,
        tags: None,
        timestamp: Timestamp { secs: 1_700_000_000 + id, nanos: 0 },
        created_at: Timestamp { secs: 1_700_000_000 + id, nanos: 0 },
    }
}

fn view_of(count: i64) -> LogsViewState {
    let mut view = LogsViewState::new(String::from("%H:%M"));
    view.set_logs((0..count).map(record).collect());
    view
}

fn ids(view: &LogsViewState) -> Vec<i64> {
    view.logs.iter().map(|log| log.id).collect()
}

#[test]
fn new_view_is_empty_without_a_cursor() {
    let view = LogsViewState::new(String::from("%H:%M"));
    assert_eq!(view.selected, None);
    assert!(view.logs.is_empty());
    assert_eq!(view.date_format, "%H:%M");
    assert!(view.selected_log().is_none());
}

#[test]
fn first_fetch_into_a_new_view_selects_the_first_record() {
    let mut view = LogsViewState::new(String::new());
    view.set_logs(vec![record(4), record(5)]);
    assert_eq!(view.selected, Some(0));
    assert_eq!(view.selected_log().map(|log| log.id), Some(4));
}

#[test]
fn first_arrival_into_a_new_view_selects_nothing() {
    let mut view = LogsViewState::new(String::new());
    view.insert_arrival(record(1), 10);
    assert_eq!(view.selected, None);
    assert!(view.selected_log().is_none());
    view.next();
    assert_eq!(view.selected, Some(0));
}

#[test]
fn page_up_from_a_cursor_past_the_end_lands_on_a_record() {
    let mut view = view_of(1);
    view.selected = Some(50);
    view.page_up();
    assert_eq!(view.selected, Some(0));
    let mut view = view_of(5);
    view.selected = Some(50);
    view.page_up();
    assert_eq!(view.selected, Some(4));
    view.selected = Some(12);
    view.page_up();
    assert_eq!(view.selected, Some(2));
    view.selected = Some(usize::MAX);
    view.page_up();
    assert_eq!(view.selected, Some(4));
}

#[test]
fn previous_from_a_cursor_past_the_end_lands_on_the_last_record() {
    let mut view = view_of(5);
    view.selected = Some(50);
    view.previous();
    assert_eq!(view.selected, Some(4));
    view.selected = Some(5);
    view.previous();
    assert_eq!(view.selected, Some(4));
    view.previous();
    assert_eq!(view.selected, Some(3));
}

#[test]
fn every_movement_lands_on_a_record() {
    for len in 1..15usize {
        for start in [None, Some(0), Some(len - 1), Some(len), Some(len + 9), Some(usize::MAX)] {
            for movement in 0..6 {
                let mut view = view_of(len as i64);
                view.selected = start;
                match movement {
                    0 => view.next(),
                    1 => view.previous(),
                    2 => view.select_first(),
                    3 => view.select_last(),
                    4 => view.page_down(),
                    _ => view.page_up(),
                }
                assert!(view.selected.unwrap() < len);
                assert!(view.selected_log().is_some());
            }
        }
    }
}

#[test]
fn next_steps_down_and_wraps_to_first() {
    let mut view = view_of(3);
    assert_eq!(view.selected, Some(0));
    view.next();
    assert_eq!(view.selected, Some(1));
    view.next();
    assert_eq!(view.selected, Some(2));
    view.next();
    assert_eq!(view.selected, Some(0));
}

#[test]
fn previous_steps_up_and_wraps_to_last() {
    let mut view = view_of(3);
    view.previous();
    assert_eq!(view.selected, Some(2));
    view.previous();
    assert_eq!(view.selected, Some(1));
    view.previous();
    assert_eq!(view.selected, Some(0));
}

#[test]
fn next_then_previous_returns_to_every_cursor() {
    for len in 1..6 {
        for start in 0..len {
            let mut view = view_of(len);
            view.selected = Some(start as usize);
            view.next();
            view.previous();
            assert_eq!(view.selected, Some(start as usize));
            view.previous();
            view.next();
            assert_eq!(view.selected, Some(start as usize));
        }
    }
}

#[test]
fn movement_is_a_no_op_on_an_empty_view() {
    let mut view = LogsViewState::new(String::new());
    view.selected = None;
    view.next();
    assert_eq!(view.selected, None);
    view.previous();
    assert_eq!(view.selected, None);
    view.select_first();
    assert_eq!(view.selected, None);
    view.select_last();
    assert_eq!(view.selected, None);
    view.page_down();
    assert_eq!(view.selected, None);
    view.page_up();
    assert_eq!(view.selected, None);
}

#[test]
fn next_and_previous_from_no_cursor_select_first() {
    let mut view = view_of(4);
    view.selected = None;
    view.next();
    assert_eq!(view.selected, Some(0));
    view.selected = None;
    view.previous();
    assert_eq!(view.selected, Some(0));
}

#[test]
fn select_first_and_last_jump_to_the_ends() {
    let mut view = view_of(5);
    view.select_last();
    assert_eq!(view.selected, Some(4));
    view.select_first();
    assert_eq!(view.selected, Some(0));
}

#[test]
fn page_down_moves_ten_rows_and_clamps_at_last() {
    let mut view = view_of(25);
    view.page_down();
    assert_eq!(view.selected, Some(10));
    view.page_down();
    assert_eq!(view.selected, Some(20));
    view.page_down();
    assert_eq!(view.selected, Some(24));
    view.page_down();
    assert_eq!(view.selected, Some(24));
}

#[test]
fn page_up_moves_ten_rows_and_clamps_at_first() {
    let mut view = view_of(25);
    view.selected = Some(24);
    view.page_up();
    assert_eq!(view.selected, Some(14));
    view.page_up();
    assert_eq!(view.selected, Some(4));
    view.page_up();
    assert_eq!(view.selected, Some(0));
    view.page_up();
    assert_eq!(view.selected, Some(0));
}

#[test]
fn paging_never_leaves_the_list() {
    for len in 1..30usize {
        for start in 0..len {
            let mut view = view_of(len as i64);
            view.selected = Some(start);
            view.page_down();
            assert!(view.selected.unwrap() < len);
            view.selected = Some(start);
            view.page_up();
            assert!(view.selected.unwrap() < len);
        }
    }
}

#[test]
fn repeated_page_down_converges_to_last_row() {
    let mut view = view_of(37);
    view.selected = Some(3);
    for _ in 0..4 {
        view.page_down();
    }
    assert_eq!(view.selected, Some(36));
    view.page_down();
    assert_eq!(view.selected, Some(36));
}

#[test]
fn page_down_from_a_cursor_past_the_end_lands_on_last_row() {
    let mut view = view_of(5);
    view.selected = Some(usize::MAX);
    view.page_down();
    assert_eq!(view.selected, Some(4));
}

#[test]
fn set_logs_selects_first_when_there_was_no_cursor() {
    let mut view = LogsViewState::new(String::new());
    view.selected = None;
    view.set_logs(vec![record(1), record(2)]);
    assert_eq!(view.selected, Some(0));
    assert_eq!(ids(&view), vec![1, 2]);
}

#[test]
fn set_logs_leaves_an_existing_cursor_alone() {
    let mut view = view_of(10);
    view.selected = Some(7);
    view.set_logs(vec![record(1), record(2), record(3)]);
    assert_eq!(view.selected, Some(7));
    assert!(view.selected_log().is_none());
    view.next();
    assert_eq!(view.selected, Some(0));
}

#[test]
fn set_logs_with_nothing_keeps_no_cursor() {
    let mut view = LogsViewState::new(String::new());
    view.selected = None;
    view.set_logs(Vec::new());
    assert_eq!(view.selected, None);
}

#[test]
fn selected_log_is_the_record_under_the_cursor() {
    let mut view = view_of(4);
    view.selected = Some(2);
    assert_eq!(view.selected_log().map(|log| log.id), Some(2));
    view.selected = Some(4);
    assert!(view.selected_log().is_none());
    view.selected = None;
    assert!(view.selected_log().is_none());
}

#[test]
fn arrival_is_put_first() {
    let mut view = view_of(3);
    view.insert_arrival(record(9), 100);
    assert_eq!(ids(&view), vec![9, 0, 1, 2]);
}

#[test]
fn arrival_past_the_cap_drops_the_oldest() {
    let mut view = view_of(3);
    view.insert_arrival(record(9), 3);
    assert_eq!(ids(&view), vec![9, 0, 1]);
    view.insert_arrival(record(10), 3);
    assert_eq!(ids(&view), vec![10, 9, 0]);
}

#[test]
fn arrivals_never_exceed_the_cap() {
    let mut view = LogsViewState::new(String::new());
    for id in 0..50 {
        view.insert_arrival(record(id), 7);
        assert!(view.logs.len() <= 7);
    }
    assert_eq!(ids(&view), vec![49, 48, 47, 46, 45, 44, 43]);
}

#[test]
fn arrival_cuts_a_view_that_was_over_the_cap() {
    let mut view = view_of(10);
    view.insert_arrival(record(99), 4);
    assert_eq!(ids(&view), vec![99, 0, 1, 2]);
}

#[test]
fn arrival_with_a_cap_of_zero_keeps_nothing() {
    let mut view = view_of(2);
    view.insert_arrival(record(5), 0);
    assert!(view.logs.is_empty());
}

#[test]
fn arrival_does_not_move_the_cursor() {
    let mut view = view_of(3);
    view.selected = Some(1);
    view.insert_arrival(record(9), 100);
    assert_eq!(view.selected, Some(1));
    assert_eq!(view.selected_log().map(|log| log.id), Some(0));
}
