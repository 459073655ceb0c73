use tasklist::controller::Key;
use tasklist::controller::Mode;
use tasklist::controller::Task;
use tasklist::controller::TaskListController;

fn task(title: &str, completed: bool) -> Task {
    Task { title: String::from(title), completed }
}

fn seeded_three() -> TaskListController {
    TaskListController::from_saved(vec![
        task("one", false),
        task("two", true),
        task("three", false),
    ])
}

#[test]
fn new_controller_is_empty_normal() {
    let c = TaskListController::new();
    assert_eq!(c.task_list().len(), 0);
    assert_eq!(c.selected_index(), 0);
    assert_eq!(c.current_mode(), Mode::Normal);
    assert_eq!(c.buffer_string(), "");
}

#[test]
fn navigation_stays_in_bounds() {
    let mut c = seeded_three();
    for _ in 0..5 {
        c.navigate_down();
        assert!(c.selected_index() < c.task_list().len());
    }
    assert_eq!(c.selected_index(), 2);
    for _ in 0..7 {
        c.navigate_up();
        assert!(c.selected_index() < c.task_list().len());
    }
    assert_eq!(c.selected_index(), 0);
}

#[test]
fn navigation_on_empty_list_keeps_zero() {
    let mut c = TaskListController::new();
    c.navigate_down();
    assert_eq!(c.selected_index(), 0);
    c.navigate_up();
    assert_eq!(c.selected_index(), 0);
}

#[test]
fn remove_only_task_yields_empty_list_at_zero() {
    let mut c = TaskListController::from_saved(vec![task("solo", false)]);
    assert_eq!(c.selected_index(), 0);
    c.remove_selected();
    assert_eq!(c.task_list().len(), 0);
    assert_eq!(c.selected_index(), 0);
}

#[test]
fn remove_last_task_reclamps_selection() {
    let mut c = seeded_three();
    c.navigate_down();
    c.navigate_down();
    assert_eq!(c.selected_index(), 2);
    c.remove_selected();
    assert_eq!(c.task_list().len(), 2);
    assert_eq!(c.selected_index(), 1);
}

#[test]
fn remove_middle_task_keeps_selection() {
    let mut c = seeded_three();
    c.navigate_down();
    assert_eq!(c.selected_index(), 1);
    c.remove_selected();
    assert_eq!(c.task_list().len(), 2);
    assert_eq!(c.selected_index(), 1);
    assert_eq!(c.task_list()[0].title, "one");
    assert_eq!(c.task_list()[1].title, "three");
}

#[test]
fn remove_on_empty_list_is_noop() {
    let mut c = TaskListController::new();
    c.remove_selected();
    assert_eq!(c.task_list().len(), 0);
    assert_eq!(c.selected_index(), 0);
}

#[test]
fn commit_blank_buffer_discards_and_returns_to_normal() {
    let mut c = seeded_three();
    c.begin_edit();
    for ch in "   ".chars() {
        c.edit_push_char(ch);
    }
    c.commit_edit();
    assert_eq!(c.task_list().len(), 3);
    assert_eq!(c.current_mode(), Mode::Normal);
    assert_eq!(c.buffer_string(), "");
}

#[test]
fn commit_trims_title_and_appends_uncompleted_task() {
    let mut c = TaskListController::new();
    c.begin_edit();
    for ch in "  Buy milk  ".chars() {
        c.edit_push_char(ch);
    }
    c.commit_edit();
    assert_eq!(c.task_list().len(), 1);
    assert_eq!(c.task_list()[0].title, "Buy milk");
    assert!(!c.task_list()[0].completed);
    assert_eq!(c.current_mode(), Mode::Normal);
    assert_eq!(c.buffer_string(), "");
}

#[test]
fn commit_outside_editing_is_noop() {
    let mut c = seeded_three();
    c.commit_edit();
    assert_eq!(c.task_list().len(), 3);
    assert_eq!(c.current_mode(), Mode::Normal);
}

#[test]
fn toggle_flips_once_and_twice_restores() {
    let mut c = seeded_three();
    assert!(!c.task_list()[0].completed);
    c.toggle_selected();
    assert!(c.task_list()[0].completed);
    c.toggle_selected();
    assert!(!c.task_list()[0].completed);
    assert_eq!(c.task_list()[1].completed, true);
    assert_eq!(c.task_list()[2].completed, false);
}

#[test]
fn toggle_on_empty_list_is_noop() {
    let mut c = TaskListController::new();
    c.toggle_selected();
    assert_eq!(c.task_list().len(), 0);
    assert_eq!(c.current_mode(), Mode::Normal);
}

#[test]
fn seed_then_save_round_trips_exactly() {
    let saved = vec![task("alpha", true), task("beta", false), task("gamma", true)];
    let expected: Vec<(String, bool)> =
        saved.iter().map(|t| (t.title.clone(), t.completed)).collect();
    let c = TaskListController::from_saved(saved);
    let reproduced: Vec<(String, bool)> =
        c.task_list().iter().map(|t| (t.title.clone(), t.completed)).collect();
    assert_eq!(reproduced, expected);
}

#[test]
fn begin_edit_clears_stale_buffer_after_cancel() {
    let mut c = TaskListController::new();
    c.begin_edit();
    for ch in "draft".chars() {
        c.edit_push_char(ch);
    }
    c.cancel_edit();
    assert_eq!(c.current_mode(), Mode::Normal);
    assert_eq!(c.task_list().len(), 0);
    c.begin_edit();
    assert_eq!(c.current_mode(), Mode::Editing);
    assert_eq!(c.buffer_string(), "");
}

#[test]
fn begin_edit_while_editing_is_noop() {
    let mut c = TaskListController::new();
    c.begin_edit();
    c.edit_push_char('x');
    c.begin_edit();
    assert_eq!(c.current_mode(), Mode::Editing);
    assert_eq!(c.buffer_string(), "x");
}

#[test]
fn backspace_removes_last_char_and_is_noop_on_empty() {
    let mut c = TaskListController::new();
    c.begin_edit();
    c.edit_push_char('a');
    c.edit_push_char('b');
    c.edit_backspace();
    assert_eq!(c.buffer_string(), "a");
    c.edit_backspace();
    assert_eq!(c.buffer_string(), "");
    c.edit_backspace();
    assert_eq!(c.buffer_string(), "");
}

#[test]
fn handle_key_quits_only_in_normal_mode() {
    let mut c = TaskListController::new();
    assert!(c.handle_key(Key::Char('q')));
    c.handle_key(Key::Char('a'));
    assert_eq!(c.current_mode(), Mode::Editing);
    assert!(!c.handle_key(Key::Char('q')));
    assert_eq!(c.buffer_string(), "q");
}

#[test]
fn handle_key_full_session() {
    let mut c = TaskListController::new();
    assert!(!c.handle_key(Key::Char('a')));
    for ch in " walk dog ".chars() {
        c.handle_key(Key::Char(ch));
    }
    assert!(!c.handle_key(Key::Enter));
    assert_eq!(c.task_list().len(), 1);
    assert_eq!(c.task_list()[0].title, "walk dog");
    assert!(!c.task_list()[0].completed);
    c.handle_key(Key::Char(' '));
    assert!(c.task_list()[0].completed);
    c.handle_key(Key::Char('d'));
    assert_eq!(c.task_list().len(), 0);
    assert_eq!(c.selected_index(), 0);
}

#[test]
fn handle_key_ignores_unrecognized_keys() {
    let mut c = seeded_three();
    assert!(!c.handle_key(Key::Other));
    assert!(!c.handle_key(Key::Char('z')));
    assert!(!c.handle_key(Key::Enter));
    assert!(!c.handle_key(Key::Esc));
    assert!(!c.handle_key(Key::Backspace));
    assert_eq!(c.task_list().len(), 3);
    assert_eq!(c.selected_index(), 0);
    assert_eq!(c.current_mode(), Mode::Normal);
}

#[test]
fn handle_key_escape_cancels_edit() {
    let mut c = seeded_three();
    c.handle_key(Key::Char('a'));
    c.handle_key(Key::Char('n'));
    c.handle_key(Key::Char('o'));
    c.handle_key(Key::Esc);
    assert_eq!(c.current_mode(), Mode::Normal);
    assert_eq!(c.task_list().len(), 3);
    assert_eq!(c.buffer_string(), "");
}
