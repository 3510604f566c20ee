use tasca::app_input::AppInput;
use tasca::app_state::{AppMode, AppState, StatusMessage};
use tasca::expense::{CalendarDate, Expense};
use tasca::handler::{
    delete_done, handle_creating, handle_detail, handle_event, handle_normal, insert_done, refresh_expenses, AppAction, Key,
};
use tasca::submission::{
    decimal_ok, decimal_point, read_form, split_fields, trimmed, FormError,
};

fn record(id: i32, description: &str) -> Expense {
    Expense::from_row(id, description.to_string(), "1.00".to_string(), None)
}

fn creating_with(text: &str) -> AppState {
    let mut s = AppState::new(Some(vec![]));
    s.start_creating();
    s.app_input.input = tui_input::Input::new(text.to_string());
    s
}

#[test]
fn comma_amount_is_accepted_as_point() {
    let e = read_form("Coffee | 10,50 | 21-01-2025").unwrap();
    assert_eq!(e.description, "Coffee");
    assert_eq!(e.amount, "10.50");
    assert_eq!(e.date, "21-01-2025");
}

#[test]
fn point_amount_is_kept() {
    let e = read_form("Coffee | 3.50 | 21-01-2025").unwrap();
    assert_eq!(e.amount, "3.50");
}

#[test]
fn word_amount_is_rejected() {
    assert_eq!(read_form("Coffee | abc | 21-01-2025").err(), Some(FormError::BadAmount));
}

#[test]
fn impossible_date_is_rejected() {
    assert_eq!(read_form("Coffee | 3.50 | 31-02-2025").err(), Some(FormError::BadDate));
}

#[test]
fn year_first_date_is_rejected_by_form() {
    assert_eq!(read_form("Coffee | 3.50 | 2025-01-21").err(), Some(FormError::BadDate));
}

#[test]
fn leap_day_is_accepted() {
    assert!(read_form("Cake | 2 | 29-02-2024").is_ok());
    assert_eq!(read_form("Cake | 2 | 29-02-2025").err(), Some(FormError::BadDate));
}

#[test]
fn two_fields_are_rejected() {
    assert_eq!(read_form("Coffee | 3.50").err(), Some(FormError::FieldCount));
}

#[test]
fn four_fields_are_rejected() {
    assert_eq!(read_form("a | 1 | 21-01-2025 | x").err(), Some(FormError::FieldCount));
}

#[test]
fn empty_line_is_rejected() {
    assert_eq!(read_form("").err(), Some(FormError::FieldCount));
}

#[test]
fn amount_is_checked_before_date() {
    assert_eq!(read_form("a | x | y").err(), Some(FormError::BadAmount));
}

#[test]
fn split_keeps_raw_fields() {
    let (a, b, c) = split_fields(" a |b| c ").unwrap();
    assert_eq!((a.as_str(), b.as_str(), c.as_str()), (" a ", "b", " c "));
    assert!(split_fields("a|b").is_none());
    assert!(split_fields("||||").is_none());
    let (a, b, c) = split_fields("||").unwrap();
    assert_eq!((a.as_str(), b.as_str(), c.as_str()), ("", "", ""));
}

#[test]
fn trimming_removes_outer_white_space() {
    assert_eq!(trimmed("  Coffee bar \t"), "Coffee bar");
    assert_eq!(trimmed("   "), "");
    assert_eq!(trimmed("x"), "x");
}

#[test]
fn decimal_comma_becomes_point() {
    assert_eq!(decimal_point("1,5,0"), "1.5.0");
    assert_eq!(decimal_point("12"), "12");
}

#[test]
fn decimal_numbers() {
    assert!(decimal_ok("10.50"));
    assert!(decimal_ok("-3"));
    assert!(decimal_ok("+.5"));
    assert!(decimal_ok("5."));
    assert!(!decimal_ok("."));
    assert!(!decimal_ok("1.2.3"));
    assert!(!decimal_ok("-"));
    assert!(!decimal_ok(""));
    assert!(!decimal_ok("1a"));
}

#[test]
fn stored_date_is_read_year_first() {
    let e = Expense::from_row(7, "Tea".to_string(), "2.00".to_string(), Some("2025-01-21".to_string()));
    assert_eq!(e.id, 7);
    assert_eq!(e.date, Some(CalendarDate { year: 2025, month: 1, day: 21 }));
    let bad = Expense::from_row(8, "Tea".to_string(), "2.00".to_string(), Some("21-01-2025".to_string()));
    assert_eq!(bad.date, None);
    let none = Expense::from_row(9, "Tea".to_string(), "2.00".to_string(), None);
    assert_eq!(none.date, None);
}

#[test]
fn fresh_store_shows_no_records() {
    let mut s = AppState::new(Some(vec![]));
    assert_eq!(s.expenses.as_ref().map(|v| v.len()), Some(0));
    assert_eq!(s.expense_page, 1);
    assert_eq!(s.idx, Some(0));
    assert!(matches!(handle_event(&mut s, Key::Enter), AppAction::Continue));
    assert_eq!(s.app_mode, AppMode::Detail);
    assert!(s.detail_expense().is_none());
}

#[test]
fn detail_without_selection_returns_to_list() {
    let mut s = AppState::new(Some(vec![record(1, "a")]));
    s.idx = None;
    handle_event(&mut s, Key::Enter);
    assert_eq!(s.app_mode, AppMode::Detail);
    assert_eq!(s.detail_idx, None);
    assert!(s.detail_expense().is_none());
    assert!(matches!(handle_event(&mut s, Key::Enter), AppAction::Continue));
    assert_eq!(s.app_mode, AppMode::Normal);
    assert_eq!(s.detail_idx, None);
}

#[test]
fn detail_shows_selected_record() {
    let mut s = AppState::new(Some(vec![record(1, "a"), record(2, "b")]));
    handle_event(&mut s, Key::Char('j'));
    handle_event(&mut s, Key::Enter);
    assert_eq!(s.detail_expense().map(|e| e.id), Some(2));
    handle_event(&mut s, Key::Esc);
    assert_eq!(s.app_mode, AppMode::Normal);
    assert_eq!(s.detail_idx, None);
}

#[test]
fn cursor_up_stays_at_zero() {
    let mut s = AppState::new(Some(vec![]));
    assert_eq!(s.idx, Some(0));
    handle_event(&mut s, Key::Char('k'));
    assert_eq!(s.idx, Some(0));
    s.idx = Some(3);
    handle_event(&mut s, Key::Char('k'));
    assert_eq!(s.idx, Some(2));
}

#[test]
fn absent_cursor_moves_to_one() {
    let mut s = AppState::new(Some(vec![]));
    s.idx = None;
    handle_event(&mut s, Key::Char('j'));
    assert_eq!(s.idx, Some(1));
    s.idx = None;
    handle_event(&mut s, Key::Char('k'));
    assert_eq!(s.idx, Some(1));
    handle_event(&mut s, Key::Char('j'));
    assert_eq!(s.idx, Some(2));
}

#[test]
fn cursor_down_stops_at_largest_index() {
    let mut s = AppState::new(Some(vec![]));
    s.idx = Some(usize::MAX);
    handle_event(&mut s, Key::Char('j'));
    assert_eq!(s.idx, Some(usize::MAX));
}

#[test]
fn paging_forward_and_back() {
    let mut s = AppState::new(Some(vec![]));
    assert!(matches!(handle_event(&mut s, Key::Char('l')), AppAction::Fetch(2)));
    assert_eq!(s.expense_page, 2);
    assert_eq!(s.idx, None);
    assert!(matches!(handle_event(&mut s, Key::Char('h')), AppAction::Fetch(1)));
    assert_eq!(s.expense_page, 1);
    assert!(matches!(handle_event(&mut s, Key::Char('h')), AppAction::Continue));
    assert_eq!(s.expense_page, 1);
}

#[test]
fn paging_stops_at_largest_page() {
    let mut s = AppState::new(Some(vec![]));
    s.expense_page = i64::MAX;
    assert!(matches!(handle_event(&mut s, Key::Char('l')), AppAction::Continue));
    assert_eq!(s.expense_page, i64::MAX);
}

#[test]
fn quit_and_delete_keys() {
    let mut s = AppState::new(Some(vec![]));
    assert!(matches!(handle_event(&mut s, Key::Char('q')), AppAction::Quit));
    assert!(matches!(handle_event(&mut s, Key::Char('d')), AppAction::Delete(1)));
    assert!(matches!(handle_event(&mut s, Key::Char('z')), AppAction::Continue));
    assert_eq!(s.app_mode, AppMode::Normal);
}

#[test]
fn add_key_opens_empty_form() {
    let mut s = AppState::new(Some(vec![]));
    s.status_message = Some(StatusMessage::Saved);
    handle_event(&mut s, Key::Char('a'));
    assert_eq!(s.app_mode, AppMode::Creating);
    assert!(s.status_message.is_none());
    assert_eq!(s.app_input.input.value(), "");
}

#[test]
fn form_keys_go_to_the_field() {
    let mut s = creating_with("");
    assert!(matches!(handle_event(&mut s, Key::Char('x')), AppAction::EditInput));
    assert!(matches!(handle_event(&mut s, Key::Other), AppAction::EditInput));
    assert_eq!(s.app_mode, AppMode::Creating);
}

#[test]
fn form_with_wrong_field_count_never_inserts() {
    let mut s = creating_with("Coffee | 3.50");
    assert!(matches!(handle_event(&mut s, Key::Enter), AppAction::Continue));
    assert_eq!(s.app_mode, AppMode::Creating);
    let msg = s.status_message.as_ref().unwrap();
    assert!(matches!(msg, StatusMessage::Rejected(FormError::FieldCount)));
    assert!(!msg.text().is_empty());
    assert_eq!(s.app_input.input.value(), "");
}

#[test]
fn form_submission_asks_for_insert() {
    let mut s = creating_with("Coffee | 10,50 | 21-01-2025");
    match handle_event(&mut s, Key::Enter) {
        AppAction::Insert(e) => {
            assert_eq!(e.description, "Coffee");
            assert_eq!(e.amount, "10.50");
            assert_eq!(e.date, "21-01-2025");
        }
        _ => panic!("expected an insert"),
    }
    assert_eq!(s.app_mode, AppMode::Creating);
    assert_eq!(s.app_input.input.value(), "");
}

#[test]
fn form_escape_discards_text() {
    let mut s = creating_with("half typed");
    handle_event(&mut s, Key::Esc);
    assert_eq!(s.app_mode, AppMode::Normal);
    assert_eq!(s.app_input.input.value(), "");
}

#[test]
fn saved_record_closes_form_and_refetches() {
    let mut s = creating_with("");
    s.expense_page = 3;
    assert!(matches!(insert_done(&mut s, Ok(())), AppAction::Fetch(3)));
    assert_eq!(s.app_mode, AppMode::Normal);
    assert_eq!(s.status_message.as_ref().unwrap().text(), "Spesa aggiunta");
}

#[test]
fn failed_insert_keeps_form_open() {
    let mut s = creating_with("");
    assert!(matches!(insert_done(&mut s, Err("locked".to_string())), AppAction::Continue));
    assert_eq!(s.app_mode, AppMode::Creating);
    assert_eq!(s.status_message.as_ref().unwrap().text(), "Errore inserimento: locked");
}

#[test]
fn failed_delete_sets_status() {
    let mut s = AppState::new(Some(vec![]));
    delete_done(&mut s, Ok(()));
    assert!(s.status_message.is_none());
    delete_done(&mut s, Err("gone".to_string()));
    assert_eq!(s.status_message.as_ref().unwrap().text(), "Errore eliminazione: gone");
}

#[test]
fn failed_fetch_clears_list() {
    let mut s = AppState::new(Some(vec![record(1, "a")]));
    refresh_expenses(&mut s, None);
    assert!(s.expenses.is_none());
    refresh_expenses(&mut s, Some(vec![record(2, "b")]));
    assert_eq!(s.expenses.as_ref().unwrap()[0].id, 2);
}

#[test]
fn editing_mode_is_inert() {
    let mut s = AppState::new(Some(vec![]));
    s.start_editing();
    assert!(matches!(handle_event(&mut s, Key::Char('q')), AppAction::Continue));
    assert_eq!(s.app_mode, AppMode::Editing);
    s.stop_editing();
    assert_eq!(s.app_mode, AppMode::Normal);
}

#[test]
fn status_lines() {
    assert_eq!(StatusMessage::Rejected(FormError::BadAmount).text(), "Importo non valido (usa 10.50)");
    assert_eq!(StatusMessage::Rejected(FormError::BadDate).text(), "Data non valida (DD-MM-YYYY)");
}

#[test]
fn new_input_is_empty() {
    let mut i = AppInput::default();
    assert_eq!(i.push_message(), "");
    let mut j = AppInput { input: tui_input::Input::new("abc".to_string()) };
    assert_eq!(j.push_message(), "abc");
    assert_eq!(j.push_message(), "");
}

#[test]
fn page_window_is_offset_by_page_number() {
    assert_eq!(tasca::expense::page_query(1), (10, 1));
    assert_eq!(tasca::expense::page_query(2), (10, 2));
}

#[test]
fn exponent_amounts_are_accepted() {
    assert_eq!(read_form("x | 1e3 | 21-01-2025").unwrap().amount, "1e3");
    assert_eq!(read_form("x | 2.5E1 | 21-01-2025").unwrap().amount, "2.5E1");
    assert_eq!(read_form("x | 2,5e-1 | 21-01-2025").unwrap().amount, "2.5e-1");
}

#[test]
fn number_forms_of_the_float_grammar() {
    assert!(decimal_ok("1E-2"));
    assert!(decimal_ok("-1e+10"));
    assert!(decimal_ok(".5e3"));
    assert!(decimal_ok("inf"));
    assert!(decimal_ok("-Infinity"));
    assert!(decimal_ok("NaN"));
    assert!(!decimal_ok("e3"));
    assert!(!decimal_ok("1e"));
    assert!(!decimal_ok("1e+"));
    assert!(!decimal_ok("1e3e4"));
    assert!(!decimal_ok("1e3.5"));
    assert!(!decimal_ok("infin"));
    assert!(!decimal_ok("--1"));
}

#[test]
fn unicode_white_space_is_trimmed() {
    assert_eq!(trimmed("\u{3000}\u{a0} 10,50\u{2029}\n"), "10,50");
    assert_eq!(trimmed("\u{200b}x"), "\u{200b}x");
}

#[test]
fn mode_functions_directly() {
    let mut s = AppState::new(Some(vec![]));
    s.idx = None;
    assert!(matches!(handle_normal(&mut s, Key::Enter), AppAction::Continue));
    assert_eq!(s.app_mode, AppMode::Detail);
    assert!(matches!(handle_detail(&mut s, Key::Enter), AppAction::Continue));
    assert_eq!(s.app_mode, AppMode::Normal);
    s.idx = Some(0);
    handle_normal(&mut s, Key::Char('k'));
    assert_eq!(s.idx, Some(0));
    let mut c = creating_with("only | two");
    assert!(matches!(handle_creating(&mut c, Key::Enter), AppAction::Continue));
    assert_eq!(c.app_mode, AppMode::Creating);
    assert!(!c.status_message.unwrap().text().is_empty());
}
