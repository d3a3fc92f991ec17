use termplete::buffer::EditBuffer;
use termplete::commands::{arg_to_int, product_args, sum_args};
use termplete::completion::{
    candidates_for, complete, find_token_start, longest_common_prefix, CompletionOutcome,
};
use termplete::cycle::{run_script, ReadResult, Session, Step};
use termplete::editor::{EditOutcome, Editor};
use termplete::history::{HistoryError, HistoryStore};
use termplete::keymap::{lookup, Action, EditStyle, KeyCode, KeyEvent, MenuKind, Mode, Modifiers};
use termplete::session::{dispatch_line, match_builtin, Builtin, Dispatch};
use termplete::hints::hint_for;

fn cs(s: &str) -> Vec<char> {
    s.chars().collect()
}

fn words(ws: &[&str]) -> Vec<Vec<char>> {
    ws.iter().map(|w| cs(w)).collect()
}

fn text(v: &[char]) -> String {
    v.iter().collect()
}

const NONE: Modifiers = Modifiers { control: false, shift: false, alt: false };

fn key(code: KeyCode, modifiers: Modifiers) -> KeyEvent {
    KeyEvent { code, modifiers }
}

fn plain(c: char) -> KeyEvent {
    key(KeyCode::Char(c), NONE)
}

#[test]
fn typing_printable_keys_fills_buffer() {
    let mut ed = Editor::new(EditStyle::Emacs);
    let events: Vec<KeyEvent> = "add 2 3".chars().map(plain).collect();
    ed.type_keys(&events, &vec![], &vec![], 2);
    assert_eq!(text(&ed.buf.chars), "add 2 3");
    assert_eq!(ed.buf.cursor, 7);
}

#[test]
fn typing_in_vi_insert_mode_fills_buffer() {
    let mut ed = Editor::new(EditStyle::Vi);
    let events: Vec<KeyEvent> = "héllo".chars().map(plain).collect();
    ed.type_keys(&events, &vec![], &vec![], 2);
    assert_eq!(text(&ed.buf.chars), "héllo");
    assert_eq!(ed.buf.cursor, 5);
}

#[test]
fn buffer_edits_at_cursor() {
    let mut b = EditBuffer::from_chars(cs("ac"));
    b.move_left();
    b.insert_char('b');
    assert_eq!(text(&b.chars), "abc");
    assert_eq!(b.cursor, 2);
    b.delete_back();
    assert_eq!(text(&b.chars), "ac");
    assert_eq!(b.cursor, 1);
    b.move_left();
    b.move_left();
    b.delete_back();
    assert_eq!(text(&b.chars), "ac");
    assert_eq!(b.cursor, 0);
    b.move_right();
    b.move_right();
    b.move_right();
    assert_eq!(b.cursor, 2);
    b.clear();
    assert_eq!(b.len(), 0);
}

#[test]
fn history_skips_excluded_and_empty_lines() {
    let mut h = HistoryStore::new(cs(" "), Some(7));
    assert!(!h.append(&cs(" secret")));
    assert_eq!(h.len(), 0);
    assert!(!h.append(&cs("")));
    assert_eq!(h.len(), 0);
    assert!(h.append(&cs("add 1 2")));
    assert_eq!(h.len(), 1);
    assert!(h.append(&cs("add 1 2")));
    assert_eq!(h.len(), 2);
}

#[test]
fn history_toggle_twice_restores_view() {
    let mut h = HistoryStore::new(cs(" "), Some(1));
    h.entries.push(termplete::history::HistoryEntry { line: cs("old"), session: Some(9) });
    h.append(&cs("mine"));
    let before: Vec<String> = h.query().iter().map(|l| text(l)).collect();
    assert_eq!(before, vec!["mine".to_string()]);
    h.toggle_session_filter(5);
    let all: Vec<String> = h.query().iter().map(|l| text(l)).collect();
    assert_eq!(all, vec!["old".to_string(), "mine".to_string()]);
    h.toggle_session_filter(5);
    let after: Vec<String> = h.query().iter().map(|l| text(l)).collect();
    assert_eq!(after, before);
    assert_eq!(h.len(), 2);
    assert_eq!(h.session, Some(1));
}

#[test]
fn history_toggle_without_session_starts_one() {
    let mut h = HistoryStore::new(cs(" "), None);
    assert!(!h.session_only);
    h.toggle_session_filter(42);
    assert_eq!(h.session, Some(42));
    assert!(h.session_only);
    h.append(&cs("ls"));
    assert_eq!(h.query().len(), 1);
}

#[test]
fn history_clear_reports_failure() {
    let mut h = HistoryStore::new(cs(" "), None);
    h.append(&cs("a"));
    assert_eq!(h.clear(Err(HistoryError::Backend)), Err(HistoryError::Backend));
    assert_eq!(h.len(), 1);
    assert_eq!(h.clear(Ok(())), Ok(()));
    assert_eq!(h.len(), 0);
}

#[test]
fn candidates_share_the_token_prefix() {
    let ws = words(&["clear", "exit", "logout", "add", "quit", "addr"]);
    let seen = words(&["address", "add", "cat"]);
    let c = candidates_for(&ws, &seen, &cs("ad"), 2);
    let got: Vec<String> = c.iter().map(|w| text(w)).collect();
    assert_eq!(got, vec!["add", "addr", "address"]);
    for w in &got {
        assert!(ws.iter().chain(seen.iter()).any(|x| text(x) == *w));
    }
}

#[test]
fn candidates_need_minimum_token_length() {
    let ws = words(&["add", "addr"]);
    assert!(candidates_for(&ws, &vec![], &cs("a"), 2).is_empty());
    assert_eq!(candidates_for(&ws, &vec![], &cs("a"), 1).len(), 2);
}

#[test]
fn partial_completion_extends_to_common_prefix() {
    let ws = words(&["add", "addr", "address"]);
    let mut b = EditBuffer::from_chars(cs("ad"));
    let r = complete(&mut b, &ws, &vec![], 2);
    assert_eq!(r, CompletionOutcome::MenuRequested);
    assert_eq!(text(&b.chars), "add");
    assert_eq!(b.cursor, 3);
}

#[test]
fn partial_completion_through_tab_does_not_submit() {
    let mut ed = Editor::new(EditStyle::Emacs);
    ed.type_keys(&vec![plain('a'), plain('d')], &vec![], &vec![], 2);
    let ws = words(&["add", "addr", "address"]);
    let r = ed.apply(key(KeyCode::Tab, NONE), &ws, &vec![], 2);
    assert_eq!(r, EditOutcome::MenuRequested(MenuKind::Completion));
    assert_eq!(text(&ed.buf.chars), "add");
    let r = ed.apply(key(KeyCode::Tab, NONE), &ws, &vec![], 2);
    assert_eq!(r, EditOutcome::MenuMoved);
}

#[test]
fn quick_completion_replaces_single_match() {
    let ws = words(&["multiply", "exit"]);
    let mut b = EditBuffer::from_chars(cs("x mu"));
    assert_eq!(complete(&mut b, &ws, &vec![], 2), CompletionOutcome::Completed);
    assert_eq!(text(&b.chars), "x multiply");
    assert_eq!(b.cursor, 10);
}

#[test]
fn completion_without_match_changes_nothing() {
    let ws = words(&["add"]);
    let mut b = EditBuffer::from_chars(cs("zz"));
    assert_eq!(complete(&mut b, &ws, &vec![], 2), CompletionOutcome::NoMatch);
    assert_eq!(text(&b.chars), "zz");
}

#[test]
fn common_prefix_and_token_start() {
    assert_eq!(text(&longest_common_prefix(&words(&["address", "addr", "adds"]))), "add");
    assert_eq!(text(&longest_common_prefix(&words(&["x", "y"]))), "");
    assert_eq!(find_token_start(&cs("add 12"), 6), 4);
    assert_eq!(find_token_start(&cs("add"), 3), 0);
}

#[test]
fn newline_and_submit_are_distinct() {
    let alt = Modifiers { control: false, shift: false, alt: true };
    assert_eq!(lookup(EditStyle::Emacs, Mode::Insert, key(KeyCode::Enter, alt)), Action::InsertNewline);
    assert_eq!(lookup(EditStyle::Emacs, Mode::Insert, key(KeyCode::Enter, NONE)), Action::Submit);
    let mut ed = Editor::new(EditStyle::Emacs);
    ed.type_keys(&vec![plain('a')], &vec![], &vec![], 2);
    assert_eq!(ed.apply(key(KeyCode::Enter, alt), &vec![], &vec![], 2), EditOutcome::BufferChanged);
    assert_eq!(ed.apply(key(KeyCode::Enter, NONE), &vec![], &vec![], 2), EditOutcome::LineFinalized);
    assert_eq!(text(&ed.buf.chars), "a\n");
}

#[test]
fn vi_mode_switch_keeps_buffer() {
    let mut ed = Editor::new(EditStyle::Vi);
    ed.type_keys(&vec![plain('a'), plain('b')], &vec![], &vec![], 2);
    assert_eq!(ed.apply(key(KeyCode::Esc, NONE), &vec![], &vec![], 2), EditOutcome::ModeChanged);
    assert_eq!(ed.mode, Mode::Normal);
    assert_eq!(text(&ed.buf.chars), "ab");
    assert_eq!(ed.buf.cursor, 2);
    assert_eq!(ed.apply(plain('h'), &vec![], &vec![], 2), EditOutcome::BufferChanged);
    assert_eq!(ed.buf.cursor, 1);
    assert_eq!(ed.apply(plain('i'), &vec![], &vec![], 2), EditOutcome::ModeChanged);
    ed.apply(plain('x'), &vec![], &vec![], 2);
    assert_eq!(text(&ed.buf.chars), "axb");
}

#[test]
fn menu_keys_open_and_page_history_menu() {
    let ctrl = Modifiers { control: true, shift: false, alt: false };
    let ctrl_shift = Modifiers { control: true, shift: true, alt: false };
    let mut ed = Editor::new(EditStyle::Emacs);
    assert_eq!(ed.apply(key(KeyCode::Char('x'), ctrl_shift), &vec![], &vec![], 2), EditOutcome::NoOp);
    assert_eq!(
        ed.apply(key(KeyCode::Char('x'), ctrl), &vec![], &vec![], 2),
        EditOutcome::MenuRequested(MenuKind::History)
    );
    assert_eq!(ed.apply(key(KeyCode::Char('x'), ctrl), &vec![], &vec![], 2), EditOutcome::MenuMoved);
    assert_eq!(ed.menu_page, 1);
    assert_eq!(ed.apply(key(KeyCode::Char('x'), ctrl_shift), &vec![], &vec![], 2), EditOutcome::MenuMoved);
    assert_eq!(ed.menu_page, 0);
}

#[test]
fn cancel_clears_line() {
    let ctrl = Modifiers { control: true, shift: false, alt: false };
    let mut ed = Editor::new(EditStyle::Emacs);
    ed.type_keys(&vec![plain('a')], &vec![], &vec![], 2);
    assert_eq!(ed.apply(key(KeyCode::Char('c'), ctrl), &vec![], &vec![], 2), EditOutcome::LineCanceled);
    assert_eq!(ed.buf.len(), 0);
    assert_eq!(ed.apply(key(KeyCode::Char('d'), ctrl), &vec![], &vec![], 2), EditOutcome::EndOfInput);
}

#[test]
fn dispatch_registered_command_with_args() {
    let names = words(&["add", "multiply", "excel"]);
    match dispatch_line(&cs("add 2 3 4"), &names) {
        Dispatch::Invoke { name, args } => {
            assert_eq!(text(&name), "add");
            let a: Vec<String> = args.iter().map(|x| text(x)).collect();
            assert_eq!(a, vec!["2", "3", "4"]);
            assert_eq!(sum_args(&args), Some(9));
            assert_eq!(product_args(&args), Some(24));
        }
        other => panic!("unexpected {:?}", other),
    }
}

#[test]
fn dispatch_unknown_command_is_ignored() {
    let names = words(&["add", "multiply"]);
    assert!(matches!(dispatch_line(&cs("foo bar"), &names), Dispatch::Ignore));
    assert!(matches!(dispatch_line(&cs("add 'unclosed"), &names), Dispatch::Ignore));
    assert!(matches!(dispatch_line(&cs("   "), &names), Dispatch::Ignore));
}

#[test]
fn dispatch_trims_and_unquotes() {
    let names = words(&["multiply"]);
    match dispatch_line(&cs("  multiply \"2\" '5'  "), &names) {
        Dispatch::Invoke { name, args } => {
            assert_eq!(text(&name), "multiply");
            let a: Vec<String> = args.iter().map(|x| text(x)).collect();
            assert_eq!(a, vec!["2", "5"]);
        }
        other => panic!("unexpected {:?}", other),
    }
}

#[test]
fn builtins_win_over_registered_commands() {
    let names = words(&["exit", "clear"]);
    assert!(matches!(dispatch_line(&cs(" exit "), &names), Dispatch::Builtin(Builtin::Exit)));
    assert!(matches!(dispatch_line(&cs("clear"), &names), Dispatch::Builtin(Builtin::ClearScreen)));
    assert_eq!(match_builtin(&cs("quit")), Some(Builtin::Exit));
    assert_eq!(match_builtin(&cs("logout")), Some(Builtin::Exit));
    assert_eq!(match_builtin(&cs("history session")), Some(Builtin::ShowSessionHistory));
    assert_eq!(match_builtin(&cs("history sessionid")), Some(Builtin::ShowSessionId));
    assert_eq!(match_builtin(&cs("toggle history_session")), Some(Builtin::ToggleSession));
    assert_eq!(match_builtin(&cs("clear-history")), Some(Builtin::ClearHistory));
    assert_eq!(match_builtin(&cs("history")), Some(Builtin::ShowHistory));
    assert_eq!(match_builtin(&cs("exits")), None);
}

#[test]
fn session_scenario_add_unknown_exit() {
    let names = words(&["add", "multiply"]);
    let inputs = vec![
        ReadResult::Line(cs("add 2 3 4")),
        ReadResult::Line(cs("foo bar")),
        ReadResult::Line(cs("exit")),
        ReadResult::Line(cs("add 1")),
    ];
    let out = run_script(true, &inputs, &names);
    assert_eq!(out.steps.len(), 3);
    assert!(matches!(out.steps[0], Step::Run(Dispatch::Invoke { .. })));
    assert!(matches!(out.steps[1], Step::Run(Dispatch::Ignore)));
    assert!(matches!(out.steps[2], Step::Terminate));
    assert!(out.terminated);
    assert_eq!(out.paste_disables, 1);
}

#[test]
fn paste_disabled_once_on_end_of_input() {
    let inputs = vec![ReadResult::Interrupted, ReadResult::EndOfInput];
    let out = run_script(true, &inputs, &vec![]);
    assert!(matches!(out.steps[0], Step::Idle));
    assert!(out.terminated);
    assert_eq!(out.paste_disables, 1);
}

#[test]
fn paste_disabled_once_when_input_fails() {
    let inputs = vec![ReadResult::Failed, ReadResult::Failed];
    let out = run_script(true, &inputs, &vec![]);
    assert!(matches!(out.steps[0], Step::Report));
    assert!(!out.terminated);
    assert_eq!(out.paste_disables, 1);
}

#[test]
fn paste_never_disabled_when_not_enabled() {
    let out = run_script(false, &vec![ReadResult::EndOfInput], &vec![]);
    assert_eq!(out.paste_disables, 0);
    let mut s = Session::start(false);
    assert!(!s.finish());
}

#[test]
fn argument_arithmetic() {
    assert_eq!(arg_to_int(&cs("-12")), -12);
    assert_eq!(arg_to_int(&cs("abc")), 0);
    assert_eq!(arg_to_int(&cs("+7")), 7);
    assert_eq!(arg_to_int(&cs("-")), 0);
    assert_eq!(arg_to_int(&cs("")), 0);
    assert_eq!(arg_to_int(&cs("2147483648")), 0);
    assert_eq!(arg_to_int(&cs("-2147483648")), i32::MIN);
    assert_eq!(arg_to_int(&cs(" 1")), 0);
    assert_eq!(sum_args(&words(&["1", "x", "5"])), Some(6));
    assert_eq!(sum_args(&vec![]), Some(0));
    assert_eq!(product_args(&vec![]), Some(1));
    assert_eq!(product_args(&words(&["3", "-4"])), Some(-12));
    assert_eq!(sum_args(&words(&["2147483647", "1"])), None);
    assert_eq!(product_args(&words(&["65536", "65536"])), None);
}

#[test]
fn hint_comes_from_latest_extending_line() {

    let hist = words(&["add 1 2", "multiply 3", "add 7"]);
    assert_eq!(text(&hint_for(&cs("ad"), &hist)), "d 7");
    assert_eq!(text(&hint_for(&cs("mu"), &hist)), "ltiply 3");
    assert_eq!(text(&hint_for(&cs("add 7"), &hist)), "");
    assert_eq!(text(&hint_for(&cs(""), &hist)), "");
    assert_eq!(text(&hint_for(&cs("zz"), &hist)), "");
}

#[test]
fn history_prefix_search_respects_session_view() {
    let mut h = HistoryStore::new(cs(" "), Some(3));
    h.entries.push(termplete::history::HistoryEntry { line: cs("add 9"), session: None });
    h.append(&cs("add 1"));
    h.append(&cs("multiply 2"));
    h.append(&cs("add 2"));
    let got: Vec<String> = h.search_prefix(&cs("add")).iter().map(|l| text(l)).collect();
    assert_eq!(got, vec!["add 1", "add 2"]);
    h.toggle_session_filter(8);
    let got: Vec<String> = h.search_prefix(&cs("add")).iter().map(|l| text(l)).collect();
    assert_eq!(got, vec!["add 9", "add 1", "add 2"]);
}
