use confcosmos::app::{handle, App, Effect, Page};
use confcosmos::config::Config;
use confcosmos::entry::SymbolicEntry;
use confcosmos::key::Key;
use confcosmos::pages::confirm_page::{ConfirmAction, ConfirmChoice, ConfirmPage};
use confcosmos::pages::generate_page::{record_generation, GenMode, GenStatus};
use confcosmos::pages::manage_page::{ManageAction, ManagePage};
use confcosmos::pages::new_page::{NewPage, NewResult, EMPTY_INPUT_NOTICE};
use confcosmos::pages::NewFocus;
use confcosmos::ui::{box_and_hints, width};

fn entry(origin: &str, target: &str) -> SymbolicEntry {
    SymbolicEntry {
        origin_path: origin.to_string(),
        target_path: target.to_string(),
        add_datetime: "2024-01-15 14:30:22 123".to_string(),
        already_generate: false,
    }
}

fn typed(p: &mut NewPage, s: &str) {
    for c in s.chars() {
        assert_eq!(p.handle(Key::Char(c)), NewResult::Stay);
    }
}

fn app_with(names: &[&str]) -> App {
    let mut cfg = Config::default();
    cfg.origin_path_prefix = "/home/user/dotfiles".to_string();
    for n in names {
        cfg.symbolic.insert(n.to_string(), entry(&format!("/s/{n}"), &format!("/h/{n}")));
    }
    App::new(cfg, "/tmp/confcosmos.toml".to_string(), "/home/user".to_string(), false)
}

fn send(app: &mut App, keys: &[Key]) -> Vec<Effect> {
    let mut all = Vec::new();
    for k in keys {
        all.extend(handle(app, *k));
    }
    all
}

#[test]
fn new_page_refuses_empty_input() {
    let mut p = NewPage::new();
    assert_eq!(p.handle(Key::Enter), NewResult::Stay);
    assert_eq!(p.notice.as_deref(), Some(EMPTY_INPUT_NOTICE));
    assert_eq!(p.fixed, 0);
    typed(&mut p, "v");
    assert!(p.notice.is_none());
    assert_eq!(p.symbolic_name, "v");
}

#[test]
fn new_page_first_pass_reaches_buttons() {
    let mut p = NewPage::new();
    typed(&mut p, "vimrc");
    p.handle(Key::Enter);
    typed(&mut p, "vim/vimrcx");
    p.handle(Key::Backspace);
    p.handle(Key::Enter);
    typed(&mut p, "~/.vimrc");
    p.handle(Key::Enter);
    assert_eq!(p.fixed, 3);
    assert_eq!(p.focus, NewFocus::Buttons);
    assert_eq!(p.origin_path, "vim/vimrc");
    assert_eq!(p.handle(Key::Left), NewResult::Stay);
    assert_eq!(p.button_idx, 2);
    assert_eq!(p.handle(Key::Enter), NewResult::ConfirmAbandon);
    p.handle(Key::Right);
    assert_eq!(p.button_idx, 0);
    assert_eq!(p.handle(Key::Enter), NewResult::Save);
    assert_eq!(p.handle(Key::Esc), NewResult::Abandon);
}

#[test]
fn new_page_edit_mode() {
    let mut p = NewPage::new();
    for s in ["a", "b", "c"] {
        typed(&mut p, s);
        p.handle(Key::Enter);
    }
    p.handle(Key::Tab);
    assert_eq!(p.focus, NewFocus::Input);
    p.handle(Key::Down);
    p.handle(Key::Down);
    p.handle(Key::Down);
    assert_eq!(p.selected, 2);
    p.handle(Key::Enter);
    assert!(p.editing);
    p.handle(Key::Backspace);
    assert_eq!(p.handle(Key::Enter), NewResult::Stay);
    assert_eq!(p.notice.as_deref(), Some(EMPTY_INPUT_NOTICE));
    assert!(p.editing);
    typed(&mut p, "d");
    p.handle(Key::Enter);
    assert!(!p.editing);
    assert_eq!(p.target_path, "d");
    p.handle(Key::Tab);
    assert_eq!(p.handle(Key::Enter), NewResult::Save);
}

#[test]
fn manage_page_flow() {
    let mut p = ManagePage::new("vimrc".to_string(), entry("/s/v", "/h/v"), 4);
    assert_eq!(p.focus, NewFocus::Buttons);
    assert_eq!(p.handle(Key::Right), ManageAction::Stay);
    assert_eq!(p.handle(Key::Enter), ManageAction::Delete);
    p.handle(Key::Left);
    assert_eq!(p.handle(Key::Enter), ManageAction::Edit);
    assert_eq!(p.focus, NewFocus::Input);
    p.handle(Key::Enter);
    p.handle(Key::Char('2'));
    assert_eq!(p.handle(Key::Enter), ManageAction::Commit);
    assert_eq!(p.symbolic_name, "vimrc2");
    assert_eq!(p.key, "vimrc");
    assert_eq!(p.handle(Key::Esc), ManageAction::Stay);
    assert_eq!(p.focus, NewFocus::Buttons);
    assert_eq!(p.handle(Key::Esc), ManageAction::Back);
}

#[test]
fn confirm_page_answers() {
    let mut p = ConfirmPage { message: "m".to_string(), action: ConfirmAction::AbandonNew, selected: 0 };
    assert_eq!(p.answer(Key::Char('Y')), ConfirmChoice::Yes);
    assert_eq!(p.answer(Key::Char('n')), ConfirmChoice::No);
    assert_eq!(p.answer(Key::Esc), ConfirmChoice::No);
    assert_eq!(p.answer(Key::Right), ConfirmChoice::Undecided);
    assert_eq!(p.selected, 1);
    assert_eq!(p.answer(Key::Enter), ConfirmChoice::No);
    assert_eq!(p.answer(Key::Char('x')), ConfirmChoice::Undecided);
}

#[test]
fn main_menu_moves_and_quits() {
    let mut app = app_with(&[]);
    send(&mut app, &[Key::Up, Key::Down, Key::Down, Key::Down, Key::Down, Key::Down]);
    assert_eq!(app.menu_selected, 3);
    send(&mut app, &[Key::Enter]);
    match &app.page {
        Page::Settings(s) => assert_eq!(s.input, "/home/user/dotfiles"),
        _ => panic!("settings page expected"),
    }
    send(&mut app, &[Key::Esc, Key::Char('q')]);
    assert!(app.quit);
}

#[test]
fn interrupt_quits_everywhere() {
    let mut app = app_with(&[]);
    send(&mut app, &[Key::Down, Key::Enter]);
    assert!(matches!(app.page, Page::New(_)));
    send(&mut app, &[Key::Interrupt]);
    assert!(app.quit);
}

#[test]
fn setup_stores_expanded_prefix() {
    let mut app = App::new(Config::default(), "/tmp/c.toml".to_string(), "/home/user".to_string(), true);
    assert!(matches!(app.page, Page::Setup(_)));
    send(&mut app, &[Key::Char('~'), Key::Char('/'), Key::Char('d'), Key::Char('x'), Key::Backspace]);
    let effects = send(&mut app, &[Key::Enter]);
    assert_eq!(app.config.origin_path_prefix, "/home/user/d");
    assert!(matches!(app.page, Page::Main));
    assert_eq!(effects.len(), 2);
    assert!(matches!(&effects[0], Effect::CreateDirAll(d) if d == "/home/user/d"));
    assert!(matches!(effects[1], Effect::SaveConfig));
}

#[test]
fn new_entry_is_saved_with_joined_paths() {
    let mut app = app_with(&[]);
    send(&mut app, &[Key::Down, Key::Enter]);
    let mut keys = Vec::new();
    for s in ["vimrc", "vim/vimrc", "~/.vimrc"] {
        keys.extend(s.chars().map(Key::Char));
        keys.push(Key::Enter);
    }
    let effects = send(&mut app, &keys);
    assert!(effects.is_empty());
    let effects = send(&mut app, &[Key::Enter]);
    assert_eq!(effects.len(), 1);
    assert!(matches!(effects[0], Effect::SaveConfig));
    assert!(matches!(app.page, Page::Main));
    let e = app.config.symbolic.get("vimrc").unwrap();
    assert_eq!(e.origin_path, "/home/user/dotfiles/vim/vimrc");
    assert_eq!(e.target_path, "/home/user/.vimrc");
    assert_eq!(e.add_datetime.chars().count(), 23);
    assert!(!e.already_generate);
}

#[test]
fn abandoning_new_entry_asks_and_cancel_restores() {
    let mut app = app_with(&[]);
    send(&mut app, &[Key::Down, Key::Enter, Key::Char('a'), Key::Enter, Key::Char('b'), Key::Enter, Key::Char('c'), Key::Enter]);
    send(&mut app, &[Key::Left, Key::Enter]);
    match &app.page {
        Page::Confirm(c) => assert_eq!(c.message, "确认放弃新增并返回主页面？"),
        _ => panic!("confirm page expected"),
    }
    assert!(app.prev.is_some());
    send(&mut app, &[Key::Char('n')]);
    match &app.page {
        Page::New(p) => {
            assert_eq!(p.fixed, 3);
            assert_eq!(p.button_idx, 2);
        },
        _ => panic!("new page expected"),
    }
    assert!(app.prev.is_none());
    send(&mut app, &[Key::Enter, Key::Char('y')]);
    assert!(matches!(app.page, Page::Main));
    assert!(app.prev.is_none());
    assert!(app.config.symbolic.is_empty());
}

#[test]
fn view_manage_rename_and_delete() {
    let mut app = app_with(&["a", "b"]);
    send(&mut app, &[Key::Enter]);
    match &app.page {
        Page::View(v) => assert_eq!(v.entries.len(), 2),
        _ => panic!("view page expected"),
    }
    send(&mut app, &[Key::Down, Key::Down, Key::Enter]);
    match &app.page {
        Page::Manage(m) => {
            assert_eq!(m.key, "b");
            assert_eq!(m.back_selected, 1);
        },
        _ => panic!("manage page expected"),
    }
    // rename b -> bx and change its target to ~/t
    let effects = send(&mut app, &[Key::Enter, Key::Enter, Key::Char('x'), Key::Enter]);
    assert_eq!(effects.len(), 2);
    assert!(matches!(&effects[0], Effect::CreateDirAll(d) if d == "/s/b"));
    assert!(app.config.symbolic.get("b").is_none());
    assert!(app.config.symbolic.get("bx").is_some());
    send(&mut app, &[Key::Down, Key::Down, Key::Enter]);
    for _ in 0..4 {
        send(&mut app, &[Key::Backspace]);
    }
    send(&mut app, &[Key::Char('~'), Key::Char('/'), Key::Char('t'), Key::Enter]);
    assert_eq!(app.config.symbolic.get("bx").unwrap().target_path, "/home/user/t");
    match &app.page {
        Page::Manage(m) => {
            assert_eq!(m.key, "bx");
            assert_eq!(m.target_path, "/home/user/t");
        },
        _ => panic!("manage page expected"),
    }
    // delete it
    send(&mut app, &[Key::Tab, Key::Right, Key::Enter]);
    match &app.page {
        Page::Confirm(c) => assert_eq!(c.message, "确认删除软链接「bx」？"),
        _ => panic!("confirm page expected"),
    }
    let effects = send(&mut app, &[Key::Enter]);
    assert_eq!(effects.len(), 1);
    assert!(app.config.symbolic.get("bx").is_none());
    match &app.page {
        Page::View(v) => {
            assert_eq!(v.entries.len(), 1);
            assert_eq!(v.selected, 0);
        },
        _ => panic!("view page expected"),
    }
}

#[test]
fn manage_back_clamps_selection() {
    let mut app = app_with(&["a", "b", "c"]);
    send(&mut app, &[Key::Enter, Key::Down, Key::Down, Key::Enter]);
    send(&mut app, &[Key::Esc]);
    match &app.page {
        Page::View(v) => assert_eq!(v.selected, 2),
        _ => panic!("view page expected"),
    }
}

#[test]
fn generate_checked_entries_and_record() {
    let mut app = app_with(&["a", "b", "c"]);
    send(&mut app, &[Key::Down, Key::Down, Key::Enter]);
    let effects = send(&mut app, &[Key::Tab, Key::Enter]);
    assert!(effects.is_empty());
    match &app.page {
        Page::Generate(g) => assert_eq!(g.notice.as_deref(), Some("未选择任何软链接")),
        _ => panic!("generate page expected"),
    }
    let mut effects = send(&mut app, &[Key::Tab, Key::Char(' '), Key::Down, Key::Down, Key::Enter, Key::Tab, Key::Enter]);
    assert_eq!(effects.len(), 1);
    let selected = match effects.pop().unwrap() {
        Effect::GenerateLinks(v) => v,
        _ => panic!("generation expected"),
    };
    let names: Vec<&str> = selected.iter().map(|(n, _)| n.as_str()).collect();
    assert_eq!(names, vec!["a", "c"]);
    let effects = record_generation(
        &mut app,
        vec![("a".to_string(), GenStatus::Success), ("c".to_string(), GenStatus::Exists)],
    );
    assert_eq!(effects.len(), 1);
    assert!(app.config.symbolic.get("a").unwrap().already_generate);
    assert!(!app.config.symbolic.get("c").unwrap().already_generate);
    match &app.page {
        Page::Generate(g) => {
            assert_eq!(g.mode, GenMode::Results);
            assert_eq!(g.results.len(), 2);
        },
        _ => panic!("generate page expected"),
    }
    let effects = record_generation(&mut app, vec![("a".to_string(), GenStatus::Success)]);
    assert!(effects.is_empty());
    send(&mut app, &[Key::Enter]);
    match &app.page {
        Page::Generate(g) => assert_eq!(g.mode, GenMode::Select),
        _ => panic!("generate page expected"),
    }
    send(&mut app, &[Key::Char('q')]);
    assert!(matches!(app.page, Page::Main));
}

#[test]
fn settings_saves_expanded_prefix() {
    let mut app = app_with(&[]);
    send(&mut app, &[Key::Down, Key::Down, Key::Down, Key::Enter]);
    for _ in 0.."/home/user/dotfiles".len() {
        send(&mut app, &[Key::Backspace]);
    }
    let effects = send(&mut app, &[Key::Char('$'), Key::Char('H'), Key::Char('O'), Key::Char('M'), Key::Char('E'), Key::Enter]);
    assert_eq!(effects.len(), 1);
    assert_eq!(app.config.origin_path_prefix, "/home/user");
    match &app.page {
        Page::Settings(s) => assert!(s.saved),
        _ => panic!("settings page expected"),
    }
}

#[test]
fn width_counts_wide_characters() {
    assert_eq!(width(""), 0);
    assert_eq!(width("abc"), 3);
    assert_eq!(width("查看软链接"), 10);
    assert_eq!(width("[ 确认 ]"), 8);
}

#[test]
fn box_is_centered_with_clamped_height() {
    let (b, h) = box_and_hints((0, 0, 80, 24), 6);
    assert_eq!(b.3, 6);
    assert_eq!(h.3, 1);
    assert_eq!(h.1, b.1 + 6);
    assert_eq!(b.2, 80);
    let (b, _) = box_and_hints((0, 0, 80, 24), 1);
    assert_eq!(b.3, 3);
    let (b, h) = box_and_hints((0, 0, 80, 10), 40);
    assert_eq!(b.3, 9);
    assert_eq!(h.1, 9);
}

