use confcosmos::config::Config;
use confcosmos::entry::SymbolicEntry;
use confcosmos::key::Key;
use confcosmos::pages::generate_page::{GenMode, GenStatus, GeneratePage};
use confcosmos::pages::manage_page::ManagePage;
use confcosmos::pages::new_page::NewPage;
use confcosmos::pages::setup_page::prompt_label;
use confcosmos::pages::view_page::{numbered_line, ViewPage};
use confcosmos::pages::{focused_button, Look, NewFocus};
use confcosmos::text::decimal;

fn config_with(names: &[&str]) -> Config {
    let mut cfg = Config::default();
    for n in names {
        cfg.symbolic.insert(
            n.to_string(),
            SymbolicEntry {
                origin_path: format!("/s/{n}"),
                target_path: format!("/h/{n}"),
                add_datetime: String::new(),
                already_generate: false,
            },
        );
    }
    cfg
}

#[test]
fn decimal_matches_format() {
    for n in [0usize, 7, 9, 10, 42, 100, 65535, 1234567890] {
        assert_eq!(decimal(n), format!("{}", n));
    }
}

#[test]
fn numbered_lines() {
    assert_eq!(numbered_line(0, "vimrc"), "1. vimrc");
    assert_eq!(numbered_line(9, "配置"), "10. 配置");
}

#[test]
fn view_lines_and_height() {
    let v = ViewPage::from_config(&config_with(&["b", "a"]));
    assert_eq!(v.entry_line(0), "1. a");
    assert_eq!(v.entry_line(1), "2. b");
    assert_eq!(v.origin_line(1), "   origin_path: /s/b");
    assert_eq!(v.target_line(0), "   target_path: /h/a");
    assert_eq!(v.box_height(), 6);
    assert_eq!(ViewPage::from_config(&Config::default()).box_height(), 4);
}

#[test]
fn generate_lines_and_height() {
    let mut g = GeneratePage::from_config(&config_with(&["a", "b"]));
    assert_eq!(g.checks, vec![false, false]);
    g.handle(Key::Down);
    g.handle(Key::Char(' '));
    assert_eq!(g.item_line(0), "[ ] 1. a");
    assert_eq!(g.item_line(1), "[x] 2. b");
    assert_eq!(g.box_height(), 6);
    g.results = vec![
        ("a".to_string(), GenStatus::Success),
        ("b".to_string(), GenStatus::Exists),
        ("c".to_string(), GenStatus::Failed("denied".to_string())),
    ];
    g.mode = GenMode::Results;
    assert_eq!(g.result_line(0), "a : 已创建软链接");
    assert_eq!(g.result_line(1), "b : 目标已存在，跳过");
    assert_eq!(g.result_line(2), "c : 失败 - denied");
    assert_eq!(g.box_height(), 5);
    g.results.clear();
    assert_eq!(g.box_height(), 3);
}

#[test]
fn prompt_shows_input() {
    assert_eq!(prompt_label("~/dot"), "源路径前缀路径 (origin_path_prefix): ~/dot");
}

#[test]
fn new_page_looks() {
    let mut p = NewPage::new();
    assert_eq!(p.visible_fields(), 1);
    assert_eq!(p.field_look(0), Look::Active);
    assert_eq!(p.field_look(1), Look::Plain);
    for s in ["a", "b", "c"] {
        p.handle(Key::Char(s.chars().next().unwrap()));
        p.handle(Key::Enter);
    }
    assert_eq!(p.visible_fields(), 3);
    assert_eq!(p.field_look(0), Look::Plain);
    assert_eq!(focused_button(p.focus, p.button_idx), Some(0));
    p.handle(Key::Tab);
    assert_eq!(p.field_look(0), Look::Selected);
    p.handle(Key::Enter);
    assert_eq!(p.field_look(0), Look::Active);
    assert_eq!(focused_button(p.focus, p.button_idx), None);
}

#[test]
fn manage_page_looks() {
    let e = SymbolicEntry {
        origin_path: "/s".to_string(),
        target_path: "/t".to_string(),
        add_datetime: String::new(),
        already_generate: false,
    };
    let mut p = ManagePage::new("n".to_string(), e, 0);
    assert_eq!(p.datetime_line(), "新增时间: ");
    assert_eq!(p.field_look(0), Look::Plain);
    p.handle(Key::Tab);
    assert_eq!(p.focus, NewFocus::Input);
    p.handle(Key::Down);
    assert_eq!(p.field_look(1), Look::Selected);
    p.handle(Key::Enter);
    assert_eq!(p.field_look(1), Look::Active);
    assert_eq!(p.field_look(0), Look::Plain);
}
