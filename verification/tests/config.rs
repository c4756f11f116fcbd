use confcosmos::config::{expand_path, join_origin_path, Config};
use confcosmos::entry::SymbolicEntry;
use confcosmos::table::SymbolicTable;

fn entry(origin: &str, target: &str) -> SymbolicEntry {
    SymbolicEntry {
        origin_path: origin.to_string(),
        target_path: target.to_string(),
        add_datetime: "2024-01-15 14:30:22 123".to_string(),
        already_generate: false,
    }
}

#[test]
fn expand_tilde() {
    let home = "/home/user";
    assert_eq!(expand_path("~", home), "/home/user");
    assert_eq!(expand_path("~/dotfiles", home), "/home/user/dotfiles");
    assert_eq!(expand_path("$HOME", home), "/home/user");
    assert_eq!(expand_path("$HOME/.config", home), "/home/user/.config");
    assert_eq!(expand_path("${HOME}/x", home), "/home/user/x");
    assert_eq!(expand_path("/etc", home), "/etc");
}

#[test]
fn join_origin() {
    assert_eq!(
        join_origin_path("/home/user/src", "a/b"),
        "/home/user/src/a/b"
    );
    assert_eq!(
        join_origin_path("/home/user/src/", "a/b"),
        "/home/user/src/a/b"
    );
    assert_eq!(join_origin_path("", "a/b"), "a/b");
    assert_eq!(
        join_origin_path("/home/user/src", "/abs/path"),
        "/home/user/src/abs/path"
    );
}

#[test]
fn expand_keeps_other_inputs() {
    let home = "/home/user";
    assert_eq!(expand_path("", home), "");
    assert_eq!(expand_path("~user/x", home), "~user/x");
    assert_eq!(expand_path("${HOME}", home), "/home/user");
    assert_eq!(expand_path("$HOMEDIR", home), "/home/userDIR");
    assert_eq!(expand_path("a/~/b", home), "a/~/b");
    assert_eq!(expand_path("~/数据", home), "/home/user/数据");
}

#[test]
fn join_origin_both_slashes() {
    assert_eq!(join_origin_path("/src/", "/x"), "/src//x");
    assert_eq!(join_origin_path("/src", ""), "/src/");
    assert_eq!(join_origin_path("", ""), "");
}

#[test]
fn table_keeps_names_in_order() {
    let mut t = SymbolicTable::new();
    assert!(t.is_empty());
    t.insert("vimrc".to_string(), entry("/s/vimrc", "/h/.vimrc"));
    t.insert("bashrc".to_string(), entry("/s/bashrc", "/h/.bashrc"));
    t.insert("zshrc".to_string(), entry("/s/zshrc", "/h/.zshrc"));
    t.insert("Xresources".to_string(), entry("/s/X", "/h/.X"));
    let names: Vec<String> = t.rows().into_iter().map(|(n, _)| n).collect();
    assert_eq!(names, vec!["Xresources", "bashrc", "vimrc", "zshrc"]);
    assert_eq!(t.len(), 4);
}

#[test]
fn table_read_after_write() {
    let mut t = SymbolicTable::new();
    t.insert("vimrc".to_string(), entry("/s/vimrc", "/h/.vimrc"));
    assert_eq!(t.get("vimrc").unwrap().origin_path, "/s/vimrc");
    t.insert("vimrc".to_string(), entry("/s/other", "/h/.vimrc"));
    assert_eq!(t.len(), 1);
    assert_eq!(t.get("vimrc").unwrap().origin_path, "/s/other");
    assert!(t.get("vim").is_none());
    assert_eq!(t.find("vimrc"), Some(0));
}

#[test]
fn table_remove() {
    let mut t = SymbolicTable::new();
    t.insert("a".to_string(), entry("/s/a", "/h/a"));
    t.insert("b".to_string(), entry("/s/b", "/h/b"));
    let removed = t.remove("a").unwrap();
    assert_eq!(removed.origin_path, "/s/a");
    assert!(t.get("a").is_none());
    assert!(t.remove("a").is_none());
    assert_eq!(t.len(), 1);
    assert_eq!(t.get("b").unwrap().target_path, "/h/b");
}

#[test]
fn table_mark_generated() {
    let mut t = SymbolicTable::new();
    t.insert("a".to_string(), entry("/s/a", "/h/a"));
    assert!(t.mark_generated("a"));
    assert!(t.get("a").unwrap().already_generate);
    assert!(!t.mark_generated("a"));
    assert!(!t.mark_generated("missing"));
}

#[test]
fn save_text_keeps_symbolic_table() {
    let cfg = Config::default();
    let s = cfg.save_text("origin_path_prefix = \"\"\n".to_string());
    assert_eq!(s, "origin_path_prefix = \"\"\n\n[symbolic]\n");
    let s = cfg.save_text("origin_path_prefix = \"\"\n\n[symbolic]\n".to_string());
    assert_eq!(s, "origin_path_prefix = \"\"\n\n[symbolic]\n");
}

#[test]
fn save_text_with_entries_is_unchanged() {
    let mut cfg = Config::default();
    cfg.symbolic.insert("vimrc".to_string(), entry("/s/vimrc", "/h/.vimrc"));
    let text = "origin_path_prefix = \"\"\n".to_string();
    assert_eq!(cfg.save_text(text.clone()), text);
}
