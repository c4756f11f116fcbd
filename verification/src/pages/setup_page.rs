//! The first-run page that asks for the source path prefix.
use vstd::prelude::*;
use crate::app::{effects_view, with_page, App, AppView, Effect, EffectView, Page, PageView};
use crate::config::{expand_path, expanded_path, ConfigView};
use crate::key::Key;
use crate::pages::{apply_edit, edited};
use crate::text::owned;

verus! {

/// First-run page: ask for the source path prefix.
pub struct SetupPage {
    pub input: String,
}

impl View for SetupPage {
    type V = Seq<char>;

    open spec fn view(&self) -> Seq<char> {
        self.input@
    }
}

/// The prompt in front of the typed source path prefix.
pub const PREFIX_PROMPT: &'static str = "源路径前缀路径 (origin_path_prefix): ";

/// The prompt line with the typed `input`.
pub fn prompt_label(input: &str) -> (r: String)
    ensures
        r@ == PREFIX_PROMPT@ + input@,
{
    owned(PREFIX_PROMPT).concat(input)
}

/// The effects that make sure the directory `d` exists, when it is named.
pub open spec fn dir_effects(d: Seq<char>) -> Seq<EffectView> {
    if d.len() > 0 {
        seq![EffectView::CreateDirAll(d)]
    } else {
        Seq::empty()
    }
}

/// The application with `prefix` as the source path prefix.
pub open spec fn with_prefix(a: AppView, prefix: Seq<char>) -> AppView {
    AppView { config: ConfigView { origin_path_prefix: prefix, ..a.config }, ..a }
}

/// The application after a key on the setup page, and the effects asked
/// for: q and Esc quit; Enter stores the expanded input as the prefix,
/// creates its directory, saves and goes to the main menu.
pub open spec fn setup_app_step(a: AppView, key: Key) -> (AppView, Seq<EffectView>) {
    if key == Key::Esc || key == Key::Char('q') {
        (AppView { quit: true, ..a }, Seq::empty())
    } else {
        match a.page {
            PageView::Setup(input) => match key {
                Key::Char(_) | Key::Backspace => (with_page(a, PageView::Setup(edited(input, key))), Seq::empty()),
                Key::Enter => {
                    let e = expanded_path(input, a.home);
                    (with_page(with_prefix(a, e), PageView::Main), dir_effects(e).push(EffectView::SaveConfig))
                },
                _ => (a, Seq::empty()),
            },
            _ => (a, Seq::empty()),
        }
    }
}

/// Reacts to a key on the setup page; returns the effects to perform.
pub fn handle_setup(app: &mut App, key: Key) -> (effects: Vec<Effect>)
    ensures
        (final(app)@, effects_view(effects@)) == setup_app_step(old(app)@, key),
{
    let mut effects: Vec<Effect> = Vec::new();
    if key == Key::Esc || key == Key::Char('q') {
        app.quit = true;
        assert(effects_view(effects@) =~= Seq::empty());
        return effects;
    }
    match key {
        Key::Char(_) | Key::Backspace => {
            match &mut app.page {
                Page::Setup(p) => apply_edit(&mut p.input, key),
                _ => {},
            }
        },
        Key::Enter => {
            let input = match &app.page {
                Page::Setup(p) => p.input.clone(),
                _ => {
                    assert(effects_view(effects@) =~= Seq::empty());
                    return effects;
                },
            };
            let expanded = expand_path(input.as_str(), app.home.as_str());
            // mkdir -p on the parsed path so folders along the way exist
            if !expanded.as_str().is_empty() {
                effects.push(Effect::CreateDirAll(expanded.clone()));
            }
            app.config.origin_path_prefix = expanded;
            effects.push(Effect::SaveConfig);
            app.go_main();
            assert(effects_view(effects@) =~= dir_effects(app.config.origin_path_prefix@).push(EffectView::SaveConfig));
            return effects;
        },
        _ => {},
    }
    assert(effects_view(effects@) =~= Seq::empty());
    effects
}

} // verus!
