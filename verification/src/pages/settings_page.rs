//! The page that changes the source path prefix.
use vstd::prelude::*;
use crate::app::{effects_view, with_page, App, AppView, Effect, EffectView, Page, PageView};
use crate::config::{expand_path, expanded_path};
use crate::key::Key;
use crate::pages::setup_page::with_prefix;
use crate::pages::{apply_edit, edited};

verus! {

/// Settings page: edit the source path prefix.
pub struct SettingsPage {
    pub input: String,
    pub saved: bool,
}

/// The settings page as plain values.
#[verifier::ext_equal]
pub struct SettingsPageView {
    pub input: Seq<char>,
    pub saved: bool,
}

impl View for SettingsPage {
    type V = SettingsPageView;

    open spec fn view(&self) -> SettingsPageView {
        SettingsPageView { input: self.input@, saved: self.saved }
    }
}

/// The application after a key on the settings page, and the effects asked
/// for: q and Esc go back to the main menu; Enter stores the expanded input
/// as the prefix, saves and shows that it was saved.
pub open spec fn settings_app_step(a: AppView, key: Key) -> (AppView, Seq<EffectView>) {
    if key == Key::Esc || key == Key::Char('q') {
        (with_page(a, PageView::Main), Seq::empty())
    } else {
        match a.page {
            PageView::Settings(p) => match key {
                Key::Char(_) | Key::Backspace => (
                    with_page(a, PageView::Settings(SettingsPageView { input: edited(p.input, key), ..p })),
                    Seq::empty(),
                ),
                Key::Enter => (
                    with_page(
                        with_prefix(a, expanded_path(p.input, a.home)),
                        PageView::Settings(SettingsPageView { saved: true, ..p }),
                    ),
                    seq![EffectView::SaveConfig],
                ),
                _ => (a, Seq::empty()),
            },
            _ => (a, Seq::empty()),
        }
    }
}

/// Reacts to a key on the settings page; returns the effects to perform.
pub fn handle_settings(app: &mut App, key: Key) -> (effects: Vec<Effect>)
    ensures
        (final(app)@, effects_view(effects@)) == settings_app_step(old(app)@, key),
{
    let mut effects: Vec<Effect> = Vec::new();
    if key == Key::Esc || key == Key::Char('q') {
        app.go_main();
        assert(effects_view(effects@) =~= Seq::empty());
        return effects;
    }
    match key {
        Key::Char(_) | Key::Backspace => {
            match &mut app.page {
                Page::Settings(p) => apply_edit(&mut p.input, key),
                _ => {},
            }
        },
        Key::Enter => {
            let input = match &app.page {
                Page::Settings(p) => p.input.clone(),
                _ => {
                    assert(effects_view(effects@) =~= Seq::empty());
                    return effects;
                },
            };
            app.config.origin_path_prefix = expand_path(input.as_str(), app.home.as_str());
            effects.push(Effect::SaveConfig);
            match &mut app.page {
                Page::Settings(p) => p.saved = true,
                _ => {},
            }
            assert(effects_view(effects@) =~= seq![EffectView::SaveConfig]);
            return effects;
        },
        _ => {},
    }
    assert(effects_view(effects@) =~= Seq::empty());
    effects
}

} // verus!
