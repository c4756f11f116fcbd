//! The confirmation dialog.
use vstd::prelude::*;
use crate::key::Key;
use crate::pages::{other_of2, switch2};
use crate::app::{effects_view, with_page, App, AppView, Effect, EffectView, Page, PageView};
use crate::config::ConfigView;
use crate::pages::view_page::{view_page_of, ViewPage};
use crate::table::rows_removed;

verus! {

/// What a confirmed dialog does.
pub enum ConfirmAction {
    /// Abandon the new-symbolic page and go back to the main page
    AbandonNew,
    /// Delete the given symbolic entry and go back to the view page
    DeleteEntry(String),
}

/// What a confirmed dialog does, as plain values.
pub enum ConfirmActionView {
    AbandonNew,
    DeleteEntry(Seq<char>),
}

impl View for ConfirmAction {
    type V = ConfirmActionView;

    open spec fn view(&self) -> ConfirmActionView {
        match self {
            ConfirmAction::AbandonNew => ConfirmActionView::AbandonNew,
            ConfirmAction::DeleteEntry(name) => ConfirmActionView::DeleteEntry(name@),
        }
    }
}

/// The confirmation dialog state.
pub struct ConfirmPage {
    pub message: String,
    pub action: ConfirmAction,
    /// Selected operation button (0 = 确认, 1 = 取消)
    pub selected: usize,
}

/// The confirmation dialog as plain values.
#[verifier::ext_equal]
pub struct ConfirmPageView {
    pub message: Seq<char>,
    pub action: ConfirmActionView,
    pub selected: usize,
}

impl View for ConfirmPage {
    type V = ConfirmPageView;

    open spec fn view(&self) -> ConfirmPageView {
        ConfirmPageView { message: self.message@, action: self.action@, selected: self.selected }
    }
}

/// The answer that a key gives to the dialog.
#[derive(Clone, Copy, PartialEq, Eq, Structural, Debug)]
pub enum ConfirmChoice {
    Yes,
    No,
    Undecided,
}

/// The dialog after a key, and the answer the key gives: ←/→ move between
/// the buttons, Enter takes the selected one, y/Y confirm, n/N/Esc cancel.
pub open spec fn confirm_step(v: ConfirmPageView, key: Key) -> (ConfirmPageView, ConfirmChoice) {
    match key {
        Key::Left | Key::Right => (
            ConfirmPageView { selected: other_of2(v.selected), ..v },
            ConfirmChoice::Undecided,
        ),
        Key::Enter => (v, if v.selected == 0 { ConfirmChoice::Yes } else { ConfirmChoice::No }),
        Key::Char(c) => (v, if c == 'y' || c == 'Y' {
            ConfirmChoice::Yes
        } else if c == 'n' || c == 'N' {
            ConfirmChoice::No
        } else {
            ConfirmChoice::Undecided
        }),
        Key::Esc => (v, ConfirmChoice::No),
        _ => (v, ConfirmChoice::Undecided),
    }
}

impl ConfirmPage {
    /// Reacts to a key; gives the answer it stands for.
    pub fn answer(&mut self, key: Key) -> (r: ConfirmChoice)
        ensures
            (final(self)@, r) == confirm_step(old(self)@, key),
    {
        match key {
            // ←/→ move between the 确认 / 取消 buttons
            Key::Left | Key::Right => {
                self.selected = switch2(self.selected);
                ConfirmChoice::Undecided
            },
            // Enter executes the selected button
            Key::Enter => if self.selected == 0 {
                ConfirmChoice::Yes
            } else {
                ConfirmChoice::No
            },
            // shortcuts: y confirms, n/Esc cancels
            Key::Char(c) => if c == 'y' || c == 'Y' {
                ConfirmChoice::Yes
            } else if c == 'n' || c == 'N' {
                ConfirmChoice::No
            } else {
                ConfirmChoice::Undecided
            },
            Key::Esc => ConfirmChoice::No,
            _ => ConfirmChoice::Undecided,
        }
    }
}


/// The application after a key on the confirmation dialog, and the effects
/// asked for. Confirming abandons the new page, or deletes the entry, saves
/// and lists the remaining entries; cancelling returns to the page the
/// dialog interrupted (the main menu when there is none).
pub open spec fn confirm_app_step(a: AppView, key: Key) -> (AppView, Seq<EffectView>) {
    match a.page {
        PageView::Confirm(p) => {
            let (p2, choice) = confirm_step(p, key);
            match choice {
                ConfirmChoice::Undecided => (with_page(a, PageView::Confirm(p2)), Seq::empty()),
                ConfirmChoice::Yes => match p2.action {
                    ConfirmActionView::AbandonNew => (AppView { page: PageView::Main, prev: None, ..a }, Seq::empty()),
                    ConfirmActionView::DeleteEntry(name) => {
                        let rows = rows_removed(a.config.symbolic, name);
                        (
                            AppView {
                                config: ConfigView { symbolic: rows, ..a.config },
                                page: PageView::View(view_page_of(rows)),
                                prev: None,
                                ..a
                            },
                            seq![EffectView::SaveConfig],
                        )
                    },
                },
                ConfirmChoice::No => match a.prev {
                    Some(pp) => (AppView { page: pp, prev: None, ..a }, Seq::empty()),
                    None => (with_page(a, PageView::Main), Seq::empty()),
                },
            }
        },
        _ => (a, Seq::empty()),
    }
}

/// Reacts to a key on the confirmation dialog; returns the effects to perform.
pub fn handle_confirm(app: &mut App, key: Key) -> (effects: Vec<Effect>)
    ensures
        (final(app)@, effects_view(effects@)) == confirm_app_step(old(app)@, key),
{
    let mut effects: Vec<Effect> = Vec::new();
    let choice = match &mut app.page {
        Page::Confirm(p) => p.answer(key),
        _ => {
            assert(effects_view(effects@) =~= Seq::<EffectView>::empty());
            return effects;
        },
    };
    match choice {
        ConfirmChoice::Yes => {
            let delete = match &app.page {
                Page::Confirm(p) => match &p.action {
                    ConfirmAction::AbandonNew => None,
                    ConfirmAction::DeleteEntry(name) => Some(name.clone()),
                },
                _ => {
                    assert(false);
                    return effects;
                },
            };
            match delete {
                None => {
                    app.prev = None;
                    app.go_main();
                },
                Some(name) => {
                    let _ = app.config.symbolic.remove(name.as_str());
                    effects.push(Effect::SaveConfig);
                    let vp = ViewPage::from_config(&app.config);
                    app.page = Page::View(vp);
                    app.prev = None;
                    assert(effects_view(effects@) =~= seq![EffectView::SaveConfig]);
                    return effects;
                },
            }
        },
        ConfirmChoice::No => {
            let mut prev: Option<Page> = None;
            std::mem::swap(&mut prev, &mut app.prev);
            match prev {
                Some(p) => app.page = p,
                None => app.go_main(),
            }
        },
        ConfirmChoice::Undecided => {},
    }
    assert(effects_view(effects@) =~= Seq::<EffectView>::empty());
    effects
}

} // verus!
