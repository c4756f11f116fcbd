//! The main menu.
use vstd::prelude::*;
use crate::app::{with_page, App, AppView, Page, PageView, MENU_ITEMS};
use crate::key::Key;
use crate::pages::generate_page::{generate_page_of, GeneratePage};
use crate::pages::new_page::{fresh_new_page, NewPage};
use crate::pages::settings_page::{SettingsPage, SettingsPageView};
use crate::pages::view_page::{view_page_of, ViewPage};
use crate::pages::{move_down, move_up, step_down, step_up};

verus! {

/// The page that the menu entry `i` opens: the list, a new entry, the
/// generation checklist, or (any other entry) the settings.
pub open spec fn menu_page(a: AppView, i: usize) -> PageView {
    if i == 0 {
        PageView::View(view_page_of(a.config.symbolic))
    } else if i == 1 {
        PageView::New(fresh_new_page())
    } else if i == 2 {
        PageView::Generate(generate_page_of(a.config.symbolic))
    } else {
        PageView::Settings(SettingsPageView { input: a.config.origin_path_prefix, saved: false })
    }
}

/// The application after a key on the main menu: ↑/↓ move within the four
/// entries, Enter opens the selected one, q quits.
pub open spec fn main_app_step(a: AppView, key: Key) -> AppView {
    match key {
        Key::Up => AppView { menu_selected: step_up(a.menu_selected), ..a },
        Key::Down => AppView { menu_selected: step_down(a.menu_selected, 3), ..a },
        Key::Enter => with_page(a, menu_page(a, a.menu_selected)),
        Key::Char(c) => if c == 'q' { AppView { quit: true, ..a } } else { a },
        _ => a,
    }
}

/// Reacts to a key on the main menu.
pub fn handle_main(app: &mut App, key: Key)
    ensures
        final(app)@ == main_app_step(old(app)@, key),
{
    match key {
        Key::Up => app.menu_selected = move_up(app.menu_selected),
        Key::Down => app.menu_selected = move_down(app.menu_selected, MENU_ITEMS.len() - 1),
        Key::Enter => {
            if app.menu_selected == 0 {
                app.page = Page::View(ViewPage::from_config(&app.config));
            } else if app.menu_selected == 1 {
                app.page = Page::New(NewPage::new());
            } else if app.menu_selected == 2 {
                app.page = Page::Generate(GeneratePage::from_config(&app.config));
            } else {
                app.page = Page::Settings(
                    SettingsPage { input: app.config.origin_path_prefix.clone(), saved: false },
                );
            }
        },
        Key::Char(c) => if c == 'q' {
            app.quit = true;
        },
        _ => {},
    }
}

} // verus!
