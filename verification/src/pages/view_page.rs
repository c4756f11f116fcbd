//! The page that lists the symbolic entries.
use vstd::prelude::*;
use crate::config::Config;
use crate::entry::SymbolicEntry;
use crate::table::{rows_view, RowView};
use crate::app::{with_page, App, AppView, Page, PageView};
use crate::key::Key;
use crate::pages::generate_page::last_index;
use crate::pages::manage_page::{manage_page_of, ManagePage};
use crate::pages::{list_box_height, list_box_height_of, move_down, move_up, step_down, step_up};
use crate::text::{decimal, decimal_text, owned};

verus! {

/// `symbolic_view_page` state.
pub struct ViewPage {
    pub entries: Vec<(String, SymbolicEntry)>,
    pub selected: usize,
}

/// The view page as plain values.
#[verifier::ext_equal]
pub struct ViewPageView {
    pub entries: Seq<RowView>,
    pub selected: usize,
}

impl View for ViewPage {
    type V = ViewPageView;

    open spec fn view(&self) -> ViewPageView {
        ViewPageView { entries: rows_view(self.entries@), selected: self.selected }
    }
}

/// The view page for the rows `rows`, with the first entry selected.
pub open spec fn view_page_of(rows: Seq<RowView>) -> ViewPageView {
    ViewPageView { entries: rows, selected: 0 }
}

impl ViewPage {
    /// The list of all entries of `config`, in the order of their names.
    pub fn from_config(config: &Config) -> (p: Self)
        ensures
            p@ == view_page_of(config@.symbolic),
    {
        ViewPage { entries: config.symbolic.rows(), selected: 0 }
    }
}


/// The application after a key on the view page: q and Esc go back to the
/// main menu, Enter opens the selected entry on the manage page, ↑/↓ move
/// within the list.
pub open spec fn view_app_step(a: AppView, key: Key) -> AppView {
    if key == Key::Esc || key == Key::Char('q') {
        with_page(a, PageView::Main)
    } else {
        match a.page {
            PageView::View(v) => match key {
                Key::Enter => if v.selected < v.entries.len() {
                    with_page(
                        a,
                        PageView::Manage(
                            manage_page_of(v.entries[v.selected as int].0, v.entries[v.selected as int].1, v.selected),
                        ),
                    )
                } else {
                    a
                },
                Key::Up => with_page(a, PageView::View(ViewPageView { selected: step_up(v.selected), ..v })),
                Key::Down => with_page(
                    a,
                    PageView::View(ViewPageView { selected: step_down(v.selected, last_index(v.entries.len())), ..v }),
                ),
                _ => a,
            },
            _ => a,
        }
    }
}

/// Reacts to a key on the view page.
pub fn handle_view(app: &mut App, key: Key)
    ensures
        final(app)@ == view_app_step(old(app)@, key),
{
    if key == Key::Esc || key == Key::Char('q') {
        app.go_main();
        return;
    }
    if key == Key::Enter {
        // Enter on a list item opens the manage page for that entry
        let manage = match &app.page {
            Page::View(v) => if v.selected < v.entries.len() {
                Some(ManagePage::new(v.entries[v.selected].0.clone(), v.entries[v.selected].1.clone(), v.selected))
            } else {
                None
            },
            _ => None,
        };
        match manage {
            Some(m) => app.page = Page::Manage(m),
            None => {},
        }
        return;
    }
    match &mut app.page {
        Page::View(v) => match key {
            Key::Up => v.selected = move_up(v.selected),
            Key::Down => {
                let n = v.entries.len();
                let last = if n == 0 { 0 } else { n - 1 };
                v.selected = move_down(v.selected, last);
            },
            _ => {},
        },
        _ => {},
    }
}


/// The line head of the origin path of the selected entry.
pub const ORIGIN_LINE_HEAD: &'static str = "   origin_path: ";

/// The line head of the target path of the selected entry.
pub const TARGET_LINE_HEAD: &'static str = "   target_path: ";

/// The list line of the entry `name` at position `i`: "1. name" for the first.
pub open spec fn numbered(i: nat, name: Seq<char>) -> Seq<char> {
    decimal_text(i + 1) + seq!['.', ' '] + name
}

/// The list line of the entry `name` at position `i`.
pub fn numbered_line(i: usize, name: &str) -> (r: String)
    requires
        i < usize::MAX,
    ensures
        r@ == numbered(i as nat, name@),
{
    proof {
        reveal_strlit(". ");
    }
    assert(". "@ =~= seq!['.', ' ']);
    decimal(i + 1).concat(". ").concat(name)
}

impl ViewPage {
    /// The list line of entry `i`.
    pub fn entry_line(&self, i: usize) -> (r: String)
        requires
            i < self@.entries.len(),
        ensures
            r@ == numbered(i as nat, self@.entries[i as int].0),
    {
        let count = self.entries.len();
        assert(i < count);
        numbered_line(i, self.entries[i].0.as_str())
    }

    /// The line that shows the origin path of entry `i`.
    pub fn origin_line(&self, i: usize) -> (r: String)
        requires
            i < self@.entries.len(),
        ensures
            r@ == ORIGIN_LINE_HEAD@ + self@.entries[i as int].1.origin_path,
    {
        owned(ORIGIN_LINE_HEAD).concat(self.entries[i].1.origin_path.as_str())
    }

    /// The line that shows the target path of entry `i`.
    pub fn target_line(&self, i: usize) -> (r: String)
        requires
            i < self@.entries.len(),
        ensures
            r@ == TARGET_LINE_HEAD@ + self@.entries[i as int].1.target_path,
    {
        owned(TARGET_LINE_HEAD).concat(self.entries[i].1.target_path.as_str())
    }

    /// The height of the page's box: one row per entry, two for the
    /// details of the selected one and two for the borders.
    pub fn box_height(&self) -> (h: u16)
        requires
            (self@.entries.len() % 65536) + 4 <= u16::MAX,
        ensures
            h == list_box_height(self@.entries.len(), 4),
    {
        list_box_height_of(self.entries.len(), 4)
    }
}

} // verus!
