//! The application state: the configuration, the active page and the page a
//! confirmation dialog interrupted; and the dispatch of keys to the pages.
use vstd::prelude::*;
use crate::config::{expanded_path, Config, ConfigView};
use crate::entry::SymbolicEntry;
use crate::key::Key;
use crate::pages::confirm_page::{confirm_app_step, confirm_step, handle_confirm, ConfirmAction,
    ConfirmActionView, ConfirmChoice, ConfirmPage, ConfirmPageView};
use crate::pages::generate_page::{generate_app_step, generate_page_wf, handle_generate, last_index,
    lemma_generate_page_step_wf, GeneratePage, GeneratePageView};
use crate::pages::main_page::{handle_main, main_app_step};
use crate::pages::manage_page::{committed_entry, handle_manage, lemma_manage_page_step_wf,
    manage_app_step, manage_page_step, manage_page_wf, ManageAction, ManagePage, ManagePageView};
use crate::pages::new_page::{fresh_new_page, handle_new, lemma_new_page_step_wf, new_app_step,
    new_entry_view, new_page_step, new_page_wf, NewPage, NewPageView, NewResult};
use crate::pages::settings_page::{handle_settings, settings_app_step, SettingsPage, SettingsPageView};
use crate::pages::setup_page::{handle_setup, setup_app_step, SetupPage};
use crate::pages::view_page::{handle_view, view_app_step, view_page_of, ViewPage, ViewPageView};
use crate::table::{lemma_rows_inserted, lemma_rows_removed, rows_map, rows_removed, rows_sorted,
    rows_view, RowView};

verus! {

/// The entries of the main menu.
pub const MENU_ITEMS: [&'static str; 4] = ["查看软链接", "新增软链接", "生成软链接", "设置"];

/// The active page. Each page's state and key handling live in
/// `pages::<name>_page`; this enum is the hub `handle` dispatches through.
pub enum Page {
    Main,
    Setup(SetupPage),
    New(NewPage),
    View(ViewPage),
    Manage(ManagePage),
    Generate(GeneratePage),
    Settings(SettingsPage),
    Confirm(ConfirmPage),
}

/// The active page as plain values.
#[verifier::ext_equal]
pub enum PageView {
    Main,
    Setup(Seq<char>),
    New(NewPageView),
    View(ViewPageView),
    Manage(ManagePageView),
    Generate(GeneratePageView),
    Settings(SettingsPageView),
    Confirm(ConfirmPageView),
}

impl View for Page {
    type V = PageView;

    open spec fn view(&self) -> PageView {
        match self {
            Page::Main => PageView::Main,
            Page::Setup(p) => PageView::Setup(p@),
            Page::New(p) => PageView::New(p@),
            Page::View(p) => PageView::View(p@),
            Page::Manage(p) => PageView::Manage(p@),
            Page::Generate(p) => PageView::Generate(p@),
            Page::Settings(p) => PageView::Settings(p@),
            Page::Confirm(p) => PageView::Confirm(p@),
        }
    }
}

/// Work outside the library that a key asks for, in the order given.
pub enum Effect {
    /// Write the configuration to its file
    SaveConfig,
    /// Create a directory and the directories along its path
    CreateDirAll(String),
    /// Create the symbolic links of these entries, then hand the outcomes
    /// to `record_generation`
    GenerateLinks(Vec<(String, SymbolicEntry)>),
}

/// An effect as plain values.
pub enum EffectView {
    SaveConfig,
    CreateDirAll(Seq<char>),
    GenerateLinks(Seq<RowView>),
}

impl View for Effect {
    type V = EffectView;

    open spec fn view(&self) -> EffectView {
        match self {
            Effect::SaveConfig => EffectView::SaveConfig,
            Effect::CreateDirAll(d) => EffectView::CreateDirAll(d@),
            Effect::GenerateLinks(v) => EffectView::GenerateLinks(rows_view(v@)),
        }
    }
}

/// A list of effects as plain values.
pub open spec fn effects_view(v: Seq<Effect>) -> Seq<EffectView> {
    v.map_values(|e: Effect| e@)
}

/// The application state.
pub struct App {
    pub quit: bool,
    pub menu_selected: usize,
    pub config: Config,
    pub config_path: String,
    pub home: String,
    pub page: Page,
    /// The page that was active before a confirm dialog was opened
    pub prev: Option<Page>,
}

/// The application state as plain values.
#[verifier::ext_equal]
pub struct AppView {
    pub quit: bool,
    pub menu_selected: usize,
    pub config: ConfigView,
    pub config_path: Seq<char>,
    pub home: Seq<char>,
    pub page: PageView,
    pub prev: Option<PageView>,
}

impl View for App {
    type V = AppView;

    open spec fn view(&self) -> AppView {
        AppView {
            quit: self.quit,
            menu_selected: self.menu_selected,
            config: self.config@,
            config_path: self.config_path@,
            home: self.home@,
            page: self.page@,
            prev: match self.prev {
                Some(p) => Some(p@),
                None => None,
            },
        }
    }
}

/// The state with `p` as the active page.
pub open spec fn with_page(a: AppView, p: PageView) -> AppView {
    AppView { page: p, ..a }
}

/// The state with `rows` as the entries of the configuration.
pub open spec fn with_rows(a: AppView, rows: Seq<RowView>) -> AppView {
    AppView { config: ConfigView { symbolic: rows, ..a.config }, ..a }
}

/// The state after opening a confirmation dialog: the dialog becomes the
/// active page and the page it interrupts is kept.
pub open spec fn confirm_opened(a: AppView, message: Seq<char>, action: ConfirmActionView) -> AppView {
    AppView {
        page: PageView::Confirm(ConfirmPageView { message, action, selected: 0 }),
        prev: Some(a.page),
        ..a
    }
}

/// The state the application starts in.
pub open spec fn initial_app(config: ConfigView, config_path: Seq<char>, home: Seq<char>, needs_setup: bool) -> AppView {
    AppView {
        quit: false,
        menu_selected: 0,
        config,
        config_path,
        home,
        page: if needs_setup { PageView::Setup(Seq::empty()) } else { PageView::Main },
        prev: None,
    }
}

impl App {
    /// The application on its first page: the setup page when the
    /// configuration file was just created, the main menu otherwise.
    pub fn new(config: Config, config_path: String, home: String, needs_setup: bool) -> (a: Self)
        ensures
            a@ == initial_app(config@, config_path@, home@, needs_setup),
    {
        let page = if needs_setup {
            Page::Setup(SetupPage { input: String::new() })
        } else {
            Page::Main
        };
        App { quit: false, menu_selected: 0, config, config_path, home, page, prev: None }
    }

    /// Back to the main menu.
    pub fn go_main(&mut self)
        ensures
            final(self)@ == with_page(old(self)@, PageView::Main),
    {
        self.page = Page::Main;
    }

    /// Opens a confirmation dialog over the active page.
    pub fn show_confirm(&mut self, message: String, action: ConfirmAction)
        ensures
            final(self)@ == confirm_opened(old(self)@, message@, action@),
    {
        let mut prev = Page::Confirm(ConfirmPage { message, action, selected: 0 });
        std::mem::swap(&mut prev, &mut self.page);
        self.prev = Some(prev);
    }
}

/// The application after a key, and the effects asked for; a save on the
/// new page stamps the entry with `add_datetime`. Ctrl+C always quits;
/// any other key goes to the active page.
pub open spec fn app_step(a: AppView, key: Key, add_datetime: Seq<char>) -> (AppView, Seq<EffectView>) {
    if key == Key::Interrupt {
        (AppView { quit: true, ..a }, Seq::empty())
    } else {
        match a.page {
            PageView::Main => (main_app_step(a, key), Seq::empty()),
            PageView::Setup(_) => setup_app_step(a, key),
            PageView::New(_) => new_app_step(a, key, add_datetime),
            PageView::View(_) => (view_app_step(a, key), Seq::empty()),
            PageView::Manage(_) => manage_app_step(a, key),
            PageView::Generate(_) => generate_app_step(a, key),
            PageView::Settings(_) => settings_app_step(a, key),
            PageView::Confirm(_) => confirm_app_step(a, key),
        }
    }
}

/// The states that a page reaches while `rows` are the entries of the
/// configuration. The view page always lists the current entries.
pub open spec fn page_wf(p: PageView, rows: Seq<RowView>) -> bool {
    match p {
        PageView::New(v) => new_page_wf(v),
        PageView::View(v) => v.entries == rows && v.selected <= last_index(rows.len()),
        PageView::Manage(v) => manage_page_wf(v),
        PageView::Generate(v) => generate_page_wf(v),
        PageView::Confirm(v) => v.selected < 2,
        _ => true,
    }
}

/// The states that the application reaches: the entries sorted by name, a
/// menu entry selected, the active page in its reachable states, and a kept
/// page exactly while a confirmation dialog is open (never another dialog).
pub open spec fn app_wf(a: AppView) -> bool {
    &&& rows_sorted(a.config.symbolic)
    &&& a.menu_selected <= 3
    &&& page_wf(a.page, a.config.symbolic)
    &&& (a.page is Confirm) == (a.prev is Some)
    &&& (a.prev matches Some(pp) ==> !(pp is Confirm) && page_wf(pp, a.config.symbolic))
}

/// The application starts in a reachable state.
pub proof fn lemma_initial_app_wf(config: ConfigView, config_path: Seq<char>, home: Seq<char>, needs_setup: bool)
    requires
        rows_sorted(config.symbolic),
    ensures
        app_wf(initial_app(config, config_path, home, needs_setup)),
{
}

/// Every key keeps the application in its reachable states.
pub proof fn lemma_app_step_wf(a: AppView, key: Key, add_datetime: Seq<char>)
    requires
        app_wf(a),
    ensures
        app_wf(app_step(a, key, add_datetime).0),
{
    let b = app_step(a, key, add_datetime).0;
    if key != Key::Interrupt {
        match a.page {
            PageView::New(p) => {
                lemma_new_page_step_wf(p, key);
                let p2 = new_page_step(p, key).0;
                lemma_rows_inserted(a.config.symbolic, p2.symbolic_name, new_entry_view(a, p2, add_datetime));
            },
            PageView::Manage(p) => {
                lemma_manage_page_step_wf(p, key);
                let p2 = manage_page_step(p, key).0;
                lemma_rows_removed(a.config.symbolic, p2.key);
                lemma_rows_inserted(
                    rows_removed(a.config.symbolic, p2.key),
                    p2.symbolic_name,
                    committed_entry(a, p2),
                );
            },
            PageView::Confirm(p) => {
                match p.action {
                    ConfirmActionView::DeleteEntry(name) => lemma_rows_removed(a.config.symbolic, name),
                    _ => {},
                }
            },
            PageView::Generate(p) => {
                lemma_generate_page_step_wf(p, key);
            },
            PageView::Main => {
                assert(new_page_wf(fresh_new_page()));
            },
            _ => {},
        }
    }
}

/// Saving the new page stores its entry under its name, with the origin
/// path joined to the prefix and the target path expanded; the other
/// entries stay as they were.
pub proof fn lemma_new_entry_readable(a: AppView, key: Key, add_datetime: Seq<char>)
    requires
        app_wf(a),
        a.page is New,
        new_page_step(a.page->New_0, key).1 == NewResult::Save,
    ensures
        ({
            let p = a.page->New_0;
            rows_map(new_app_step(a, key, add_datetime).0.config.symbolic) == rows_map(
                a.config.symbolic,
            ).insert(p.symbolic_name, new_entry_view(a, p, add_datetime))
        }),
{
    let p = a.page->New_0;
    let p2 = new_page_step(p, key).0;
    lemma_rows_inserted(a.config.symbolic, p2.symbolic_name, new_entry_view(a, p2, add_datetime));
}

/// Committing the manage page moves the entry from its old name to its
/// current name, with the edited paths (the target expanded).
pub proof fn lemma_commit_moves_entry(a: AppView, key: Key)
    requires
        app_wf(a),
        a.page is Manage,
        manage_page_step(a.page->Manage_0, key).1 == ManageAction::Commit,
    ensures
        ({
            let p2 = manage_page_step(a.page->Manage_0, key).0;
            rows_map(manage_app_step(a, key).0.config.symbolic) == rows_map(a.config.symbolic).remove(
                p2.key,
            ).insert(p2.symbolic_name, committed_entry(a, p2))
        }),
{
    let p2 = manage_page_step(a.page->Manage_0, key).0;
    lemma_rows_removed(a.config.symbolic, p2.key);
    lemma_rows_inserted(rows_removed(a.config.symbolic, p2.key), p2.symbolic_name, committed_entry(a, p2));
}

/// Committing the manage page stores, under the name shown on the page, an
/// entry with exactly the origin path and add time shown on the page and the
/// shown target path with a leading `~` / `$HOME` expanded, not yet
/// generated; the name the page was opened with keeps no entry unless it is
/// the current name, and every other entry stays as it was.
pub proof fn lemma_commit_stores_page_fields(a: AppView, key: Key)
    requires
        app_wf(a),
        a.page is Manage,
        manage_page_step(a.page->Manage_0, key).1 == ManageAction::Commit,
    ensures
        ({
            let p = a.page->Manage_0;
            let before = rows_map(a.config.symbolic);
            let after = rows_map(manage_app_step(a, key).0.config.symbolic);
            &&& after.contains_key(p.symbolic_name)
            &&& after[p.symbolic_name].origin_path == p.origin_path
            &&& after[p.symbolic_name].target_path == expanded_path(p.target_path, a.home)
            &&& after[p.symbolic_name].add_datetime == p.add_datetime
            &&& !after[p.symbolic_name].already_generate
            &&& p.key != p.symbolic_name ==> !after.contains_key(p.key)
            &&& forall|k: Seq<char>| k != p.key && k != p.symbolic_name ==> (#[trigger] after.contains_key(k)
                == before.contains_key(k) && (before.contains_key(k) ==> after[k] == before[k]))
        }),
{
    lemma_commit_moves_entry(a, key);
}

/// Enter on the view page opens the selected entry on the manage page,
/// showing that entry's own name, paths and add time.
pub proof fn lemma_view_opens_selected_entry(a: AppView)
    requires
        a.page is View,
        a.page->View_0.selected < a.page->View_0.entries.len(),
    ensures
        ({
            let v = a.page->View_0;
            let row = v.entries[v.selected as int];
            let b = view_app_step(a, Key::Enter);
            &&& b.page is Manage
            &&& b.page->Manage_0.key == row.0
            &&& b.page->Manage_0.symbolic_name == row.0
            &&& b.page->Manage_0.origin_path == row.1.origin_path
            &&& b.page->Manage_0.target_path == row.1.target_path
            &&& b.page->Manage_0.add_datetime == row.1.add_datetime
            &&& b.page->Manage_0.back_selected == v.selected
            &&& b.config == a.config
        }),
{
}

/// Confirming the deletion of an entry removes exactly that entry, and the
/// view page then lists the remaining ones.
pub proof fn lemma_confirmed_delete_removes(a: AppView, key: Key, name: Seq<char>)
    requires
        app_wf(a),
        a.page is Confirm,
        a.page->Confirm_0.action == ConfirmActionView::DeleteEntry(name),
        confirm_step(a.page->Confirm_0, key).1 == ConfirmChoice::Yes,
    ensures
        rows_map(confirm_app_step(a, key).0.config.symbolic) == rows_map(a.config.symbolic).remove(name),
        confirm_app_step(a, key).0.page == PageView::View(view_page_of(confirm_app_step(a, key).0.config.symbolic)),
{
    lemma_rows_removed(a.config.symbolic, name);
}

/// Opening a confirmation dialog over a page and cancelling it gives back
/// the application as it was.
pub proof fn lemma_confirm_cancel_restores(a: AppView, message: Seq<char>, action: ConfirmActionView, key: Key)
    requires
        a.prev is None,
        key == Key::Esc || key == Key::Char('n') || key == Key::Char('N'),
    ensures
        confirm_app_step(confirm_opened(a, message, action), key) == (a, Seq::<EffectView>::empty()),
{
    let b = confirm_opened(a, message, action);
    assert(confirm_app_step(b, key).0 =~= a);
}

/// Reacts to a key press; returns the effects to perform, in order.
pub fn handle(app: &mut App, key: Key) -> (effects: Vec<Effect>)
    ensures
        exists|dt: Seq<char>| (final(app)@, effects_view(effects@)) == app_step(old(app)@, key, dt),
        app_wf(old(app)@) ==> app_wf(final(app)@),
{
    let ghost a0 = app@;
    if key == Key::Interrupt {
        app.quit = true;
        let effects: Vec<Effect> = Vec::new();
        assert(effects_view(effects@) =~= Seq::<EffectView>::empty());
        assert((app@, effects_view(effects@)) == app_step(a0, key, Seq::empty()));
        return effects;
    }
    let effects: Vec<Effect> = match &app.page {
        Page::Main => {
            handle_main(app, key);
            Vec::new()
        },
        Page::Setup(_) => handle_setup(app, key),
        Page::New(_) => {
            let effects = handle_new(app, key);
            let ghost dt = choose|dt: Seq<char>| (app@, effects_view(effects@)) == new_app_step(a0, key, dt);
            assert((app@, effects_view(effects@)) == app_step(a0, key, dt));
            proof {
                if app_wf(a0) {
                    lemma_app_step_wf(a0, key, dt);
                }
            }
            return effects;
        },
        Page::View(_) => {
            handle_view(app, key);
            Vec::new()
        },
        Page::Manage(_) => handle_manage(app, key),
        Page::Generate(_) => handle_generate(app, key),
        Page::Settings(_) => handle_settings(app, key),
        Page::Confirm(_) => handle_confirm(app, key),
    };
    proof {
        if a0.page is Main || a0.page is View {
            assert(effects_view(effects@) =~= Seq::<EffectView>::empty());
        }
    }
    assert((app@, effects_view(effects@)) == app_step(a0, key, Seq::empty()));
    proof {
        if app_wf(a0) {
            lemma_app_step_wf(a0, key, Seq::empty());
        }
    }
    effects
}

} // verus!
