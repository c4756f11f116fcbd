//! The page that modifies, deletes or leaves one symbolic entry.
use vstd::prelude::*;
use crate::entry::{EntryView, SymbolicEntry};
use crate::app::{confirm_opened, effects_view, with_page, App, AppView, Effect, EffectView, Page, PageView};
use crate::config::{expand_path, expanded_path, ConfigView};
use crate::pages::confirm_page::{ConfirmAction, ConfirmActionView};
use crate::pages::generate_page::last_index;
use crate::pages::setup_page::dir_effects;
use crate::pages::view_page::{ViewPage, ViewPageView};
use crate::table::{rows_inserted, rows_removed};
use crate::text::owned;
use crate::key::Key;
use crate::pages::{apply_edit, edited, Look, left_of3, move_down, move_left3, move_right3, move_up,
    right_of3, step_down, step_up, NewFocus};

verus! {

/// `symbolic_manage_page` state: modify / delete / return for one entry.
pub struct ManagePage {
    /// Config key at page-open time (used to remove the old entry on rename)
    pub key: String,
    pub symbolic_name: String,
    pub origin_path: String,
    pub target_path: String,
    pub add_datetime: String,
    /// View list index to restore when returning
    pub back_selected: usize,
    pub focus: NewFocus,
    /// Selected input item (0 = symbolic_name, 1 = origin_path, 2 = target_path)
    pub selected: usize,
    pub editing: bool,
    /// Selected operation button (0 = 修改, 1 = 删除, 2 = 返回)
    pub button_idx: usize,
}

/// What the manage page asks of the application after a key.
#[derive(Clone, Copy, PartialEq, Eq, Structural, Debug)]
pub enum ManageAction {
    /// Stay on the page
    Stay,
    /// The inputs were opened for modification
    Edit,
    /// Store the edited entry
    Commit,
    /// Ask whether to delete the entry
    Delete,
    /// Back to the view page
    Back,
}

/// The manage page as plain values.
#[verifier::ext_equal]
pub struct ManagePageView {
    pub key: Seq<char>,
    pub symbolic_name: Seq<char>,
    pub origin_path: Seq<char>,
    pub target_path: Seq<char>,
    pub add_datetime: Seq<char>,
    pub back_selected: usize,
    pub focus: NewFocus,
    pub selected: usize,
    pub editing: bool,
    pub button_idx: usize,
}

impl View for ManagePage {
    type V = ManagePageView;

    open spec fn view(&self) -> ManagePageView {
        ManagePageView {
            key: self.key@,
            symbolic_name: self.symbolic_name@,
            origin_path: self.origin_path@,
            target_path: self.target_path@,
            add_datetime: self.add_datetime@,
            back_selected: self.back_selected,
            focus: self.focus,
            selected: self.selected,
            editing: self.editing,
            button_idx: self.button_idx,
        }
    }
}

/// Input `i` of the page: 0 is the name, 1 the origin path, any other the target path.
pub open spec fn manage_field(v: ManagePageView, i: usize) -> Seq<char> {
    if i == 0 {
        v.symbolic_name
    } else if i == 1 {
        v.origin_path
    } else {
        v.target_path
    }
}

/// The page with input `i` replaced by `t`.
pub open spec fn manage_with_field(v: ManagePageView, i: usize, t: Seq<char>) -> ManagePageView {
    if i == 0 {
        ManagePageView { symbolic_name: t, ..v }
    } else if i == 1 {
        ManagePageView { origin_path: t, ..v }
    } else {
        ManagePageView { target_path: t, ..v }
    }
}

/// The page with the focus on the first input, nothing being edited.
pub open spec fn manage_to_inputs(v: ManagePageView) -> ManagePageView {
    ManagePageView { focus: NewFocus::Input, selected: 0, editing: false, ..v }
}

/// Keys while the buttons have the focus.
pub open spec fn manage_buttons_step(v: ManagePageView, key: Key) -> (ManagePageView, ManageAction) {
    match key {
        Key::Left => (ManagePageView { button_idx: left_of3(v.button_idx), ..v }, ManageAction::Stay),
        Key::Right => (ManagePageView { button_idx: right_of3(v.button_idx), ..v }, ManageAction::Stay),
        Key::Tab => (manage_to_inputs(v), ManageAction::Stay),
        Key::Enter => if v.button_idx == 0 {
            (manage_to_inputs(v), ManageAction::Edit)
        } else if v.button_idx == 1 {
            (v, ManageAction::Delete)
        } else {
            (v, ManageAction::Back)
        },
        _ => (v, ManageAction::Stay),
    }
}

/// Keys while the input area has the focus.
pub open spec fn manage_inputs_step(v: ManagePageView, key: Key) -> (ManagePageView, ManageAction) {
    if v.editing {
        match key {
            Key::Char(_) | Key::Backspace => (
                manage_with_field(v, v.selected, edited(manage_field(v, v.selected), key)),
                ManageAction::Stay,
            ),
            Key::Enter => (ManagePageView { editing: false, ..v }, ManageAction::Commit),
            _ => (v, ManageAction::Stay),
        }
    } else {
        match key {
            Key::Up => (ManagePageView { selected: step_up(v.selected), ..v }, ManageAction::Stay),
            Key::Down => (ManagePageView { selected: step_down(v.selected, 2), ..v }, ManageAction::Stay),
            Key::Enter => (ManagePageView { editing: true, ..v }, ManageAction::Stay),
            Key::Tab => (ManagePageView { focus: NewFocus::Buttons, ..v }, ManageAction::Stay),
            _ => (v, ManageAction::Stay),
        }
    }
}

/// The manage page after a key, and what it asks of the application.
/// Esc cancels editing, else leaves the inputs for the buttons, else goes back.
pub open spec fn manage_page_step(v: ManagePageView, key: Key) -> (ManagePageView, ManageAction) {
    if key == Key::Esc {
        if v.editing {
            (ManagePageView { editing: false, ..v }, ManageAction::Stay)
        } else if v.focus == NewFocus::Input {
            (ManagePageView { focus: NewFocus::Buttons, ..v }, ManageAction::Stay)
        } else {
            (v, ManageAction::Back)
        }
    } else {
        match v.focus {
            NewFocus::Buttons => manage_buttons_step(v, key),
            NewFocus::Input => manage_inputs_step(v, key),
        }
    }
}

/// The states that the manage page reaches.
pub open spec fn manage_page_wf(v: ManagePageView) -> bool {
    &&& v.selected <= 2
    &&& v.button_idx < 3
    &&& v.editing ==> v.focus == NewFocus::Input
}

/// The manage page for the entry `e` named `name`, opened from position
/// `back_selected` of the view list; the focus is on the buttons.
pub open spec fn manage_page_of(name: Seq<char>, e: EntryView, back_selected: usize) -> ManagePageView {
    ManagePageView {
        key: name,
        symbolic_name: name,
        origin_path: e.origin_path,
        target_path: e.target_path,
        add_datetime: e.add_datetime,
        back_selected,
        focus: NewFocus::Buttons,
        selected: 0,
        editing: false,
        button_idx: 0,
    }
}

impl ManagePage {
    /// The page for the entry `entry` named `name`, opened from position
    /// `back_selected` of the view list; the focus is on the buttons.
    pub fn new(name: String, entry: SymbolicEntry, back_selected: usize) -> (p: Self)
        ensures
            p@ == manage_page_of(name@, entry@, back_selected),
            p.key@ == name@,
            p.symbolic_name@ == name@,
            p.origin_path@ == entry@.origin_path,
            p.target_path@ == entry@.target_path,
            p.add_datetime@ == entry@.add_datetime,
            p.back_selected == back_selected,
            manage_page_wf(p@),
    {
        ManagePage {
            key: name.clone(),
            symbolic_name: name,
            origin_path: entry.origin_path,
            target_path: entry.target_path,
            add_datetime: entry.add_datetime,
            back_selected,
            focus: NewFocus::Buttons,
            selected: 0,
            editing: false,
            button_idx: 0,
        }
    }

    fn edit_field(&mut self, i: usize, key: Key)
        ensures
            final(self)@ == manage_with_field(old(self)@, i, edited(manage_field(old(self)@, i), key)),
    {
        if i == 0 {
            apply_edit(&mut self.symbolic_name, key);
        } else if i == 1 {
            apply_edit(&mut self.origin_path, key);
        } else {
            apply_edit(&mut self.target_path, key);
        }
    }

    /// Reacts to a key; tells the application what to do next.
    pub fn handle(&mut self, key: Key) -> (r: ManageAction)
        ensures
            (final(self)@, r) == manage_page_step(old(self)@, key),
    {
        // Esc: cancel editing / back to the buttons / back to the view page
        if key == Key::Esc {
            if self.editing {
                self.editing = false;
                return ManageAction::Stay;
            }
            if self.focus == NewFocus::Input {
                self.focus = NewFocus::Buttons;
                return ManageAction::Stay;
            }
            return ManageAction::Back;
        }
        match self.focus {
            NewFocus::Buttons => {
                match key {
                    Key::Left => self.button_idx = move_left3(self.button_idx),
                    Key::Right => self.button_idx = move_right3(self.button_idx),
                    Key::Tab => {
                        self.focus = NewFocus::Input;
                        self.selected = 0;
                        self.editing = false;
                    },
                    Key::Enter => {
                        if self.button_idx == 0 {
                            // 修改: switch to the input area
                            self.focus = NewFocus::Input;
                            self.selected = 0;
                            self.editing = false;
                            return ManageAction::Edit;
                        } else if self.button_idx == 1 {
                            // 删除: ask for a confirmation
                            return ManageAction::Delete;
                        } else {
                            // 返回: back to the view page
                            return ManageAction::Back;
                        }
                    },
                    _ => {},
                }
                ManageAction::Stay
            },
            NewFocus::Input => {
                if self.editing {
                    let i = self.selected;
                    match key {
                        Key::Char(_) | Key::Backspace => self.edit_field(i, key),
                        Key::Enter => {
                            // Enter confirms the edit and stays in the input area
                            self.editing = false;
                            return ManageAction::Commit;
                        },
                        _ => {},
                    }
                } else {
                    match key {
                        Key::Up => self.selected = move_up(self.selected),
                        Key::Down => self.selected = move_down(self.selected, 2),
                        Key::Enter => self.editing = true,
                        Key::Tab => self.focus = NewFocus::Buttons,
                        _ => {},
                    }
                }
                ManageAction::Stay
            },
        }
    }
}

/// How input `i` of the manage page is shown: active while it is edited,
/// selected while chosen among the three.
pub open spec fn manage_field_look(v: ManagePageView, i: usize) -> Look {
    let selected = v.focus == NewFocus::Input && v.selected == i;
    if selected && v.editing {
        Look::Active
    } else if selected {
        Look::Selected
    } else {
        Look::Plain
    }
}

/// The head of the read-only line that shows when the entry was added.
pub const DATETIME_HEAD: &'static str = "新增时间: ";

impl ManagePage {
    /// The read-only line that shows when the entry was added.
    pub fn datetime_line(&self) -> (r: String)
        ensures
            r@ == DATETIME_HEAD@ + self@.add_datetime,
    {
        owned(DATETIME_HEAD).concat(self.add_datetime.as_str())
    }

    /// How input `i` is shown.
    pub fn field_look(&self, i: usize) -> (l: Look)
        ensures
            l == manage_field_look(self@, i),
    {
        let selected = self.focus == NewFocus::Input && self.selected == i;
        if selected && self.editing {
            Look::Active
        } else if selected {
            Look::Selected
        } else {
            Look::Plain
        }
    }
}

/// Every key keeps the manage page in the states it can reach.
pub proof fn lemma_manage_page_step_wf(v: ManagePageView, key: Key)
    requires
        manage_page_wf(v),
    ensures
        manage_page_wf(manage_page_step(v, key).0),
{
}


/// The start of the question asked before an entry is deleted.
pub const DELETE_MESSAGE_HEAD: &'static str = "确认删除软链接「";

/// The end of the question asked before an entry is deleted.
pub const DELETE_MESSAGE_TAIL: &'static str = "」？";

/// The question asked before the entry `name` is deleted.
pub open spec fn delete_message(name: Seq<char>) -> Seq<char> {
    DELETE_MESSAGE_HEAD@ + name + DELETE_MESSAGE_TAIL@
}

/// The smaller of two positions.
pub open spec fn min_index(a: usize, b: usize) -> usize {
    if a <= b { a } else { b }
}

/// The entry that committing the manage page `p` stores: the target path expanded.
pub open spec fn committed_entry(a: AppView, p: ManagePageView) -> EntryView {
    EntryView {
        origin_path: p.origin_path,
        target_path: expanded_path(p.target_path, a.home),
        add_datetime: p.add_datetime,
        already_generate: false,
    }
}

/// The application after a key on the manage page, and the effects asked for.
/// A commit removes the entry under its old name, stores the edited entry
/// under the current name, makes sure its origin directory exists and saves;
/// the page then follows the new name and shows the expanded target.
pub open spec fn manage_app_step(a: AppView, key: Key) -> (AppView, Seq<EffectView>) {
    match a.page {
        PageView::Manage(p) => {
            let (p2, act) = manage_page_step(p, key);
            let a1 = with_page(a, PageView::Manage(p2));
            match act {
                ManageAction::Stay | ManageAction::Edit => (a1, Seq::empty()),
                ManageAction::Commit => {
                    let e = committed_entry(a, p2);
                    let rows = rows_inserted(rows_removed(a.config.symbolic, p2.key), p2.symbolic_name, e);
                    (
                        AppView {
                            config: ConfigView { symbolic: rows, ..a.config },
                            page: PageView::Manage(ManagePageView { key: p2.symbolic_name, target_path: e.target_path, ..p2 }),
                            ..a
                        },
                        dir_effects(p2.origin_path).push(EffectView::SaveConfig),
                    )
                },
                ManageAction::Delete => (
                    confirm_opened(a1, delete_message(p2.symbolic_name), ConfirmActionView::DeleteEntry(p2.symbolic_name)),
                    Seq::empty(),
                ),
                ManageAction::Back => (
                    with_page(a, PageView::View(ViewPageView {
                        entries: a.config.symbolic,
                        selected: min_index(p2.back_selected, last_index(a.config.symbolic.len())),
                    })),
                    Seq::empty(),
                ),
            }
        },
        _ => (a, Seq::empty()),
    }
}

/// Stores the edited entry of the manage page.
fn commit_manage(app: &mut App) -> (effects: Vec<Effect>)
    requires
        old(app)@.page is Manage,
    ensures
        ({
            let a = old(app)@;
            let p = a.page->Manage_0;
            let e = committed_entry(a, p);
            let rows = rows_inserted(rows_removed(a.config.symbolic, p.key), p.symbolic_name, e);
            &&& final(app)@ == AppView {
                config: ConfigView { symbolic: rows, ..a.config },
                page: PageView::Manage(ManagePageView { key: p.symbolic_name, target_path: e.target_path, ..p }),
                ..a
            }
            &&& effects_view(effects@) == dir_effects(p.origin_path).push(EffectView::SaveConfig)
        }),
{
    let ghost a = app@;
    let (key, name, origin, target, dt) = match &app.page {
        Page::Manage(p) => (
            p.key.clone(),
            p.symbolic_name.clone(),
            p.origin_path.clone(),
            p.target_path.clone(),
            p.add_datetime.clone(),
        ),
        _ => {
            assert(false);
            return Vec::new();
        },
    };
    // Expand a leading ~ / $HOME in the target path as well
    let target = expand_path(target.as_str(), app.home.as_str());
    let mut effects: Vec<Effect> = Vec::new();
    // the origin path may have changed: make sure its folder exists
    if !origin.as_str().is_empty() {
        effects.push(Effect::CreateDirAll(origin.clone()));
    }
    // Remove the old key, then insert under the current name
    let _ = app.config.symbolic.remove(key.as_str());
    let shown_target = target.clone();
    app.config.symbolic.insert(
        name.clone(),
        SymbolicEntry { origin_path: origin, target_path: target, add_datetime: dt, already_generate: false },
    );
    effects.push(Effect::SaveConfig);
    // The key now follows the new name, and the display shows the expanded target
    match &mut app.page {
        Page::Manage(p) => {
            p.key = name;
            p.target_path = shown_target;
        },
        _ => {},
    }
    assert(effects_view(effects@) =~= dir_effects(a.page->Manage_0.origin_path).push(EffectView::SaveConfig));
    effects
}

/// Reacts to a key on the manage page; returns the effects to perform.
pub fn handle_manage(app: &mut App, key: Key) -> (effects: Vec<Effect>)
    ensures
        (final(app)@, effects_view(effects@)) == manage_app_step(old(app)@, key),
{
    let mut effects: Vec<Effect> = Vec::new();
    let mut page = Page::Main;
    std::mem::swap(&mut page, &mut app.page);
    let action = match page {
        Page::Manage(mut p) => {
            let act = p.handle(key);
            app.page = Page::Manage(p);
            act
        },
        other => {
            app.page = other;
            assert(effects_view(effects@) =~= Seq::<EffectView>::empty());
            return effects;
        },
    };
    match action {
        ManageAction::Stay | ManageAction::Edit => {},
        ManageAction::Commit => {
            return commit_manage(app);
        },
        ManageAction::Delete => {
            let name = match &app.page {
                Page::Manage(p) => p.symbolic_name.clone(),
                _ => {
                    assert(false);
                    return effects;
                },
            };
            let message = owned(DELETE_MESSAGE_HEAD).concat(name.as_str()).concat(DELETE_MESSAGE_TAIL);
            app.show_confirm(message, ConfirmAction::DeleteEntry(name));
        },
        ManageAction::Back => {
            let idx = match &app.page {
                Page::Manage(p) => p.back_selected,
                _ => {
                    assert(false);
                    return effects;
                },
            };
            let mut vp = ViewPage::from_config(&app.config);
            let n = vp.entries.len();
            let last = if n == 0 { 0 } else { n - 1 };
            vp.selected = if idx <= last { idx } else { last };
            app.page = Page::View(vp);
        },
    }
    assert(effects_view(effects@) =~= Seq::<EffectView>::empty());
    effects
}

} // verus!
