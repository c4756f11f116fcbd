//! The page that adds a symbolic entry: three inputs filled in one after
//! another, then the buttons 确认新增 / 返回修改 / 放弃新增.
use vstd::prelude::*;
use crate::key::Key;
use crate::pages::{apply_edit, edited, Look, left_of3, move_down, move_left3, move_right3, move_up,
    right_of3, step_down, step_up, NewFocus};
use crate::text::owned;
use crate::app::{confirm_opened, effects_view, with_page, App, AppView, Effect, EffectView, Page, PageView};
use crate::config::{expand_path, expanded_path, join_origin_path, joined_origin, ConfigView};
use crate::entry::{EntryView, SymbolicEntry};
use crate::pages::confirm_page::{ConfirmAction, ConfirmActionView};
use crate::table::rows_inserted;

verus! {

/// The notice shown when an input is confirmed empty.
pub const EMPTY_INPUT_NOTICE: &'static str = "内容不能为空，若放弃新增可按 Esc 键返回主页";

/// `symbolic_new_page` state.
pub struct NewPage {
    pub symbolic_name: String,
    pub origin_path: String,
    pub target_path: String,
    /// How many inputs are already fixed (0..=3). Once 3, the buttons appear.
    pub fixed: usize,
    pub focus: NewFocus,
    /// Selected input item while editing (0 = symbolic_name, 1 = origin_path, 2 = target_path)
    pub selected: usize,
    /// Whether the selected item is being edited inline
    pub editing: bool,
    /// Selected operation button (0 = 确认新增, 1 = 返回修改, 2 = 放弃新增)
    pub button_idx: usize,
    /// Transient message, e.g. the empty-input notice
    pub notice: Option<String>,
}

/// What the new page asks of the application after a key.
#[derive(Clone, Copy, PartialEq, Eq, Structural, Debug)]
pub enum NewResult {
    /// Stay on the page
    Stay,
    /// Leave for the main page at once
    Abandon,
    /// Ask whether to abandon
    ConfirmAbandon,
    /// Save the entry
    Save,
}

/// The new page as plain values.
#[verifier::ext_equal]
pub struct NewPageView {
    pub symbolic_name: Seq<char>,
    pub origin_path: Seq<char>,
    pub target_path: Seq<char>,
    pub fixed: usize,
    pub focus: NewFocus,
    pub selected: usize,
    pub editing: bool,
    pub button_idx: usize,
    pub notice: Option<Seq<char>>,
}

impl View for NewPage {
    type V = NewPageView;

    open spec fn view(&self) -> NewPageView {
        NewPageView {
            symbolic_name: self.symbolic_name@,
            origin_path: self.origin_path@,
            target_path: self.target_path@,
            fixed: self.fixed,
            focus: self.focus,
            selected: self.selected,
            editing: self.editing,
            button_idx: self.button_idx,
            notice: self.notice.deep_view(),
        }
    }
}

/// Input `i` of the page: 0 is the name, 1 the origin path, any other the target path.
pub open spec fn field(v: NewPageView, i: usize) -> Seq<char> {
    if i == 0 {
        v.symbolic_name
    } else if i == 1 {
        v.origin_path
    } else {
        v.target_path
    }
}

/// The page with input `i` replaced by `t`.
pub open spec fn with_field(v: NewPageView, i: usize, t: Seq<char>) -> NewPageView {
    if i == 0 {
        NewPageView { symbolic_name: t, ..v }
    } else if i == 1 {
        NewPageView { origin_path: t, ..v }
    } else {
        NewPageView { target_path: t, ..v }
    }
}

/// The page with the empty-input notice shown.
pub open spec fn with_empty_notice(v: NewPageView) -> NewPageView {
    NewPageView { notice: Some(EMPTY_INPUT_NOTICE@), ..v }
}

/// The page with the focus back on the first input, nothing being edited.
pub open spec fn back_to_inputs(v: NewPageView) -> NewPageView {
    NewPageView { focus: NewFocus::Input, selected: 0, editing: false, ..v }
}

/// Keys while the buttons have the focus.
pub open spec fn new_buttons_step(v: NewPageView, key: Key) -> (NewPageView, NewResult) {
    match key {
        Key::Left => (NewPageView { button_idx: left_of3(v.button_idx), ..v }, NewResult::Stay),
        Key::Right => (NewPageView { button_idx: right_of3(v.button_idx), ..v }, NewResult::Stay),
        Key::Tab => (back_to_inputs(v), NewResult::Stay),
        Key::Enter => if v.button_idx == 0 {
            if v.symbolic_name.len() == 0 || v.origin_path.len() == 0 || v.target_path.len() == 0 {
                (with_empty_notice(v), NewResult::Stay)
            } else {
                (v, NewResult::Save)
            }
        } else if v.button_idx == 1 {
            (back_to_inputs(v), NewResult::Stay)
        } else {
            (v, NewResult::ConfirmAbandon)
        },
        _ => (v, NewResult::Stay),
    }
}

/// Keys during the first pass, while input `v.fixed` is typed in.
pub open spec fn new_first_pass_step(v: NewPageView, key: Key) -> NewPageView {
    match key {
        Key::Char(_) | Key::Backspace => with_field(v, v.fixed, edited(field(v, v.fixed), key)),
        Key::Enter => if field(v, v.fixed).len() == 0 {
            with_empty_notice(v)
        } else if v.fixed + 1 == 3 {
            NewPageView { fixed: 3, focus: NewFocus::Buttons, button_idx: 0, ..v }
        } else {
            NewPageView { fixed: (v.fixed + 1) as usize, ..v }
        },
        _ => v,
    }
}

/// Keys while the selected input is edited inline.
pub open spec fn new_editing_step(v: NewPageView, key: Key) -> NewPageView {
    match key {
        Key::Char(_) | Key::Backspace => with_field(v, v.selected, edited(field(v, v.selected), key)),
        Key::Enter => if field(v, v.selected).len() == 0 {
            with_empty_notice(v)
        } else {
            NewPageView { editing: false, ..v }
        },
        _ => v,
    }
}

/// Keys while one of the three inputs is selected.
pub open spec fn new_selecting_step(v: NewPageView, key: Key) -> NewPageView {
    match key {
        Key::Up => NewPageView { selected: step_up(v.selected), ..v },
        Key::Down => NewPageView { selected: step_down(v.selected, 2), ..v },
        Key::Enter => NewPageView { editing: true, ..v },
        Key::Tab => NewPageView { focus: NewFocus::Buttons, ..v },
        _ => v,
    }
}

/// The new page after a key, and what it asks of the application: Esc
/// abandons at once; any other key first clears the notice.
pub open spec fn new_page_step(v: NewPageView, key: Key) -> (NewPageView, NewResult) {
    if key == Key::Esc {
        (v, NewResult::Abandon)
    } else {
        let v = NewPageView { notice: None, ..v };
        match v.focus {
            NewFocus::Buttons => new_buttons_step(v, key),
            NewFocus::Input => if v.fixed < 3 {
                (new_first_pass_step(v, key), NewResult::Stay)
            } else if v.editing {
                (new_editing_step(v, key), NewResult::Stay)
            } else {
                (new_selecting_step(v, key), NewResult::Stay)
            },
        }
    }
}

/// The states that the new page reaches: at most three inputs fixed, a
/// valid selection and button, the buttons only once all three inputs are
/// fixed, and every fixed input non-empty unless it is being edited.
pub open spec fn new_page_wf(v: NewPageView) -> bool {
    &&& v.fixed <= 3
    &&& v.selected <= 2
    &&& v.button_idx < 3
    &&& v.focus == NewFocus::Buttons ==> v.fixed == 3 && !v.editing
    &&& v.editing ==> v.fixed == 3 && v.focus == NewFocus::Input
    &&& forall|i: usize| #![trigger field(v, i)]
        i < v.fixed && !(v.editing && i == v.selected) ==> field(v, i).len() > 0
}

/// A fresh new page: nothing typed, the focus on the first input.
pub open spec fn fresh_new_page() -> NewPageView {
    NewPageView {
        symbolic_name: Seq::empty(),
        origin_path: Seq::empty(),
        target_path: Seq::empty(),
        fixed: 0,
        focus: NewFocus::Input,
        selected: 0,
        editing: false,
        button_idx: 0,
        notice: None,
    }
}

impl NewPage {
    /// A fresh page: nothing typed, the focus on the first input.
    pub fn new() -> (p: Self)
        ensures
            p@ == fresh_new_page(),
            new_page_wf(p@),
    {
        NewPage {
            symbolic_name: String::new(),
            origin_path: String::new(),
            target_path: String::new(),
            fixed: 0,
            focus: NewFocus::Input,
            selected: 0,
            editing: false,
            button_idx: 0,
            notice: None,
        }
    }

    fn field_is_empty(&self, i: usize) -> (b: bool)
        ensures
            b == (field(self@, i).len() == 0),
    {
        if i == 0 {
            self.symbolic_name.as_str().is_empty()
        } else if i == 1 {
            self.origin_path.as_str().is_empty()
        } else {
            self.target_path.as_str().is_empty()
        }
    }

    fn edit_field(&mut self, i: usize, key: Key)
        ensures
            final(self)@ == with_field(old(self)@, i, edited(field(old(self)@, i), key)),
    {
        if i == 0 {
            apply_edit(&mut self.symbolic_name, key);
        } else if i == 1 {
            apply_edit(&mut self.origin_path, key);
        } else {
            apply_edit(&mut self.target_path, key);
        }
    }

    fn show_empty_notice(&mut self)
        ensures
            final(self)@ == with_empty_notice(old(self)@),
    {
        self.notice = Some(owned(EMPTY_INPUT_NOTICE));
    }

    /// Reacts to a key; tells the application what to do next.
    pub fn handle(&mut self, key: Key) -> (r: NewResult)
        ensures
            (final(self)@, r) == new_page_step(old(self)@, key),
    {
        // Esc: abandon the new-symbolic page and go back to the main page directly
        if key == Key::Esc {
            return NewResult::Abandon;
        }
        // Any interaction clears the previous notice
        self.notice = None;
        match self.focus {
            NewFocus::Buttons => {
                match key {
                    Key::Left => self.button_idx = move_left3(self.button_idx),
                    Key::Right => self.button_idx = move_right3(self.button_idx),
                    // Tab switches between the input area and the buttons
                    Key::Tab => {
                        self.focus = NewFocus::Input;
                        self.selected = 0;
                        self.editing = false;
                    },
                    Key::Enter => {
                        if self.button_idx == 0 {
                            // 确认新增: all three inputs must be non-empty
                            if self.field_is_empty(0) || self.field_is_empty(1)
                                || self.field_is_empty(2) {
                                self.show_empty_notice();
                                return NewResult::Stay;
                            }
                            return NewResult::Save;
                        } else if self.button_idx == 1 {
                            // 返回修改: back to the inputs
                            self.focus = NewFocus::Input;
                            self.selected = 0;
                            self.editing = false;
                            return NewResult::Stay;
                        } else {
                            return NewResult::ConfirmAbandon;
                        }
                    },
                    _ => {},
                }
                NewResult::Stay
            },
            NewFocus::Input => {
                if self.fixed < 3 {
                    // Sequential first pass: name -> origin -> target
                    let i = self.fixed;
                    match key {
                        Key::Char(_) | Key::Backspace => self.edit_field(i, key),
                        Key::Enter => {
                            // empty input is not allowed
                            if self.field_is_empty(i) {
                                self.show_empty_notice();
                            } else {
                                self.fixed = self.fixed + 1;
                                if self.fixed == 3 {
                                    self.focus = NewFocus::Buttons;
                                    self.button_idx = 0;
                                }
                            }
                        },
                        _ => {},
                    }
                } else if self.editing {
                    // Inline editing of the selected item (返回修改 mode)
                    let i = self.selected;
                    match key {
                        Key::Char(_) | Key::Backspace => self.edit_field(i, key),
                        Key::Enter => {
                            if self.field_is_empty(i) {
                                self.show_empty_notice();
                            } else {
                                self.editing = false;
                            }
                        },
                        _ => {},
                    }
                } else {
                    // Selection among the three items
                    match key {
                        Key::Up => self.selected = move_up(self.selected),
                        Key::Down => self.selected = move_down(self.selected, 2),
                        Key::Enter => self.editing = true,
                        Key::Tab => self.focus = NewFocus::Buttons,
                        _ => {},
                    }
                }
                NewResult::Stay
            },
        }
    }
}

/// How input `i` of the new page is shown: active while it is typed in
/// the first pass or edited, selected while chosen among the three.
pub open spec fn new_field_look(v: NewPageView, i: usize) -> Look {
    let active = v.fixed == i && v.focus == NewFocus::Input;
    let selected = v.fixed == 3 && v.focus == NewFocus::Input && v.selected == i;
    if active || (selected && v.editing) {
        Look::Active
    } else if selected {
        Look::Selected
    } else {
        Look::Plain
    }
}

impl NewPage {
    /// How many inputs are shown: they appear one by one.
    pub fn visible_fields(&self) -> (n: usize)
        ensures
            n == (if self.fixed < 2 { self.fixed + 1 } else { 3 }),
    {
        if self.fixed < 2 { self.fixed + 1 } else { 3 }
    }

    /// How input `i` is shown.
    pub fn field_look(&self, i: usize) -> (l: Look)
        ensures
            l == new_field_look(self@, i),
    {
        let active = self.fixed == i && self.focus == NewFocus::Input;
        let selected = self.fixed == 3 && self.focus == NewFocus::Input && self.selected == i;
        if active || (selected && self.editing) {
            Look::Active
        } else if selected {
            Look::Selected
        } else {
            Look::Plain
        }
    }
}

/// Every key keeps the new page in the states it can reach.
pub proof fn lemma_new_page_step_wf(v: NewPageView, key: Key)
    requires
        new_page_wf(v),
    ensures
        new_page_wf(new_page_step(v, key).0),
{
    let w = new_page_step(v, key).0;
    let c = NewPageView { notice: None, ..v };
    assert forall|i: usize| #![trigger field(w, i)]
        i < w.fixed && !(w.editing && i == w.selected) implies field(w, i).len() > 0 by {
        assert(field(c, i) == field(v, i));
        if i < v.fixed && !(v.editing && i == v.selected) {
            assert(field(v, i).len() > 0);
        }
        if key != Key::Esc && v.focus == NewFocus::Input && v.fixed < 3 {
            if i != v.fixed {
                assert(field(w, i) == field(c, i));
            }
        } else if key != Key::Esc && v.focus == NewFocus::Input && v.editing {
            if i != v.selected {
                assert(field(w, i) == field(c, i));
            }
        } else {
            assert(field(w, i) == field(c, i));
        }
    }
}

/// Enter on 返回修改 (button 1) goes back to the first input, not editing,
/// keeps what was typed and asks nothing of the application.
pub proof fn lemma_new_page_return_to_edit(v: NewPageView)
    requires
        v.focus == NewFocus::Buttons,
        v.button_idx == 1,
    ensures
        ({
            let (w, r) = new_page_step(v, Key::Enter);
            &&& r == NewResult::Stay
            &&& w.focus == NewFocus::Input
            &&& w.selected == 0
            &&& !w.editing
            &&& w.symbolic_name == v.symbolic_name
            &&& w.origin_path == v.origin_path
            &&& w.target_path == v.target_path
            &&& w.fixed == v.fixed
        }),
{
}

/// What each button asks for: saving comes only from Enter on button 0,
/// the abandon question only from Enter on a button past 1, and leaving at
/// once only from Esc.
pub proof fn lemma_new_page_requests(v: NewPageView, key: Key)
    ensures
        new_page_step(v, key).1 == NewResult::Save ==> key == Key::Enter && v.focus == NewFocus::Buttons
            && v.button_idx == 0,
        new_page_step(v, key).1 == NewResult::ConfirmAbandon ==> key == Key::Enter && v.focus
            == NewFocus::Buttons && v.button_idx >= 2,
        (new_page_step(v, key).1 == NewResult::Abandon) == (key == Key::Esc),
{
}

/// The page asks to save only when all three inputs are non-empty.
pub proof fn lemma_new_page_saves_complete_inputs(v: NewPageView, key: Key)
    requires
        new_page_step(v, key).1 == NewResult::Save,
    ensures
        v.symbolic_name.len() > 0,
        v.origin_path.len() > 0,
        v.target_path.len() > 0,
{
}


/// The question asked before the new page is abandoned.
pub const ABANDON_NEW_MESSAGE: &'static str = "确认放弃新增并返回主页面？";

/// The entry that the new page `p` saves, added at `add_datetime`: the
/// origin path joined to the prefix, the target path expanded.
pub open spec fn new_entry_view(a: AppView, p: NewPageView, add_datetime: Seq<char>) -> EntryView {
    EntryView {
        origin_path: joined_origin(a.config.origin_path_prefix, p.origin_path),
        target_path: expanded_path(p.target_path, a.home),
        add_datetime,
        already_generate: false,
    }
}

/// The application after the new page `p` was saved: the entry is stored
/// under its name and the main menu comes back.
pub open spec fn new_entry_saved(a: AppView, p: NewPageView, add_datetime: Seq<char>) -> AppView {
    AppView {
        config: ConfigView {
            symbolic: rows_inserted(a.config.symbolic, p.symbolic_name, new_entry_view(a, p, add_datetime)),
            ..a.config
        },
        page: PageView::Main,
        ..a
    }
}

/// The application after a key on the new page, when a save stamps the
/// entry with `add_datetime`, and the effects asked for.
pub open spec fn new_app_step(a: AppView, key: Key, add_datetime: Seq<char>) -> (AppView, Seq<EffectView>) {
    match a.page {
        PageView::New(p) => {
            let (p2, r) = new_page_step(p, key);
            let a1 = with_page(a, PageView::New(p2));
            match r {
                NewResult::Stay => (a1, Seq::empty()),
                NewResult::Abandon => (with_page(a1, PageView::Main), Seq::empty()),
                NewResult::ConfirmAbandon => (
                    confirm_opened(a1, ABANDON_NEW_MESSAGE@, ConfirmActionView::AbandonNew),
                    Seq::empty(),
                ),
                NewResult::Save => (new_entry_saved(a1, p2, add_datetime), seq![EffectView::SaveConfig]),
            }
        },
        _ => (a, Seq::empty()),
    }
}

/// The current local time as an entry's add time, e.g. "2024-01-15 14:30:22 123".
/// Trusted: calls `chrono::Local::now` and formats the result with chrono's
/// `format("%Y-%m-%d %H:%M:%S %3f")`. The value depends on the clock, so
/// nothing is stated of it.
#[verifier::external_body]
fn current_add_datetime() -> String {
    chrono::Local::now().format("%Y-%m-%d %H:%M:%S %3f").to_string()
}

/// Stores the entry of the active new page, added at `add_datetime`, and
/// goes back to the main menu; does nothing on any other page.
pub fn save_new_entry(app: &mut App, add_datetime: String) -> (effects: Vec<Effect>)
    ensures
        match old(app)@.page {
            PageView::New(p) => final(app)@ == new_entry_saved(old(app)@, p, add_datetime@)
                && effects_view(effects@) == seq![EffectView::SaveConfig],
            _ => final(app)@ == old(app)@ && effects_view(effects@) == Seq::<EffectView>::empty(),
        },
{
    let mut effects: Vec<Effect> = Vec::new();
    let (name, origin, target) = match &app.page {
        Page::New(p) => (
            p.symbolic_name.clone(),
            join_origin_path(app.config.origin_path_prefix.as_str(), p.origin_path.as_str()),
            expand_path(p.target_path.as_str(), app.home.as_str()),
        ),
        _ => {
            assert(effects_view(effects@) =~= Seq::<EffectView>::empty());
            return effects;
        },
    };
    let entry = SymbolicEntry {
        origin_path: origin,
        target_path: target,
        add_datetime,
        already_generate: false,
    };
    app.config.symbolic.insert(name, entry);
    effects.push(Effect::SaveConfig);
    app.go_main();
    assert(effects_view(effects@) =~= seq![EffectView::SaveConfig]);
    effects
}

/// Reacts to a key on the new page; returns the effects to perform.
pub fn handle_new(app: &mut App, key: Key) -> (effects: Vec<Effect>)
    ensures
        exists|dt: Seq<char>| (final(app)@, effects_view(effects@)) == new_app_step(old(app)@, key, dt),
{
    let ghost a0 = app@;
    let mut effects: Vec<Effect> = Vec::new();
    let mut page = Page::Main;
    std::mem::swap(&mut page, &mut app.page);
    match page {
        Page::New(mut p) => {
            let r = p.handle(key);
            app.page = Page::New(p);
            match r {
                NewResult::Stay => {},
                NewResult::Abandon => app.go_main(),
                NewResult::ConfirmAbandon => {
                    app.show_confirm(owned(ABANDON_NEW_MESSAGE), ConfirmAction::AbandonNew);
                },
                NewResult::Save => {
                    let dt = current_add_datetime();
                    let effects = save_new_entry(app, dt);
                    assert((app@, effects_view(effects@)) == new_app_step(a0, key, dt@));
                    return effects;
                },
            }
        },
        other => {
            app.page = other;
        },
    }
    assert(effects_view(effects@) =~= Seq::<EffectView>::empty());
    assert((app@, effects_view(effects@)) == new_app_step(a0, key, Seq::empty()));
    effects
}

} // verus!
