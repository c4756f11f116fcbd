//! The page that creates the symbolic links of the checked entries.
use vstd::prelude::*;
use crate::config::{Config, ConfigView};
use crate::entry::SymbolicEntry;
use crate::key::Key;
use crate::pages::{list_box_height, list_box_height_of, move_down, move_up, other_of2, step_down, step_up, switch2, NewFocus};
use crate::pages::view_page::{numbered, numbered_line};
use crate::table::{lemma_rows_inserted, marked_generated, rows_inserted, rows_map, rows_sorted, rows_view, RowView};
use crate::app::{app_wf, effects_view, with_page, with_rows, App, AppView, Effect, EffectView, Page, PageView};
use crate::text::owned;

verus! {

/// The notice shown when generation is asked for with nothing checked.
pub const NOTHING_CHECKED_NOTICE: &'static str = "未选择任何软链接";

/// The outcome of creating one symbolic link.
pub enum GenStatus {
    Success,
    Exists,
    Failed(String),
}

/// The outcome of creating one symbolic link, as plain values.
pub enum GenStatusView {
    Success,
    Exists,
    Failed(Seq<char>),
}

impl View for GenStatus {
    type V = GenStatusView;

    open spec fn view(&self) -> GenStatusView {
        match self {
            GenStatus::Success => GenStatusView::Success,
            GenStatus::Exists => GenStatusView::Exists,
            GenStatus::Failed(e) => GenStatusView::Failed(e@),
        }
    }
}

/// Whether the page shows the list to check or the outcomes.
#[derive(Clone, Copy, PartialEq, Eq, Structural, Debug)]
pub enum GenMode {
    Select,
    Results,
}

/// The generate page state.
pub struct GeneratePage {
    /// All saved entries (multi-select list)
    pub entries: Vec<(String, SymbolicEntry)>,
    /// Checkbox state per entry
    pub checks: Vec<bool>,
    /// List cursor
    pub cursor: usize,
    pub mode: GenMode,
    pub results: Vec<(String, GenStatus)>,
    /// Input(list) / Buttons focus
    pub focus: NewFocus,
    /// Selected operation button (0 = 确认生成, 1 = 返回)
    pub button_idx: usize,
    /// Transient message, e.g. "未选择任何软链接"
    pub notice: Option<String>,
}

/// The outcomes as plain values.
pub open spec fn results_view(v: Seq<(String, GenStatus)>) -> Seq<(Seq<char>, GenStatusView)> {
    v.map_values(|p: (String, GenStatus)| (p.0@, p.1@))
}

/// The generate page as plain values.
#[verifier::ext_equal]
pub struct GeneratePageView {
    pub entries: Seq<RowView>,
    pub checks: Seq<bool>,
    pub cursor: usize,
    pub mode: GenMode,
    pub results: Seq<(Seq<char>, GenStatusView)>,
    pub focus: NewFocus,
    pub button_idx: usize,
    pub notice: Option<Seq<char>>,
}

impl View for GeneratePage {
    type V = GeneratePageView;

    open spec fn view(&self) -> GeneratePageView {
        GeneratePageView {
            entries: rows_view(self.entries@),
            checks: self.checks@,
            cursor: self.cursor,
            mode: self.mode,
            results: results_view(self.results@),
            focus: self.focus,
            button_idx: self.button_idx,
            notice: self.notice.deep_view(),
        }
    }
}

/// The generate page for the rows `rows`: nothing checked, the list focused.
pub open spec fn generate_page_of(rows: Seq<RowView>) -> GeneratePageView {
    GeneratePageView {
        entries: rows,
        checks: Seq::new(rows.len(), |i: int| false),
        cursor: 0,
        mode: GenMode::Select,
        results: Seq::empty(),
        focus: NewFocus::Input,
        button_idx: 0,
        notice: None,
    }
}

/// The rows whose box is checked, in list order.
pub open spec fn checked_rows(checks: Seq<bool>, rows: Seq<RowView>) -> Seq<RowView>
    decreases rows.len(),
{
    if rows.len() == 0 {
        Seq::empty()
    } else {
        let i = rows.len() - 1;
        let front = checked_rows(checks, rows.drop_last());
        if i < checks.len() && checks[i] {
            front.push(rows.last())
        } else {
            front
        }
    }
}

/// Whether position `i` of the list has its box checked.
pub open spec fn box_checked(checks: Seq<bool>) -> spec_fn(int) -> bool {
    |i: int| 0 <= i < checks.len() && checks[i]
}

/// The positions `0..n` whose box is checked, in increasing order.
pub open spec fn checked_positions(checks: Seq<bool>, n: nat) -> Seq<int> {
    Seq::new(n, |i: int| i).filter(box_checked(checks))
}

/// Every checked position lies within the list.
proof fn lemma_checked_positions_below(checks: Seq<bool>, n: nat)
    ensures
        forall|j: int| 0 <= j < checked_positions(checks, n).len() ==> 0 <= #[trigger] checked_positions(checks, n)[j] < n,
    decreases n,
{
    if n > 0 {
        let m = (n - 1) as nat;
        lemma_checked_positions_below(checks, m);
        let ids = Seq::new(n, |i: int| i);
        let ids1 = Seq::new(m, |i: int| i);
        assert(ids =~= ids1.push(m as int));
        ids1.lemma_filter_push(m as int, box_checked(checks));
        let f1 = checked_positions(checks, m);
        let f = checked_positions(checks, n);
        assert forall|j: int| 0 <= j < f.len() implies 0 <= #[trigger] f[j] < n by {
            if j < f1.len() {
                assert(f[j] == f1[j]);
            }
        }
    } else {
        reveal(Seq::filter);
    }
}

/// The rows selected for generation are exactly the rows whose own box is
/// checked, in list order: row `i` is selected if and only if `checks[i]` holds.
pub proof fn lemma_checked_rows_by_position(checks: Seq<bool>, rows: Seq<RowView>)
    ensures
        checked_rows(checks, rows) == checked_positions(checks, rows.len()).map_values(|i: int| rows[i]),
    decreases rows.len(),
{
    let n = rows.len();
    if n == 0 {
        reveal(Seq::filter);
        assert(checked_rows(checks, rows) =~= checked_positions(checks, n).map_values(|i: int| rows[i]));
    } else {
        let m = (n - 1) as nat;
        let d = rows.drop_last();
        lemma_checked_rows_by_position(checks, d);
        lemma_checked_positions_below(checks, m);
        let ids = Seq::new(n, |i: int| i);
        let ids1 = Seq::new(m, |i: int| i);
        assert(ids =~= ids1.push(m as int));
        ids1.lemma_filter_push(m as int, box_checked(checks));
        let f1 = checked_positions(checks, m);
        assert(f1.map_values(|i: int| d[i]) =~= f1.map_values(|i: int| rows[i]));
        if box_checked(checks)(m as int) {
            assert(f1.push(m as int).map_values(|i: int| rows[i]) =~= f1.map_values(|i: int| rows[i]).push(rows[m as int]));
        }
    }
}

/// A position of the list is among the checked positions exactly when its
/// own box is checked.
pub proof fn lemma_position_checked_iff(checks: Seq<bool>, n: nat, i: int)
    requires
        0 <= i < n,
    ensures
        checked_positions(checks, n).contains(i) <==> (i < checks.len() && checks[i]),
{
    let ids = Seq::new(n, |k: int| k);
    let f = checked_positions(checks, n);
    if f.contains(i) {
        let j = choose|j: int| 0 <= j < f.len() && f[j] == i;
        ids.lemma_filter_pred(box_checked(checks), j);
    }
    if i < checks.len() && checks[i] {
        assert(ids[i] == i);
        ids.lemma_filter_contains(box_checked(checks), i);
    }
}

/// Whether some box is checked.
pub open spec fn any_checked(checks: Seq<bool>) -> bool {
    exists|i: int| 0 <= i < checks.len() && #[trigger] checks[i]
}

/// What the generate page asks of the application after a key.
#[derive(Clone, Copy, PartialEq, Eq, Structural, Debug)]
pub enum GenAction {
    /// Stay on the page
    Stay,
    /// Back to the main page
    Leave,
    /// Create the links of the checked entries
    Generate,
}

/// Keys on the checklist while the buttons have the focus.
pub open spec fn generate_buttons_step(v: GeneratePageView, key: Key) -> (GeneratePageView, GenAction) {
    match key {
        Key::Left | Key::Right => (GeneratePageView { button_idx: other_of2(v.button_idx), ..v }, GenAction::Stay),
        Key::Tab => (GeneratePageView { focus: NewFocus::Input, ..v }, GenAction::Stay),
        Key::Enter => if v.button_idx == 0 {
            if any_checked(v.checks) {
                (v, GenAction::Generate)
            } else {
                (GeneratePageView { notice: Some(NOTHING_CHECKED_NOTICE@), ..v }, GenAction::Stay)
            }
        } else {
            (v, GenAction::Leave)
        },
        _ => (v, GenAction::Stay),
    }
}

/// The last position of a list of `n` items, or 0 when it is empty.
pub open spec fn last_index(n: nat) -> usize {
    if n == 0 { 0 } else { (n - 1) as usize }
}

/// Keys on the checklist while the list has the focus.
pub open spec fn generate_list_step(v: GeneratePageView, key: Key) -> GeneratePageView {
    match key {
        Key::Up => GeneratePageView { cursor: step_up(v.cursor), ..v },
        Key::Down => GeneratePageView { cursor: step_down(v.cursor, last_index(v.entries.len())), ..v },
        Key::Char(' ') | Key::Enter => if v.cursor < v.checks.len() {
            GeneratePageView { checks: v.checks.update(v.cursor as int, !v.checks[v.cursor as int]), ..v }
        } else {
            v
        },
        Key::Tab => GeneratePageView { focus: NewFocus::Buttons, ..v },
        _ => v,
    }
}

/// The generate page after a key, and what it asks of the application:
/// q and Esc leave; on the outcomes Enter goes back to the checklist.
pub open spec fn generate_page_step(v: GeneratePageView, key: Key) -> (GeneratePageView, GenAction) {
    if key == Key::Char('q') || key == Key::Esc {
        (v, GenAction::Leave)
    } else {
        match v.mode {
            GenMode::Results => (
                if key == Key::Enter { GeneratePageView { mode: GenMode::Select, ..v } } else { v },
                GenAction::Stay,
            ),
            GenMode::Select => {
                let v = GeneratePageView { notice: None, ..v };
                if v.focus == NewFocus::Buttons {
                    generate_buttons_step(v, key)
                } else {
                    (generate_list_step(v, key), GenAction::Stay)
                }
            },
        }
    }
}

/// The states that the generate page reaches: one box per entry, a valid
/// button and a cursor within the list.
pub open spec fn generate_page_wf(v: GeneratePageView) -> bool {
    &&& v.checks.len() == v.entries.len()
    &&& v.button_idx < 2
    &&& v.cursor <= last_index(v.entries.len())
}

/// Every key keeps the generate page in the states it can reach.
pub proof fn lemma_generate_page_step_wf(v: GeneratePageView, key: Key)
    requires
        generate_page_wf(v),
    ensures
        generate_page_wf(generate_page_step(v, key).0),
{
}

/// Whether some box is checked.
pub fn some_checked(checks: &Vec<bool>) -> (r: bool)
    ensures
        r == any_checked(checks@),
{
    let n = checks.len();
    let mut i: usize = 0;
    while i < n
        invariant
            n == checks@.len(),
            i <= n,
            forall|j: int| 0 <= j < i ==> !#[trigger] checks@[j],
        decreases n - i,
    {
        if checks[i] {
            return true;
        }
        i = i + 1;
    }
    false
}

/// The entries whose box is checked, in list order.
pub fn checked_entries(checks: &Vec<bool>, entries: &Vec<(String, SymbolicEntry)>) -> (r: Vec<(String, SymbolicEntry)>)
    ensures
        rows_view(r@) == checked_rows(checks@, rows_view(entries@)),
        rows_view(r@) == checked_positions(checks@, entries@.len()).map_values(
            |i: int| rows_view(entries@)[i],
        ),
{
    let r = checked_entries_in_order(checks, entries);
    proof {
        lemma_checked_rows_by_position(checks@, rows_view(entries@));
    }
    r
}

fn checked_entries_in_order(checks: &Vec<bool>, entries: &Vec<(String, SymbolicEntry)>) -> (r: Vec<(String, SymbolicEntry)>)
    ensures
        rows_view(r@) == checked_rows(checks@, rows_view(entries@)),
{
    let n = entries.len();
    let mut r: Vec<(String, SymbolicEntry)> = Vec::new();
    let mut i: usize = 0;
    while i < n
        invariant
            n == entries@.len(),
            i <= n,
            rows_view(r@) == checked_rows(checks@, rows_view(entries@).take(i as int)),
        decreases n - i,
    {
        let ghost all = rows_view(entries@);
        assert(all.take(i + 1).drop_last() =~= all.take(i as int));
        if i < checks.len() && checks[i] {
            let name = entries[i].0.clone();
            let entry = entries[i].1.clone();
            let ghost before = r@;
            r.push((name, entry));
            assert(rows_view(r@) =~= rows_view(before).push(all[i as int]));
        }
        i = i + 1;
    }
    assert(rows_view(entries@).take(n as int) =~= rows_view(entries@));
    r
}

impl GeneratePage {
    /// The checklist of all entries of `config`, nothing checked.
    pub fn from_config(config: &Config) -> (p: Self)
        ensures
            p@ == generate_page_of(config@.symbolic),
    {
        let entries = config.symbolic.rows();
        let n = entries.len();
        let mut checks: Vec<bool> = Vec::new();
        let mut i: usize = 0;
        while i < n
            invariant
                i <= n,
                checks@ == Seq::new(i as nat, |j: int| false),
            decreases n - i,
        {
            checks.push(false);
            assert(checks@ =~= Seq::new((i + 1) as nat, |j: int| false));
            i = i + 1;
        }
        let p = GeneratePage {
            entries,
            checks,
            cursor: 0,
            mode: GenMode::Select,
            results: Vec::new(),
            focus: NewFocus::Input,
            button_idx: 0,
            notice: None,
        };
        assert(p@.results =~= Seq::<(Seq<char>, GenStatusView)>::empty());
        p
    }

    /// Reacts to a key; tells the application what to do next.
    pub fn handle(&mut self, key: Key) -> (r: GenAction)
        ensures
            (final(self)@, r) == generate_page_step(old(self)@, key),
    {
        if key == Key::Char('q') || key == Key::Esc {
            return GenAction::Leave;
        }
        match self.mode {
            GenMode::Results => {
                if key == Key::Enter {
                    // back to the selection list
                    self.mode = GenMode::Select;
                }
                GenAction::Stay
            },
            GenMode::Select => {
                self.notice = None;
                if self.focus == NewFocus::Buttons {
                    match key {
                        Key::Left | Key::Right => {
                            self.button_idx = switch2(self.button_idx);
                            GenAction::Stay
                        },
                        Key::Tab => {
                            self.focus = NewFocus::Input;
                            GenAction::Stay
                        },
                        Key::Enter => if self.button_idx == 0 {
                            // 确认生成: generate the checked entries
                            if some_checked(&self.checks) {
                                GenAction::Generate
                            } else {
                                self.notice = Some(owned(NOTHING_CHECKED_NOTICE));
                                GenAction::Stay
                            }
                        } else {
                            // 返回
                            GenAction::Leave
                        },
                        _ => GenAction::Stay,
                    }
                } else {
                    // list focus
                    match key {
                        Key::Up => self.cursor = move_up(self.cursor),
                        Key::Down => {
                            let n = self.entries.len();
                            let last = if n == 0 { 0 } else { n - 1 };
                            self.cursor = move_down(self.cursor, last);
                        },
                        Key::Char(' ') | Key::Enter => {
                            if self.cursor < self.checks.len() {
                                let c = self.checks[self.cursor];
                                self.checks.set(self.cursor, !c);
                            }
                        },
                        Key::Tab => self.focus = NewFocus::Buttons,
                        _ => {},
                    }
                    GenAction::Stay
                }
            },
        }
    }
}


/// The application after a key on the generate page, and the effects asked
/// for: q and Esc go back to the main menu; 确认生成 with some box checked
/// asks for the links of the checked entries.
pub open spec fn generate_app_step(a: AppView, key: Key) -> (AppView, Seq<EffectView>) {
    if key == Key::Char('q') || key == Key::Esc {
        (with_page(a, PageView::Main), Seq::empty())
    } else {
        match a.page {
            PageView::Generate(p) => {
                let (p2, act) = generate_page_step(p, key);
                match act {
                    GenAction::Stay => (with_page(a, PageView::Generate(p2)), Seq::empty()),
                    GenAction::Leave => (with_page(a, PageView::Main), Seq::empty()),
                    GenAction::Generate => (
                        with_page(a, PageView::Generate(p2)),
                        seq![EffectView::GenerateLinks(checked_rows(p2.checks, p2.entries))],
                    ),
                }
            },
            _ => (a, Seq::empty()),
        }
    }
}

/// Reacts to a key on the generate page; returns the effects to perform.
pub fn handle_generate(app: &mut App, key: Key) -> (effects: Vec<Effect>)
    ensures
        (final(app)@, effects_view(effects@)) == generate_app_step(old(app)@, key),
{
    let mut effects: Vec<Effect> = Vec::new();
    if key == Key::Char('q') || key == Key::Esc {
        app.go_main();
        assert(effects_view(effects@) =~= Seq::<EffectView>::empty());
        return effects;
    }
    let mut page = Page::Main;
    std::mem::swap(&mut page, &mut app.page);
    match page {
        Page::Generate(mut p) => {
            let act = p.handle(key);
            match act {
                GenAction::Stay => {
                    app.page = Page::Generate(p);
                },
                GenAction::Leave => {},
                GenAction::Generate => {
                    let selected = checked_entries(&p.checks, &p.entries);
                    app.page = Page::Generate(p);
                    effects.push(Effect::GenerateLinks(selected));
                    assert(effects_view(effects@) =~= seq![EffectView::GenerateLinks(rows_view(selected@))]);
                    return effects;
                },
            }
        },
        other => {
            app.page = other;
        },
    }
    assert(effects_view(effects@) =~= Seq::<EffectView>::empty());
    effects
}

/// The names whose link was created, in order.
pub open spec fn successful_names(results: Seq<(Seq<char>, GenStatusView)>) -> Seq<Seq<char>>
    decreases results.len(),
{
    if results.len() == 0 {
        Seq::empty()
    } else {
        let front = successful_names(results.drop_last());
        match results.last().1 {
            GenStatusView::Success => front.push(results.last().0),
            _ => front,
        }
    }
}

/// The rows after marking the entries named in `names` as generated, one
/// after the other.
pub open spec fn marked_rows(rows: Seq<RowView>, names: Seq<Seq<char>>) -> Seq<RowView>
    decreases names.len(),
{
    if names.len() == 0 {
        rows
    } else {
        let r = marked_rows(rows, names.drop_last());
        let k = names.last();
        if rows_map(r).contains_key(k) && !rows_map(r)[k].already_generate {
            rows_inserted(r, k, marked_generated(rows_map(r)[k]))
        } else {
            r
        }
    }
}

/// Whether marking the entries named in `names` changes some entry.
pub open spec fn marks_change(rows: Seq<RowView>, names: Seq<Seq<char>>) -> bool
    decreases names.len(),
{
    if names.len() == 0 {
        false
    } else {
        let r = marked_rows(rows, names.drop_last());
        let k = names.last();
        marks_change(rows, names.drop_last()) || (rows_map(r).contains_key(k) && !rows_map(r)[k].already_generate)
    }
}

/// The application after the links were created with the outcomes
/// `results`: the page shows them, and each entry whose link was created is
/// marked as generated; the configuration is saved when that changed it.
pub open spec fn recorded_generation(a: AppView, results: Seq<(Seq<char>, GenStatusView)>) -> (AppView, Seq<EffectView>) {
    match a.page {
        PageView::Generate(p) => {
            let names = successful_names(results);
            (
                AppView {
                    config: ConfigView { symbolic: marked_rows(a.config.symbolic, names), ..a.config },
                    page: PageView::Generate(GeneratePageView { results, mode: GenMode::Results, ..p }),
                    ..a
                },
                if marks_change(a.config.symbolic, names) { seq![EffectView::SaveConfig] } else { Seq::empty() },
            )
        },
        _ => (a, Seq::empty()),
    }
}

/// Marking entries as generated keeps the rows sorted, keeps every name,
/// and leaves each entry as it was but for the mark.
pub proof fn lemma_marked_rows(rows: Seq<RowView>, names: Seq<Seq<char>>)
    requires
        rows_sorted(rows),
    ensures
        rows_sorted(marked_rows(rows, names)),
        rows_map(marked_rows(rows, names)).dom() == rows_map(rows).dom(),
        forall|k: Seq<char>| #[trigger] rows_map(rows).contains_key(k) ==> {
            let e = rows_map(rows)[k];
            let f = rows_map(marked_rows(rows, names))[k];
            &&& f.origin_path == e.origin_path
            &&& f.target_path == e.target_path
            &&& f.add_datetime == e.add_datetime
            &&& (e.already_generate ==> f.already_generate)
        },
    decreases names.len(),
{
    if names.len() > 0 {
        let d = names.drop_last();
        lemma_marked_rows(rows, d);
        let r = marked_rows(rows, d);
        let k = names.last();
        if rows_map(r).contains_key(k) && !rows_map(r)[k].already_generate {
            lemma_rows_inserted(r, k, marked_generated(rows_map(r)[k]));
            assert(rows_map(marked_rows(rows, names)).dom() =~= rows_map(rows).dom());
        }
    }
}

/// After the outcomes are recorded, every entry whose link was created is
/// marked as generated.
pub proof fn lemma_created_entries_marked(rows: Seq<RowView>, names: Seq<Seq<char>>, i: int)
    requires
        rows_sorted(rows),
        0 <= i < names.len(),
        rows_map(rows).contains_key(names[i]),
    ensures
        rows_map(marked_rows(rows, names))[names[i]].already_generate,
    decreases names.len(),
{
    let d = names.drop_last();
    let k = names.last();
    lemma_marked_rows(rows, d);
    let r = marked_rows(rows, d);
    if i < names.len() - 1 {
        lemma_created_entries_marked(rows, d, i);
        assert(d[i] == names[i]);
    }
    if rows_map(r).contains_key(k) && !rows_map(r)[k].already_generate {
        lemma_rows_inserted(r, k, marked_generated(rows_map(r)[k]));
    }
}

/// Some box is checked exactly when some entry is selected for generation
/// (with one box per entry).
pub proof fn lemma_checked_rows_nonempty(checks: Seq<bool>, rows: Seq<RowView>)
    requires
        checks.len() == rows.len(),
    ensures
        any_checked(checks) <==> checked_rows(checks, rows).len() > 0,
    decreases rows.len(),
{
    if rows.len() > 0 {
        let n = rows.len() - 1;
        let c = checks.drop_last();
        lemma_checked_rows_nonempty(c, rows.drop_last());
        assert forall|i: int| 0 <= i < n implies checks[i] == c[i] by {}
        lemma_checked_rows_same_checks(checks, c, rows.drop_last());
        if any_checked(checks) && !checks[n] {
            let i = choose|i: int| 0 <= i < checks.len() && #[trigger] checks[i];
            assert(c[i]);
        }
        if any_checked(c) {
            let i = choose|i: int| 0 <= i < c.len() && #[trigger] c[i];
            assert(checks[i]);
        }
    } else {
        assert(!any_checked(checks));
    }
}

/// The selection of rows depends only on the boxes of those rows.
proof fn lemma_checked_rows_same_checks(a: Seq<bool>, b: Seq<bool>, rows: Seq<RowView>)
    requires
        rows.len() <= a.len(),
        rows.len() <= b.len(),
        forall|i: int| 0 <= i < rows.len() ==> a[i] == b[i],
    ensures
        checked_rows(a, rows) == checked_rows(b, rows),
    decreases rows.len(),
{
    if rows.len() > 0 {
        lemma_checked_rows_same_checks(a, b, rows.drop_last());
    }
}

/// The names whose link was created.
fn created_names(results: &Vec<(String, GenStatus)>) -> (names: Vec<String>)
    ensures
        names@.map_values(|s: String| s@) == successful_names(results_view(results@)),
{
    let n = results.len();
    let mut names: Vec<String> = Vec::new();
    let mut i: usize = 0;
    while i < n
        invariant
            n == results@.len(),
            i <= n,
            names@.map_values(|s: String| s@) == successful_names(results_view(results@).take(i as int)),
        decreases n - i,
    {
        let ghost all = results_view(results@);
        assert(all.take(i + 1).drop_last() =~= all.take(i as int));
        assert(all.take(i + 1).last() == all[i as int]);
        match &results[i].1 {
            GenStatus::Success => {
                let ghost before = names@;
                names.push(results[i].0.clone());
                assert(names@.map_values(|s: String| s@) =~= before.map_values(|s: String| s@).push(all[i as int].0));
            },
            _ => {},
        }
        i = i + 1;
    }
    assert(results_view(results@).take(n as int) =~= results_view(results@));
    names
}

/// Marks the named entries as generated; tells whether that changed one.
fn mark_generated(app: &mut App, names: &Vec<String>) -> (changed: bool)
    ensures
        final(app)@ == with_rows(
            old(app)@,
            marked_rows(old(app)@.config.symbolic, names@.map_values(|s: String| s@)),
        ),
        changed == marks_change(old(app)@.config.symbolic, names@.map_values(|s: String| s@)),
{
    let ghost rows0 = app.config.symbolic@;
    let ghost all = names@.map_values(|s: String| s@);
    let n = names.len();
    let mut changed = false;
    let mut i: usize = 0;
    assert(all.take(0) =~= Seq::<Seq<char>>::empty());
    while i < n
        invariant
            n == names@.len(),
            all == names@.map_values(|s: String| s@),
            i <= n,
            app.config.symbolic@ == marked_rows(rows0, all.take(i as int)),
            changed == marks_change(rows0, all.take(i as int)),
            app@ == with_rows(old(app)@, app.config.symbolic@),
        decreases n - i,
    {
        assert(all.take(i + 1).drop_last() =~= all.take(i as int));
        assert(all.take(i + 1).last() == names@[i as int]@);
        let c = app.config.symbolic.mark_generated(names[i].as_str());
        changed = changed || c;
        i = i + 1;
    }
    assert(all.take(n as int) =~= all);
    changed
}

/// Records the outcomes of creating the links asked for by the generate
/// page; returns the effects to perform.
pub fn record_generation(app: &mut App, results: Vec<(String, GenStatus)>) -> (effects: Vec<Effect>)
    ensures
        (final(app)@, effects_view(effects@)) == recorded_generation(old(app)@, results_view(results@)),
        app_wf(old(app)@) ==> app_wf(final(app)@),
{
    let mut effects: Vec<Effect> = Vec::new();
    let names = created_names(&results);
    match &mut app.page {
        Page::Generate(p) => {
            p.results = results;
            p.mode = GenMode::Results;
        },
        _ => {
            assert(effects_view(effects@) =~= Seq::<EffectView>::empty());
            return effects;
        },
    }
    if mark_generated(app, &names) {
        effects.push(Effect::SaveConfig);
        assert(effects_view(effects@) =~= seq![EffectView::SaveConfig]);
    } else {
        assert(effects_view(effects@) =~= Seq::<EffectView>::empty());
    }
    proof {
        use_type_invariant(&app.config.symbolic);
        app.config.symbolic.lemma_rows_sorted();
    }
    effects
}


/// The generate page asks for links only when some entry is checked, and
/// then for exactly the checked entries.
pub proof fn lemma_generation_selects_checked(a: AppView, key: Key)
    requires
        a.page is Generate,
        generate_page_wf(a.page->Generate_0),
        generate_app_step(a, key).1.len() > 0,
    ensures
        ({
            let p2 = generate_page_step(a.page->Generate_0, key).0;
            &&& generate_app_step(a, key).1 == seq![EffectView::GenerateLinks(checked_rows(p2.checks, p2.entries))]
            &&& checked_rows(p2.checks, p2.entries).len() > 0
        }),
{
    let p = a.page->Generate_0;
    lemma_checked_rows_nonempty(p.checks, p.entries);
}


/// The line tail of an entry whose link was created.
pub const CREATED_TAIL: &'static str = " : 已创建软链接";

/// The line tail of an entry whose target already exists.
pub const EXISTS_TAIL: &'static str = " : 目标已存在，跳过";

/// The line head of the reason an entry's link failed.
pub const FAILED_HEAD: &'static str = " : 失败 - ";

/// The checklist line of the entry `name` at position `i`: "[x] 1. name"
/// when checked, "[ ] 1. name" when not.
pub open spec fn checklist_line(i: nat, checked: bool, name: Seq<char>) -> Seq<char> {
    (if checked { seq!['[', 'x', ']'] } else { seq!['[', ' ', ']'] }) + seq![' '] + numbered(i, name)
}

/// The line that reports the outcome for the entry `name`.
pub open spec fn outcome_line(name: Seq<char>, status: GenStatusView) -> Seq<char> {
    match status {
        GenStatusView::Success => name + CREATED_TAIL@,
        GenStatusView::Exists => name + EXISTS_TAIL@,
        GenStatusView::Failed(e) => name + FAILED_HEAD@ + e,
    }
}

impl GeneratePage {
    /// The checklist line of entry `i`.
    pub fn item_line(&self, i: usize) -> (r: String)
        requires
            i < self@.entries.len(),
            i < self@.checks.len(),
        ensures
            r@ == checklist_line(i as nat, self@.checks[i as int], self@.entries[i as int].0),
    {
        proof {
            reveal_strlit("[x] ");
            reveal_strlit("[ ] ");
        }
        let count = self.entries.len();
        assert(i < count);
        let head = if self.checks[i] { "[x] " } else { "[ ] " };
        assert("[x] "@ =~= seq!['[', 'x', ']'] + seq![' ']);
        assert("[ ] "@ =~= seq!['[', ' ', ']'] + seq![' ']);
        let line = owned(head).concat(numbered_line(i, self.entries[i].0.as_str()).as_str());
        assert(line@ =~= checklist_line(i as nat, self@.checks[i as int], self@.entries[i as int].0));
        line
    }

    /// The line that reports the outcome `i`.
    pub fn result_line(&self, i: usize) -> (r: String)
        requires
            i < self@.results.len(),
        ensures
            r@ == outcome_line(self@.results[i as int].0, self@.results[i as int].1),
    {
        let name = self.results[i].0.as_str();
        match &self.results[i].1 {
            GenStatus::Success => owned(name).concat(CREATED_TAIL),
            GenStatus::Exists => owned(name).concat(EXISTS_TAIL),
            GenStatus::Failed(e) => owned(name).concat(FAILED_HEAD).concat(e.as_str()),
        }
    }

    /// The height of the page's box: the checklist with its notice and
    /// buttons, or the outcomes, plus the borders; at least 3.
    pub fn box_height(&self) -> (h: u16)
        requires
            (self@.entries.len() % 65536) + 4 <= u16::MAX,
            (self@.results.len() % 65536) + 2 <= u16::MAX,
        ensures
            h == (match self.mode {
                GenMode::Select => list_box_height(self@.entries.len(), 4),
                GenMode::Results => list_box_height(self@.results.len(), 2),
            }),
    {
        match self.mode {
            GenMode::Select => list_box_height_of(self.entries.len(), 4),
            GenMode::Results => list_box_height_of(self.results.len(), 2),
        }
    }
}

} // verus!
