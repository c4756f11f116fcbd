//! The ordered table of symbolic entries, keyed by name.
//!
//! Rows are kept strictly increasing by name in the order of `String`, so
//! walking the table gives the names in the same order as a `BTreeMap`.
use vstd::prelude::*;
use crate::entry::{EntryView, SymbolicEntry};
use crate::text::{lemma_less_asymmetric, lemma_less_irreflexive, lemma_less_total,
    lemma_less_transitive, seq_less, str_less, same_text};

verus! {

/// One row of the table as plain values: the name and the entry.
pub type RowView = (Seq<char>, EntryView);

/// Names strictly increase along the rows (so no name occurs twice).
pub open spec fn rows_sorted(s: Seq<RowView>) -> bool {
    forall|i: int, j: int| 0 <= i < j < s.len() ==> seq_less(#[trigger] s[i].0, #[trigger] s[j].0)
}

/// Whether some row carries the name `k`.
pub open spec fn has_row(s: Seq<RowView>, k: Seq<char>) -> bool {
    exists|i: int| 0 <= i < s.len() && #[trigger] s[i].0 == k
}

/// The position of the row named `k`.
pub open spec fn row_index(s: Seq<RowView>, k: Seq<char>) -> int {
    choose|i: int| 0 <= i < s.len() && #[trigger] s[i].0 == k
}

/// The rows as a map from names to entries.
pub open spec fn rows_map(s: Seq<RowView>) -> Map<Seq<char>, EntryView> {
    Map::new(|k: Seq<char>| has_row(s, k), |k: Seq<char>| s[row_index(s, k)].1)
}

/// The plain-value view of a vector of named entries.
pub open spec fn rows_view(v: Seq<(String, SymbolicEntry)>) -> Seq<RowView> {
    v.map_values(|p: (String, SymbolicEntry)| (p.0@, p.1@))
}

/// In sorted rows a name occurs at one position only.
pub proof fn lemma_names_unique(s: Seq<RowView>, i: int, j: int)
    requires
        rows_sorted(s),
        0 <= i < s.len(),
        0 <= j < s.len(),
        s[i].0 == s[j].0,
    ensures
        i == j,
{
    if i < j {
        lemma_less_irreflexive(s[i].0);
        assert(seq_less(s[i].0, s[j].0));
    } else if j < i {
        lemma_less_irreflexive(s[i].0);
        assert(seq_less(s[j].0, s[i].0));
    }
}

/// The map of sorted rows gives each row's entry under its name.
pub proof fn lemma_row_in_map(s: Seq<RowView>, i: int)
    requires
        rows_sorted(s),
        0 <= i < s.len(),
    ensures
        has_row(s, s[i].0),
        row_index(s, s[i].0) == i,
        rows_map(s).contains_key(s[i].0),
        rows_map(s)[s[i].0] == s[i].1,
{
    assert(has_row(s, s[i].0));
    let j = row_index(s, s[i].0);
    lemma_names_unique(s, i, j);
}

/// Sorted rows are determined by the map they stand for: two sorted tables
/// with the same contents hold the same rows in the same order.
pub proof fn lemma_sorted_rows_determined(a: Seq<RowView>, b: Seq<RowView>)
    requires
        rows_sorted(a),
        rows_sorted(b),
        rows_map(a) == rows_map(b),
    ensures
        a == b,
    decreases a.len() + b.len(),
{
    if a.len() == 0 {
        if b.len() > 0 {
            lemma_row_in_map(b, 0);
            assert(rows_map(a).contains_key(b[0].0));
        }
        assert(a =~= b);
    } else if b.len() == 0 {
        lemma_row_in_map(a, 0);
        assert(rows_map(b).contains_key(a[0].0));
    } else {
        // The smallest names agree.
        lemma_row_in_map(a, 0);
        lemma_row_in_map(b, 0);
        assert(rows_map(b).contains_key(a[0].0));
        let jb = row_index(b, a[0].0);
        assert(rows_map(a).contains_key(b[0].0));
        let ja = row_index(a, b[0].0);
        if jb != 0 {
            assert(seq_less(b[0].0, b[jb].0));
            if ja != 0 {
                assert(seq_less(a[0].0, a[ja].0));
                lemma_less_asymmetric(b[0].0, a[0].0);
            }
        }
        assert(a[0].0 == b[0].0);
        assert(a[0].1 == b[0].1);
        let a1 = a.drop_first();
        let b1 = b.drop_first();
        assert(rows_sorted(a1));
        assert(rows_sorted(b1));
        assert forall|k: Seq<char>| #[trigger] rows_map(a1).contains_key(k) <==> rows_map(b1).contains_key(k) by {
            if has_row(a1, k) {
                let i = row_index(a1, k);
                lemma_row_in_map(a, i + 1);
                assert(rows_map(b).contains_key(k));
                let j = row_index(b, k);
                if j == 0 {
                    lemma_names_unique(a, 0, i + 1);
                }
                assert(b1[j - 1].0 == k);
            }
            if has_row(b1, k) {
                let i = row_index(b1, k);
                lemma_row_in_map(b, i + 1);
                assert(rows_map(a).contains_key(k));
                let j = row_index(a, k);
                if j == 0 {
                    lemma_names_unique(b, 0, i + 1);
                }
                assert(a1[j - 1].0 == k);
            }
        }
        assert forall|k: Seq<char>| #[trigger] rows_map(a1).contains_key(k) implies rows_map(a1)[k] == rows_map(b1)[k] by {
            let i = row_index(a1, k);
            let j = row_index(b1, k);
            lemma_row_in_map(a1, i);
            lemma_row_in_map(b1, j);
            lemma_row_in_map(a, i + 1);
            lemma_row_in_map(b, j + 1);
        }
        assert(rows_map(a1) =~= rows_map(b1));
        lemma_sorted_rows_determined(a1, b1);
        assert(a =~= seq![a[0]] + a1);
        assert(b =~= seq![b[0]] + b1);
    }
}

/// The sorted rows that stand for the map `m`.
pub open spec fn rows_for(m: Map<Seq<char>, EntryView>) -> Seq<RowView> {
    choose|s: Seq<RowView>| rows_sorted(s) && rows_map(s) == m
}

/// Sorted rows after storing `v` under the name `k`.
pub open spec fn rows_inserted(s: Seq<RowView>, k: Seq<char>, v: EntryView) -> Seq<RowView> {
    rows_for(rows_map(s).insert(k, v))
}

/// Sorted rows after removing the name `k`.
pub open spec fn rows_removed(s: Seq<RowView>, k: Seq<char>) -> Seq<RowView> {
    rows_for(rows_map(s).remove(k))
}

/// Sorted rows are the rows that stand for their own map.
pub proof fn lemma_rows_for(s: Seq<RowView>)
    requires
        rows_sorted(s),
    ensures
        rows_for(rows_map(s)) == s,
{
    let t = rows_for(rows_map(s));
    assert(rows_sorted(s) && rows_map(s) == rows_map(s));
    lemma_sorted_rows_determined(t, s);
}

/// Replacing the entry of row `i` keeps the rows sorted and stores the new
/// entry under that row's name.
pub proof fn lemma_update_row(s: Seq<RowView>, i: int, v: EntryView)
    requires
        rows_sorted(s),
        0 <= i < s.len(),
    ensures
        rows_sorted(s.update(i, (s[i].0, v))),
        rows_map(s.update(i, (s[i].0, v))) == rows_map(s).insert(s[i].0, v),
{
    let k = s[i].0;
    let t = s.update(i, (k, v));
    assert forall|a: int, b: int| 0 <= a < b < t.len() implies seq_less(#[trigger] t[a].0, #[trigger] t[b].0) by {
        assert(s[a].0 == t[a].0);
        assert(s[b].0 == t[b].0);
    }
    lemma_row_in_map(t, i);
    assert forall|q: Seq<char>| #[trigger] rows_map(t).contains_key(q) <==> rows_map(s).insert(k, v).contains_key(q) by {
        if has_row(t, q) {
            let j = row_index(t, q);
            assert(s[j].0 == q);
        }
        if has_row(s, q) {
            let j = row_index(s, q);
            assert(t[j].0 == q);
        }
    }
    assert forall|q: Seq<char>| #[trigger] rows_map(t).contains_key(q) implies rows_map(t)[q] == rows_map(s).insert(k, v)[q] by {
        if q != k {
            let j = row_index(t, q);
            lemma_row_in_map(t, j);
            lemma_row_in_map(s, j);
        }
    }
    assert(rows_map(t) =~= rows_map(s).insert(k, v));
}

/// Inserting a row at a position between the smaller and the greater names
/// keeps the rows sorted and adds the entry to the map.
pub proof fn lemma_insert_row(s: Seq<RowView>, p: int, k: Seq<char>, v: EntryView)
    requires
        rows_sorted(s),
        0 <= p <= s.len(),
        forall|j: int| 0 <= j < p ==> seq_less(#[trigger] s[j].0, k),
        forall|j: int| p <= j < s.len() ==> seq_less(k, #[trigger] s[j].0),
    ensures
        rows_sorted(s.insert(p, (k, v))),
        rows_map(s.insert(p, (k, v))) == rows_map(s).insert(k, v),
{
    let t = s.insert(p, (k, v));
    assert forall|a: int, b: int| 0 <= a < b < t.len() implies seq_less(#[trigger] t[a].0, #[trigger] t[b].0) by {
        if a < p && b < p {
        } else if a < p && b == p {
        } else if a < p {
            assert(seq_less(s[a].0, s[b - 1].0));
        } else if a == p {
        } else {
            assert(seq_less(s[a - 1].0, s[b - 1].0));
        }
    }
    assert(!has_row(s, k)) by {
        if has_row(s, k) {
            let j = row_index(s, k);
            lemma_less_irreflexive(k);
        }
    }
    lemma_row_in_map(t, p);
    assert forall|q: Seq<char>| #[trigger] rows_map(t).contains_key(q) <==> rows_map(s).insert(k, v).contains_key(q) by {
        if has_row(t, q) {
            let j = row_index(t, q);
            if j < p {
                assert(s[j].0 == q);
            } else if j > p {
                assert(s[j - 1].0 == q);
            }
        }
        if has_row(s, q) {
            let j = row_index(s, q);
            if j < p {
                assert(t[j].0 == q);
            } else {
                assert(t[j + 1].0 == q);
            }
        }
    }
    assert forall|q: Seq<char>| #[trigger] rows_map(t).contains_key(q) implies rows_map(t)[q] == rows_map(s).insert(k, v)[q] by {
        if q != k {
            let j = row_index(t, q);
            lemma_row_in_map(t, j);
            if j < p {
                lemma_row_in_map(s, j);
            } else {
                lemma_row_in_map(s, j - 1);
            }
        }
    }
    assert(rows_map(t) =~= rows_map(s).insert(k, v));
}

/// Removing row `i` keeps the rows sorted and removes its name from the map.
pub proof fn lemma_remove_row(s: Seq<RowView>, i: int)
    requires
        rows_sorted(s),
        0 <= i < s.len(),
    ensures
        rows_sorted(s.remove(i)),
        rows_map(s.remove(i)) == rows_map(s).remove(s[i].0),
{
    let k = s[i].0;
    let t = s.remove(i);
    assert forall|a: int, b: int| 0 <= a < b < t.len() implies seq_less(#[trigger] t[a].0, #[trigger] t[b].0) by {
        if b < i {
            assert(seq_less(s[a].0, s[b].0));
        } else if a < i {
            assert(seq_less(s[a].0, s[b + 1].0));
        } else {
            assert(seq_less(s[a + 1].0, s[b + 1].0));
        }
    }
    assert forall|q: Seq<char>| #[trigger] rows_map(t).contains_key(q) <==> rows_map(s).remove(k).contains_key(q) by {
        if has_row(t, q) {
            let j = row_index(t, q);
            if j < i {
                assert(s[j].0 == q);
                if q == k {
                    lemma_names_unique(s, j, i);
                }
            } else {
                assert(s[j + 1].0 == q);
                if q == k {
                    lemma_names_unique(s, j + 1, i);
                }
            }
        }
        if has_row(s, q) && q != k {
            let j = row_index(s, q);
            if j < i {
                assert(t[j].0 == q);
            } else {
                assert(j != i);
                assert(t[j - 1].0 == q);
            }
        }
    }
    assert forall|q: Seq<char>| #[trigger] rows_map(t).contains_key(q) implies rows_map(t)[q] == rows_map(s).remove(k)[q] by {
        let j = row_index(t, q);
        lemma_row_in_map(t, j);
        if j < i {
            lemma_row_in_map(s, j);
        } else {
            lemma_row_in_map(s, j + 1);
        }
    }
    assert(rows_map(t) =~= rows_map(s).remove(k));
}

/// The number of rows whose name is below `k`.
pub open spec fn insert_position(s: Seq<RowView>, k: Seq<char>) -> int
    decreases s.len(),
{
    if s.len() == 0 {
        0
    } else if seq_less(s.last().0, k) {
        s.len() as int
    } else {
        insert_position(s.drop_last(), k)
    }
}

/// In sorted rows, the names below `k` come first.
pub proof fn lemma_insert_position(s: Seq<RowView>, k: Seq<char>)
    requires
        rows_sorted(s),
    ensures
        0 <= insert_position(s, k) <= s.len(),
        forall|j: int| 0 <= j < insert_position(s, k) ==> seq_less(#[trigger] s[j].0, k),
        forall|j: int| insert_position(s, k) <= j < s.len() ==> !seq_less(#[trigger] s[j].0, k),
    decreases s.len(),
{
    if s.len() > 0 {
        let n = s.len() - 1;
        if seq_less(s.last().0, k) {
            assert forall|j: int| 0 <= j < s.len() implies seq_less(#[trigger] s[j].0, k) by {
                if j < n {
                    lemma_less_transitive(s[j].0, s[n].0, k);
                }
            }
        } else {
            let d = s.drop_last();
            assert(rows_sorted(d));
            lemma_insert_position(d, k);
            assert forall|j: int| 0 <= j < insert_position(s, k) implies seq_less(#[trigger] s[j].0, k) by {
                assert(s[j] == d[j]);
            }
            assert forall|j: int| insert_position(s, k) <= j < s.len() implies !seq_less(#[trigger] s[j].0, k) by {
                if j < n {
                    assert(s[j] == d[j]);
                }
            }
        }
    }
}

/// Storing an entry in sorted rows gives sorted rows whose map stores it.
pub proof fn lemma_rows_inserted(s: Seq<RowView>, k: Seq<char>, v: EntryView)
    requires
        rows_sorted(s),
    ensures
        rows_sorted(rows_inserted(s, k, v)),
        rows_map(rows_inserted(s, k, v)) == rows_map(s).insert(k, v),
{
    lemma_insert_position(s, k);
    let p = insert_position(s, k);
    if p < s.len() && s[p].0 == k {
        lemma_update_row(s, p, v);
    } else {
        assert forall|j: int| p <= j < s.len() implies seq_less(k, #[trigger] s[j].0) by {
            lemma_less_total(s[j].0, k);
            if j > p && s[j].0 == k {
                assert(seq_less(s[p].0, s[j].0));
                lemma_less_total(s[p].0, k);
                lemma_less_asymmetric(s[p].0, k);
            }
        }
        lemma_insert_row(s, p, k, v);
    }
}

/// Removing a name from sorted rows gives sorted rows whose map lacks it.
pub proof fn lemma_rows_removed(s: Seq<RowView>, k: Seq<char>)
    requires
        rows_sorted(s),
    ensures
        rows_sorted(rows_removed(s, k)),
        rows_map(rows_removed(s, k)) == rows_map(s).remove(k),
{
    if has_row(s, k) {
        let i = row_index(s, k);
        lemma_remove_row(s, i);
    } else {
        assert(rows_map(s).remove(k) =~= rows_map(s));
        lemma_rows_for(s);
    }
}

/// `e` marked as generated.
pub open spec fn marked_generated(e: EntryView) -> EntryView {
    EntryView {
        origin_path: e.origin_path,
        target_path: e.target_path,
        add_datetime: e.add_datetime,
        already_generate: true,
    }
}

/// The table of symbolic entries of the configuration (`[symbolic]`).
pub struct SymbolicTable {
    rows: Vec<(String, SymbolicEntry)>,
}

impl View for SymbolicTable {
    type V = Seq<RowView>;

    closed spec fn view(&self) -> Seq<RowView> {
        rows_view(self.rows@)
    }
}

impl SymbolicTable {
    #[verifier::type_invariant]
    pub closed spec fn names_increase(self) -> bool {
        rows_sorted(rows_view(self.rows@))
    }

    /// The rows of a table are sorted: its invariant, as a fact about its view.
    pub proof fn lemma_rows_sorted(self)
        requires
            self.names_increase(),
        ensures
            rows_sorted(self@),
    {
    }

    /// An empty table.
    pub fn new() -> (t: Self)
        ensures
            t@ == Seq::<RowView>::empty(),
    {
        let t = SymbolicTable { rows: Vec::new() };
        assert(t@ =~= Seq::<RowView>::empty());
        t
    }

    /// The number of entries.
    pub fn len(&self) -> (n: usize)
        ensures
            n == self@.len(),
            rows_sorted(self@),
    {
        proof {
            use_type_invariant(self);
        }
        self.rows.len()
    }

    /// Whether the table has no entries.
    pub fn is_empty(&self) -> (b: bool)
        ensures
            b == (self@.len() == 0),
            rows_sorted(self@),
    {
        self.len() == 0
    }

    /// The position of the row named `k`, if there is one.
    pub fn find(&self, k: &str) -> (r: Option<usize>)
        ensures
            rows_sorted(self@),
            match r {
                Some(i) => i < self@.len() && self@[i as int].0 == k@,
                None => !has_row(self@, k@),
            },
    {
        proof {
            use_type_invariant(self);
        }
        let n = self.rows.len();
        let mut i: usize = 0;
        while i < n
            invariant
                n == self.rows@.len(),
                i <= n,
                rows_sorted(self@),
                forall|j: int| 0 <= j < i ==> #[trigger] self@[j].0 != k@,
            decreases n - i,
        {
            if same_text(self.rows[i].0.as_str(), k) {
                return Some(i);
            }
            i = i + 1;
        }
        None
    }

    /// The entry named `k`, if there is one.
    pub fn get(&self, k: &str) -> (r: Option<&SymbolicEntry>)
        ensures
            rows_sorted(self@),
            match r {
                Some(e) => rows_map(self@).contains_key(k@) && rows_map(self@)[k@] == e@,
                None => !rows_map(self@).contains_key(k@),
            },
    {
        match self.find(k) {
            Some(i) => {
                proof {
                    lemma_row_in_map(self@, i as int);
                }
                Some(&self.rows[i].1)
            },
            None => None,
        }
    }

    /// All rows, in increasing order of their names.
    pub fn rows(&self) -> (v: Vec<(String, SymbolicEntry)>)
        ensures
            rows_view(v@) == self@,
            rows_sorted(self@),
    {
        proof {
            use_type_invariant(self);
        }
        let n = self.rows.len();
        let mut v: Vec<(String, SymbolicEntry)> = Vec::new();
        let mut i: usize = 0;
        while i < n
            invariant
                n == self.rows@.len(),
                i <= n,
                v@.len() == i,
                forall|j: int| 0 <= j < i ==> #[trigger] rows_view(v@)[j] == self@[j],
            decreases n - i,
        {
            let name = self.rows[i].0.clone();
            let entry = self.rows[i].1.clone();
            let ghost before = v@;
            v.push((name, entry));
            assert forall|j: int| 0 <= j <= i implies #[trigger] rows_view(v@)[j] == self@[j] by {
                if j < i {
                    assert(v@[j] == before[j]);
                    assert(rows_view(before)[j] == self@[j]);
                }
            }
            i = i + 1;
        }
        assert(rows_view(v@) =~= self@);
        v
    }

    /// Inserts `v` under the name `k`, replacing an entry of that name.
    pub fn insert(&mut self, k: String, v: SymbolicEntry)
        ensures
            rows_sorted(final(self)@),
            rows_map(final(self)@) == rows_map(old(self)@).insert(k@, v@),
            final(self)@ == rows_inserted(old(self)@, k@, v@),
    {
        self.insert_sorted(k, v);
        proof {
            lemma_rows_for(self@);
        }
    }

    fn insert_sorted(&mut self, k: String, v: SymbolicEntry)
        ensures
            rows_sorted(final(self)@),
            rows_map(final(self)@) == rows_map(old(self)@).insert(k@, v@),
    {
        proof {
            use_type_invariant(&*self);
        }
        let ghost old_rows = self@;
        let n = self.rows.len();
        let mut pos: usize = 0;
        while pos < n && str_less(self.rows[pos].0.as_str(), k.as_str())
            invariant
                n == self.rows@.len(),
                old_rows == self@,
                rows_sorted(old_rows),
                pos <= n,
                forall|j: int| 0 <= j < pos ==> seq_less(#[trigger] old_rows[j].0, k@),
            decreases n - pos,
        {
            pos = pos + 1;
        }
        // every row from `pos` on has a name not below `k`
        assert forall|j: int| pos <= j < n implies !seq_less(#[trigger] old_rows[j].0, k@) by {
            if j > pos {
                assert(!seq_less(old_rows[pos as int].0, k@));
                assert(seq_less(old_rows[pos as int].0, old_rows[j].0));
                if seq_less(old_rows[j].0, k@) {
                    lemma_less_transitive(old_rows[pos as int].0, old_rows[j].0, k@);
                }
            }
        }
        let mut rows: Vec<(String, SymbolicEntry)> = Vec::new();
        std::mem::swap(&mut rows, &mut self.rows);
        assert(rows_view(rows@) == old_rows);
        let ghost kv = k@;
        let ghost vv = v@;
        if pos < n && same_text(rows[pos].0.as_str(), k.as_str()) {
            rows.set(pos, (k, v));
            proof {
                lemma_update_row(old_rows, pos as int, vv);
                assert(rows_view(rows@) =~= old_rows.update(pos as int, (kv, vv)));
            }
            self.rows = rows;
        } else {
            proof {
                assert forall|j: int| pos <= j < n implies seq_less(kv, #[trigger] old_rows[j].0) by {
                    lemma_less_total(old_rows[j].0, kv);
                    if j > pos && old_rows[j].0 == kv {
                        lemma_less_total(old_rows[pos as int].0, kv);
                    }
                }
                lemma_insert_row(old_rows, pos as int, kv, vv);
            }
            rows.insert(pos, (k, v));
            assert(rows_view(rows@) =~= old_rows.insert(pos as int, (kv, vv)));
            self.rows = rows;
        }
    }

    /// Removes the entry named `k` and returns it, if there is one.
    pub fn remove(&mut self, k: &str) -> (r: Option<SymbolicEntry>)
        ensures
            rows_sorted(final(self)@),
            rows_map(final(self)@) == rows_map(old(self)@).remove(k@),
            final(self)@ == rows_removed(old(self)@, k@),
            match r {
                Some(e) => rows_map(old(self)@).contains_key(k@) && rows_map(old(self)@)[k@] == e@,
                None => !rows_map(old(self)@).contains_key(k@) && final(self)@ == old(self)@,
            },
    {
        let r = self.remove_sorted(k);
        proof {
            lemma_rows_for(self@);
        }
        r
    }

    fn remove_sorted(&mut self, k: &str) -> (r: Option<SymbolicEntry>)
        ensures
            rows_sorted(final(self)@),
            rows_map(final(self)@) == rows_map(old(self)@).remove(k@),
            match r {
                Some(e) => rows_map(old(self)@).contains_key(k@) && rows_map(old(self)@)[k@] == e@,
                None => !rows_map(old(self)@).contains_key(k@) && final(self)@ == old(self)@,
            },
    {
        let ghost old_rows = self@;
        match self.find(k) {
            None => {
                assert(rows_map(old_rows) =~= rows_map(old_rows).remove(k@));
                None
            },
            Some(pos) => {
                proof {
                    lemma_row_in_map(old_rows, pos as int);
                }
                let mut rows: Vec<(String, SymbolicEntry)> = Vec::new();
                std::mem::swap(&mut rows, &mut self.rows);
                assert(rows_view(rows@) == old_rows);
                let removed = rows.remove(pos);
                proof {
                    lemma_remove_row(old_rows, pos as int);
                }
                assert(rows_view(rows@) =~= old_rows.remove(pos as int));
                self.rows = rows;
                Some(removed.1)
            },
        }
    }

    /// Marks the entry named `k` as generated; tells whether that changed it.
    pub fn mark_generated(&mut self, k: &str) -> (changed: bool)
        ensures
            rows_sorted(final(self)@),
            changed == (rows_map(old(self)@).contains_key(k@) && !rows_map(
                old(self)@,
            )[k@].already_generate),
            changed ==> final(self)@ == rows_inserted(
                old(self)@,
                k@,
                marked_generated(rows_map(old(self)@)[k@]),
            ),
            !changed ==> final(self)@ == old(self)@,
    {
        match self.find(k) {
            None => false,
            Some(pos) => {
                proof {
                    lemma_row_in_map(self@, pos as int);
                }
                if self.rows[pos].1.already_generate {
                    false
                } else {
                    let name = self.rows[pos].0.clone();
                    let mut e = self.rows[pos].1.clone();
                    e.already_generate = true;
                    assert(e@ =~= marked_generated(rows_map(self@)[k@]));
                    self.insert(name, e);
                    true
                }
            },
        }
    }
}

} // verus!
