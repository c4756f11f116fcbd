//! The configuration model: entries, the ordered table of entries, and the
//! path rules applied to user input.
use vstd::prelude::*;
use crate::table::{RowView, SymbolicTable};
use crate::text::{contains_text, has_infix, has_prefix, owned, push_char, starts_with, suffix_from};

verus! {

/// `input` with a leading `~`, `$HOME` or `${HOME}` replaced by `home`:
/// `~` alone and `~/...` expand the tilde, `$HOME...` and `${HOME}...` expand
/// the variable; any other input is kept as it is.
pub open spec fn expanded_path(input: Seq<char>, home: Seq<char>) -> Seq<char> {
    if input == seq!['~'] {
        home
    } else if has_prefix(input, seq!['~', '/']) {
        home + input.skip(1)
    } else if has_prefix(input, seq!['$', 'H', 'O', 'M', 'E']) {
        home + input.skip(5)
    } else if has_prefix(input, seq!['$', '{', 'H', 'O', 'M', 'E', '}']) {
        home + input.skip(7)
    } else {
        input
    }
}

/// Expand a leading `~` / `$HOME` / `${HOME}` to the home directory.
pub fn expand_path(input: &str, home: &str) -> (r: String)
    ensures
        r@ == expanded_path(input@, home@),
{
    proof {
        reveal_strlit("~/");
        reveal_strlit("$HOME");
        reveal_strlit("${HOME}");
    }
    let n = input.unicode_len();
    if n == 1 && input.get_char(0) == '~' {
        assert(input@ =~= seq!['~']);
        return owned(home);
    }
    assert(input@ != seq!['~'] || (n == 1 && input@[0] == '~'));
    if starts_with(input, "~/") {
        assert("~/"@ =~= seq!['~', '/']);
        return owned(home).concat(suffix_from(input, 1));
    }
    assert("~/"@ =~= seq!['~', '/']);
    if starts_with(input, "$HOME") {
        assert("$HOME"@ =~= seq!['$', 'H', 'O', 'M', 'E']);
        return owned(home).concat(suffix_from(input, 5));
    }
    assert("$HOME"@ =~= seq!['$', 'H', 'O', 'M', 'E']);
    if starts_with(input, "${HOME}") {
        assert("${HOME}"@ =~= seq!['$', '{', 'H', 'O', 'M', 'E', '}']);
        return owned(home).concat(suffix_from(input, 7));
    }
    assert("${HOME}"@ =~= seq!['$', '{', 'H', 'O', 'M', 'E', '}']);
    owned(input)
}

/// `prefix` joined with `input`: with nothing between them when the prefix
/// is empty, ends in `/` or the input starts with `/`; with one `/` otherwise.
pub open spec fn joined_origin(prefix: Seq<char>, input: Seq<char>) -> Seq<char> {
    if prefix.len() == 0 {
        input
    } else if prefix.last() == '/' || (input.len() > 0 && input[0] == '/') {
        prefix + input
    } else {
        prefix + seq!['/'] + input
    }
}

/// How the prefix and the typed origin path are joined: the input alone
/// under an empty prefix; exactly one `/` between a prefix that does not end
/// in `/` and an input that does not start with `/`, whatever else the input
/// starts with; no `/` added when either side already brings one.
pub proof fn lemma_join_separator(prefix: Seq<char>, input: Seq<char>)
    ensures
        prefix.len() == 0 ==> joined_origin(prefix, input) == input,
        prefix.len() > 0 && prefix.last() != '/' && (input.len() == 0 || input[0] != '/')
            ==> joined_origin(prefix, input) == prefix + seq!['/'] + input,
        prefix.len() > 0 && (prefix.last() == '/' || (input.len() > 0 && input[0] == '/'))
            ==> joined_origin(prefix, input) == prefix + input,
        prefix.len() > 0 ==> has_prefix(joined_origin(prefix, input), prefix),
{
    if prefix.len() > 0 {
        let j = joined_origin(prefix, input);
        if prefix.last() == '/' || (input.len() > 0 && input[0] == '/') {
            assert(j.take(prefix.len() as int) =~= prefix);
        } else {
            assert(j.take(prefix.len() as int) =~= prefix);
        }
    }
}

/// Join the source path prefix with the user input origin path.
pub fn join_origin_path(prefix: &str, input: &str) -> (r: String)
    ensures
        r@ == joined_origin(prefix@, input@),
{
    let plen = prefix.unicode_len();
    if plen == 0 {
        return owned(input);
    }
    let ilen = input.unicode_len();
    if prefix.get_char(plen - 1) == '/' || (ilen > 0 && input.get_char(0) == '/') {
        owned(prefix).concat(input)
    } else {
        let mut r = owned(prefix);
        push_char(&mut r, '/');
        r.concat(input)
    }
}

/// Root config of `confcosmos.toml`.
pub struct Config {
    /// Source path prefix, all origin paths are joined with this
    pub origin_path_prefix: String,
    /// `[symbolic]` nested table
    pub symbolic: SymbolicTable,
}

/// The configuration as plain values.
#[verifier::ext_equal]
pub struct ConfigView {
    pub origin_path_prefix: Seq<char>,
    pub symbolic: Seq<RowView>,
}

impl View for Config {
    type V = ConfigView;

    open spec fn view(&self) -> ConfigView {
        ConfigView { origin_path_prefix: self.origin_path_prefix@, symbolic: self.symbolic@ }
    }
}

impl Default for Config {
    fn default() -> (c: Self)
        ensures
            c@.origin_path_prefix == Seq::<char>::empty(),
            c@.symbolic == Seq::<RowView>::empty(),
    {
        Config { origin_path_prefix: String::new(), symbolic: SymbolicTable::new() }
    }
}

/// The header of the symbolic table in the saved file.
pub open spec fn symbolic_header() -> Seq<char> {
    seq!['[', 's', 'y', 'm', 'b', 'o', 'l', 'i', 'c', ']']
}

/// The text that is saved for a serialized configuration: an empty
/// `[symbolic]` table is kept around while there are no entries yet.
pub open spec fn saved_text(serialized: Seq<char>, no_entries: bool) -> Seq<char> {
    if no_entries && !has_infix(serialized, symbolic_header()) {
        serialized + seq!['\n'] + symbolic_header() + seq!['\n']
    } else {
        serialized
    }
}

impl Config {
    /// Completes the serialized text of this configuration for saving.
    pub fn save_text(&self, serialized: String) -> (r: String)
        ensures
            r@ == saved_text(serialized@, self@.symbolic.len() == 0),
            has_prefix(r@, serialized@),
            self@.symbolic.len() == 0 ==> has_infix(r@, symbolic_header()),
    {
        proof {
            reveal_strlit("[symbolic]");
            reveal_strlit("\n[symbolic]\n");
        }
        assert("[symbolic]"@ =~= symbolic_header());
        let empty = self.symbolic.is_empty();
        let r = if empty && !contains_text(serialized.as_str(), "[symbolic]") {
            let r = serialized.concat("\n[symbolic]\n");
            assert("\n[symbolic]\n"@ =~= seq!['\n'] + symbolic_header() + seq!['\n']);
            assert(r@.subrange(serialized@.len() as int + 1, serialized@.len() as int + 11) =~= symbolic_header());
            r
        } else {
            serialized
        };
        assert(r@.take(serialized@.len() as int) =~= serialized@);
        r
    }
}

} // verus!
