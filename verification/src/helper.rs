//! What the tool knows of the current workspace, and the environment of a
//! container read from the output of `env`.

use vstd::prelude::*;
use crate::pod::opt_view;
use crate::string_map::{pairs_map, StringMap};
use crate::text::{
    chars_of, find_char_from, first_field, second_field, split_of, split_on, string_of_range,
    string_of_range_without, views_of, without_char, index_of_from,
};

verus! {

/// Helpers around the cluster and the workspace the tool runs in.
pub struct Helper {}

/// What is known of the workspace the command is about.
pub struct BaseInfo {
    pub namespace: Option<String>,
    pub workspace_name: Option<String>,
    pub workspace_id: Option<String>,
    pub podname: Option<String>,
    pub is_in_pod: bool,
}

/// The abstract value of a [`BaseInfo`].
pub struct BaseInfoView {
    pub namespace: Option<Seq<char>>,
    pub workspace_name: Option<Seq<char>>,
    pub workspace_id: Option<Seq<char>>,
    pub podname: Option<Seq<char>>,
    pub is_in_pod: bool,
}

impl View for BaseInfo {
    type V = BaseInfoView;

    open spec fn view(&self) -> BaseInfoView {
        BaseInfoView {
            namespace: opt_view(self.namespace),
            workspace_name: opt_view(self.workspace_name),
            workspace_id: opt_view(self.workspace_id),
            podname: opt_view(self.podname),
            is_in_pod: self.is_in_pod,
        }
    }
}

/// The variable and the value that one line of `env` output sets: the name
/// is what stands before the first `=`, the value what stands between it and
/// a next `=` (empty without `=`), with every `\r` removed from the value.
pub open spec fn env_entry(line: Seq<char>) -> (Seq<char>, Seq<char>) {
    (
        first_field(line, '='),
        without_char(
            match second_field(line, '=') {
                Some(v) => v,
                None => Seq::empty(),
            },
            '\r',
        ),
    )
}

/// Whether the output of `env` counts as empty: nothing, or a lone newline.
pub open spec fn env_output_empty(output: Seq<char>) -> bool {
    output.len() == 0 || output == seq!['\n']
}

/// The variables that an `env` output sets, one line (split on `\n`) each;
/// for a variable set twice, the later line counts.
pub open spec fn env_variables(output: Seq<char>) -> Map<Seq<char>, Seq<char>> {
    pairs_map(split_on(output, '\n').map_values(|l: Seq<char>| env_entry(l)))
}

/// A line `name=value` of an `env` output, with no other `=` and no `\r`,
/// sets `name` to `value` unless a later line sets `name` again.
pub proof fn lemma_env_line_sets_variable(output: Seq<char>, i: int)
    requires
        0 <= i < split_on(output, '\n').len(),
        forall|j: int|
            i < j < split_on(output, '\n').len() ==> first_field(split_on(output, '\n')[j], '=')
                != first_field(split_on(output, '\n')[i], '='),
    ensures
        env_variables(output).contains_key(first_field(split_on(output, '\n')[i], '=')),
        env_variables(output)[first_field(split_on(output, '\n')[i], '=')] == env_entry(
            split_on(output, '\n')[i],
        ).1,
{
    let entries = split_on(output, '\n').map_values(|l: Seq<char>| env_entry(l));
    assert forall|j: int| i < j < entries.len() implies entries[j].0 != entries[i].0 by {
        assert(entries[j].0 == first_field(split_on(output, '\n')[j], '='));
    }
    crate::string_map::lemma_pairs_map_last_value(entries, i);
}

proof fn lemma_index_of_from_is(l: Seq<char>, c: char, i: int, m: int)
    requires
        0 <= i <= m <= l.len(),
        forall|t: int| i <= t < m ==> l[t] != c,
        m < l.len() ==> l[m] == c,
    ensures
        index_of_from(l, c, i) == m,
    decreases m - i,
{
    if i < m {
        lemma_index_of_from_is(l, c, i + 1, m);
    }
}

/// Removing `c` keeps a text that has no `c` as it is, and leaves no `c`.
pub proof fn lemma_without_char_removes_only(s: Seq<char>, c: char)
    ensures
        (forall|t: int| 0 <= t < s.len() ==> s[t] != c) ==> without_char(s, c) == s,
        forall|t: int| 0 <= t < without_char(s, c).len() ==> without_char(s, c)[t] != c,
        without_char(s, c).len() <= s.len(),
    decreases s.len(),
{
    if s.len() > 0 {
        lemma_without_char_removes_only(s.drop_last(), c);
        if forall|t: int| 0 <= t < s.len() ==> s[t] != c {
            assert(s.last() == s[s.len() - 1]);
            assert(s.drop_last().push(s.last()) == s);
        }
    }
}

/// One line of `env` output, over all lines: with `j` its first `=` and `k`
/// the next `=` (or its end), it names the variable `line[..j]` and gives it
/// the text `line[j+1..k]` with only the `\r` characters removed (every
/// other character, `:` included, is kept); a line without `=` names
/// itself and gives the empty value.
pub proof fn lemma_env_entry_law(line: Seq<char>, j: int, k: int)
    requires
        0 <= j < line.len(),
        line[j] == '=',
        forall|t: int| 0 <= t < j ==> line[t] != '=',
        j < k <= line.len(),
        k < line.len() ==> line[k] == '=',
        forall|t: int| j < t < k ==> line[t] != '=',
    ensures
        env_entry(line).0 == line.subrange(0, j),
        env_entry(line).1 == without_char(line.subrange(j + 1, k), '\r'),
        (forall|t: int| j < t < k ==> line[t] != '\r') ==> env_entry(line).1 == line.subrange(j + 1, k),
{
    lemma_index_of_from_is(line, '=', 0, j);
    lemma_index_of_from_is(line, '=', j + 1, k);
    let v = line.subrange(j + 1, k);
    lemma_without_char_removes_only(v, '\r');
    if forall|t: int| j < t < k ==> line[t] != '\r' {
        assert forall|t: int| 0 <= t < v.len() implies v[t] != '\r' by {
            assert(v[t] == line[j + 1 + t]);
        }
    }
}

/// A line of `env` output without `=` names the whole line and gives the
/// empty value.
pub proof fn lemma_env_entry_without_equal_sign(line: Seq<char>)
    requires
        forall|t: int| 0 <= t < line.len() ==> line[t] != '=',
    ensures
        env_entry(line) == (line, Seq::<char>::empty()),
{
    lemma_index_of_from_is(line, '=', 0, line.len() as int);
    assert(line.subrange(0, line.len() as int) == line);
}

/// Reading a whole `env` output: a line `name=value` (with `j`, `k` as in
/// [`lemma_env_entry_law`]) that no later line overrides gives `name` the
/// text between its first `=` and the next one, with only `\r` removed.
pub proof fn lemma_env_variable_value(output: Seq<char>, i: int, j: int, k: int)
    requires
        0 <= i < split_on(output, '\n').len(),
        0 <= j < split_on(output, '\n')[i].len(),
        split_on(output, '\n')[i][j] == '=',
        forall|t: int| 0 <= t < j ==> split_on(output, '\n')[i][t] != '=',
        j < k <= split_on(output, '\n')[i].len(),
        k < split_on(output, '\n')[i].len() ==> split_on(output, '\n')[i][k] == '=',
        forall|t: int| j < t < k ==> split_on(output, '\n')[i][t] != '=',
        forall|m: int|
            i < m < split_on(output, '\n').len() ==> first_field(split_on(output, '\n')[m], '=')
                != split_on(output, '\n')[i].subrange(0, j),
    ensures
        env_variables(output).contains_key(split_on(output, '\n')[i].subrange(0, j)),
        env_variables(output)[split_on(output, '\n')[i].subrange(0, j)] == without_char(
            split_on(output, '\n')[i].subrange(j + 1, k),
            '\r',
        ),
{
    let line = split_on(output, '\n')[i];
    lemma_env_entry_law(line, j, k);
    lemma_env_line_sets_variable(output, i);
}

impl Helper {
    /// The environment variables of a container from the output of `env` run
    /// in it, or `None` when that output is empty or a lone newline.
    pub fn envvars_from_output(output: &str) -> (r: Option<StringMap>)
        ensures
            r is None <==> env_output_empty(output@),
            r matches Some(m) ==> m.wf() && m@ == env_variables(output@),
    {
        let chars = chars_of(output);
        if chars.len() == 0 || (chars.len() == 1 && chars[0] == '\n') {
            assert(chars.len() == 1 ==> chars@ =~= seq!['\n']);
            return None;
        }
        assert(output@ != seq!['\n']) by {
            if output@ == seq!['\n'] {
                assert(chars@.len() == 1 && chars@[0] == '\n');
            }
        }
        let lines = split_of(&chars, '\n');
        let ghost entries = split_on(output@, '\n').map_values(|l: Seq<char>| env_entry(l));
        let mut m = StringMap::new();
        let mut i: usize = 0;
        while i < lines.len()
            invariant
                i <= lines.len(),
                views_of(lines@) == split_on(output@, '\n'),
                entries == split_on(output@, '\n').map_values(|l: Seq<char>| env_entry(l)),
                m.wf(),
                m@ == pairs_map(entries.take(i as int)),
            decreases lines.len() - i,
        {
            let line = &lines[i];
            assert(line@ == split_on(output@, '\n')[i as int]);
            let eq = find_char_from(line, '=', 0);
            let key = string_of_range(line, 0, eq);
            let value = if eq < line.len() {
                let end = find_char_from(line, '=', eq + 1);
                string_of_range_without(line, eq + 1, end, '\r')
            } else {
                String::new()
            };
            assert(entries[i as int] == (key@, value@));
            assert(entries.take(i + 1).drop_last() == entries.take(i as int));
            m.insert(key, value);
            i = i + 1;
        }
        assert(entries.take(lines.len() as int) == entries);
        Some(m)
    }
}

} // verus!
