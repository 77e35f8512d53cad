//! Command snippets: the snippet model, the add/edit form, the list view with
//! its search filter, and `{{name}}` parameter substitution.

use vstd::prelude::*;

use crate::form::FormField;
use crate::host::{
    field_showing, field_showing_str, opt_string, opt_text, opt_trimmed, opt_view, or_empty, shows, trimmed,
};
use crate::host_list::{all_indices, clamp_selection};
use crate::services::ServiceKind;
use crate::text::{
    append_str, ascii_lower, ascii_text, chars_of, contains, contains_seq, join, join_strings, lemma_list_items_join,
    is_ws, lemma_trim_trimmed, list_items, list_items_of, lowercase, plain_item, replace_all, replace_chars,
    str_eq, string_of, to_lowercase, trim, trimmed_text, views,
};

verus! {

/// Where a snippet may run.
#[derive(Debug, Clone, Copy, PartialEq, Eq, Default, Structural)]
pub enum SnippetScope {
    /// On any host.
    #[default]
    Global,
    /// On one named host.
    Host,
}

/// A saved shell command, optionally with `{{name}}` placeholders.
#[derive(Debug, Clone)]
pub struct Snippet {
    pub name: String,
    pub command: String,
    pub scope: SnippetScope,
    /// The host a host-scoped snippet belongs to.
    pub host: Option<String>,
    pub tags: Option<Vec<String>>,
    /// Names of the `{{name}}` placeholders in `command`.
    pub params: Option<Vec<String>>,
}

/// One host's entry in the snippet results popup.
#[derive(Debug)]
pub struct SnippetResultEntry {
    pub host_name: String,
    pub snippet_name: String,
    /// `Ok(stdout)` when done, `Err(message)` on error, `Ok("")` while pending.
    pub output: Result<String, String>,
    /// True while the command is still running.
    pub pending: bool,
}

/// Which popup is shown over the snippets screen.
#[derive(Debug)]
pub enum SnippetPopup {
    /// Adding a new snippet.
    Add(SnippetForm),
    /// Editing the snippet at `snippet_idx`.
    Edit { snippet_idx: usize, form: SnippetForm },
    /// Asking for confirmation before deleting.
    DeleteConfirm(usize),
    /// Collecting values for `{{placeholder}}` params before executing.
    ParamInput {
        snippet_idx: usize,
        host_names: Vec<String>,
        param_names: Vec<String>,
        param_fields: Vec<FormField>,
        focused_field: usize,
    },
    /// Picking the hosts to broadcast to.
    BroadcastPicker {
        snippet_idx: usize,
        /// Indices into the host list that are checked.
        selected_host_indices: Vec<usize>,
        /// Highlighted row.
        cursor: usize,
    },
    /// Single-line command input for quick execute.
    QuickExecuteInput { host_name: String, command_field: FormField },
    /// Scrollable results from one or more hosts.
    Results { entries: Vec<SnippetResultEntry>, scroll: usize },
}

/// The number of fields of the snippet form: name, command, scope, host,
/// tags, params.
pub open spec fn snippet_form_len() -> nat {
    6
}

/// The labels of the snippet form fields, in order.
pub fn snippet_form_field_labels() -> (res: Vec<&'static str>)
    ensures
        res.len() == snippet_form_len(),
{
    vec!["Name", "Command", "Scope (global / host)", "Host (if scope=host)", "Tags (comma-sep)", "Params (comma-sep)"]
}

/// The scope a form value names: `host` in any letter case, else global.
pub open spec fn scope_of(v: Seq<char>) -> SnippetScope {
    if lowercase(trim(v)) == "host"@ {
        SnippetScope::Host
    } else {
        SnippetScope::Global
    }
}

/// Why the snippet form values `f` do not make a snippet, if they do not.
pub open spec fn snippet_form_error(f: Seq<Seq<char>>) -> Option<Seq<char>> {
    if trim(f[0]).len() == 0 {
        Some("Name cannot be empty"@)
    } else if trim(f[1]).len() == 0 {
        Some("Command cannot be empty"@)
    } else if scope_of(f[2]) == SnippetScope::Host && trim(f[3]).len() == 0 {
        Some("Host cannot be empty when scope is 'host'"@)
    } else {
        None
    }
}

/// `o` holds the items of the comma-separated list `v`, and is `None` when
/// there are none.
pub open spec fn list_field(o: Option<Vec<String>>, v: Seq<char>) -> bool {
    match o {
        None => list_items(v, ',').len() == 0,
        Some(items) => list_items(v, ',').len() > 0 && views(items@) == list_items(v, ','),
    }
}

/// `s` is the snippet that the form values `f` describe.
pub open spec fn snippet_of_form(s: Snippet, f: Seq<Seq<char>>) -> bool {
    &&& s.name@ == trim(f[0])
    &&& s.command@ == trim(f[1])
    &&& s.scope == scope_of(f[2])
    &&& opt_view(s.host) == opt_text(trim(f[3]))
    &&& list_field(s.tags, f[4])
    &&& list_field(s.params, f[5])
}

/// The items of an optional list, none when absent.
pub open spec fn items_or_empty(o: Option<Vec<String>>) -> Seq<Seq<char>> {
    match o {
        Some(v) => views(v@),
        None => Seq::empty(),
    }
}

/// The text naming a scope in the form.
pub open spec fn scope_text(s: SnippetScope) -> Seq<char> {
    match s {
        SnippetScope::Global => "global"@,
        SnippetScope::Host => "host"@,
    }
}

/// The snippet add/edit form.
#[derive(Debug, Clone)]
pub struct SnippetForm {
    /// In the order of `snippet_form_field_labels`.
    pub fields: Vec<FormField>,
    pub focused_field: usize,
}

/// The values of a list of form fields.
pub open spec fn values_of(fields: Seq<FormField>) -> Seq<Seq<char>> {
    fields.map_values(|f: FormField| f.value@)
}

fn list_or_none(v: Vec<String>) -> (res: Option<Vec<String>>)
    ensures
        v.len() == 0 ==> res is None,
        v.len() > 0 ==> res == Some(v),
{
    if v.len() == 0 {
        None
    } else {
        Some(v)
    }
}

fn joined(o: &Option<Vec<String>>) -> (res: String)
    ensures
        res@ == join(items_or_empty(*o), ", "@),
{
    match o {
        Some(v) => join_strings(v.as_slice(), ", "),
        None => {
            let e: Vec<String> = Vec::new();
            assert(views(e@) =~= Seq::<Seq<char>>::empty());
            join_strings(e.as_slice(), ", ")
        },
    }
}

impl SnippetForm {
    /// An empty form for adding a new snippet.
    pub fn empty() -> (res: Self)
        ensures
            res.fields.len() == snippet_form_len(),
            forall|i: int| 0 <= i < 6 ==> res.fields@[i].value@.len() == 0 && res.fields@[i].cursor == 0,
            res.focused_field == 0,
    {
        let mut fields: Vec<FormField> = Vec::new();
        let mut i: usize = 0;
        while i < 6
            invariant
                i <= 6,
                fields.len() == i,
                forall|j: int| 0 <= j < i ==> fields@[j].value@.len() == 0 && fields@[j].cursor == 0,
            decreases 6 - i,
        {
            fields.push(FormField::default());
            i = i + 1;
        }
        SnippetForm { fields, focused_field: 0 }
    }

    /// A form pre-filled from `s` for editing, each cursor at the end of
    /// its value; lists are joined with `", "`.
    pub fn from_snippet(s: &Snippet) -> (res: Self)
        ensures
            res.fields.len() == snippet_form_len(),
            res.focused_field == 0,
            shows(res.fields@[0], s.name@),
            shows(res.fields@[1], s.command@),
            shows(res.fields@[2], scope_text(s.scope)),
            shows(res.fields@[3], or_empty(s.host)),
            shows(res.fields@[4], join(items_or_empty(s.tags), ", "@)),
            shows(res.fields@[5], join(items_or_empty(s.params), ", "@)),
            values_of(res.fields@) == snippet_form_values(*s),
    {
        let scope = match s.scope {
            SnippetScope::Global => "global",
            SnippetScope::Host => "host",
        };
        let tags = joined(&s.tags);
        let params = joined(&s.params);
        let fields = vec![
            field_showing_str(s.name.as_str()),
            field_showing_str(s.command.as_str()),
            field_showing_str(scope),
            crate::host::field_showing_opt(&s.host),
            field_showing_str(tags.as_str()),
            field_showing_str(params.as_str()),
        ];
        proof {
            reveal_strlit("global");
            reveal_strlit("host");
        }
        assert(values_of(fields@) =~= snippet_form_values(*s));
        SnippetForm { fields, focused_field: 0 }
    }

    /// Validates the form and converts it into a [`Snippet`]. A form filled
    /// from a snippet whose texts are trimmed, whose lists are describable,
    /// and which names a host when its scope is `host`, gives that snippet
    /// back.
    ///
    /// # Errors
    /// A message when the name or the command is blank, or the scope is
    /// `host` and the host is blank.
    pub fn to_snippet(&self) -> (res: Result<Snippet, String>)
        requires
            self.fields.len() >= snippet_form_len(),
        ensures
            res is Err <==> snippet_form_error(values_of(self.fields@)) is Some,
            res matches Err(e) ==> snippet_form_error(values_of(self.fields@)) == Some(e@),
            res matches Ok(s) ==> snippet_of_form(s, values_of(self.fields@)),
            forall|s: Snippet|
                snippet_describable(s) && (s.scope == SnippetScope::Host ==> s.host is Some) && values_of(
                    self.fields@,
                ) == #[trigger] snippet_form_values(s) ==> (res matches Ok(b) && same_snippet(b, s)),
    {
        let res = self.read_snippet();
        proof {
            assert forall|s: Snippet|
                snippet_describable(s) && (s.scope == SnippetScope::Host ==> s.host is Some) && values_of(
                    self.fields@,
                ) == #[trigger] snippet_form_values(s) implies (res matches Ok(b) && same_snippet(b, s)) by {
                let f = snippet_form_values(s);
                lemma_scope_text_lowercase(s.scope);
                lemma_snippet_form_accepts(s);
                let b = res->Ok_0;
                lemma_snippet_form_round_trip(s, b);
            }
        }
        res
    }

    fn read_snippet(&self) -> (res: Result<Snippet, String>)
        requires
            self.fields.len() >= snippet_form_len(),
        ensures
            res is Err <==> snippet_form_error(values_of(self.fields@)) is Some,
            res matches Err(e) ==> snippet_form_error(values_of(self.fields@)) == Some(e@),
            res matches Ok(s) ==> snippet_of_form(s, values_of(self.fields@)),
            ascii_text(trim(values_of(self.fields@)[2])) ==> lowercase(trim(values_of(self.fields@)[2]))
                == trim(values_of(self.fields@)[2]).map_values(|c: char| ascii_lower(c)),
    {
        let ghost f = values_of(self.fields@);
        assert(f[0] == self.fields@[0].value@);
        assert(f[1] == self.fields@[1].value@);
        assert(f[2] == self.fields@[2].value@);
        assert(f[3] == self.fields@[3].value@);
        assert(f[4] == self.fields@[4].value@);
        assert(f[5] == self.fields@[5].value@);
        let scope_v = string_of(&trimmed(&self.fields[2]));
        let scope_l = to_lowercase(scope_v.as_str());
        let name = trimmed(&self.fields[0]);
        if name.len() == 0 {
            return Err("Name cannot be empty".to_owned());
        }
        let command = trimmed(&self.fields[1]);
        if command.len() == 0 {
            return Err("Command cannot be empty".to_owned());
        }
        let scope = if str_eq(scope_l.as_str(), "host") {
            SnippetScope::Host
        } else {
            SnippetScope::Global
        };
        let host_v = trimmed(&self.fields[3]);
        if scope == SnippetScope::Host && host_v.len() == 0 {
            return Err("Host cannot be empty when scope is 'host'".to_owned());
        }
        let host = opt_string(&host_v);
        let tags = list_or_none(list_items_of(self.fields[4].value.as_str(), ','));
        let params = list_or_none(list_items_of(self.fields[5].value.as_str(), ','));
        Ok(Snippet { name: string_of(&name), command: string_of(&command), scope, host, tags, params })
    }

    /// Moves focus to the next field, wrapping around.
    pub fn focus_next(&mut self)
        requires
            old(self).fields.len() > 0,
            old(self).focused_field < usize::MAX,
        ensures
            final(self).focused_field == (old(self).focused_field + 1) % (old(self).fields.len() as int),
            final(self).fields == old(self).fields,
    {
        self.focused_field = (self.focused_field + 1) % self.fields.len();
    }

    /// Moves focus to the previous field, wrapping around.
    pub fn focus_prev(&mut self)
        requires
            old(self).fields.len() > 0,
        ensures
            final(self).focused_field == if old(self).focused_field == 0 {
                old(self).fields.len() - 1
            } else {
                old(self).focused_field - 1
            },
            final(self).fields == old(self).fields,
    {
        if self.focused_field == 0 {
            self.focused_field = self.fields.len() - 1;
        } else {
            self.focused_field = self.focused_field - 1;
        }
    }
}

/// Case-insensitive match of a non-empty query against a snippet's name,
/// command or tags.
pub open spec fn snippet_matches(s: Snippet, q: Seq<char>) -> bool {
    let lq = lowercase(q);
    ||| contains_seq(lowercase(s.name@), lq)
    ||| contains_seq(lowercase(s.command@), lq)
    ||| exists|i: int|
        0 <= i < items_or_empty(s.tags).len() && contains_seq(
            lowercase(#[trigger] items_or_empty(s.tags)[i]),
            lq,
        )
}

/// Indices of the snippets a query selects: all for an empty query, else
/// those matching it, in ascending order.
pub open spec fn matching_snippets(snippets: Seq<Snippet>, q: Seq<char>) -> Seq<usize> {
    all_indices(snippets.len()).filter(|i: usize| q.len() == 0 || snippet_matches(snippets[i as int], q))
}

fn lower_contains(s: &str, lq: &str) -> (res: bool)
    ensures
        res == contains_seq(lowercase(s@), lq@),
{
    let l = to_lowercase(s);
    contains(l.as_str(), lq)
}

fn snippet_matches_exec(s: &Snippet, q: &str, lq: &str) -> (res: bool)
    requires
        lq@ == lowercase(q@),
    ensures
        res == snippet_matches(*s, q@),
{
    if lower_contains(s.name.as_str(), lq) || lower_contains(s.command.as_str(), lq) {
        return true;
    }
    match &s.tags {
        None => false,
        Some(tags) => {
            let mut i: usize = 0;
            while i < tags.len()
                invariant
                    i <= tags.len(),
                    s.tags == Some(*tags),
                    lq@ == lowercase(q@),
                    forall|j: int|
                        0 <= j < i ==> !contains_seq(lowercase(#[trigger] items_or_empty(s.tags)[j]), lq@),
                decreases tags.len() - i,
            {
                assert(items_or_empty(s.tags)[i as int] == tags@[i as int]@);
                if lower_contains(tags[i].as_str(), lq) {
                    return true;
                }
                i = i + 1;
            }
            false
        },
    }
}

/// Case-insensitive substring filter over snippet name, command and tags.
/// An empty query matches every snippet.
pub fn filter_snippets(snippets: &[Snippet], query: &str) -> (res: Vec<usize>)
    ensures
        res@ == matching_snippets(snippets@, query@),
{
    let ghost pred = |i: usize| query@.len() == 0 || snippet_matches(snippets@[i as int], query@);
    let ghost all = all_indices(snippets@.len());
    let empty = chars_of(query).len() == 0;
    let lq = to_lowercase(query);
    let mut out: Vec<usize> = Vec::new();
    let mut i: usize = 0;
    assert(all.take(0) =~= Seq::<usize>::empty());
    while i < snippets.len()
        invariant
            i <= snippets.len(),
            all == all_indices(snippets@.len()),
            pred == (|i: usize| query@.len() == 0 || snippet_matches(snippets@[i as int], query@)),
            empty == (query@.len() == 0),
            lq@ == lowercase(query@),
            out@ == all.take(i as int).filter(pred),
        decreases snippets.len() - i,
    {
        proof {
            assert(all.take(i + 1) =~= all.take(i as int).push(i));
            all.take(i as int).lemma_filter_push(i, pred);
        }
        if empty || snippet_matches_exec(&snippets[i], query, lq.as_str()) {
            out.push(i);
        }
        i = i + 1;
    }
    assert(all.take(snippets.len() as int) =~= all);
    out
}

/// UI state of the snippets screen.
#[derive(Debug, Default)]
pub struct SnippetsView {
    /// Selected row index within `filtered_indices`.
    pub selected: usize,
    /// True while the user is typing a search query.
    pub search_mode: bool,
    /// Current search query.
    pub search_query: String,
    /// Indices into the snippet list matching the current query.
    pub filtered_indices: Vec<usize>,
    /// Visible popup, if any.
    pub popup: Option<SnippetPopup>,
}

impl SnippetsView {
    /// The snippet-list index of the selected row, if any.
    pub fn selected_snippet_idx(&self) -> (res: Option<usize>)
        ensures
            res == (if self.selected < self.filtered_indices.len() {
                Some(self.filtered_indices@[self.selected as int])
            } else {
                None
            }),
    {
        if self.selected < self.filtered_indices.len() {
            Some(self.filtered_indices[self.selected])
        } else {
            None
        }
    }

    /// Rebuilds `filtered_indices` for `query` and clamps the selection
    /// into the new list.
    pub fn rebuild_filter(&mut self, snippets: &[Snippet], query: &str)
        ensures
            final(self).filtered_indices@ == matching_snippets(snippets@, query@),
            final(self).selected == clamp_selection(old(self).selected, final(self).filtered_indices@.len()),
            final(self).search_mode == old(self).search_mode,
            final(self).search_query == old(self).search_query,
            final(self).popup == old(self).popup,
    {
        self.filtered_indices = filter_snippets(snippets, query);
        if self.filtered_indices.len() == 0 {
            self.selected = 0;
        } else if self.selected >= self.filtered_indices.len() {
            self.selected = self.filtered_indices.len() - 1;
        }
    }

    /// Moves the selection down one row, stopping at the last row.
    pub fn select_next(&mut self)
        requires
            old(self).selected < usize::MAX,
        ensures
            final(self).selected == if old(self).filtered_indices.len() == 0 {
                old(self).selected as int
            } else if old(self).selected + 1 < old(self).filtered_indices.len() {
                old(self).selected + 1
            } else {
                old(self).filtered_indices.len() - 1
            },
            final(self).filtered_indices == old(self).filtered_indices,
    {
        if self.filtered_indices.len() == 0 {
            return;
        }
        let last = self.filtered_indices.len() - 1;
        let next = self.selected + 1;
        self.selected = if next < last { next } else { last };
    }

    /// Moves the selection up one row, stopping at the first row.
    pub fn select_prev(&mut self)
        ensures
            final(self).selected == if old(self).selected == 0 {
                0
            } else {
                old(self).selected - 1
            },
            final(self).filtered_indices == old(self).filtered_indices,
    {
        self.selected = if self.selected == 0 { 0 } else { self.selected - 1 };
    }
}

/// The placeholder text for parameter `name`: `{{name}}`.
pub open spec fn placeholder(name: Seq<char>) -> Seq<char> {
    "{{"@ + name + "}}"@
}

/// `cmd` with the placeholder of each `names[i]` replaced by `values[i]`,
/// one name after the other, for as many pairs as both lists hold.
pub open spec fn substituted(cmd: Seq<char>, names: Seq<Seq<char>>, values: Seq<Seq<char>>) -> Seq<char>
    decreases names.len(),
{
    if names.len() == 0 || values.len() == 0 {
        cmd
    } else {
        substituted(
            replace_all(cmd, placeholder(names[0]), values[0]),
            names.drop_first(),
            values.drop_first(),
        )
    }
}

fn placeholder_chars(name: &str) -> (res: Vec<char>)
    ensures
        res@ == placeholder(name@),
        res.len() > 0,
{
    let mut out: Vec<char> = Vec::new();
    append_str(&mut out, "{{");
    append_str(&mut out, name);
    append_str(&mut out, "}}");
    proof {
        reveal_strlit("{{");
        reveal_strlit("}}");
    }
    out
}

/// Replaces the `{{name}}` placeholders of `command` with the values
/// parallel to `param_names`; names without a value, and values without a
/// name, are left out. Values are inserted verbatim and not rescanned for
/// the current name.
pub fn substitute_params(command: &str, param_names: Option<&[String]>, param_values: &[String]) -> (res: String)
    ensures
        res@ == match param_names {
            None => command@,
            Some(names) => substituted(command@, views(names@), views(param_values@)),
        },
{
    match param_names {
        None => owned_str(command),
        Some(names) => {
            let mut cur = chars_of(command);
            let mut i: usize = 0;
            let ghost nv = views(names@);
            let ghost vv = views(param_values@);
            assert(nv.skip(0) =~= nv);
            assert(vv.skip(0) =~= vv);
            while i < names.len() && i < param_values.len()
                invariant
                    i <= names.len(),
                    i <= param_values.len(),
                    nv == views(names@),
                    vv == views(param_values@),
                    substituted(command@, nv, vv) == substituted(cur@, nv.skip(i as int), vv.skip(i as int)),
                decreases names.len() - i,
            {
                let pat = placeholder_chars(names[i].as_str());
                let rep = chars_of(param_values[i].as_str());
                let next = replace_chars(&cur, &pat, &rep);
                assert(nv.skip(i as int)[0] == names@[i as int]@);
                assert(vv.skip(i as int)[0] == param_values@[i as int]@);
                assert(nv.skip(i as int).drop_first() =~= nv.skip(i + 1));
                assert(vv.skip(i as int).drop_first() =~= vv.skip(i + 1));
                cur = next;
                i = i + 1;
            }
            proof {
                if i == names.len() {
                    assert(nv.skip(i as int).len() == 0);
                } else {
                    assert(vv.skip(i as int).len() == 0);
                }
            }
            string_of(&cur)
        },
    }
}

fn owned_str(s: &str) -> (res: String)
    ensures
        res@ == s@,
{
    crate::text::owned(s)
}

/// The placeholder of a parameter is its name in double braces.
pub proof fn law_placeholder_is_braced_name(name: Seq<char>)
    ensures
        placeholder(name) == seq!['{', '{'] + name + seq!['}', '}'],
{
    reveal_strlit("{{");
    reveal_strlit("}}");
    assert("{{"@ =~= seq!['{', '{']);
    assert("}}"@ =~= seq!['}', '}']);
}

/// Substitution takes the pairs in order: with one more name and value,
/// the result is the earlier result with every placeholder of the new name
/// replaced by the new value. Without names or without values the command
/// is kept.
pub proof fn law_substitute_one_pair_more(
    cmd: Seq<char>,
    names: Seq<Seq<char>>,
    values: Seq<Seq<char>>,
    name: Seq<char>,
    value: Seq<char>,
)
    requires
        names.len() == values.len(),
    ensures
        substituted(cmd, names.push(name), values.push(value)) == replace_all(
            substituted(cmd, names, values),
            placeholder(name),
            value,
        ),
        substituted(cmd, Seq::empty(), values) == cmd,
        substituted(cmd, names, Seq::empty()) == cmd,
    decreases names.len(),
{
    if names.len() == 0 {
        assert(names.push(name).drop_first() =~= Seq::<Seq<char>>::empty());
        assert(values.push(value).drop_first() =~= Seq::<Seq<char>>::empty());
        assert(names.push(name)[0] == name);
        assert(values.push(value)[0] == value);
        let r = replace_all(cmd, placeholder(name), value);
        assert(substituted(r, Seq::<Seq<char>>::empty(), Seq::<Seq<char>>::empty()) == r);
    } else {
        let c1 = replace_all(cmd, placeholder(names[0]), values[0]);
        assert(names.push(name).drop_first() =~= names.drop_first().push(name));
        assert(values.push(value).drop_first() =~= values.drop_first().push(value));
        assert(names.push(name)[0] == names[0]);
        assert(values.push(value)[0] == values[0]);
        law_substitute_one_pair_more(c1, names.drop_first(), values.drop_first(), name, value);
    }
}

/// Names beyond the last value, and values beyond the last name, play no
/// part.
pub proof fn law_substitute_unpaired_ignored(cmd: Seq<char>, names: Seq<Seq<char>>, values: Seq<Seq<char>>)
    ensures
        ({
            let m = if names.len() < values.len() {
                names.len()
            } else {
                values.len()
            };
            substituted(cmd, names, values) == substituted(cmd, names.take(m as int), values.take(m as int))
        }),
    decreases names.len(),
{
    if names.len() > 0 && values.len() > 0 {
        let m = if names.len() < values.len() {
            names.len()
        } else {
            values.len()
        };
        law_substitute_unpaired_ignored(
            replace_all(cmd, placeholder(names[0]), values[0]),
            names.drop_first(),
            values.drop_first(),
        );
        assert(names.take(m as int).drop_first() =~= names.drop_first().take(m - 1));
        assert(values.take(m as int).drop_first() =~= values.drop_first().take(m - 1));
        assert(names.take(m as int)[0] == names[0]);
        assert(values.take(m as int)[0] == values[0]);
    }
}

/// A command none of whose placeholders occur comes back unchanged.
pub proof fn lemma_substitute_absent(cmd: Seq<char>, names: Seq<Seq<char>>, values: Seq<Seq<char>>)
    requires
        forall|i: int| 0 <= i < names.len() ==> !contains_seq(cmd, #[trigger] placeholder(names[i])),
    ensures
        substituted(cmd, names, values) == cmd,
    decreases names.len(),
{
    if names.len() > 0 && values.len() > 0 {
        lemma_replace_absent(cmd, placeholder(names[0]), values[0]);
        assert forall|i: int| 0 <= i < names.drop_first().len() implies !contains_seq(
            cmd,
            #[trigger] placeholder(names.drop_first()[i]),
        ) by {
            assert(names.drop_first()[i] == names[i + 1]);
        }
        lemma_substitute_absent(cmd, names.drop_first(), values.drop_first());
    }
}

/// Replacing a pattern that does not occur changes nothing.
pub proof fn lemma_replace_absent(s: Seq<char>, pat: Seq<char>, rep: Seq<char>)
    requires
        !contains_seq(s, pat),
    ensures
        replace_all(s, pat, rep) == s,
    decreases s.len(),
{
    if pat.len() == 0 || s.len() == 0 {
    } else {
        if pat.len() <= s.len() && s.take(pat.len() as int) =~= pat {
            assert(s.subrange(0, pat.len() as int) =~= s.take(pat.len() as int));
            assert(crate::text::occurs_at(s, pat, 0));
        }
        let t = s.skip(1);
        assert(!contains_seq(t, pat)) by {
            if contains_seq(t, pat) {
                let i = choose|i: int| crate::text::occurs_at(t, pat, i);
                assert(s.subrange(i + 1, i + 1 + pat.len()) =~= t.subrange(i, i + pat.len()));
                assert(crate::text::occurs_at(s, pat, i + 1));
            }
        }
        lemma_replace_absent(t, pat, rep);
        assert(seq![s[0]] + t =~= s);
    }
}


/// Replacement goes left to right: in `s`, text `a` before the first
/// occurrence of a non-empty pattern is kept, that occurrence becomes the
/// replacement, and the rest `b` after it is replaced in the same way.
#[verifier::spinoff_prover]
#[verifier::rlimit(50)]
pub proof fn law_replace_first_occurrence(s: Seq<char>, a: Seq<char>, pat: Seq<char>, rep: Seq<char>, b: Seq<char>)
    requires
        pat.len() > 0,
        s == a + pat + b,
        forall|i: int| 0 <= i < a.len() ==> !crate::text::occurs_at(s, pat, i),
    ensures
        replace_all(s, pat, rep) == a + rep + replace_all(b, pat, rep),
    decreases a.len(),
{
    if a.len() == 0 {
        assert(s.take(pat.len() as int) =~= pat);
        assert(s.skip(pat.len() as int) =~= b);
        assert(a + rep + replace_all(b, pat, rep) =~= rep + replace_all(b, pat, rep));
    } else {
        assert(!crate::text::occurs_at(s, pat, 0));
        assert(s.take(pat.len() as int) != pat) by {
            if s.take(pat.len() as int) == pat {
                assert(s.subrange(0, pat.len() as int) =~= s.take(pat.len() as int));
            }
        }
        let a1 = a.drop_first();
        let t = s.skip(1);
        assert(t =~= a1 + pat + b);
        assert forall|i: int| 0 <= i < a1.len() implies !crate::text::occurs_at(t, pat, i) by {
            assert(!crate::text::occurs_at(s, pat, i + 1));
            if i + pat.len() <= t.len() {
                assert(s.subrange(i + 1, i + 1 + pat.len()) =~= t.subrange(i, i + pat.len()));
            }
        }
        law_replace_first_occurrence(t, a1, pat, rep, b);
        let x = replace_all(b, pat, rep);
        assert(replace_all(s, pat, rep) == seq![s[0]] + replace_all(t, pat, rep));
        assert(s[0] == a[0]);
        assert(seq![a[0]] + (a1 + rep + x) =~= a + rep + x);
    }
}

/// Each quick view runs the tool of its own service and is titled by the
/// service's name: Docker runs `docker`, Nginx asks `systemctl` about
/// `nginx`, PostgreSQL runs `psql`, Redis runs `redis-cli`, Node.js runs
/// `pm2`.
pub proof fn law_quick_view_matches_service()
    ensures
        contains_seq(quick_view_text(ServiceKind::Docker).0, "docker"@),
        contains_seq(quick_view_text(ServiceKind::Nginx).0, "nginx"@),
        contains_seq(quick_view_text(ServiceKind::PostgreSQL).0, "psql"@),
        contains_seq(quick_view_text(ServiceKind::Redis).0, "redis-cli"@),
        contains_seq(quick_view_text(ServiceKind::NodeJS).0, "pm2"@),
        quick_view_text(ServiceKind::Docker).1.take(6) == "Docker"@,
        quick_view_text(ServiceKind::Nginx).1.take(5) == "Nginx"@,
        quick_view_text(ServiceKind::PostgreSQL).1.take(10) == "PostgreSQL"@,
        quick_view_text(ServiceKind::Redis).1.take(5) == "Redis"@,
        quick_view_text(ServiceKind::NodeJS).1.take(4) == "Node"@,
{
    let d = quick_view_text(ServiceKind::Docker);
    let n = quick_view_text(ServiceKind::Nginx);
    let p = quick_view_text(ServiceKind::PostgreSQL);
    let r = quick_view_text(ServiceKind::Redis);
    let j = quick_view_text(ServiceKind::NodeJS);
    reveal_strlit("docker compose ps -a 2>/dev/null || docker ps -a");
    reveal_strlit("echo '=== Nginx Status ===' && systemctl status nginx --no-pager || service nginx status");
    reveal_strlit(
        "echo '=== PostgreSQL Connections ===' && sudo -u postgres psql -c 'SELECT count(*) as connections, state FROM pg_stat_activity GROUP BY state;' 2>/dev/null || echo 'No access to PostgreSQL'",
    );
    reveal_strlit("echo '=== Redis Info ===' && redis-cli info server 2>/dev/null | head -20 || echo 'Redis not accessible'");
    reveal_strlit(
        "echo '=== PM2 Status ===' && pm2 status 2>/dev/null || (echo '=== Node Processes ===' && ps aux | grep -E '[n]ode ' | head -10)",
    );
    reveal_strlit("Docker Containers");
    reveal_strlit("Nginx Status");
    reveal_strlit("PostgreSQL Connections");
    reveal_strlit("Redis Info");
    reveal_strlit("Node.js Processes");
    reveal_strlit("docker");
    reveal_strlit("nginx");
    reveal_strlit("psql");
    reveal_strlit("redis-cli");
    reveal_strlit("pm2");
    reveal_strlit("Docker");
    reveal_strlit("Nginx");
    reveal_strlit("PostgreSQL");
    reveal_strlit("Redis");
    reveal_strlit("Node");
    assert(crate::text::occurs_at(d.0, "docker"@, 0));
    assert(crate::text::occurs_at(n.0, "nginx"@, 48));
    assert(crate::text::occurs_at(p.0, "psql"@, 58));
    assert(crate::text::occurs_at(r.0, "redis-cli"@, 29));
    assert(crate::text::occurs_at(j.0, "pm2"@, 29));
    assert(d.1.take(6) =~= "Docker"@);
    assert(n.1.take(5) =~= "Nginx"@);
    assert(p.1.take(10) =~= "PostgreSQL"@);
    assert(r.1.take(5) =~= "Redis"@);
    assert(j.1.take(4) =~= "Node"@);
}

/// The command a quick view of a service runs, and the title it is shown
/// under.
pub open spec fn quick_view_text(kind: ServiceKind) -> (Seq<char>, Seq<char>) {
    match kind {
        ServiceKind::Docker => ("docker compose ps -a 2>/dev/null || docker ps -a"@, "Docker Containers"@),
        ServiceKind::Nginx => (
            "echo '=== Nginx Status ===' && systemctl status nginx --no-pager || service nginx status"@,
            "Nginx Status"@,
        ),
        ServiceKind::PostgreSQL => (
            "echo '=== PostgreSQL Connections ===' && sudo -u postgres psql -c 'SELECT count(*) as connections, state FROM pg_stat_activity GROUP BY state;' 2>/dev/null || echo 'No access to PostgreSQL'"@,
            "PostgreSQL Connections"@,
        ),
        ServiceKind::Redis => (
            "echo '=== Redis Info ===' && redis-cli info server 2>/dev/null | head -20 || echo 'Redis not accessible'"@,
            "Redis Info"@,
        ),
        ServiceKind::NodeJS => (
            "echo '=== PM2 Status ===' && pm2 status 2>/dev/null || (echo '=== Node Processes ===' && ps aux | grep -E '[n]ode ' | head -10)"@,
            "Node.js Processes"@,
        ),
    }
}

/// The command a quick view of `kind` runs on the selected host, and the
/// title of its result.
pub fn quick_view_command(kind: ServiceKind) -> (res: (&'static str, &'static str))
    ensures
        (res.0@, res.1@) == quick_view_text(kind),
{
    match kind {
        ServiceKind::Docker => ("docker compose ps -a 2>/dev/null || docker ps -a", "Docker Containers"),
        ServiceKind::Nginx => (
            "echo '=== Nginx Status ===' && systemctl status nginx --no-pager || service nginx status",
            "Nginx Status",
        ),
        ServiceKind::PostgreSQL => (
            "echo '=== PostgreSQL Connections ===' && sudo -u postgres psql -c 'SELECT count(*) as connections, state FROM pg_stat_activity GROUP BY state;' 2>/dev/null || echo 'No access to PostgreSQL'",
            "PostgreSQL Connections",
        ),
        ServiceKind::Redis => (
            "echo '=== Redis Info ===' && redis-cli info server 2>/dev/null | head -20 || echo 'Redis not accessible'",
            "Redis Info",
        ),
        ServiceKind::NodeJS => (
            "echo '=== PM2 Status ===' && pm2 status 2>/dev/null || (echo '=== Node Processes ===' && ps aux | grep -E '[n]ode ' | head -10)",
            "Node.js Processes",
        ),
    }
}


/// The values the edit form shows for `s`, field by field.
pub open spec fn snippet_form_values(s: Snippet) -> Seq<Seq<char>> {
    seq![
        s.name@,
        s.command@,
        scope_text(s.scope),
        or_empty(s.host),
        join(items_or_empty(s.tags), ", "@),
        join(items_or_empty(s.params), ", "@),
    ]
}

/// An optional list that is absent, or holds at least one item, each
/// trimmed and free of commas.
pub open spec fn list_describable(o: Option<Vec<String>>) -> bool {
    match o {
        None => true,
        Some(v) => v.len() > 0 && forall|i: int| 0 <= i < v.len() ==> plain_item(#[trigger] v@[i]@),
    }
}

/// A snippet whose name and command are trimmed, whose host is absent or
/// trimmed, and whose tags and parameters are describable lists.
pub open spec fn snippet_describable(s: Snippet) -> bool {
    &&& trimmed_text(s.name@)
    &&& trimmed_text(s.command@)
    &&& opt_trimmed(s.host)
    &&& list_describable(s.tags)
    &&& list_describable(s.params)
}

proof fn lemma_list_round_trip(o: Option<Vec<String>>, back: Option<Vec<String>>)
    requires
        list_describable(o),
        list_field(back, join(items_or_empty(o), ", "@)),
    ensures
        items_or_empty(back) == items_or_empty(o),
        back is Some == o is Some,
{
    assert forall|i: int| 0 <= i < items_or_empty(o).len() implies plain_item(#[trigger] items_or_empty(o)[i]) by {
        match o {
            Some(v) => {
                assert(items_or_empty(o)[i] == v@[i]@);
            },
            None => {},
        }
    }
    lemma_list_items_join(items_or_empty(o));
}

/// Two snippets with the same name, command, scope, host, tags and
/// parameters.
pub open spec fn same_snippet(a: Snippet, b: Snippet) -> bool {
    &&& a.name@ == b.name@
    &&& a.command@ == b.command@
    &&& a.scope == b.scope
    &&& opt_view(a.host) == opt_view(b.host)
    &&& a.tags is Some == b.tags is Some
    &&& items_or_empty(a.tags) == items_or_empty(b.tags)
    &&& a.params is Some == b.params is Some
    &&& items_or_empty(a.params) == items_or_empty(b.params)
}

/// The scope names are trimmed ASCII text in lower case.
proof fn lemma_scope_text_lowercase(sc: SnippetScope)
    ensures
        trim(scope_text(sc)) == scope_text(sc),
        ascii_text(scope_text(sc)),
        scope_text(sc).map_values(|c: char| ascii_lower(c)) == scope_text(sc),
        (scope_text(sc) == "host"@) == (sc == SnippetScope::Host),
{
    reveal_strlit("host");
    reveal_strlit("global");
    let t = scope_text(sc);
    assert(!is_ws(t[0]) && !is_ws(t.last()));
    lemma_trim_trimmed(t);
    assert(t.map_values(|c: char| ascii_lower(c)) =~= t);
    if sc == SnippetScope::Global {
        assert(t[0] != "host"@[0]);
    }
}

/// A form filled from a describable snippet, whose lower-cased scope text
/// is the scope text itself, has no error and reads back the same scope.
proof fn lemma_snippet_form_accepts(s: Snippet)
    requires
        snippet_describable(s),
        s.scope == SnippetScope::Host ==> s.host is Some,
        lowercase(scope_text(s.scope)) == scope_text(s.scope),
    ensures
        snippet_form_error(snippet_form_values(s)) is None,
        scope_of(scope_text(s.scope)) == s.scope,
{
    let f = snippet_form_values(s);
    lemma_scope_text_lowercase(s.scope);
    lemma_trim_trimmed(s.name@);
    lemma_trim_trimmed(s.command@);
    if let Some(h) = s.host {
        lemma_trim_trimmed(h@);
    }
}

/// The edit form gives back the snippet it was filled from: its name and
/// command are not blank, and a snippet read from it has the same name,
/// command, host, tags and parameters.
pub proof fn lemma_snippet_form_round_trip(s: Snippet, back: Snippet)
    requires
        snippet_describable(s),
        snippet_of_form(back, snippet_form_values(s)),
    ensures
        trim(snippet_form_values(s)[0]).len() > 0,
        trim(snippet_form_values(s)[1]).len() > 0,
        back.name@ == s.name@,
        back.command@ == s.command@,
        opt_view(back.host) == opt_view(s.host),
        items_or_empty(back.tags) == items_or_empty(s.tags),
        back.tags is Some == s.tags is Some,
        items_or_empty(back.params) == items_or_empty(s.params),
        back.params is Some == s.params is Some,
{
    lemma_trim_trimmed(s.name@);
    lemma_trim_trimmed(s.command@);
    match s.host {
        Some(h) => {
            lemma_trim_trimmed(h@);
        },
        None => {
            assert(trim(Seq::<char>::empty()) =~= Seq::<char>::empty());
        },
    }
    lemma_list_round_trip(s.tags, back.tags);
    lemma_list_round_trip(s.params, back.params);
}

} // verus!
