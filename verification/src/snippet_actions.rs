//! What the snippets screen's confirmations do: saving the form, deleting,
//! asking for parameter values, and preparing a run on a set of hosts.

use vstd::prelude::*;

use crate::form::FormField;
use crate::host::Host;
use crate::host_list::clamp_selection;
use crate::snippets::{
    matching_snippets, snippet_form_error, snippet_of_form, substitute_params, substituted, values_of,
    Snippet, SnippetPopup, SnippetResultEntry, SnippetsView,
};
use crate::text::{append_str, chars_of, owned, string_of, trim, trim_chars, views};

verus! {

/// What confirming a snippet popup changed beyond the lists themselves.
#[derive(Debug)]
pub struct SnippetConfirmed {
    /// The new status message, if it changes.
    pub status: Option<String>,
    /// The snippet list changed and is to be saved.
    pub snippets_changed: bool,
}

/// The snippet view after its filter is rebuilt for `snippets`.
pub open spec fn refiltered(before: SnippetsView, after: SnippetsView, snippets: Seq<Snippet>) -> bool {
    &&& after.filtered_indices@ == matching_snippets(snippets, before.search_query@)
    &&& after.selected == clamp_selection(before.selected, after.filtered_indices@.len())
    &&& after.search_query == before.search_query
}

fn refilter(snippets: &Vec<Snippet>, view: &mut SnippetsView)
    ensures
        refiltered(*old(view), *final(view), snippets@),
        final(view).popup == old(view).popup,
{
    let q = owned(view.search_query.as_str());
    view.rebuild_filter(snippets.as_slice(), q.as_str());
}

fn error_text(e: &str) -> (res: String)
    ensures
        res@ == "Error: "@ + e@,
{
    let mut m: Vec<char> = Vec::new();
    append_str(&mut m, "Error: ");
    append_str(&mut m, e);
    string_of(&m)
}

/// What confirming the snippet form does, from the snippets `os` and view
/// `ov` before to `fs` and `fv` after, with the outcome `res`: a valid add
/// form appends its snippet, a valid edit form replaces the edited one, an
/// invalid form stays open with its error, and any other popup is left as
/// it is.
pub open spec fn snippet_form_confirmed(
    os: Seq<Snippet>,
    fs: Seq<Snippet>,
    ov: SnippetsView,
    fv: SnippetsView,
    res: SnippetConfirmed,
) -> bool {
    match ov.popup {
        Some(SnippetPopup::Add(f)) => match snippet_form_error(values_of(f.fields@)) {
            Some(e) => {
                &&& fv.popup == ov.popup
                &&& res.status matches Some(m) && m@ == "Error: "@ + e
                &&& !res.snippets_changed
                &&& fs == os
            },
            None => {
                &&& fv.popup is None
                &&& fs.len() == os.len() + 1
                &&& fs.drop_last() == os
                &&& snippet_of_form(fs.last(), values_of(f.fields@))
                &&& res.status matches Some(m) && m@ == "Snippet added."@
                &&& res.snippets_changed
                &&& refiltered(ov, fv, fs)
            },
        },
        Some(SnippetPopup::Edit { snippet_idx, form }) => match snippet_form_error(values_of(form.fields@)) {
            Some(e) => {
                &&& fv.popup == ov.popup
                &&& res.status matches Some(m) && m@ == "Error: "@ + e
                &&& !res.snippets_changed
                &&& fs == os
            },
            None => {
                &&& fv.popup is None
                &&& fs.len() == os.len()
                &&& forall|i: int| 0 <= i < os.len() && i != snippet_idx ==> #[trigger] fs[i] == os[i]
                &&& snippet_idx < os.len() ==> snippet_of_form(fs[snippet_idx as int], values_of(form.fields@))
                &&& res.status matches Some(m) && m@ == "Snippet updated."@
                &&& res.snippets_changed
                &&& refiltered(ov, fv, fs)
            },
        },
        _ => fv.popup == ov.popup && res.status is None && !res.snippets_changed && fs == os,
    }
}

/// Confirms the snippet add/edit form: a valid form adds its snippet or
/// replaces the edited one (when that one exists) and the list is refiltered;
/// an invalid form stays open with the error shown; any other popup is left
/// as it is.
pub fn confirm_snippet_form(snippets: &mut Vec<Snippet>, view: &mut SnippetsView) -> (res: SnippetConfirmed)
    requires
        old(view).popup matches Some(SnippetPopup::Add(f)) ==> f.fields.len() >= 6,
        old(view).popup matches Some(SnippetPopup::Edit { form, .. }) ==> form.fields.len() >= 6,
    ensures
        snippet_form_confirmed(old(snippets)@, final(snippets)@, *old(view), *final(view), res),
{
    let popup = view.popup.take();
    match popup {
        Some(SnippetPopup::Add(form)) => match form.to_snippet() {
            Ok(s) => {
                snippets.push(s);
                assert(snippets@.drop_last() =~= old(snippets)@);
                refilter(snippets, view);
                SnippetConfirmed { status: Some(owned("Snippet added.")), snippets_changed: true }
            },
            Err(e) => {
                let m = error_text(e.as_str());
                view.popup = Some(SnippetPopup::Add(form));
                SnippetConfirmed { status: Some(m), snippets_changed: false }
            },
        },
        Some(SnippetPopup::Edit { snippet_idx, form }) => match form.to_snippet() {
            Ok(s) => {
                if snippet_idx < snippets.len() {
                    snippets.set(snippet_idx, s);
                }
                refilter(snippets, view);
                SnippetConfirmed { status: Some(owned("Snippet updated.")), snippets_changed: true }
            },
            Err(e) => {
                let m = error_text(e.as_str());
                view.popup = Some(SnippetPopup::Edit { snippet_idx, form });
                SnippetConfirmed { status: Some(m), snippets_changed: false }
            },
        },
        other => {
            view.popup = other;
            SnippetConfirmed { status: None, snippets_changed: false }
        },
    }
}

/// Confirms a snippet deletion: removes the snippet it names when it
/// exists and refilters; the popup closes whichever popup it was.
pub fn confirm_snippet_delete(snippets: &mut Vec<Snippet>, view: &mut SnippetsView) -> (res: SnippetConfirmed)
    ensures
        final(view).popup is None,
        match old(view).popup {
            Some(SnippetPopup::DeleteConfirm(idx)) => {
                &&& res.snippets_changed
                &&& refiltered(*old(view), *final(view), final(snippets)@)
                &&& if idx < old(snippets).len() {
                    &&& final(snippets)@ == old(snippets)@.remove(idx as int)
                    &&& res.status matches Some(m) && m@ == "Deleted snippet '"@ + old(snippets)@[idx as int].name@
                        + "'."@
                } else {
                    final(snippets)@ == old(snippets)@ && res.status is None
                }
            },
            _ => !res.snippets_changed && res.status is None && final(snippets)@ == old(snippets)@,
        },
{
    let popup = view.popup.take();
    match popup {
        Some(SnippetPopup::DeleteConfirm(idx)) => {
            let mut status: Option<String> = None;
            if idx < snippets.len() {
                let removed = snippets.remove(idx);
                let mut m: Vec<char> = Vec::new();
                append_str(&mut m, "Deleted snippet '");
                append_str(&mut m, removed.name.as_str());
                append_str(&mut m, "'.");
                status = Some(string_of(&m));
            }
            refilter(snippets, view);
            SnippetConfirmed { status, snippets_changed: true }
        },
        _ => SnippetConfirmed { status: None, snippets_changed: false },
    }
}

/// A prepared run of a snippet: the command after parameter substitution
/// and the results popup with one pending entry per host.
#[derive(Debug)]
pub struct SnippetRun {
    pub command: String,
    pub popup: SnippetPopup,
}

/// The results popup entries waiting for `host_names`.
pub open spec fn pending_entries(entries: Seq<SnippetResultEntry>, host_names: Seq<Seq<char>>, name: Seq<char>) -> bool {
    &&& entries.len() == host_names.len()
    &&& forall|i: int|
        0 <= i < entries.len() ==> {
            let e = #[trigger] entries[i];
            &&& e.host_name@ == host_names[i]
            &&& e.snippet_name@ == name
            &&& e.output matches Ok(o) && o@.len() == 0
            &&& e.pending
        }
}

/// The results popup of a run just started: one pending entry per host.
pub open spec fn run_pending(popup: SnippetPopup, host_names: Seq<Seq<char>>, name: Seq<char>) -> bool {
    popup matches SnippetPopup::Results { entries, scroll } && scroll == 0 && pending_entries(
        entries@,
        host_names,
        name,
    )
}

/// Prepares running `snippet` on `host_names` with `param_values` for its
/// parameters.
pub fn prepare_run(snippet: &Snippet, host_names: &[String], param_values: &[String]) -> (res: SnippetRun)
    ensures
        res.command@ == match snippet.params {
            None => snippet.command@,
            Some(names) => substituted(snippet.command@, views(names@), views(param_values@)),
        },
        res.popup matches SnippetPopup::Results { entries, scroll } && scroll == 0 && pending_entries(
            entries@,
            views(host_names@),
            snippet.name@,
        ),
{
    let names: Option<&[String]> = match &snippet.params {
        Some(v) => Some(v.as_slice()),
        None => None,
    };
    let command = substitute_params(snippet.command.as_str(), names, param_values);
    let mut entries: Vec<SnippetResultEntry> = Vec::new();
    let mut i: usize = 0;
    while i < host_names.len()
        invariant
            i <= host_names.len(),
            pending_entries(entries@, views(host_names@).take(i as int), snippet.name@),
        decreases host_names.len() - i,
    {
        entries.push(
            SnippetResultEntry {
                host_name: owned(host_names[i].as_str()),
                snippet_name: owned(snippet.name.as_str()),
                output: Ok(String::new()),
                pending: true,
            },
        );
        assert(views(host_names@).take(i + 1)[i as int] == host_names@[i as int]@);
        assert forall|j: int| 0 <= j < i implies views(host_names@).take(i + 1)[j] == views(host_names@).take(
            i as int,
        )[j] by {}
        i = i + 1;
    }
    assert(views(host_names@).take(host_names.len() as int) =~= views(host_names@));
    SnippetRun { command, popup: SnippetPopup::Results { entries, scroll: 0 } }
}

/// What running a snippet starts with.
#[derive(Debug)]
pub enum SnippetStart {
    /// The snippet has parameters: ask for their values first.
    AskParams(SnippetPopup),
    /// No parameters: run it now.
    Run(SnippetRun),
}

/// Starts running the snippet at `snippet_idx` of `snippet` on
/// `host_names`: a snippet with parameters first asks for their values,
/// with one empty field per parameter; one without runs now.
pub fn start_snippet(snippet: &Snippet, snippet_idx: usize, host_names: Vec<String>) -> (res: SnippetStart)
    ensures
        match snippet.params {
            Some(p) if p.len() > 0 => res matches SnippetStart::AskParams(
                SnippetPopup::ParamInput { snippet_idx: i, host_names: hs, param_names: ps, param_fields: fs, focused_field: f },
            ) && i == snippet_idx && hs@ == host_names@ && views(ps@) == views(p@) && fs.len() == p.len() && f == 0
                && forall|k: int| 0 <= k < fs.len() ==> (#[trigger] fs@[k]).value@.len() == 0 && fs@[k].cursor == 0,
            _ => res matches SnippetStart::Run(r) && r.command@ == snippet.command@ && run_pending(
                r.popup,
                views(host_names@),
                snippet.name@,
            ),
        },
{
    let count: usize = match &snippet.params {
        Some(p) => p.len(),
        None => 0,
    };
    if count > 0 {
        let mut names: Vec<String> = Vec::new();
        let mut fields: Vec<FormField> = Vec::new();
        let p = snippet.params.as_ref().unwrap();
        let mut k: usize = 0;
        while k < count
            invariant
                count == p.len(),
                k <= count,
                names.len() == k,
                fields.len() == k,
                views(names@) == views(p@).take(k as int),
                forall|j: int| 0 <= j < k ==> (#[trigger] fields@[j]).value@.len() == 0 && fields@[j].cursor == 0,
            decreases count - k,
        {
            let ghost before = views(names@);
            names.push(owned(p[k].as_str()));
            assert(views(names@) =~= before.push(p@[k as int]@));
            assert(views(p@).take(k + 1) =~= views(p@).take(k as int).push(p@[k as int]@));
            fields.push(FormField::default());
            k = k + 1;
        }
        assert(views(p@).take(count as int) =~= views(p@));
        SnippetStart::AskParams(
            SnippetPopup::ParamInput {
                snippet_idx,
                host_names,
                param_names: names,
                param_fields: fields,
                focused_field: 0,
            },
        )
    } else {
        let empty: Vec<String> = Vec::new();
        let run = prepare_run(snippet, host_names.as_slice(), empty.as_slice());
        proof {
            if snippet.params is Some {
                assert(views(snippet.params->0@).len() == 0);
                assert(views(snippet.params->0@) =~= Seq::<Seq<char>>::empty());
            }
        }
        SnippetStart::Run(run)
    }
}

/// The trimmed values of the parameter fields, in order.
pub fn param_values(fields: &[FormField]) -> (res: Vec<String>)
    ensures
        views(res@) == fields@.map_values(|f: FormField| trim(f.value@)),
{
    let mut out: Vec<String> = Vec::new();
    let mut i: usize = 0;
    while i < fields.len()
        invariant
            i <= fields.len(),
            views(out@) == fields@.map_values(|f: FormField| trim(f.value@)).take(i as int),
        decreases fields.len() - i,
    {
        let t = trim_chars(&chars_of(fields[i].value.as_str()));
        let ghost before = views(out@);
        out.push(string_of(&t));
        assert(views(out@) =~= before.push(trim(fields@[i as int].value@)));
        assert(fields@.map_values(|f: FormField| trim(f.value@)).take(i + 1) =~= fields@.map_values(
            |f: FormField| trim(f.value@),
        ).take(i as int).push(trim(fields@[i as int].value@)));
        i = i + 1;
    }
    assert(fields@.map_values(|f: FormField| trim(f.value@)).take(fields.len() as int) =~= fields@.map_values(
        |f: FormField| trim(f.value@),
    ));
    out
}

/// The names of the checked hosts of a broadcast, in the order checked;
/// indices past the host list are skipped.
///
/// # Errors
/// `No hosts selected.` when nothing is checked.
pub fn broadcast_targets(selected: &[usize], hosts: &[Host]) -> (res: Result<Vec<String>, String>)
    ensures
        selected.len() == 0 <==> res is Err,
        res matches Err(e) ==> e@ == "No hosts selected."@,
        res matches Ok(names) ==> views(names@) == selected@.filter(|i: usize| i < hosts.len()).map_values(
            |i: usize| hosts@[i as int].name@,
        ),
{
    if selected.len() == 0 {
        return Err(owned("No hosts selected."));
    }
    let ghost keep = |i: usize| i < hosts.len();
    let ghost name_of = |i: usize| hosts@[i as int].name@;
    let mut out: Vec<String> = Vec::new();
    let mut k: usize = 0;
    assert(selected@.take(0) =~= Seq::<usize>::empty());
    while k < selected.len()
        invariant
            k <= selected.len(),
            keep == (|i: usize| i < hosts.len()),
            name_of == (|i: usize| hosts@[i as int].name@),
            views(out@) == selected@.take(k as int).filter(keep).map_values(name_of),
        decreases selected.len() - k,
    {
        let i = selected[k];
        proof {
            assert(selected@.take(k + 1) =~= selected@.take(k as int).push(i));
            selected@.take(k as int).lemma_filter_push(i, keep);
        }
        if i < hosts.len() {
            let ghost before = views(out@);
            out.push(owned(hosts[i].name.as_str()));
            assert(views(out@) =~= before.push(hosts@[i as int].name@));
            assert(selected@.take(k as int).filter(keep).push(i).map_values(name_of) =~= selected@.take(
                k as int,
            ).filter(keep).map_values(name_of).push(name_of(i)));
        }
        k = k + 1;
    }
    assert(selected@.take(selected.len() as int) =~= selected@);
    Ok(out)
}

} // verus!
