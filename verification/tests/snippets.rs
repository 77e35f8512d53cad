use omnyssh::form::FormField;
use omnyssh::snippets::{
    filter_snippets, substitute_params, Snippet, SnippetForm, SnippetScope, SnippetsView,
};

fn s(v: &str) -> String {
    v.to_string()
}

#[test]
fn subst_single_placeholder() {
    let out = substitute_params("echo {{name}}", Some(&[s("name")]), &[s("world")]);
    assert_eq!(out, "echo world");
}

#[test]
fn subst_multiple_placeholders() {
    let out = substitute_params("{{a}}-{{b}}", Some(&[s("a"), s("b")]), &[s("x"), s("y")]);
    assert_eq!(out, "x-y");
}

#[test]
fn subst_repeated_placeholder_replaces_all() {
    let out = substitute_params("{{x}} {{x}}", Some(&[s("x")]), &[s("v")]);
    assert_eq!(out, "v v");
}

#[test]
fn subst_no_params_returns_command_unchanged() {
    let out = substitute_params("echo hi", None, &[]);
    assert_eq!(out, "echo hi");
}

#[test]
fn subst_empty_value_removes_placeholder() {
    let out = substitute_params("a{{p}}b", Some(&[s("p")]), &[s("")]);
    assert_eq!(out, "ab");
}

#[test]
fn subst_missing_value_leaves_placeholder_literal() {
    let out = substitute_params("{{a}} {{b}}", Some(&[s("a"), s("b")]), &[s("x")]);
    assert_eq!(out, "x {{b}}");
}

#[test]
fn subst_extra_values_ignored() {
    let out = substitute_params("{{a}}", Some(&[s("a")]), &[s("x"), s("y")]);
    assert_eq!(out, "x");
}

#[test]
fn subst_unused_name_is_noop() {
    let out = substitute_params("echo hi", Some(&[s("unused")]), &[s("v")]);
    assert_eq!(out, "echo hi");
}

#[test]
fn subst_value_inserted_verbatim_no_shell_escaping() {
    let out = substitute_params("sh -c {{cmd}}", Some(&[s("cmd")]), &[s("; rm -rf /")]);
    assert_eq!(out, "sh -c ; rm -rf /");
}

#[test]
fn subst_unknown_braces_in_value_not_reexpanded() {
    let out = substitute_params("{{a}}", Some(&[s("a")]), &[s("{{evil}}")]);
    assert_eq!(out, "{{evil}}");
}

#[test]
fn subst_single_brace_untouched() {
    let out = substitute_params("{name}", Some(&[s("name")]), &[s("v")]);
    assert_eq!(out, "{name}");
}

#[test]
fn subst_name_with_spaces() {
    let out = substitute_params("{{db name}}", Some(&[s("db name")]), &[s("v")]);
    assert_eq!(out, "v");
}

#[test]
fn subst_later_name_sees_earlier_value() {
    // Values are substituted name by name, so a value holding a later
    // placeholder is expanded by that later name.
    let out = substitute_params("{{a}}", Some(&[s("a"), s("b")]), &[s("{{b}}"), s("z")]);
    assert_eq!(out, "z");
}

fn snippet_form(values: [&str; 6]) -> SnippetForm {
    let mut form = SnippetForm::empty();
    for (i, v) in values.iter().enumerate() {
        form.fields[i] = FormField::with_value(v);
    }
    form
}

fn snippet(name: &str, command: &str, tags: &[&str]) -> Snippet {
    Snippet {
        name: name.to_string(),
        command: command.to_string(),
        scope: SnippetScope::Global,
        host: None,
        tags: if tags.is_empty() {
            None
        } else {
            Some(tags.iter().map(|t| t.to_string()).collect())
        },
        params: None,
    }
}

#[test]
fn to_snippet_empty_name_errs() {
    assert!(snippet_form(["", "cmd", "global", "", "", ""])
        .to_snippet()
        .is_err());
}

#[test]
fn to_snippet_empty_command_errs() {
    assert!(snippet_form(["n", "", "global", "", "", ""])
        .to_snippet()
        .is_err());
}

#[test]
fn to_snippet_scope_defaults_global() {
    let snip = snippet_form(["n", "cmd", "", "", "", ""]).to_snippet().unwrap();
    assert_eq!(snip.scope, SnippetScope::Global);
}

#[test]
fn to_snippet_scope_host_explicit() {
    let snip = snippet_form(["n", "cmd", "host", "web", "", ""])
        .to_snippet()
        .unwrap();
    assert_eq!(snip.scope, SnippetScope::Host);
}

#[test]
fn to_snippet_scope_case_insensitive() {
    let snip = snippet_form(["n", "cmd", "HOST", "web", "", ""])
        .to_snippet()
        .unwrap();
    assert_eq!(snip.scope, SnippetScope::Host);
}

#[test]
fn to_snippet_host_required_when_scope_host() {
    assert!(snippet_form(["n", "cmd", "host", "", "", ""])
        .to_snippet()
        .is_err());
}

#[test]
fn to_snippet_host_kept_when_scope_global() {
    let snip = snippet_form(["n", "cmd", "global", "web", "", ""])
        .to_snippet()
        .unwrap();
    assert_eq!(snip.host.as_deref(), Some("web"));
}

#[test]
fn to_snippet_tags_params_split_and_trimmed() {
    let snip = snippet_form(["n", "cmd", "global", "", "a, b ,,", "p1, p2"])
        .to_snippet()
        .unwrap();
    assert_eq!(snip.tags, Some(vec!["a".to_string(), "b".to_string()]));
    assert_eq!(snip.params, Some(vec!["p1".to_string(), "p2".to_string()]));
}

#[test]
fn to_snippet_tags_params_none_when_empty() {
    let snip = snippet_form(["n", "cmd", "global", "", "", ""])
        .to_snippet()
        .unwrap();
    assert!(snip.tags.is_none());
    assert!(snip.params.is_none());
}

#[test]
fn to_snippet_error_messages() {
    assert_eq!(
        snippet_form(["  ", "cmd", "", "", "", ""]).to_snippet().unwrap_err(),
        "Name cannot be empty"
    );
    assert_eq!(
        snippet_form(["n", " ", "", "", "", ""]).to_snippet().unwrap_err(),
        "Command cannot be empty"
    );
    assert_eq!(
        snippet_form(["n", "c", " Host ", " ", "", ""]).to_snippet().unwrap_err(),
        "Host cannot be empty when scope is 'host'"
    );
}

#[test]
fn from_snippet_round_trips_through_form() {
    let snip = Snippet {
        name: "deploy".to_string(),
        command: "make deploy".to_string(),
        scope: SnippetScope::Host,
        host: Some("web".to_string()),
        tags: Some(vec!["ops".to_string(), "prod".to_string()]),
        params: Some(vec!["env".to_string()]),
    };
    let form = SnippetForm::from_snippet(&snip);
    assert_eq!(form.fields.len(), 6);
    assert_eq!(form.fields[2].value, "host");
    assert_eq!(form.fields[4].value, "ops, prod");
    assert_eq!(form.fields[4].cursor, "ops, prod".len());
    let back = form.to_snippet().unwrap();
    assert_eq!(back.name, snip.name);
    assert_eq!(back.command, snip.command);
    assert_eq!(back.scope, snip.scope);
    assert_eq!(back.host, snip.host);
    assert_eq!(back.tags, snip.tags);
    assert_eq!(back.params, snip.params);
}

#[test]
fn snippet_form_focus_wraps() {
    let mut form = SnippetForm::empty();
    form.focus_prev();
    assert_eq!(form.focused_field, 5);
    form.focus_next();
    assert_eq!(form.focused_field, 0);
}

#[test]
fn filter_snippets_empty_query_returns_all() {
    let snips = [snippet("a", "ls", &[]), snippet("b", "pwd", &[])];
    assert_eq!(filter_snippets(&snips, ""), vec![0, 1]);
}

#[test]
fn filter_snippets_matches_name() {
    let snips = [snippet("deploy", "ls", &[]), snippet("backup", "pwd", &[])];
    assert_eq!(filter_snippets(&snips, "depl"), vec![0]);
}

#[test]
fn filter_snippets_matches_command() {
    let snips = [
        snippet("a", "systemctl restart", &[]),
        snippet("b", "ls", &[]),
    ];
    assert_eq!(filter_snippets(&snips, "systemctl"), vec![0]);
}

#[test]
fn filter_snippets_matches_tag() {
    let snips = [snippet("a", "ls", &["ops"]), snippet("b", "pwd", &["dev"])];
    assert_eq!(filter_snippets(&snips, "ops"), vec![0]);
}

#[test]
fn filter_snippets_case_insensitive() {
    let snips = [snippet("Deploy", "ls", &[])];
    assert_eq!(filter_snippets(&snips, "DEPLOY"), vec![0]);
}

#[test]
fn filter_snippets_no_match_returns_empty() {
    let snips = [snippet("a", "ls", &[])];
    assert!(filter_snippets(&snips, "zzz").is_empty());
}

#[test]
fn snippetsview_rebuild_filter_sets_indices() {
    let snips = [snippet("deploy", "ls", &[]), snippet("backup", "pwd", &[])];
    let mut view = SnippetsView::default();
    view.rebuild_filter(&snips, "depl");
    assert_eq!(view.filtered_indices, vec![0]);
}

#[test]
fn snippetsview_rebuild_clamps_selection() {
    let snips = [snippet("a", "ls", &[]), snippet("b", "pwd", &[])];
    let mut view = SnippetsView {
        selected: 5,
        ..Default::default()
    };
    view.rebuild_filter(&snips, "");
    assert_eq!(view.selected, 1);
}

#[test]
fn snippetsview_rebuild_empty_resets_selection() {
    let snips = [snippet("a", "ls", &[])];
    let mut view = SnippetsView {
        selected: 3,
        ..Default::default()
    };
    view.rebuild_filter(&snips, "zzz");
    assert_eq!(view.selected, 0);
}

#[test]
fn snippetsview_select_next_clamps_at_last() {
    let mut view = SnippetsView {
        filtered_indices: vec![0, 1],
        ..Default::default()
    };
    view.select_next();
    view.select_next();
    view.select_next();
    assert_eq!(view.selected, 1);
}

#[test]
fn snippetsview_select_prev_saturates_at_zero() {
    let mut view = SnippetsView {
        filtered_indices: vec![0, 1],
        ..Default::default()
    };
    view.select_prev();
    assert_eq!(view.selected, 0);
}

#[test]
fn snippetsview_selected_idx_maps_through_filter() {
    let view = SnippetsView {
        filtered_indices: vec![3, 7],
        selected: 1,
        ..Default::default()
    };
    assert_eq!(view.selected_snippet_idx(), Some(7));
}
