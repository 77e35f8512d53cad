use omnyssh::form::FormField;
use omnyssh::host::Host;
use omnyssh::snippet_actions::{
    broadcast_targets, confirm_snippet_delete, confirm_snippet_form, param_values, prepare_run,
    start_snippet, SnippetStart,
};
use omnyssh::snippets::{Snippet, SnippetForm, SnippetPopup, SnippetScope, SnippetsView};

fn form(values: [&str; 6]) -> SnippetForm {
    let mut f = SnippetForm::empty();
    for (i, v) in values.iter().enumerate() {
        f.fields[i] = FormField::with_value(v);
    }
    f
}

fn snip(name: &str, command: &str, params: Option<Vec<&str>>) -> Snippet {
    Snippet {
        name: name.to_string(),
        command: command.to_string(),
        scope: SnippetScope::Global,
        host: None,
        tags: None,
        params: params.map(|p| p.iter().map(|s| s.to_string()).collect()),
    }
}

#[test]
fn snippet_form_adds_edits_and_reports_errors() {
    let mut snippets = Vec::new();
    let mut view = SnippetsView::default();
    view.popup = Some(SnippetPopup::Add(form(["ls", "ls -la", "", "", "", ""])));
    let r = confirm_snippet_form(&mut snippets, &mut view);
    assert_eq!(r.status.as_deref(), Some("Snippet added."));
    assert!(r.snippets_changed);
    assert_eq!(snippets.len(), 1);
    assert_eq!(view.filtered_indices, vec![0]);

    view.popup = Some(SnippetPopup::Edit { snippet_idx: 0, form: form(["ls", "", "", "", "", ""]) });
    let r = confirm_snippet_form(&mut snippets, &mut view);
    assert_eq!(r.status.as_deref(), Some("Error: Command cannot be empty"));
    assert!(matches!(view.popup, Some(SnippetPopup::Edit { .. })));

    view.popup = Some(SnippetPopup::Edit { snippet_idx: 0, form: form(["dir", "ls -1", "", "", "", ""]) });
    let r = confirm_snippet_form(&mut snippets, &mut view);
    assert_eq!(r.status.as_deref(), Some("Snippet updated."));
    assert_eq!(snippets[0].name, "dir");

    view.popup = Some(SnippetPopup::DeleteConfirm(0));
    let r = confirm_snippet_delete(&mut snippets, &mut view);
    assert_eq!(r.status.as_deref(), Some("Deleted snippet 'dir'."));
    assert!(snippets.is_empty());
    assert!(view.filtered_indices.is_empty());
    assert!(view.popup.is_none());
}

#[test]
fn snippets_with_params_ask_first() {
    let s = snip("greet", "echo {{who}}", Some(vec!["who"]));
    match start_snippet(&s, 4, vec!["web".to_string()]) {
        SnippetStart::AskParams(SnippetPopup::ParamInput { snippet_idx, host_names, param_names, param_fields, focused_field }) => {
            assert_eq!(snippet_idx, 4);
            assert_eq!(host_names, vec!["web".to_string()]);
            assert_eq!(param_names, vec!["who".to_string()]);
            assert_eq!(param_fields.len(), 1);
            assert_eq!(focused_field, 0);
        }
        other => panic!("unexpected {other:?}"),
    }
    let plain = snip("up", "uptime", None);
    match start_snippet(&plain, 0, vec!["a".to_string(), "b".to_string()]) {
        SnippetStart::Run(run) => {
            assert_eq!(run.command, "uptime");
            match run.popup {
                SnippetPopup::Results { entries, scroll } => {
                    assert_eq!(scroll, 0);
                    assert_eq!(entries.len(), 2);
                    assert_eq!(entries[1].host_name, "b");
                    assert!(entries[1].pending);
                    assert_eq!(entries[1].snippet_name, "up");
                }
                other => panic!("unexpected {other:?}"),
            }
        }
        other => panic!("unexpected {other:?}"),
    }
}

#[test]
fn params_are_trimmed_and_substituted() {
    let fields = vec![FormField::with_value("  world "), FormField::with_value("")];
    let values = param_values(&fields);
    assert_eq!(values, vec!["world".to_string(), String::new()]);
    let s = snip("greet", "echo {{who}}{{x}}", Some(vec!["who", "x"]));
    let run = prepare_run(&s, &["h".to_string()], &values);
    assert_eq!(run.command, "echo world");
}

#[test]
fn broadcast_needs_a_checked_host() {
    let hosts = vec![
        Host { name: "a".to_string(), ..Host::default() },
        Host { name: "b".to_string(), ..Host::default() },
    ];
    assert_eq!(broadcast_targets(&[], &hosts), Err("No hosts selected.".to_string()));
    assert_eq!(
        broadcast_targets(&[1, 7, 0], &hosts),
        Ok(vec!["b".to_string(), "a".to_string()])
    );
}
