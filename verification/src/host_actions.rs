//! What the dashboard's confirmations and moves do to the host list: adding
//! and editing hosts from the form (with the data kept per host name
//! following a rename), deleting a host, offering SSH key setup, and moving
//! the selection on the card grid.

use vstd::prelude::*;

use crate::action::{AppState, NavDir};
use crate::assoc::{lookup, rename_key};
use crate::host::{field_values, host_form_error, host_fields_of_form, Host, HostSource};
use crate::host_list::{
    all_tags, clamp_selection, strictly_sorted, visible_hosts, sort_keys, HostListView, HostPopup,
};
use crate::order::sorted_by_keys;
use crate::text::{append_str, owned, str_eq, string_of, views};

verus! {

/// What confirming a popup changed beyond the state itself.
#[derive(Debug)]
pub struct Confirmed {
    /// The new status message, if it changes.
    pub status: Option<String>,
    /// The host list changed and is to be saved.
    pub hosts_changed: bool,
    /// A host was added, so the metrics poller restarts with the new list.
    pub host_added: bool,
}

/// The host list view after its filter and its tags are rebuilt for
/// `hosts`, from the view `before`.
pub open spec fn rebuilt(before: HostListView, after: HostListView, st: AppState) -> bool {
    &&& after.filtered_indices@.to_set() == visible_hosts(st.hosts@, before.search_query@, before.tag_filter).to_set()
    &&& sorted_by_keys(
        after.filtered_indices@,
        sort_keys(before.sort_order, st.hosts@, st.metrics@, st.connection_statuses@),
    )
    &&& after.selected == clamp_selection(before.selected, after.filtered_indices@.len())
    &&& strictly_sorted(views(after.available_tags@))
    &&& views(after.available_tags@).to_set() == all_tags(st.hosts@)
    &&& after.search_query == before.search_query
    &&& after.tag_filter == before.tag_filter
    &&& after.sort_order == before.sort_order
}

/// The status shown after adding `h`: a hint to set up key authentication
/// when it has a password.
pub open spec fn added_message(h: Host) -> Seq<char> {
    if h.password is Some {
        "Host '"@ + h.name@ + "' added. Press 'Shift+K' to set up SSH key authentication (recommended)."@
    } else {
        "Host added."@
    }
}

/// After a rename of `old_name` to `new_name` in `before`, `after` reads as
/// moving the map entry: the new name takes the old name's value, if it had
/// one, and the old name has none.
pub open spec fn renamed<V>(before: Seq<(String, V)>, after: Seq<(String, V)>, old_name: Seq<char>, new_name: Seq<char>) -> bool {
    forall|k: Seq<char>|
        #![trigger lookup(after, k)]
        lookup(after, k) == if k == new_name {
            if lookup(before, old_name) is Some {
                lookup(before, old_name)
            } else {
                lookup(before, new_name)
            }
        } else if k == old_name {
            None::<V>
        } else {
            lookup(before, k)
        }
}

fn rebuild_all(state: &AppState, view: &mut HostListView)
    ensures
        rebuilt(*old(view), *final(view), *state),
        final(view).popup == old(view).popup,
{
    view.rebuild_filter(state.hosts.as_slice(), state.metrics.as_slice(), state.connection_statuses.as_slice());
    view.rebuild_tags(state.hosts.as_slice());
}

fn error_message(e: &str) -> (res: String)
    ensures
        res@ == "Error: "@ + e@,
{
    let mut m: Vec<char> = Vec::new();
    append_str(&mut m, "Error: ");
    append_str(&mut m, e);
    string_of(&m)
}

/// What confirming the host form does, from the state `os` and list view
/// `ov` before to `fs` and `fv` after, with the outcome `res`: a valid add
/// form appends its host, a valid edit form replaces the edited one (moving
/// the data kept under its old name to a new name), an invalid form stays
/// open with its error, and any other popup is left as it is.
pub open spec fn host_form_confirmed(
    os: AppState,
    fs: AppState,
    ov: HostListView,
    fv: HostListView,
    res: Confirmed,
) -> bool {
    &&& fs.screen == os.screen
    &&& fs.snippets@ == os.snippets@
    &&& ov.popup matches Some(HostPopup::Add(form)) ==> {
            let f = field_values(form.fields@);
            match host_form_error(f) {
                Some(e) => {
                    &&& fv.popup == ov.popup
                    &&& res.status matches Some(m) && m@ == "Error: "@ + e
                    &&& !res.hosts_changed && !res.host_added
                    &&& fs.hosts@ == os.hosts@
                    &&& fv.filtered_indices == ov.filtered_indices
                },
                None => {
                    &&& fv.popup is None
                    &&& fs.hosts.len() == os.hosts.len() + 1
                    &&& fs.hosts@.drop_last() == os.hosts@
                    &&& host_fields_of_form(fs.hosts@.last(), f, HostSource::Manual)
                    &&& fs.hosts@.last().original_ssh_host is None
                    &&& res.status matches Some(m) && m@ == added_message(fs.hosts@.last())
                    &&& res.hosts_changed && res.host_added
                    &&& fs.metrics@ == os.metrics@
                    &&& fs.connection_statuses@ == os.connection_statuses@
                    &&& rebuilt(ov, fv, fs)
                },
            }
        }
    &&& ov.popup matches Some(HostPopup::Edit { host_idx, form }) ==> {
            let f = field_values(form.fields@);
            match host_form_error(f) {
                Some(e) => {
                    &&& fv.popup == ov.popup
                    &&& res.status matches Some(m) && m@ == "Error: "@ + e
                    &&& !res.hosts_changed && !res.host_added
                    &&& fs.hosts@ == os.hosts@
                    &&& fv.filtered_indices == ov.filtered_indices
                },
                None => {
                    &&& fv.popup is None
                    &&& res.status matches Some(m) && m@ == "Host updated."@
                    &&& res.hosts_changed && !res.host_added
                    &&& fs.hosts.len() == os.hosts.len()
                    &&& rebuilt(ov, fv, fs)
                    &&& if host_idx < os.hosts.len() {
                        let before = os.hosts@[host_idx as int];
                        let after = fs.hosts@[host_idx as int];
                        &&& forall|i: int|
                            0 <= i < os.hosts.len() && i != host_idx ==> #[trigger] fs.hosts@[i]
                                == os.hosts@[i]
                        &&& host_fields_of_form(after, f, HostSource::Manual)
                        &&& after.original_ssh_host == if before.source == HostSource::SshConfig {
                            Some(before.name)
                        } else {
                            None::<String>
                        }
                        &&& if before.name@ != after.name@ {
                            &&& renamed(os.metrics@, fs.metrics@, before.name@, after.name@)
                            &&& renamed(
                                os.connection_statuses@,
                                fs.connection_statuses@,
                                before.name@,
                                after.name@,
                            )
                            &&& renamed(os.services@, fs.services@, before.name@, after.name@)
                        } else {
                            &&& fs.metrics@ == os.metrics@
                            &&& fs.connection_statuses@ == os.connection_statuses@
                            &&& fs.services@ == os.services@
                        }
                    } else {
                        &&& fs.hosts@ == os.hosts@
                        &&& fs.metrics@ == os.metrics@
                        &&& fs.connection_statuses@ == os.connection_statuses@
                    }
                },
            }
        }
    &&& !(ov.popup matches Some(HostPopup::Add(_))) && !(ov.popup matches Some(HostPopup::Edit { .. })) ==> {
            &&& fv.popup == ov.popup
            &&& res.status is None && !res.hosts_changed && !res.host_added
            &&& fs.hosts@ == os.hosts@
        }
}

/// Confirms the host add/edit form. A valid form adds its host, or replaces
/// the edited one (keeping the alias of an imported host, and moving the
/// metrics, status and services kept under its old name to a new name); the
/// list is rebuilt. An invalid form stays open with the error shown. Any
/// other popup is left as it is.
pub fn confirm_host_form(state: &mut AppState, view: &mut HostListView) -> (res: Confirmed)
    requires
        match old(view).popup {
            Some(HostPopup::Add(form)) => form.fields.len() >= 8,
            Some(HostPopup::Edit { host_idx, form }) => form.fields.len() >= 8,
            _ => true,
        },
    ensures
        host_form_confirmed(*old(state), *final(state), *old(view), *final(view), res),
{
    let popup = view.popup.take();
    match popup {
        Some(HostPopup::Add(form)) => {
            let ghost f = field_values(form.fields@);
            match form.to_host(HostSource::Manual) {
                Ok(host) => {
                    let has_password = host.password.is_some();
                    let msg = if has_password {
                        let mut m: Vec<char> = Vec::new();
                        append_str(&mut m, "Host '");
                        append_str(&mut m, host.name.as_str());
                        append_str(&mut m, "' added. Press 'Shift+K' to set up SSH key authentication (recommended).");
                        string_of(&m)
                    } else {
                        owned("Host added.")
                    };
                    let ghost h = host;
                    state.hosts.push(host);
                    assert(state.hosts@.drop_last() =~= old(state).hosts@);
                    rebuild_all(state, view);
                    Confirmed { status: Some(msg), hosts_changed: true, host_added: true }
                },
                Err(e) => {
                    let msg = error_message(e.as_str());
                    view.popup = Some(HostPopup::Add(form));
                    Confirmed { status: Some(msg), hosts_changed: false, host_added: false }
                },
            }
        },
        Some(HostPopup::Edit { host_idx, form }) => {
            match form.to_host(HostSource::Manual) {
                Ok(host) => {
                    let mut host = host;
                    if host_idx < state.hosts.len() {
                        let old_name = state.hosts[host_idx].name.clone();
                        let was_ssh_config = state.hosts[host_idx].source == HostSource::SshConfig;
                        if was_ssh_config {
                            host.original_ssh_host = Some(old_name.clone());
                        }
                        let renamed_host = !str_eq(old_name.as_str(), host.name.as_str());
                        let new_name = owned(host.name.as_str());
                        let ghost hosts_before = state.hosts@;
                        state.hosts.set(host_idx, host);
                        if renamed_host {
                            rename_key(&mut state.metrics, old_name.as_str(), new_name.as_str());
                            rename_key(&mut state.connection_statuses, old_name.as_str(), new_name.as_str());
                            rename_key(&mut state.services, old_name.as_str(), new_name.as_str());
                        }
                    }
                    rebuild_all(state, view);
                    Confirmed { status: Some(owned("Host updated.")), hosts_changed: true, host_added: false }
                },
                Err(e) => {
                    let msg = error_message(e.as_str());
                    view.popup = Some(HostPopup::Edit { host_idx, form });
                    Confirmed { status: Some(msg), hosts_changed: false, host_added: false }
                },
            }
        },
        other => {
            view.popup = other;
            Confirmed { status: None, hosts_changed: false, host_added: false }
        },
    }
}

/// Confirms the deletion popup: removes the host it names when it is in
/// the list, and rebuilds the list; the popup closes whichever popup it was.
pub fn confirm_host_delete(state: &mut AppState, view: &mut HostListView) -> (res: Confirmed)
    ensures
        final(view).popup is None,
        !res.host_added,
        final(state).screen == old(state).screen,
        final(state).snippets@ == old(state).snippets@,
        final(state).services@ == old(state).services@,
        final(state).metrics@ == old(state).metrics@,
        final(state).connection_statuses@ == old(state).connection_statuses@,
        match old(view).popup {
            Some(HostPopup::DeleteConfirm(idx)) => {
                &&& res.hosts_changed
                &&& rebuilt(*old(view), *final(view), *final(state))
                &&& if idx < old(state).hosts.len() {
                    &&& final(state).hosts@ == old(state).hosts@.remove(idx as int)
                    &&& res.status matches Some(m) && m@ == "Deleted '"@ + old(state).hosts@[idx as int].name@ + "'."@
                } else {
                    &&& final(state).hosts@ == old(state).hosts@
                    &&& res.status is None
                }
            },
            _ => {
                &&& !res.hosts_changed
                &&& res.status is None
                &&& final(state).hosts@ == old(state).hosts@
            },
        },
{
    let popup = view.popup.take();
    match popup {
        Some(HostPopup::DeleteConfirm(idx)) => {
            let mut status: Option<String> = None;
            if idx < state.hosts.len() {
                let removed = state.hosts.remove(idx);
                let mut m: Vec<char> = Vec::new();
                append_str(&mut m, "Deleted '");
                append_str(&mut m, removed.name.as_str());
                append_str(&mut m, "'.");
                status = Some(string_of(&m));
            }
            rebuild_all(state, view);
            Confirmed { status, hosts_changed: true, host_added: false }
        },
        _ => Confirmed { status: None, hosts_changed: false, host_added: false },
    }
}

/// Offers SSH key setup for the selected host: it asks for confirmation
/// when the host logs in with a password and no key; otherwise it says why
/// not. Nothing happens without a selected host.
pub fn offer_key_setup(hosts: &[Host], view: &mut HostListView) -> (res: Option<String>)
    ensures
        ({
            let sel = if old(view).selected < old(view).filtered_indices.len() {
                Some(old(view).filtered_indices@[old(view).selected as int])
            } else {
                None::<usize>
            };
            match sel {
                Some(idx) if idx < hosts.len() => {
                    let h = hosts@[idx as int];
                    if h.password is Some && h.identity_file is None {
                        &&& res is None
                        &&& final(view).popup == Some(HostPopup::KeySetupConfirm(idx))
                    } else if h.identity_file is Some {
                        &&& res matches Some(m) && m@ == "'"@ + h.name@ + "' already uses key authentication."@
                        &&& final(view).popup == old(view).popup
                    } else {
                        &&& res matches Some(m) && m@
                            == "No password set for this host. Add a password first to enable key setup."@
                        &&& final(view).popup == old(view).popup
                    }
                },
                _ => res is None && final(view).popup == old(view).popup,
            }
        }),
        *final(view) == (HostListView { popup: final(view).popup, ..*old(view) }),
{
    match view.selected_host_idx() {
        Some(idx) => {
            if idx < hosts.len() {
                let h = &hosts[idx];
                if h.password.is_some() && h.identity_file.is_none() {
                    view.popup = Some(HostPopup::KeySetupConfirm(idx));
                    None
                } else if h.identity_file.is_some() {
                    let mut m: Vec<char> = Vec::new();
                    append_str(&mut m, "'");
                    append_str(&mut m, h.name.as_str());
                    append_str(&mut m, "' already uses key authentication.");
                    Some(string_of(&m))
                } else {
                    Some(owned("No password set for this host. Add a password first to enable key setup."))
                }
            } else {
                None
            }
        },
        None => None,
    }
}

/// The number of card columns on a dashboard `width` cells wide: cards 34
/// wide with a gap of 1, at least one column.
pub fn grid_columns(width: u16) -> (res: usize)
    requires
        width < u16::MAX,
    ensures
        res == if (width + 1) / 35 >= 1 {
            (width + 1) / 35
        } else {
            1
        },
        res >= 1,
{
    let cols = ((width + 1) / 35) as usize;
    if cols >= 1 {
        cols
    } else {
        1
    }
}

/// The selection after a move `dir` on a grid of `cols` columns holding
/// `len` cards, from `selected`: up and down by a row, left and right by a
/// card, staying in range.
pub fn dashboard_nav(selected: usize, len: usize, cols: usize, dir: NavDir) -> (res: usize)
    requires
        len > 0,
        selected + cols <= usize::MAX,
        selected < usize::MAX,
    ensures
        res == match dir {
            NavDir::Up => if selected >= cols {
                selected - cols
            } else {
                0
            },
            NavDir::Down => if selected + cols < len {
                selected + cols
            } else {
                len - 1
            },
            NavDir::Left => if selected >= 1 {
                selected - 1
            } else {
                0
            },
            NavDir::Right => if selected + 1 < len {
                selected + 1
            } else {
                len - 1
            },
        },
{
    match dir {
        NavDir::Up => if selected >= cols {
            selected - cols
        } else {
            0
        },
        NavDir::Down => if selected + cols < len {
            selected + cols
        } else {
            len - 1
        },
        NavDir::Left => if selected >= 1 {
            selected - 1
        } else {
            0
        },
        NavDir::Right => if selected + 1 < len {
            selected + 1
        } else {
            len - 1
        },
    }
}

} // verus!
