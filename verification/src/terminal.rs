//! The terminal screen: tabs, split view and focus, scrollback offsets, and
//! the table of open sessions with their identifiers.

use vstd::prelude::*;

use crate::scroll::ScrollAction;

verus! {

/// Identifier of one terminal session.
pub type SessionId = u64;

/// Direction of the split-view layout.
#[derive(Debug, Clone, Copy, PartialEq, Eq, Structural)]
pub enum SplitDirection {
    /// Two panes side by side.
    Vertical,
    /// Two panes stacked.
    Horizontal,
}

/// The pane with keyboard focus in split view.
#[derive(Debug, Clone, Copy, PartialEq, Eq, Default, Structural)]
pub enum SplitFocus {
    #[default]
    Primary,
    Secondary,
}

/// The layout while split view is on.
#[derive(Debug, Clone, Copy, PartialEq, Eq, Structural)]
pub struct SplitView {
    pub direction: SplitDirection,
    /// Index into the tabs of the tab shown in the secondary pane.
    pub secondary_tab: usize,
}

/// One open terminal tab.
#[derive(Debug)]
pub struct TermTab {
    /// The session shown in the tab.
    pub session_id: SessionId,
    /// The host's display name.
    pub host_name: String,
    /// New output arrived while the tab was not focused.
    pub has_activity: bool,
    /// Lines scrolled back from the live screen (0 is the bottom).
    pub scroll_offset: usize,
}

impl Clone for TermTab {
    fn clone(&self) -> (res: Self)
        ensures
            res == *self,
    {
        TermTab {
            session_id: self.session_id,
            host_name: self.host_name.clone(),
            has_activity: self.has_activity,
            scroll_offset: self.scroll_offset,
        }
    }
}

/// The host picker for opening a tab.
#[derive(Debug, Clone, Copy, Default, PartialEq, Eq, Structural)]
pub struct TermHostPicker {
    /// Highlighted host index.
    pub cursor: usize,
    /// Choosing a host replaces the focused pane's session instead of opening
    /// a new tab.
    pub switch_pane_mode: bool,
}

/// All state of the terminal screen.
#[derive(Debug, Default)]
pub struct TerminalView {
    /// Open tabs, in order.
    pub tabs: Vec<TermTab>,
    /// Index of the focused (primary) tab.
    pub active_tab: usize,
    /// The split layout, if split view is on.
    pub split: Option<SplitView>,
    /// The pane with keyboard focus in split view.
    pub split_focus: SplitFocus,
    /// The host picker, if open.
    pub host_picker: Option<TermHostPicker>,
    /// The next digit key jumps straight to that tab.
    pub tab_select_mode: bool,
}

/// The index of the tab in the focused pane: the secondary pane's tab when
/// split view is on and focus is there, else the active tab.
pub open spec fn focused_index(split: Option<SplitView>, focus: SplitFocus, active_tab: usize) -> usize {
    match split {
        Some(sv) => if focus == SplitFocus::Secondary {
            sv.secondary_tab
        } else {
            active_tab
        },
        None => active_tab,
    }
}

impl TerminalView {
    /// The index of the tab in the focused pane.
    pub fn focused_tab(&self) -> (res: usize)
        ensures
            res == focused_index(self.split, self.split_focus, self.active_tab),
    {
        match self.split {
            Some(sv) => if self.split_focus == SplitFocus::Secondary {
                sv.secondary_tab
            } else {
                self.active_tab
            },
            None => self.active_tab,
        }
    }

    /// The session of the focused pane, or `None` when no tab is open or the
    /// focused index is out of range.
    pub fn active_session_id(&self) -> (res: Option<SessionId>)
        ensures
            ({
                let i = focused_index(self.split, self.split_focus, self.active_tab);
                res == if i < self.tabs.len() {
                    Some(self.tabs@[i as int].session_id)
                } else {
                    None::<SessionId>
                }
            }),
    {
        if self.tabs.len() == 0 {
            return None;
        }
        let i = self.focused_tab();
        if i < self.tabs.len() {
            Some(self.tabs[i].session_id)
        } else {
            None
        }
    }

    /// Opens a tab for the session `session_id` on `host_name` after the
    /// others and focuses it.
    pub fn add_tab(&mut self, session_id: SessionId, host_name: String)
        ensures
            final(self).tabs@ == old(self).tabs@.push(
                TermTab { session_id, host_name, has_activity: false, scroll_offset: 0 },
            ),
            final(self).active_tab == old(self).tabs.len(),
            final(self).split == old(self).split,
            final(self).split_focus == old(self).split_focus,
    {
        self.tabs.push(TermTab { session_id, host_name, has_activity: false, scroll_offset: 0 });
        self.active_tab = self.tabs.len() - 1;
    }

    /// The session of the focused pane's tab, which a host switch closes.
    pub fn focused_session(&self) -> (res: Option<SessionId>)
        ensures
            ({
                let i = focused_index(self.split, self.split_focus, self.active_tab);
                res == if i < self.tabs.len() {
                    Some(self.tabs@[i as int].session_id)
                } else {
                    None::<SessionId>
                }
            }),
    {
        let i = self.focused_tab();
        if i < self.tabs.len() {
            Some(self.tabs[i].session_id)
        } else {
            None
        }
    }

    /// Puts the session `session_id` on `host_name` in the focused pane's
    /// tab, if there is one; the other tabs stay.
    pub fn replace_focused(&mut self, session_id: SessionId, host_name: String)
        ensures
            ({
                let i = focused_index(old(self).split, old(self).split_focus, old(self).active_tab);
                final(self).tabs@ == if i < old(self).tabs.len() {
                    old(self).tabs@.update(
                        i as int,
                        TermTab { session_id, host_name, has_activity: false, scroll_offset: 0 },
                    )
                } else {
                    old(self).tabs@
                }
            }),
            final(self).active_tab == old(self).active_tab,
            final(self).split == old(self).split,
            final(self).split_focus == old(self).split_focus,
    {
        let i = self.focused_tab();
        if i < self.tabs.len() {
            self.tabs.set(i, TermTab { session_id, host_name, has_activity: false, scroll_offset: 0 });
        }
    }

    /// Prepares a paste for the focused tab: jumps it back to the live
    /// screen and gives its session with the bytes to send (bracketed when
    /// the program there asked for it); `None` without a focused tab.
    pub fn paste_to_focused(&mut self, text: &str, bracketed: bool) -> (res: Option<(SessionId, Vec<u8>)>)
        ensures
            ({
                let i = focused_index(old(self).split, old(self).split_focus, old(self).active_tab);
                &&& final(self).tabs.len() == old(self).tabs.len()
                &&& match res {
                    Some((id, bytes)) => {
                        &&& i < old(self).tabs.len()
                        &&& id == old(self).tabs@[i as int].session_id
                        &&& bytes@ == crate::paste::paste_bytes(text@, bracketed)
                        &&& final(self).tabs@ == old(self).tabs@.update(
                            i as int,
                            TermTab { scroll_offset: 0, ..old(self).tabs@[i as int] },
                        )
                    },
                    None => i >= old(self).tabs.len() && final(self).tabs@ == old(self).tabs@,
                }
            }),
            final(self).active_tab == old(self).active_tab,
            final(self).split == old(self).split,
            final(self).split_focus == old(self).split_focus,
    {
        let i = self.focused_tab();
        if i >= self.tabs.len() {
            return None;
        }
        let mut tab = self.tabs[i].clone();
        tab.scroll_offset = 0;
        let id = tab.session_id;
        self.tabs.set(i, tab);
        Some((id, crate::paste::encode_paste(text, bracketed)))
    }

    /// Applies a wheel action to the focused tab: moves its scrollback offset
    /// (at most 1000 lines back, never below the live screen); a forwarded
    /// action, or no focused tab, leaves every offset as it was.
    pub fn scroll_focused(&mut self, action: &ScrollAction)
        requires
            action matches ScrollAction::Scrollback(d) ==> d > i16::MIN,
        ensures
            ({
                let i = focused_index(old(self).split, old(self).split_focus, old(self).active_tab);
                &&& final(self).tabs.len() == old(self).tabs.len()
                &&& forall|j: int|
                    0 <= j < old(self).tabs.len() && j != i ==> (#[trigger] final(self).tabs@[j]).scroll_offset
                        == old(self).tabs@[j].scroll_offset
                &&& i < old(self).tabs.len() ==> final(self).tabs@[i as int].scroll_offset == match *action {
                    ScrollAction::Scrollback(d) => scrolled_offset_spec(old(self).tabs@[i as int].scroll_offset, d),
                    ScrollAction::Forward(_) => old(self).tabs@[i as int].scroll_offset,
                }
                &&& forall|j: int|
                    0 <= j < old(self).tabs.len() ==> (#[trigger] final(self).tabs@[j]).session_id
                        == old(self).tabs@[j].session_id
            }),
            final(self).active_tab == old(self).active_tab,
            final(self).split == old(self).split,
            final(self).split_focus == old(self).split_focus,
    {
        let i = self.focused_tab();
        if i >= self.tabs.len() {
            return;
        }
        match action {
            ScrollAction::Scrollback(d) => {
                let mut tab = self.tabs[i].clone();
                let ghost old_tab = self.tabs@[i as int];
                tab.scroll_offset = scrolled_offset(self.tabs[i].scroll_offset, *d);
                self.tabs.set(i, tab);
                assert(self.tabs@[i as int].scroll_offset == scrolled_offset_spec(old_tab.scroll_offset, *d));
            },
            ScrollAction::Forward(_) => {},
        }
    }
}

/// The split layout after the split key for `dir` on a terminal view with
/// `n` tabs, active tab `active` and layout `split`: the same key closes a
/// split in that direction; otherwise, with two tabs or more, the split
/// opens (or turns) in that direction, keeping its secondary tab or taking
/// the tab after the active one; with fewer tabs nothing changes.
pub open spec fn toggled_split(split: Option<SplitView>, dir: SplitDirection, n: nat, active: nat) -> Option<
    SplitView,
> {
    match split {
        Some(sv) if sv.direction == dir => None,
        _ => if n >= 2 {
            Some(
                SplitView {
                    direction: dir,
                    secondary_tab: match split {
                        Some(sv) => sv.secondary_tab,
                        None => ((active + 1) % n) as usize,
                    },
                },
            )
        } else {
            split
        },
    }
}

/// The active tab after a tab was removed from `n_before` tabs: the same
/// index, or the last tab when it was the last one.
pub open spec fn active_after_removal(active: usize, n_after: nat) -> usize {
    if n_after == 0 {
        active
    } else if active < n_after {
        active
    } else {
        (n_after - 1) as usize
    }
}

/// The index of the first tab showing session `id`, if any.
pub open spec fn tab_of_session(tabs: Seq<TermTab>, id: SessionId) -> Option<int>
    decreases tabs.len(),
{
    if tabs.len() == 0 {
        None
    } else if tabs[0].session_id == id {
        Some(0)
    } else {
        match tab_of_session(tabs.drop_first(), id) {
            Some(k) => Some(k + 1),
            None => None,
        }
    }
}

/// The first tab of a session lies among the tabs and shows that session.
pub proof fn lemma_tab_of_session_bounds(tabs: Seq<TermTab>, id: SessionId)
    ensures
        tab_of_session(tabs, id) matches Some(k) ==> 0 <= k < tabs.len() && tabs[k].session_id == id,
    decreases tabs.len(),
{
    if tabs.len() > 0 {
        lemma_tab_of_session_bounds(tabs.drop_first(), id);
        if tabs[0].session_id != id {
            if let Some(k) = tab_of_session(tabs.drop_first(), id) {
                assert(tabs.drop_first()[k] == tabs[k + 1]);
            }
        }
    }
}

/// `tab_of_session` is the first index showing the session, or none when
/// no tab shows it.
proof fn lemma_tab_of_session(tabs: Seq<TermTab>, id: SessionId, k: int)
    requires
        0 <= k <= tabs.len(),
        forall|j: int| 0 <= j < k ==> (#[trigger] tabs[j]).session_id != id,
    ensures
        k < tabs.len() && tabs[k].session_id == id ==> tab_of_session(tabs, id) == Some(k),
        k == tabs.len() ==> tab_of_session(tabs, id) is None,
    decreases k,
{
    if k > 0 {
        let t = tabs.drop_first();
        assert forall|j: int| 0 <= j < k - 1 implies (#[trigger] t[j]).session_id != id by {
            assert(t[j] == tabs[j + 1]);
        }
        lemma_tab_of_session(t, id, k - 1);
        assert(tabs[0].session_id != id);
    } else if tabs.len() == 0 {
    }
}

impl TerminalView {
    /// The split key for `dir`: closes a split in that direction, else opens
    /// or turns the split to `dir` when there are two tabs or more; focus
    /// goes to the primary pane. Gives `false` when there are too few tabs
    /// to split, leaving the view as it was.
    pub fn toggle_split(&mut self, dir: SplitDirection) -> (ok: bool)
        requires
            old(self).active_tab < usize::MAX,
        ensures
            final(self).split == toggled_split(
                old(self).split,
                dir,
                old(self).tabs.len() as nat,
                old(self).active_tab as nat,
            ),
            ok == (old(self).split matches Some(sv) && sv.direction == dir || old(self).tabs.len() >= 2),
            final(self).split_focus == if ok {
                SplitFocus::Primary
            } else {
                old(self).split_focus
            },
            final(self).tabs@ == old(self).tabs@,
            final(self).active_tab == old(self).active_tab,
            final(self).host_picker == old(self).host_picker,
            final(self).tab_select_mode == old(self).tab_select_mode,
    {
        let same = match self.split {
            Some(sv) => sv.direction == dir,
            None => false,
        };
        if same {
            self.split = None;
            self.split_focus = SplitFocus::Primary;
            true
        } else if self.tabs.len() >= 2 {
            let secondary = match self.split {
                Some(sv) => sv.secondary_tab,
                None => (self.active_tab + 1) % self.tabs.len(),
            };
            self.split = Some(SplitView { direction: dir, secondary_tab: secondary });
            self.split_focus = SplitFocus::Primary;
            true
        } else {
            false
        }
    }

    /// Moves keyboard focus to the other pane while split view is on.
    pub fn focus_next_pane(&mut self)
        ensures
            final(self).split_focus == if old(self).split is Some {
                if old(self).split_focus == SplitFocus::Primary {
                    SplitFocus::Secondary
                } else {
                    SplitFocus::Primary
                }
            } else {
                old(self).split_focus
            },
            final(self).split == old(self).split,
            final(self).tabs@ == old(self).tabs@,
            final(self).active_tab == old(self).active_tab,
            final(self).host_picker == old(self).host_picker,
            final(self).tab_select_mode == old(self).tab_select_mode,
    {
        if self.split.is_some() {
            self.split_focus = match self.split_focus {
                SplitFocus::Primary => SplitFocus::Secondary,
                SplitFocus::Secondary => SplitFocus::Primary,
            };
        }
    }

    /// Focuses tab `n`, if there is one, and clears its activity mark.
    pub fn switch_tab(&mut self, n: usize)
        ensures
            n < old(self).tabs.len() ==> final(self).active_tab == n && final(self).tabs@ == old(
                self,
            ).tabs@.update(n as int, TermTab { has_activity: false, ..old(self).tabs@[n as int] }),
            n >= old(self).tabs.len() ==> final(self).active_tab == old(self).active_tab
                && final(self).tabs@ == old(self).tabs@,
            final(self).split == old(self).split,
            final(self).split_focus == old(self).split_focus,
            final(self).host_picker == old(self).host_picker,
            final(self).tab_select_mode == old(self).tab_select_mode,
    {
        if n < self.tabs.len() {
            self.active_tab = n;
            let mut tab = self.tabs[n].clone();
            tab.has_activity = false;
            self.tabs.set(n, tab);
        }
    }

    /// Removes the tab at `i`: the split closes, focus returns to the
    /// primary pane, and the active tab stays in range.
    fn remove_tab_at(&mut self, i: usize)
        requires
            i < old(self).tabs.len(),
        ensures
            final(self).tabs@ == old(self).tabs@.remove(i as int),
            final(self).split is None,
            final(self).split_focus == SplitFocus::Primary,
            final(self).active_tab == active_after_removal(old(self).active_tab, final(self).tabs.len() as nat),
            final(self).host_picker == old(self).host_picker,
            final(self).tab_select_mode == old(self).tab_select_mode,
    {
        self.tabs.remove(i);
        self.split = None;
        self.split_focus = SplitFocus::Primary;
        if self.tabs.len() > 0 && self.active_tab >= self.tabs.len() {
            self.active_tab = self.tabs.len() - 1;
        }
    }

    /// Closes the active tab, giving its session; nothing happens without
    /// tabs.
    pub fn close_active_tab(&mut self) -> (res: Option<SessionId>)
        requires
            old(self).tabs.len() > 0 ==> old(self).active_tab < old(self).tabs.len(),
        ensures
            old(self).tabs.len() == 0 ==> res is None && *final(self) == *old(self),
            old(self).tabs.len() > 0 ==> {
                &&& res == Some(old(self).tabs@[old(self).active_tab as int].session_id)
                &&& final(self).tabs@ == old(self).tabs@.remove(old(self).active_tab as int)
                &&& final(self).split is None
                &&& final(self).split_focus == SplitFocus::Primary
                &&& final(self).active_tab == active_after_removal(
                    old(self).active_tab,
                    final(self).tabs.len() as nat,
                )
                &&& final(self).host_picker == old(self).host_picker
                &&& final(self).tab_select_mode == old(self).tab_select_mode
            },
    {
        if self.tabs.len() == 0 {
            return None;
        }
        let id = self.tabs[self.active_tab].session_id;
        let i = self.active_tab;
        self.remove_tab_at(i);
        Some(id)
    }

    /// The position of the first tab showing session `id`.
    fn position_of_session(&self, id: SessionId) -> (res: Option<usize>)
        ensures
            match tab_of_session(self.tabs@, id) {
                Some(k) => res == Some(k as usize) && 0 <= k < self.tabs.len() && self.tabs@[k].session_id
                    == id,
                None => res is None,
            },
    {
        let mut i: usize = 0;
        while i < self.tabs.len()
            invariant
                i <= self.tabs.len(),
                forall|j: int| 0 <= j < i ==> (#[trigger] self.tabs@[j]).session_id != id,
            decreases self.tabs.len() - i,
        {
            if self.tabs[i].session_id == id {
                proof {
                    lemma_tab_of_session(self.tabs@, id, i as int);
                }
                return Some(i);
            }
            i = i + 1;
        }
        proof {
            lemma_tab_of_session(self.tabs@, id, i as int);
        }
        None
    }

    /// The session `id` ended: its tab, if any, is removed, the split
    /// closes and the active tab stays in range. Gives whether a tab was
    /// removed.
    pub fn remove_session(&mut self, id: SessionId) -> (removed: bool)
        ensures
            match tab_of_session(old(self).tabs@, id) {
                Some(k) => {
                    &&& removed
                    &&& final(self).tabs@ == old(self).tabs@.remove(k)
                    &&& final(self).split is None
                    &&& final(self).split_focus == SplitFocus::Primary
                    &&& final(self).active_tab == active_after_removal(
                        old(self).active_tab,
                        final(self).tabs.len() as nat,
                    )
                    &&& final(self).host_picker == old(self).host_picker
                    &&& final(self).tab_select_mode == old(self).tab_select_mode
                },
                None => !removed && *final(self) == *old(self),
            },
    {
        match self.position_of_session(id) {
            Some(k) => {
                self.remove_tab_at(k);
                true
            },
            None => false,
        }
    }

    /// Output arrived for session `id`: its first tab is marked as having
    /// activity unless it is the focused session.
    pub fn mark_activity(&mut self, id: SessionId)
        ensures
            ({
                let i = focused_index(old(self).split, old(self).split_focus, old(self).active_tab);
                let focused = i < old(self).tabs.len() && old(self).tabs@[i as int].session_id == id;
                final(self).tabs@ == match tab_of_session(old(self).tabs@, id) {
                    Some(k) => if focused {
                        old(self).tabs@
                    } else {
                        old(self).tabs@.update(k, TermTab { has_activity: true, ..old(self).tabs@[k] })
                    },
                    None => old(self).tabs@,
                }
            }),
            final(self).active_tab == old(self).active_tab,
            final(self).split == old(self).split,
            final(self).split_focus == old(self).split_focus,
            final(self).host_picker == old(self).host_picker,
            final(self).tab_select_mode == old(self).tab_select_mode,
    {
        if self.active_session_id() == Some(id) {
            return;
        }
        match self.position_of_session(id) {
            Some(k) => {
                let mut tab = self.tabs[k].clone();
                tab.has_activity = true;
                self.tabs.set(k, tab);
            },
            None => {},
        }
    }
}

/// The scrollback offset after a wheel notch of `d` lines back (negative:
/// forward), at most 1000 lines back and never below the live screen.
pub open spec fn scrolled_offset_spec(offset: usize, d: i16) -> usize {
    if d > 0 {
        if offset + d > 1000 {
            1000
        } else {
            (offset + d) as usize
        }
    } else if offset >= -d {
        (offset + d) as usize
    } else {
        0
    }
}

/// The scrollback offset after a wheel notch of `d` lines back (negative:
/// forward): at most 1000 lines back, never below the live screen.
pub fn scrolled_offset(offset: usize, d: i16) -> (res: usize)
    requires
        d > i16::MIN,
    ensures
        res == scrolled_offset_spec(offset, d),
{
    if d > 0 {
        let up: usize = d as usize;
        let sum: usize = if offset > usize::MAX - up { usize::MAX } else { offset + up };
        if sum > 1000 { 1000 } else { sum }
    } else {
        let down: usize = (0 - (d as i32)) as usize;
        if offset >= down { offset - down } else { 0 }
    }
}

/// The size of the PTY for a terminal window of `cols` by `rows`: two rows
/// for the status and tab bars and two of border, two columns of border.
pub fn pty_size(cols: u16, rows: u16) -> (res: (u16, u16))
    ensures
        res.0 == if cols >= 2 { cols - 2 } else { 0 },
        res.1 == if rows >= 4 { rows - 4 } else { 0 },
{
    let c: u16 = if cols >= 2 { cols - 2 } else { 0 };
    let r: u16 = if rows >= 4 { rows - 4 } else { 0 };
    (c, r)
}

/// The open sessions, each with the value kept for it, under identifiers
/// handed out in increasing order from 1.
pub struct SessionTable<T> {
    entries: Vec<(SessionId, T)>,
    next_id: SessionId,
}

impl<T> SessionTable<T> {
    /// Identifiers are increasing along the table and below the next one.
    #[verifier::type_invariant]
    spec fn ordered(self) -> bool {
        &&& self.next_id >= 1
        &&& forall|i: int, j: int|
            0 <= i < j < self.entries.len() ==> #[trigger] self.entries@[i].0 < #[trigger] self.entries@[j].0
        &&& forall|i: int| 0 <= i < self.entries.len() ==> #[trigger] self.entries@[i].0 < self.next_id
    }

    /// The identifiers of the open sessions, in the order they were opened.
    pub closed spec fn ids(self) -> Seq<SessionId> {
        self.entries@.map_values(|e: (SessionId, T)| e.0)
    }

    /// The value kept for each open session, in the same order.
    pub closed spec fn values(self) -> Seq<T> {
        self.entries@.map_values(|e: (SessionId, T)| e.1)
    }

    /// The identifier the next opened session gets.
    pub closed spec fn next(self) -> SessionId {
        self.next_id
    }

    /// An empty table; the first session gets identifier 1.
    pub fn new() -> (res: Self)
        ensures
            res.ids() == Seq::<SessionId>::empty(),
            res.values() == Seq::<T>::empty(),
            res.next() == 1,
    {
        let res = SessionTable { entries: Vec::new(), next_id: 1 };
        assert(res.ids() =~= Seq::<SessionId>::empty());
        assert(res.values() =~= Seq::<T>::empty());
        res
    }

    /// The number of open sessions.
    pub fn len(&self) -> (res: usize)
        ensures
            res == self.ids().len(),
    {
        self.entries.len()
    }

    /// Opens a session holding `value`; returns its identifier, the next one
    /// in order.
    pub fn open(&mut self, value: T) -> (res: SessionId)
        requires
            old(self).next() < u64::MAX,
        ensures
            res == old(self).next(),
            final(self).next() == old(self).next() + 1,
            final(self).ids() == old(self).ids().push(res),
            final(self).values() == old(self).values().push(value),
            final(self).ids().no_duplicates(),
    {
        proof {
            use_type_invariant(&*self);
        }
        let id = self.next_id;
        let mut entries: Vec<(SessionId, T)> = Vec::new();
        std::mem::swap(&mut entries, &mut self.entries);
        let ghost before = entries@;
        entries.push((id, value));
        assert(entries@.map_values(|e: (SessionId, T)| e.0) =~= before.map_values(|e: (SessionId, T)| e.0).push(id));
        assert(entries@.map_values(|e: (SessionId, T)| e.1) =~= before.map_values(|e: (SessionId, T)| e.1).push(value));
        self.next_id = id + 1;
        self.entries = entries;
        proof {
            use_type_invariant(&*self);
            self.lemma_ids_distinct();
        }
        id
    }

    proof fn lemma_ids_distinct(&self)
        requires
            forall|i: int, j: int|
                0 <= i < j < self.entries.len() ==> #[trigger] self.entries@[i].0 < #[trigger] self.entries@[j].0,
        ensures
            self.ids().no_duplicates(),
    {
        assert forall|i: int, j: int| 0 <= i < self.ids().len() && 0 <= j < self.ids().len() && i != j implies self.ids()[i]
            != self.ids()[j] by {
            assert(self.ids()[i] == self.entries@[i].0);
            assert(self.ids()[j] == self.entries@[j].0);
            if i < j {
            } else {
            }
        }
    }

    /// The position of the session `id`, if it is open.
    pub fn position(&self, id: SessionId) -> (res: Option<usize>)
        ensures
            match res {
                Some(i) => i < self.ids().len() && self.ids()[i as int] == id,
                None => !self.ids().contains(id),
            },
    {
        let mut i: usize = 0;
        while i < self.entries.len()
            invariant
                i <= self.entries.len(),
                forall|j: int| 0 <= j < i ==> self.entries@[j].0 != id,
            decreases self.entries.len() - i,
        {
            if self.entries[i].0 == id {
                return Some(i);
            }
            i = i + 1;
        }
        proof {
            if self.ids().contains(id) {
                let j = choose|j: int| 0 <= j < self.ids().len() && self.ids()[j] == id;
                assert(self.entries@[j].0 == id);
            }
        }
        None
    }

    /// The value kept for the session `id`, if it is open.
    pub fn get(&self, id: SessionId) -> (res: Option<&T>)
        ensures
            match res {
                Some(v) => exists|i: int| 0 <= i < self.ids().len() && self.ids()[i] == id && self.values()[i] == *v,
                None => !self.ids().contains(id),
            },
    {
        match self.position(id) {
            Some(i) => {
                assert(self.values()[i as int] == self.entries@[i as int].1);
                Some(&self.entries[i].1)
            },
            None => None,
        }
    }

    /// Closes the session `id`: removes it and hands back its value; the
    /// other sessions stay, in order. Closing an unknown id changes nothing.
    pub fn close(&mut self, id: SessionId) -> (res: Option<T>)
        ensures
            final(self).next() == old(self).next(),
            final(self).ids().no_duplicates(),
            match res {
                Some(v) => exists|i: int|
                    0 <= i < old(self).ids().len() && old(self).ids()[i] == id && old(self).values()[i] == v
                        && final(self).ids() == old(self).ids().remove(i) && final(self).values()
                        == old(self).values().remove(i),
                None => !old(self).ids().contains(id) && final(self).ids() == old(self).ids()
                    && final(self).values() == old(self).values(),
            },
    {
        proof {
            use_type_invariant(&*self);
        }
        match self.position(id) {
            None => {
                proof {
                    self.lemma_ids_distinct();
                }
                None
            },
            Some(i) => {
                let mut entries: Vec<(SessionId, T)> = Vec::new();
                std::mem::swap(&mut entries, &mut self.entries);
                let ghost before = entries@;
                let (_, v) = entries.remove(i);
                assert(entries@.map_values(|e: (SessionId, T)| e.0) =~= before.map_values(
                    |e: (SessionId, T)| e.0,
                ).remove(i as int));
                assert(entries@.map_values(|e: (SessionId, T)| e.1) =~= before.map_values(
                    |e: (SessionId, T)| e.1,
                ).remove(i as int));
                assert forall|a: int, b: int| 0 <= a < b < entries.len() implies #[trigger] entries@[a].0
                    < #[trigger] entries@[b].0 by {
                    if a >= i {
                        assert(entries@[a] == before[a + 1]);
                    } else {
                        assert(entries@[a] == before[a]);
                    }
                    if b >= i {
                        assert(entries@[b] == before[b + 1]);
                    } else {
                        assert(entries@[b] == before[b]);
                    }
                }
                assert forall|a: int| 0 <= a < entries.len() implies #[trigger] entries@[a].0 < self.next_id by {
                    if a >= i {
                        assert(entries@[a] == before[a + 1]);
                    } else {
                        assert(entries@[a] == before[a]);
                    }
                }
                self.entries = entries;
                proof {
                    use_type_invariant(&*self);
                    self.lemma_ids_distinct();
                }
                Some(v)
            },
        }
    }

    /// Every open session with its value, in order, ending the table.
    pub fn into_entries(self) -> (res: Vec<(SessionId, T)>)
        ensures
            res@.map_values(|e: (SessionId, T)| e.0) == self.ids(),
            res@.map_values(|e: (SessionId, T)| e.1) == self.values(),
    {
        self.entries
    }
}

} // verus!
