//! Visibility lifecycle of the application's named windows.

use vstd::prelude::*;
use crate::placement::{widget_placement, widget_position, DisplayGeometry, Position, WindowSize};

verus! {

/// Whether a window is on screen.
#[derive(Clone, Copy, Debug, PartialEq, Eq, Hash, Structural)]
pub enum Visibility {
    Visible,
    Hidden,
}

/// What the controller tracks of one live window.
#[derive(Clone, Copy, Debug, PartialEq, Eq, Hash, Structural)]
pub struct WindowState {
    pub visibility: Visibility,
    /// A caller-chosen value that stays with the window for as long as the
    /// window lives.
    pub marker: u64,
}

/// What the shell is to do with a close request.
#[derive(Clone, Copy, Debug, PartialEq, Eq, Hash, Structural)]
pub enum CloseResponse {
    /// Hide the window and keep the operating system from destroying it.
    HideAndKeepAlive,
    /// Let the operating system close the window as it would by itself.
    Proceed,
}

/// What the shell is to ask of the operating system to bring a window up.
#[derive(Clone, Copy, Debug, PartialEq, Eq, Hash, Structural)]
pub enum ShowRequest {
    /// The window was hidden: show it, then give it focus.
    RevealAndFocus,
    /// The window was on screen already: give it focus again.
    FocusOnly,
}

/// A window operation that could not be carried out.
#[derive(Clone, Copy, Debug, PartialEq, Eq, Hash, Structural)]
pub enum WindowError {
    /// No live window goes by the name given.
    WindowNotFound,
}

/// The exit code of an orderly shutdown.
pub const EXIT_SUCCESS: i32 = 0;

/// The name of the window whose close request hides it instead of
/// destroying it.
pub open spec fn main_label() -> Seq<char> {
    "main"@
}

/// The state in which a window is first tracked.
pub open spec fn initial_state() -> WindowState {
    WindowState { visibility: Visibility::Visible, marker: 0 }
}

/// The mathematical content of the controller: the live windows by name, and
/// whether the process has been told to quit.
pub struct WindowTable {
    pub windows: Map<Seq<char>, WindowState>,
    pub terminated: bool,
}

impl WindowTable {
    /// The table after a window named `label` has come to life.
    pub open spec fn attach(self, label: Seq<char>) -> WindowTable {
        if self.terminated || self.windows.contains_key(label) {
            self
        } else {
            WindowTable { windows: self.windows.insert(label, initial_state()), ..self }
        }
    }

    /// The table after the window named `label` has asked to be closed.
    pub open spec fn close_requested(self, label: Seq<char>) -> WindowTable {
        if self.terminated || !self.windows.contains_key(label) {
            self
        } else if label == main_label() {
            WindowTable {
                windows: self.windows.insert(
                    label,
                    WindowState { visibility: Visibility::Hidden, ..self.windows[label] },
                ),
                ..self
            }
        } else {
            WindowTable { windows: self.windows.remove(label), ..self }
        }
    }

    /// What the shell is told when the window named `label` asks to be closed.
    pub open spec fn close_response(self, label: Seq<char>) -> CloseResponse {
        if !self.terminated && label == main_label() {
            CloseResponse::HideAndKeepAlive
        } else {
            CloseResponse::Proceed
        }
    }

    /// The table after the window named `label` has been brought up.
    pub open spec fn shown(self, label: Seq<char>) -> WindowTable {
        if self.terminated || !self.windows.contains_key(label) {
            self
        } else {
            WindowTable {
                windows: self.windows.insert(
                    label,
                    WindowState { visibility: Visibility::Visible, ..self.windows[label] },
                ),
                ..self
            }
        }
    }

    /// What the shell is told when the window named `label` is to be brought up.
    pub open spec fn show_result(self, label: Seq<char>) -> Result<ShowRequest, WindowError> {
        if self.terminated || !self.windows.contains_key(label) {
            Err(WindowError::WindowNotFound)
        } else if self.windows[label].visibility == Visibility::Hidden {
            Ok(ShowRequest::RevealAndFocus)
        } else {
            Ok(ShowRequest::FocusOnly)
        }
    }

    /// The table after the window named `label` has been given `marker`.
    pub open spec fn marked(self, label: Seq<char>, marker: u64) -> WindowTable {
        if self.terminated || !self.windows.contains_key(label) {
            self
        } else {
            WindowTable {
                windows: self.windows.insert(
                    label,
                    WindowState { marker: marker, ..self.windows[label] },
                ),
                ..self
            }
        }
    }

    /// The table after the process has been told to quit: no window is left
    /// and nothing can change any more.
    pub open spec fn quit(self) -> WindowTable {
        WindowTable { windows: Map::empty(), terminated: true }
    }

    /// Where the window named `label` is to be put on `display`: nowhere
    /// unless the window is live and both the display and the window's size
    /// are known.
    pub open spec fn placement_of(
        self,
        label: Seq<char>,
        display: Option<DisplayGeometry>,
        size: Option<WindowSize>,
    ) -> Option<Position> {
        match (display, size) {
            (Some(display), Some(size)) => if self.windows.contains_key(label) {
                widget_placement(display, size)
            } else {
                None
            },
            _ => None,
        }
    }

    /// The state of the window named `label`, if it is live.
    pub open spec fn state_of(self, label: Seq<char>) -> Option<WindowState> {
        if self.windows.contains_key(label) {
            Some(self.windows[label])
        } else {
            None
        }
    }

    /// After the process has been told to quit no window is live.
    pub open spec fn wf(self) -> bool {
        self.terminated ==> self.windows == Map::<Seq<char>, WindowState>::empty()
    }
}

/// One row of the controller's lookup table.
struct WindowEntry {
    label: String,
    state: WindowState,
}

/// No two rows go by the same name.
spec fn distinct_labels(entries: Seq<WindowEntry>) -> bool {
    forall|i: int, j: int| 0 <= i < j < entries.len() ==> entries[i].label@ != entries[j].label@
}

/// The rows as a map from name to state.
spec fn table_of(entries: Seq<WindowEntry>) -> Map<Seq<char>, WindowState> {
    Map::new(
        |label: Seq<char>| exists|i: int| 0 <= i < entries.len() && #[trigger] entries[i].label@ == label,
        |label: Seq<char>|
            entries[choose|i: int| 0 <= i < entries.len() && #[trigger] entries[i].label@ == label].state,
    )
}

proof fn lemma_table_at(entries: Seq<WindowEntry>, i: int)
    requires
        distinct_labels(entries),
        0 <= i < entries.len(),
    ensures
        table_of(entries).contains_key(entries[i].label@),
        table_of(entries)[entries[i].label@] == entries[i].state,
{
    let label = entries[i].label@;
    let k = choose|k: int| 0 <= k < entries.len() && #[trigger] entries[k].label@ == label;
    assert(k == i);
}

proof fn lemma_table_absent(entries: Seq<WindowEntry>, label: Seq<char>)
    ensures
        !table_of(entries).contains_key(label) <==> forall|i: int|
            0 <= i < entries.len() ==> (#[trigger] entries[i]).label@ != label,
{
    if !table_of(entries).contains_key(label) {
        assert forall|i: int| 0 <= i < entries.len() implies (#[trigger] entries[i]).label@
            != label by {}
    }
}

proof fn lemma_table_push(entries: Seq<WindowEntry>, entry: WindowEntry)
    requires
        distinct_labels(entries),
        !table_of(entries).contains_key(entry.label@),
    ensures
        distinct_labels(entries.push(entry)),
        table_of(entries.push(entry)) == table_of(entries).insert(entry.label@, entry.state),
{
    let after = entries.push(entry);
    lemma_table_absent(entries, entry.label@);
    assert forall|label: Seq<char>|
        table_of(after).contains_key(label) <==> #[trigger] table_of(entries).insert(
            entry.label@,
            entry.state,
        ).contains_key(label) by {
        if table_of(entries).contains_key(label) {
            let k = choose|k: int| 0 <= k < entries.len() && #[trigger] entries[k].label@ == label;
            assert(after[k].label@ == label);
        }
        if label == entry.label@ {
            assert(after[entries.len() as int].label@ == label);
        }
    }
    assert forall|label: Seq<char>| #[trigger] table_of(after).contains_key(label) implies table_of(
        after,
    )[label] == table_of(entries).insert(entry.label@, entry.state)[label] by {
        let k = choose|k: int| 0 <= k < after.len() && #[trigger] after[k].label@ == label;
        lemma_table_at(after, k);
        if k < entries.len() {
            lemma_table_at(entries, k);
        }
    }
}

proof fn lemma_table_update(entries: Seq<WindowEntry>, i: int, entry: WindowEntry)
    requires
        distinct_labels(entries),
        0 <= i < entries.len(),
        entry.label@ == entries[i].label@,
    ensures
        distinct_labels(entries.update(i, entry)),
        table_of(entries.update(i, entry)) == table_of(entries).insert(entry.label@, entry.state),
{
    let after = entries.update(i, entry);
    assert(distinct_labels(after));
    assert forall|label: Seq<char>|
        table_of(after).contains_key(label) <==> #[trigger] table_of(entries).insert(
            entry.label@,
            entry.state,
        ).contains_key(label) by {
        if table_of(entries).contains_key(label) {
            let k = choose|k: int| 0 <= k < entries.len() && #[trigger] entries[k].label@ == label;
            assert(after[k].label@ == label);
        }
    }
    assert forall|label: Seq<char>| #[trigger] table_of(after).contains_key(label) implies table_of(
        after,
    )[label] == table_of(entries).insert(entry.label@, entry.state)[label] by {
        let k = choose|k: int| 0 <= k < after.len() && #[trigger] after[k].label@ == label;
        lemma_table_at(after, k);
        if k != i {
            lemma_table_at(entries, k);
        }
    }
}

proof fn lemma_table_remove(entries: Seq<WindowEntry>, i: int)
    requires
        distinct_labels(entries),
        0 <= i < entries.len(),
    ensures
        distinct_labels(entries.remove(i)),
        table_of(entries.remove(i)) == table_of(entries).remove(entries[i].label@),
{
    let after = entries.remove(i);
    let gone = entries[i].label@;
    assert forall|k: int| 0 <= k < after.len() implies #[trigger] after[k] == entries[if k < i {
        k
    } else {
        k + 1
    }] by {}
    assert(distinct_labels(after));
    assert forall|label: Seq<char>|
        table_of(after).contains_key(label) <==> #[trigger] table_of(entries).remove(
            gone,
        ).contains_key(label) by {
        if table_of(entries).contains_key(label) && label != gone {
            let k = choose|k: int| 0 <= k < entries.len() && #[trigger] entries[k].label@ == label;
            let k1 = if k < i { k } else { k - 1 };
            assert(after[k1].label@ == label);
        }
    }
    assert forall|label: Seq<char>| #[trigger] table_of(after).contains_key(label) implies table_of(
        after,
    )[label] == table_of(entries).remove(gone)[label] by {
        let k = choose|k: int| 0 <= k < after.len() && #[trigger] after[k].label@ == label;
        let k0 = if k < i { k } else { k + 1 };
        lemma_table_at(after, k);
        lemma_table_at(entries, k0);
    }
}

/// Owner of the visibility state of the application's windows, each found by
/// its name.
pub struct WindowLifecycleController {
    entries: Vec<WindowEntry>,
    terminated: bool,
}

impl View for WindowLifecycleController {
    type V = WindowTable;

    closed spec fn view(&self) -> WindowTable {
        WindowTable { windows: table_of(self.entries@), terminated: self.terminated }
    }
}

impl WindowLifecycleController {
    /// Names are pairwise distinct, and nothing is tracked after a quit.
    pub closed spec fn wf(&self) -> bool {
        &&& distinct_labels(self.entries@)
        &&& self.terminated ==> self.entries@.len() == 0
    }

    /// A well-formed controller has a well-formed table.
    pub proof fn lemma_view_wf(&self)
        requires
            self.wf(),
        ensures
            self@.wf(),
    {
        if self.terminated {
            assert(table_of(self.entries@) =~= Map::<Seq<char>, WindowState>::empty());
        }
    }

    /// A controller that tracks no window yet.
    pub fn new() -> (controller: WindowLifecycleController)
        ensures
            controller.wf(),
            controller@ == (WindowTable { windows: Map::empty(), terminated: false }),
    {
        let controller = WindowLifecycleController { entries: Vec::new(), terminated: false };
        assert(table_of(controller.entries@) =~= Map::<Seq<char>, WindowState>::empty());
        controller
    }

    /// The row that goes by `label`, if there is one.
    fn find(&self, label: &String) -> (found: Option<usize>)
        requires
            self.wf(),
        ensures
            match found {
                Some(i) => i < self.entries@.len() && self.entries@[i as int].label@ == label@,
                None => !self@.windows.contains_key(label@),
            },
            found.is_some() <==> self@.windows.contains_key(label@),
    {
        let mut i: usize = 0;
        while i < self.entries.len()
            invariant
                self.wf(),
                i <= self.entries.len(),
                forall|k: int| 0 <= k < i ==> self.entries@[k].label@ != label@,
            decreases self.entries.len() - i,
        {
            if self.entries[i].label == *label {
                proof {
                    lemma_table_at(self.entries@, i as int);
                }
                return Some(i);
            }
            i += 1;
        }
        None
    }

    /// Starts tracking the window named `label`, visible and with marker 0.
    /// Returns whether the window is new to the controller; a name that is
    /// tracked already keeps its state.
    pub fn attach(&mut self, label: &str) -> (added: bool)
        requires
            old(self).wf(),
        ensures
            final(self).wf(),
            final(self)@ == old(self)@.attach(label@),
            added == (!old(self)@.terminated && !old(self)@.windows.contains_key(label@)),
    {
        if self.terminated {
            return false;
        }
        let key = label.to_owned();
        match self.find(&key) {
            Some(_) => false,
            None => {
                let entry = WindowEntry {
                    label: key,
                    state: WindowState { visibility: Visibility::Visible, marker: 0 },
                };
                proof {
                    lemma_table_push(self.entries@, entry);
                }
                self.entries.push(entry);
                true
            },
        }
    }

    /// Handles the request of the window named `label` to be closed.
    ///
    /// The main window is hidden and kept alive, so that it can be shown
    /// again as the same window. Any other window is closed as the operating
    /// system would close it, and is no longer tracked.
    pub fn on_close_requested(&mut self, label: &str) -> (response: CloseResponse)
        requires
            old(self).wf(),
        ensures
            final(self).wf(),
            final(self)@ == old(self)@.close_requested(label@),
            response == old(self)@.close_response(label@),
    {
        if self.terminated {
            return CloseResponse::Proceed;
        }
        let key = label.to_owned();
        let is_main = key == "main".to_owned();
        match self.find(&key) {
            Some(i) => {
                if is_main {
                    let state = self.entries[i].state;
                    let entry = WindowEntry {
                        label: key,
                        state: WindowState { visibility: Visibility::Hidden, marker: state.marker },
                    };
                    proof {
                        lemma_table_at(self.entries@, i as int);
                        lemma_table_update(self.entries@, i as int, entry);
                    }
                    self.entries.set(i, entry);
                } else {
                    proof {
                        lemma_table_remove(self.entries@, i as int);
                    }
                    self.entries.remove(i);
                }
            },
            None => {},
        }
        if is_main {
            CloseResponse::HideAndKeepAlive
        } else {
            CloseResponse::Proceed
        }
    }

    /// Brings the window named `label` up: a hidden window becomes visible,
    /// and in either state the window is to be given focus.
    pub fn show_and_focus(&mut self, label: &str) -> (result: Result<ShowRequest, WindowError>)
        requires
            old(self).wf(),
        ensures
            final(self).wf(),
            final(self)@ == old(self)@.shown(label@),
            result == old(self)@.show_result(label@),
    {
        let key = label.to_owned();
        proof {
            self.lemma_view_wf();
        }
        match self.find(&key) {
            Some(i) => {
                let state = self.entries[i].state;
                let entry = WindowEntry {
                    label: key,
                    state: WindowState { visibility: Visibility::Visible, marker: state.marker },
                };
                proof {
                    lemma_table_at(self.entries@, i as int);
                    lemma_table_update(self.entries@, i as int, entry);
                }
                self.entries.set(i, entry);
                match state.visibility {
                    Visibility::Hidden => Ok(ShowRequest::RevealAndFocus),
                    Visibility::Visible => Ok(ShowRequest::FocusOnly),
                }
            },
            None => Err(WindowError::WindowNotFound),
        }
    }

    /// Gives the window named `label` the marker `marker`.
    pub fn set_marker(&mut self, label: &str, marker: u64) -> (result: Result<(), WindowError>)
        requires
            old(self).wf(),
        ensures
            final(self).wf(),
            final(self)@ == old(self)@.marked(label@, marker),
            result.is_ok() <==> old(self)@.windows.contains_key(label@),
            result.is_err() ==> result == Err::<(), WindowError>(WindowError::WindowNotFound),
    {
        let key = label.to_owned();
        proof {
            self.lemma_view_wf();
        }
        match self.find(&key) {
            Some(i) => {
                let state = self.entries[i].state;
                let entry = WindowEntry {
                    label: key,
                    state: WindowState { visibility: state.visibility, marker: marker },
                };
                proof {
                    lemma_table_at(self.entries@, i as int);
                    lemma_table_update(self.entries@, i as int, entry);
                }
                self.entries.set(i, entry);
                Ok(())
            },
            None => Err(WindowError::WindowNotFound),
        }
    }

    /// The state of the window named `label`, if it is live.
    pub fn state(&self, label: &str) -> (state: Option<WindowState>)
        requires
            self.wf(),
        ensures
            state == self@.state_of(label@),
    {
        let key = label.to_owned();
        match self.find(&key) {
            Some(i) => {
                proof {
                    lemma_table_at(self.entries@, i as int);
                }
                Some(self.entries[i].state)
            },
            None => None,
        }
    }

    /// Computes where to put the window named `label` on the display that it
    /// is on. Returns `None`, and nothing is to be done, where the window is
    /// not live or the display or the window's size is not known.
    pub fn position_widget_relative_to_display(
        &self,
        label: &str,
        display: Option<DisplayGeometry>,
        size: Option<WindowSize>,
    ) -> (position: Option<Position>)
        requires
            self.wf(),
        ensures
            position == self@.placement_of(label@, display, size),
    {
        let key = label.to_owned();
        match (display, size) {
            (Some(display), Some(size)) => match self.find(&key) {
                Some(_) => widget_position(display, size),
                None => None,
            },
            _ => None,
        }
    }

    /// Ends the process in good order. Returns the exit code, which is 0.
    /// Afterwards no window is live and no call changes anything.
    pub fn quit(&mut self) -> (code: i32)
        requires
            old(self).wf(),
        ensures
            final(self).wf(),
            final(self)@ == old(self)@.quit(),
            code == EXIT_SUCCESS,
    {
        self.entries = Vec::new();
        self.terminated = true;
        assert(table_of(self.entries@) =~= Map::<Seq<char>, WindowState>::empty());
        EXIT_SUCCESS
    }

    /// Whether the process has been told to quit.
    pub fn is_terminated(&self) -> (terminated: bool)
        ensures
            terminated == self@.terminated,
    {
        self.terminated
    }
}

/// Closing the main window and showing it again leaves it visible, and it is
/// the window it was: it never left the table, and its marker is the one it
/// had before.
pub proof fn law_close_then_show_keeps_main(table: WindowTable)
    requires
        table.wf(),
        table.windows.contains_key(main_label()),
    ensures
        table.close_requested(main_label()).windows.dom() == table.windows.dom(),
        table.close_requested(main_label()).windows[main_label()] == (WindowState {
            visibility: Visibility::Hidden,
            marker: table.windows[main_label()].marker,
        }),
        table.close_requested(main_label()).shown(main_label()).windows[main_label()] == (
        WindowState { visibility: Visibility::Visible, marker: table.windows[main_label()].marker }),
        table.close_requested(main_label()).shown(main_label()) == table.shown(main_label()),
        table.close_requested(main_label()).show_result(main_label()) == Ok::<
            ShowRequest,
            WindowError,
        >(ShowRequest::RevealAndFocus),
{
    let closed = table.close_requested(main_label());
    assert(closed.shown(main_label()).windows =~= table.shown(main_label()).windows);
}

/// Showing a window twice leaves what showing it once leaves; the second
/// call only asks for focus again.
pub proof fn law_show_is_idempotent(table: WindowTable, label: Seq<char>)
    ensures
        table.shown(label).shown(label) == table.shown(label),
        table.show_result(label).is_ok() ==> table.shown(label).show_result(label) == Ok::<
            ShowRequest,
            WindowError,
        >(ShowRequest::FocusOnly),
{
    assert(table.shown(label).shown(label).windows =~= table.shown(label).windows);
}

/// After a quit nothing changes any more: every transition leaves the table
/// as it is, no close request is intercepted and no window is found.
pub proof fn law_quit_is_terminal(table: WindowTable, label: Seq<char>, marker: u64)
    ensures
        table.quit().wf(),
        table.quit().terminated,
        table.quit().attach(label) == table.quit(),
        table.quit().close_requested(label) == table.quit(),
        table.quit().shown(label) == table.quit(),
        table.quit().marked(label, marker) == table.quit(),
        table.quit().quit() == table.quit(),
        table.quit().close_response(label) == CloseResponse::Proceed,
        table.quit().show_result(label) == Err::<ShowRequest, WindowError>(
            WindowError::WindowNotFound,
        ),
        table.quit().state_of(label).is_none(),
        forall|display: Option<DisplayGeometry>, size: Option<WindowSize>|
            (#[trigger] table.quit().placement_of(label, display, size)).is_none(),
{
}

} // verus!
