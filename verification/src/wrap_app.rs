//! The host side: the sub-applications that the host iterates, and which of
//! them is selected.

use crate::custom3d::{is_init_outcome, Custom3d, InitError, InitFailure, RenderState};
use crate::lifecycle::{ViewEvent, ViewState};
use crate::modules::{BuildError, BuildResult};
use crate::pipeline::{PipelinePlan, LABEL};
use vstd::prelude::*;

verus! {

/// The name under which the view is listed.
pub const CUSTOM3D_NAME: &'static str = "\u{1F53A} 3D painting";

/// The state that the host persists.
#[derive(Clone, Debug, PartialEq, Eq)]
pub struct State {
    selected_anchor: String,
}

impl View for State {
    type V = Seq<char>;

    /// The anchor of the selected sub-application.
    closed spec fn view(&self) -> Seq<char> {
        self.selected_anchor@
    }
}

impl Default for State {
    /// The state in which nothing is selected.
    fn default() -> (state: State)
        ensures
            state@ == Seq::<char>::empty(),
    {
        State { selected_anchor: String::new() }
    }
}

impl State {
    /// The state in which `anchor` is selected.
    pub fn new(anchor: &str) -> (state: State)
        ensures
            state@ == anchor@,
    {
        State { selected_anchor: String::from_str(anchor) }
    }

    /// The anchor of the selected sub-application.
    pub fn selected_anchor(&self) -> (anchor: &str)
        ensures
            anchor@ == self@,
    {
        self.selected_anchor.as_str()
    }
}

/// One sub-application as the host lists it.
#[derive(Clone, Copy, Debug, PartialEq, Eq)]
pub struct AppEntry {
    pub name: &'static str,
    pub anchor: &'static str,
}

/// One label of the host's top bar.
#[derive(Clone, Copy, Debug, PartialEq, Eq)]
pub struct BarLabel {
    pub name: &'static str,
    pub anchor: &'static str,
    pub selected: bool,
}

/// Wraps the sub-applications into one.
#[derive(Clone, Debug, PartialEq, Eq)]
pub struct WrapApp {
    state: State,
    custom3d: Option<Custom3d>,
}

impl WrapApp {
    /// The anchor of the selected sub-application.
    pub closed spec fn selected(&self) -> Seq<char> {
        self.state@
    }

    /// The view, where it came up.
    pub closed spec fn view_spec(&self) -> Option<Custom3d> {
        self.custom3d
    }

    /// The anchors of the active sub-applications, in the order in which the
    /// host iterates them: the view's, where the view came up, and no other.
    pub open spec fn active_anchors(&self) -> Seq<Seq<char>> {
        if self.view_spec() is Some {
            seq![LABEL@]
        } else {
            Seq::empty()
        }
    }

    /// The anchors of the sub-applications to update in a frame: the active
    /// ones that are selected, or all the active ones where everything is
    /// visible.
    pub open spec fn shown_anchors(&self, everything_is_visible: bool) -> Seq<Seq<char>> {
        if self.view_spec() is Some && (self.selected() == LABEL@ || everything_is_visible) {
            seq![LABEL@]
        } else {
            Seq::empty()
        }
    }

    /// Wraps the view in the state in which it came up, or no view where it
    /// did not, and takes over the restored state where there is one.
    pub fn from_parts(custom3d: Option<Custom3d>, restored: Option<State>) -> (app: WrapApp)
        ensures
            app.view_spec() == custom3d,
            app.selected() == (match restored {
                Some(state) => state@,
                None => Seq::<char>::empty(),
            }),
    {
        let state = match restored {
            Some(state) => state,
            None => State::default(),
        };
        WrapApp { state, custom3d }
    }

    /// Brings the host up: tries to bring the view up, as `Custom3d::new`
    /// says, and takes over the restored state where there is one. Where the
    /// view does not come up, the host is there without it, and the error
    /// says why; the plan of the pipeline comes with a view that did.
    pub fn new<F, C: FnOnce() -> Result<BuildResult, BuildError>>(
        render_state: Option<RenderState<F>>,
        compile: C,
        restored: Option<State>,
    ) -> (result: (WrapApp, Result<PipelinePlan<F>, InitError>))
        requires
            compile.requires(()),
        ensures
            result.0.view_spec() is Some <==> result.1 is Ok,
            result.0.selected() == (match restored {
                Some(state) => state@,
                None => Seq::<char>::empty(),
            }),
            render_state is None ==> result.1 is Err && result.1->Err_0@
                == InitFailure::DeviceUnavailable && result.0.active_anchors() == Seq::<
                Seq<char>,
            >::empty(),
            render_state matches Some(state) ==> exists|built: Result<BuildResult, BuildError>|
                compile.ensures((), built) && is_init_outcome(
                    state,
                    built,
                    match result.1 {
                        Ok(plan) => Ok((result.0.view_spec()->0, plan)),
                        Err(e) => Err(e),
                    },
                ),
    {
        match Custom3d::new(render_state, compile) {
            Ok((custom3d, plan)) => (Self::from_parts(Some(custom3d), restored), Ok(plan)),
            Err(e) => (Self::from_parts(None, restored), Err(e)),
        }
    }

    /// Where the view stands between two frames: up, or disabled for good.
    pub fn view_state(&self) -> (state: ViewState)
        ensures
            state == (if self.view_spec() is Some {
                ViewState::Initialized
            } else {
                ViewState::Disabled
            }),
            Some(state) == ViewState::Uninitialized.next(
                if self.view_spec() is Some {
                    ViewEvent::InitSucceeded
                } else {
                    ViewEvent::InitFailed
                },
            ),
    {
        if self.custom3d.is_some() {
            ViewState::Initialized
        } else {
            ViewState::Disabled
        }
    }

    /// The state to persist.
    pub fn state(&self) -> (state: &State)
        ensures
            state@ == self.selected(),
    {
        &self.state
    }

    /// The view, where it came up.
    pub fn custom3d(&mut self) -> (view: Option<&mut Custom3d>)
        ensures
            view is Some <==> old(self).view_spec() is Some,
            view matches Some(v) ==> *v == old(self).view_spec()->0 && final(self).view_spec()
                == Some(*final(v)),
            view is None ==> *final(self) == *old(self),
            final(self).selected() == old(self).selected(),
    {
        self.custom3d.as_mut()
    }

    /// The active sub-applications, in the order in which the host iterates
    /// them. A view that did not come up is not among them.
    pub fn apps(&self) -> (entries: Vec<AppEntry>)
        ensures
            entries@.len() == self.active_anchors().len(),
            forall|i: int|
                0 <= i < entries@.len() ==> (#[trigger] entries@[i]).anchor@
                    == self.active_anchors()[i] && entries@[i].name@ == CUSTOM3D_NAME@,
    {
        let mut entries: Vec<AppEntry> = Vec::new();
        if self.custom3d.is_some() {
            entries.push(AppEntry { name: CUSTOM3D_NAME, anchor: LABEL });
        }
        entries
    }

    /// The sub-applications to update in this frame, in order. Where there
    /// is none, the selection falls back to the view's anchor.
    pub fn show_selected_app(&mut self, everything_is_visible: bool) -> (shown: Vec<AppEntry>)
        ensures
            final(self).view_spec() == old(self).view_spec(),
            shown@.len() == old(self).shown_anchors(everything_is_visible).len(),
            forall|i: int|
                0 <= i < shown@.len() ==> (#[trigger] shown@[i]).anchor@ == old(
                    self,
                ).shown_anchors(everything_is_visible)[i] && shown@[i].name@ == CUSTOM3D_NAME@,
            final(self).selected() == (if shown@.len() == 0 {
                LABEL@
            } else {
                old(self).selected()
            }),
    {
        let mut shown: Vec<AppEntry> = Vec::new();
        let apps = self.apps();
        let mut i: usize = 0;
        while i < apps.len()
            invariant
                i <= apps@.len(),
                *self == *old(self),
                apps@.len() == self.active_anchors().len(),
                forall|k: int|
                    0 <= k < apps@.len() ==> (#[trigger] apps@[k]).anchor@
                        == self.active_anchors()[k] && apps@[k].name@ == CUSTOM3D_NAME@,
                i == 0 ==> shown@.len() == 0,
                i > 0 ==> shown@.len() == self.shown_anchors(everything_is_visible).len(),
                forall|k: int|
                    0 <= k < shown@.len() ==> (#[trigger] shown@[k]).anchor@ == LABEL@
                        && shown@[k].name@ == CUSTOM3D_NAME@,
            decreases apps@.len() - i,
        {
            let anchor = String::from_str(apps[i].anchor);
            if anchor == self.state.selected_anchor || everything_is_visible {
                shown.push(apps[i]);
            }
            i += 1;
        }
        if shown.len() == 0 {
            self.state.selected_anchor = String::from_str(LABEL);
        }
        shown
    }

    /// The labels of the top bar, one for each active sub-application, in
    /// order, each marked as selected or not.
    pub fn bar_labels(&self) -> (labels: Vec<BarLabel>)
        ensures
            labels@.len() == self.active_anchors().len(),
            forall|i: int|
                0 <= i < labels@.len() ==> {
                    &&& (#[trigger] labels@[i]).anchor@ == self.active_anchors()[i]
                    &&& labels@[i].name@ == CUSTOM3D_NAME@
                    &&& labels@[i].selected == (self.selected() == self.active_anchors()[i])
                },
    {
        let mut labels: Vec<BarLabel> = Vec::new();
        let apps = self.apps();
        let mut i: usize = 0;
        while i < apps.len()
            invariant
                i <= apps@.len(),
                labels@.len() == i,
                apps@.len() == self.active_anchors().len(),
                forall|k: int|
                    0 <= k < apps@.len() ==> (#[trigger] apps@[k]).anchor@
                        == self.active_anchors()[k] && apps@[k].name@ == CUSTOM3D_NAME@,
                forall|k: int|
                    0 <= k < i ==> {
                        &&& (#[trigger] labels@[k]).anchor@ == self.active_anchors()[k]
                        &&& labels@[k].name@ == CUSTOM3D_NAME@
                        &&& labels@[k].selected == (self.selected() == self.active_anchors()[k])
                    },
            decreases apps@.len() - i,
        {
            let anchor = String::from_str(apps[i].anchor);
            let selected: bool = anchor == self.state.selected_anchor;
            labels.push(BarLabel { name: apps[i].name, anchor: apps[i].anchor, selected });
            i += 1;
        }
        labels
    }

    /// Takes a click on the label of `anchor`: selects it, and on the web
    /// gives the address to open, the anchor behind a hash sign.
    pub fn select(&mut self, anchor: &str, is_web: bool) -> (url: Option<String>)
        ensures
            final(self).selected() == anchor@,
            final(self).view_spec() == old(self).view_spec(),
            url is Some <==> is_web,
            url matches Some(u) ==> u@ == seq!['#'] + anchor@,
    {
        self.state.selected_anchor = String::from_str(anchor);
        if is_web {
            let url = String::from_str("#").concat(anchor);
            proof {
                reveal_strlit("#");
                assert("#"@ =~= seq!['#']);
            }
            Some(url)
        } else {
            None
        }
    }
}

/// A view that did not come up is not among the sub-applications that the
/// host iterates, whatever is selected or visible: the host has none to list,
/// to show or to update.
pub proof fn lemma_absent_view_is_not_listed(app: WrapApp, everything_is_visible: bool)
    requires
        app.view_spec() is None,
    ensures
        app.active_anchors().len() == 0,
        app.shown_anchors(everything_is_visible).len() == 0,
{
}

} // verus!
