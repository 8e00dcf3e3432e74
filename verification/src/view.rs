//! The editor view: the one place from which the parameter model is written.
//!
//! The view owns the model. The host opens and closes its window and lets
//! it idle from time to time; on every idle tick the values that the user
//! moved are written back into the model, each held to the bounds of its
//! parameter.

use vstd::prelude::*;
use crate::model::{
    Model, CUTOFF_DIP_INDEX, FILTER_LFO_DEPTH_INDEX, LFO_DEPTH_INDEX, PARAMETER_COUNT, WONK_X_INDEX,
    WONK_Y_INDEX,
};

verus! {

/// Width of the editor window in pixels.
pub const WINDOW_WIDTH: u32 = 440;

/// Height of the editor window in pixels.
pub const WINDOW_HEIGHT: u32 = 260;

/// Where the editor window stands.
#[derive(Copy, Clone, Debug, PartialEq, Eq)]
pub enum Lifecycle {
    /// The window was closed. It can be opened again.
    Closed,
    /// The window exists and has not been shown yet.
    Hidden,
    /// The window is on screen.
    Visible,
}

/// What the window system reports between two idle ticks, as far as the
/// editor cares.
#[derive(Copy, Clone, Debug, PartialEq, Eq)]
pub enum WindowEvent {
    /// The user asked for the window to go away.
    CloseRequested,
    /// Anything else.
    Other,
}

/// State of the interface that is not a parameter.
#[derive(Copy, Clone, Debug, PartialEq, Eq)]
pub struct ViewState {
    /// Whether the about panel is shown.
    pub about: bool,
}

impl ViewState {
    /// The state of a fresh interface: no about panel.
    pub fn new() -> (state: Self)
        ensures
            !state.about,
    {
        ViewState { about: false }
    }
}

/// What the controls report for one idle tick: for each control the new value
/// the user gave it, or nothing where the user left it alone.
#[derive(Copy, Clone, Debug, PartialEq, Eq)]
pub struct WidgetInput {
    /// The about button was clicked.
    pub about_clicked: bool,
    /// The cutoff dip slider.
    pub cutoff_dip: Option<u32>,
    /// The wonk pad, horizontal then vertical.
    pub wonk: Option<(u32, u32)>,
    /// The LFO pad: oscillator depth, then filter depth.
    pub lfo: Option<(u32, u32)>,
}

/// The model after the controls had their say: every control that reports a
/// value sets its parameter to that value pulled into the parameter's bounds;
/// every other parameter stays as it is.
pub open spec fn with_input(model: Model, input: WidgetInput) -> Model {
    Model {
        cutoff_dip: match input.cutoff_dip {
            Some(v) => Model::bounded(CUTOFF_DIP_INDEX as int, v),
            None => model.cutoff_dip,
        },
        lfo_depth: match input.lfo {
            Some(pair) => Model::bounded(LFO_DEPTH_INDEX as int, pair.0),
            None => model.lfo_depth,
        },
        filter_lfo_depth: match input.lfo {
            Some(pair) => Model::bounded(FILTER_LFO_DEPTH_INDEX as int, pair.1),
            None => model.filter_lfo_depth,
        },
        wonk: match input.wonk {
            Some(pair) => (
                Model::bounded(WONK_X_INDEX as int, pair.0),
                Model::bounded(WONK_Y_INDEX as int, pair.1),
            ),
            None => model.wonk,
        },
    }
}

/// Whether a close request is among the first `n` events.
pub open spec fn close_requested_before(events: &[WindowEvent], n: int) -> bool {
    exists|i: int| 0 <= i < n && #[trigger] events[i] == WindowEvent::CloseRequested
}

/// Whether a close request is among the events.
pub open spec fn close_requested(events: &[WindowEvent]) -> bool {
    close_requested_before(events, events.len() as int)
}

/// Takes what the controls report into the interface state and the model. A
/// click on the about button flips the about panel.
pub fn set_widgets(ctx: &mut ViewState, model: &mut Model, input: &WidgetInput)
    ensures
        final(ctx).about == (old(ctx).about != input.about_clicked),
        *final(model) == with_input(*old(model), *input),
{
    if input.about_clicked {
        ctx.about = !ctx.about;
    }
    if let Some(v) = input.cutoff_dip {
        model.set_parameter(CUTOFF_DIP_INDEX, v);
    }
    if let Some(wonk) = input.wonk {
        model.set_parameter(WONK_X_INDEX, wonk.0);
        model.set_parameter(WONK_Y_INDEX, wonk.1);
    }
    if let Some(lfo) = input.lfo {
        model.set_parameter(LFO_DEPTH_INDEX, lfo.0);
        model.set_parameter(FILTER_LFO_DEPTH_INDEX, lfo.1);
    }
}

/// The editor of one plugin instance.
#[derive(Copy, Clone, Debug)]
pub struct View {
    lifecycle: Lifecycle,
    model: Model,
    view_state: ViewState,
}

impl View {
    /// Where the window stands.
    pub closed spec fn spec_lifecycle(&self) -> Lifecycle {
        self.lifecycle
    }

    /// The model as the editor holds it.
    pub closed spec fn spec_model(&self) -> Model {
        self.model
    }

    /// Whether the about panel is shown.
    pub closed spec fn spec_about(&self) -> bool {
        self.view_state.about
    }

    /// An editor for a model. Its window exists and is hidden.
    pub fn new(init_state: Model) -> (view: View)
        ensures
            view.spec_lifecycle() == Lifecycle::Hidden,
            view.spec_model() == init_state,
            !view.spec_about(),
    {
        View { lifecycle: Lifecycle::Hidden, model: init_state, view_state: ViewState::new() }
    }

    /// Where the window stands.
    #[verifier::when_used_as_spec(spec_lifecycle)]
    pub fn lifecycle(&self) -> (lifecycle: Lifecycle)
        ensures
            lifecycle == self.spec_lifecycle(),
    {
        self.lifecycle
    }

    /// The model as it stands.
    #[verifier::when_used_as_spec(spec_model)]
    pub fn model(&self) -> (model: Model)
        ensures
            model == self.spec_model(),
    {
        self.model
    }

    /// Whether the about panel is shown.
    #[verifier::when_used_as_spec(spec_about)]
    pub fn about(&self) -> (about: bool)
        ensures
            about == self.spec_about(),
    {
        self.view_state.about
    }

    /// The size the host reserves for the editor, width then height.
    pub fn size(&self) -> (size: (i32, i32))
        ensures
            size == (200i32, 100i32),
    {
        (200, 100)
    }

    /// The position of the editor in the host's window.
    pub fn position(&self) -> (position: (i32, i32))
        ensures
            position == (0i32, 0i32),
    {
        (0, 0)
    }

    /// Shows the window.
    pub fn open(&mut self)
        ensures
            final(self).spec_lifecycle() == Lifecycle::Visible,
            final(self).spec_model() == old(self).spec_model(),
            final(self).spec_about() == old(self).spec_about(),
    {
        self.lifecycle = Lifecycle::Visible;
    }

    /// Hides the window. The model stays.
    pub fn close(&mut self)
        ensures
            final(self).spec_lifecycle() == Lifecycle::Closed,
            final(self).spec_model() == old(self).spec_model(),
            final(self).spec_about() == old(self).spec_about(),
    {
        self.lifecycle = Lifecycle::Closed;
    }

    /// Whether the window is on screen.
    pub fn is_open(&self) -> (open: bool)
        ensures
            open == (self.spec_lifecycle() == Lifecycle::Visible),
    {
        match self.lifecycle {
            Lifecycle::Visible => true,
            _ => false,
        }
    }

    /// Takes a value from the host's automation into the model, held to the
    /// bounds of the parameter at `index`. An index that names no parameter
    /// changes nothing.
    pub fn set_parameter(&mut self, index: i32, value: u32)
        ensures
            final(self).spec_lifecycle() == old(self).spec_lifecycle(),
            final(self).spec_about() == old(self).spec_about(),
            0 <= index < PARAMETER_COUNT ==> final(self).spec_model()
                == old(self).spec_model().with_value_at(
                index as int,
                Model::bounded(index as int, value),
            ),
            !(0 <= index < PARAMETER_COUNT) ==> final(self).spec_model() == old(self).spec_model(),
    {
        self.model.set_parameter(index, value);
    }

    /// One idle tick: a close request among the events closes the window,
    /// what the controls report goes into the model, and the result says
    /// whether anything the user can see has changed, so that the window is
    /// drawn again only then.
    pub fn idle(&mut self, events: &[WindowEvent], input: &WidgetInput) -> (redraw: bool)
        ensures
            close_requested(events) ==> final(self).spec_lifecycle() == Lifecycle::Closed,
            !close_requested(events) ==> final(self).spec_lifecycle() == old(self).spec_lifecycle(),
            final(self).spec_model() == with_input(old(self).spec_model(), *input),
            final(self).spec_about() == (old(self).spec_about() != input.about_clicked),
            redraw == (final(self).spec_lifecycle() != old(self).spec_lifecycle()
                || final(self).spec_model() != old(self).spec_model()
                || final(self).spec_about() != old(self).spec_about()),
    {
        let before = *self;
        let n = events.len();
        let mut i: usize = 0;
        while i < n
            invariant
                i <= n,
                n == events.len(),
                self.model == before.model,
                self.view_state == before.view_state,
                close_requested_before(events, i as int) ==> self.lifecycle == Lifecycle::Closed,
                !close_requested_before(events, i as int) ==> self.lifecycle == before.lifecycle,
            decreases n - i,
        {
            match events[i] {
                WindowEvent::CloseRequested => {
                    self.close();
                },
                WindowEvent::Other => {},
            }
            i = i + 1;
        }
        set_widgets(&mut self.view_state, &mut self.model, input);
        let lifecycle_changed = match (self.lifecycle, before.lifecycle) {
            (Lifecycle::Closed, Lifecycle::Closed) => false,
            (Lifecycle::Hidden, Lifecycle::Hidden) => false,
            (Lifecycle::Visible, Lifecycle::Visible) => false,
            _ => true,
        };
        lifecycle_changed || !self.model.same_bits(&before.model) || self.view_state.about
            != before.view_state.about
    }
}

} // verus!
