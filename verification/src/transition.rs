//! One step of a turn: the new state and everything the step produced.
use vstd::prelude::*;

use crate::dup::{views, Duplicate};
use crate::effect::{Effect, EffectView};
use crate::events::{RunStreamEvent, RunStreamEventView, UiThreadEvent, UiThreadEventView};
use crate::state::{TurnState, TurnStateView};
use crate::transcript::{TranscriptItem, TranscriptItemView};

verus! {

/// The outcome of handling one event: the next state, the transcript items
/// added, the events to publish, and the effects to run, each in order.
pub struct Transition {
    pub state: TurnState,
    pub new_items: Vec<TranscriptItem>,
    pub run_events: Vec<RunStreamEvent>,
    pub ui_events: Vec<UiThreadEvent>,
    pub effects: Vec<Effect>,
}

pub struct TransitionView {
    pub state: TurnStateView,
    pub new_items: Seq<TranscriptItemView>,
    pub run_events: Seq<RunStreamEventView>,
    pub ui_events: Seq<UiThreadEventView>,
    pub effects: Seq<EffectView>,
}

impl View for Transition {
    type V = TransitionView;

    open spec fn view(&self) -> TransitionView {
        TransitionView {
            state: self.state@,
            new_items: views(self.new_items@),
            run_events: views(self.run_events@),
            ui_events: views(self.ui_events@),
            effects: views(self.effects@),
        }
    }
}

/// A step that leaves `state` as it is and produces nothing.
pub open spec fn quiet(state: TurnStateView) -> TransitionView {
    TransitionView { state, new_items: seq![], run_events: seq![], ui_events: seq![], effects: seq![] }
}

impl TransitionView {
    /// The step with `item` appended to the transcript and to the new items.
    pub open spec fn add_item(self, item: TranscriptItemView) -> TransitionView {
        TransitionView {
            state: TurnStateView { transcript: self.state.transcript.push(item), ..self.state },
            new_items: self.new_items.push(item),
            ..self
        }
    }

    pub open spec fn add_run(self, e: RunStreamEventView) -> TransitionView {
        TransitionView { run_events: self.run_events.push(e), ..self }
    }

    pub open spec fn add_ui(self, e: UiThreadEventView) -> TransitionView {
        TransitionView { ui_events: self.ui_events.push(e), ..self }
    }

    pub open spec fn add_effect(self, e: EffectView) -> TransitionView {
        TransitionView { effects: self.effects.push(e), ..self }
    }

    pub open spec fn with_state(self, state: TurnStateView) -> TransitionView {
        TransitionView { state, ..self }
    }
}

impl Transition {
    /// A step from `state` that has produced nothing yet.
    pub fn new(state: TurnState) -> (r: Self)
        ensures
            r@ == quiet(state@),
    {
        let r = Transition {
            state,
            new_items: Vec::new(),
            run_events: Vec::new(),
            ui_events: Vec::new(),
            effects: Vec::new(),
        };
        assert(r@.new_items =~= seq![]);
        assert(r@.run_events =~= seq![]);
        assert(r@.ui_events =~= seq![]);
        assert(r@.effects =~= seq![]);
        r
    }

    /// Records `item` in the transcript and among the new items.
    pub fn add_item(&mut self, item: TranscriptItem)
        ensures
            final(self)@ == old(self)@.add_item(item@),
    {
        let ghost t0 = self.state.transcript@;
        let ghost n0 = self.new_items@;
        self.state.transcript.push(item.duplicate());
        self.new_items.push(item);
        assert(views(self.state.transcript@) =~= views(t0).push(item@));
        assert(views(self.new_items@) =~= views(n0).push(item@));
    }

    pub fn add_run_event(&mut self, event: RunStreamEvent)
        ensures
            final(self)@ == old(self)@.add_run(event@),
    {
        let ghost r0 = self.run_events@;
        self.run_events.push(event);
        assert(views(self.run_events@) =~= views(r0).push(event@));
    }

    pub fn add_ui_event(&mut self, event: UiThreadEvent)
        ensures
            final(self)@ == old(self)@.add_ui(event@),
    {
        let ghost u0 = self.ui_events@;
        self.ui_events.push(event);
        assert(views(self.ui_events@) =~= views(u0).push(event@));
    }

    pub fn add_effect(&mut self, effect: Effect)
        ensures
            final(self)@ == old(self)@.add_effect(effect@),
    {
        let ghost e0 = self.effects@;
        self.effects.push(effect);
        assert(views(self.effects@) =~= views(e0).push(effect@));
    }
}

} // verus!
