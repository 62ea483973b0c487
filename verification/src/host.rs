//! Pane operations, and a model of the host window that says what they mean.
//!
//! A command of this library returns a plan: a list of [`Action`]s for the
//! caller to carry out on the real window. [`HostWindow`] is that window
//! reduced to what the plans can change, and to the one failure that a plan
//! has to live with: a pane that the host will not create.

use crate::geometry::{Rect, WindowSize};
use crate::pane::Pane;
use vstd::prelude::*;

verus! {

/// One operation on the host window. All lengths count half pixels.
///
/// Every operation but `Create` leaves a window without the named pane
/// untouched. `Create` leaves a window untouched that already has the pane, or
/// that refuses to create it.
#[derive(Clone, Debug, PartialEq, Eq)]
pub enum Action {
    /// Add the pane to the window, showing `url`, at `rect`.
    Create { pane: Pane, url: String, rect: Rect },
    /// Point the pane at `url`.
    Navigate { pane: Pane, url: String },
    /// Give the pane a new width and height.
    Resize { pane: Pane, width: i64, height: i64 },
    /// Put the pane's top-left corner at `(x, y)`.
    Move { pane: Pane, x: i64, y: i64 },
    /// Register one more observer of window resizes.
    WatchResize,
    /// Wait for the host to settle.
    Settle { millis: u64 },
}

/// An [`Action`] with its text as a sequence of characters.
pub enum Step {
    Create { pane: Pane, url: Seq<char>, rect: Rect },
    Navigate { pane: Pane, url: Seq<char> },
    Resize { pane: Pane, width: i64, height: i64 },
    Move { pane: Pane, x: i64, y: i64 },
    WatchResize,
    Settle { millis: u64 },
}

impl View for Action {
    type V = Step;

    open spec fn view(&self) -> Step {
        match *self {
            Action::Create { pane, url, rect } => Step::Create { pane, url: url@, rect },
            Action::Navigate { pane, url } => Step::Navigate { pane, url: url@ },
            Action::Resize { pane, width, height } => Step::Resize { pane, width, height },
            Action::Move { pane, x, y } => Step::Move { pane, x, y },
            Action::WatchResize => Step::WatchResize,
            Action::Settle { millis } => Step::Settle { millis },
        }
    }
}

/// The steps that a plan stands for, in order.
pub open spec fn steps_of(plan: Seq<Action>) -> Seq<Step> {
    Seq::new(plan.len(), |i: int| plan[i]@)
}

/// What the window shows in one pane.
#[derive(Clone, Debug, PartialEq, Eq)]
pub struct PaneState {
    pub rect: Rect,
    pub url: String,
}

/// A [`PaneState`] with its text as a sequence of characters.
pub struct PaneView {
    pub rect: Rect,
    pub url: Seq<char>,
}

impl View for PaneState {
    type V = PaneView;

    open spec fn view(&self) -> PaneView {
        PaneView { rect: self.rect, url: self.url@ }
    }
}

/// The state of a host window: its inner size where the host can report one,
/// the panes it holds, the panes that it refuses to create, and how many
/// resize observers were registered.
pub struct HostView {
    pub size: Option<WindowSize>,
    pub panes: Map<Pane, PaneView>,
    pub refuses: Set<Pane>,
    pub observers: u64,
}

impl HostView {
    /// Whether the window holds the pane.
    pub open spec fn has(self, pane: Pane) -> bool {
        self.panes.contains_key(pane)
    }

    /// Whether the window takes a request to create the pane: it does not
    /// hold the pane yet and does not refuse it.
    pub open spec fn admits(self, pane: Pane) -> bool {
        !self.has(pane) && !self.refuses.contains(pane)
    }

    /// The window with `panes` in place of its own, and nothing else changed.
    pub open spec fn with_panes(self, panes: Map<Pane, PaneView>) -> HostView {
        HostView { size: self.size, panes, refuses: self.refuses, observers: self.observers }
    }

    /// The window with `pane` showing `state`, whether or not it held the pane
    /// before.
    pub open spec fn with_pane(self, pane: Pane, state: PaneView) -> HostView {
        self.with_panes(self.panes.insert(pane, state))
    }

    /// The window that from now on refuses to create `pane`.
    pub open spec fn refusing(self, pane: Pane) -> HostView {
        HostView { size: self.size, panes: self.panes, refuses: self.refuses.insert(pane), observers: self.observers }
    }

    /// The window with `pane` at `rect`, where it holds the pane; else as it
    /// is.
    pub open spec fn with_rect(self, pane: Pane, rect: Rect) -> HostView {
        if self.has(pane) {
            self.with_pane(pane, PaneView { rect, url: self.panes[pane].url })
        } else {
            self
        }
    }

    /// The window with `pane` given a new width and height, where it holds
    /// the pane; else as it is.
    pub open spec fn with_extent(self, pane: Pane, width: i64, height: i64) -> HostView {
        self.with_rect(pane, Rect { x: self.panes[pane].rect.x, y: self.panes[pane].rect.y, width, height })
    }

    /// The window with the top-left corner of `pane` at `(x, y)`, where it
    /// holds the pane; else as it is.
    pub open spec fn with_corner(self, pane: Pane, x: i64, y: i64) -> HostView {
        self.with_rect(pane, Rect { x, y, width: self.panes[pane].rect.width, height: self.panes[pane].rect.height })
    }

    /// The window with `pane` showing `url`, where it holds the pane; else as
    /// it is.
    pub open spec fn with_url(self, pane: Pane, url: Seq<char>) -> HostView {
        if self.has(pane) {
            self.with_pane(pane, PaneView { rect: self.panes[pane].rect, url })
        } else {
            self
        }
    }

    /// The window after the host reported a new inner size, or stopped
    /// reporting one.
    pub open spec fn resized(self, size: Option<WindowSize>) -> HostView {
        HostView { size, panes: self.panes, refuses: self.refuses, observers: self.observers }
    }

    /// The window with one more resize observer. The count stops at the
    /// largest number it can hold.
    pub open spec fn watched(self) -> HostView {
        HostView {
            size: self.size,
            panes: self.panes,
            refuses: self.refuses,
            observers: if self.observers < u64::MAX {
                (self.observers + 1) as u64
            } else {
                self.observers
            },
        }
    }
}

/// The window after one step.
pub open spec fn apply_step(host: HostView, step: Step) -> HostView {
    match step {
        Step::Create { pane, url, rect } => if host.admits(pane) {
            host.with_pane(pane, PaneView { rect, url })
        } else {
            host
        },
        Step::Navigate { pane, url } => host.with_url(pane, url),
        Step::Resize { pane, width, height } => host.with_extent(pane, width, height),
        Step::Move { pane, x, y } => host.with_corner(pane, x, y),
        Step::WatchResize => host.watched(),
        Step::Settle { millis } => host,
    }
}

/// The window after all steps of a plan, first to last.
pub open spec fn run(host: HostView, steps: Seq<Step>) -> HostView
    decreases steps.len(),
{
    if steps.len() == 0 {
        host
    } else {
        apply_step(run(host, steps.drop_last()), steps.last())
    }
}

/// Running a plan with one more step is running the plan and then the step.
pub proof fn lemma_run_push(host: HostView, steps: Seq<Step>, step: Step)
    ensures
        run(host, steps.push(step)) == apply_step(run(host, steps), step),
{
    assert(steps.push(step).drop_last() =~= steps);
}

/// Running a plan of one step is taking that step.
pub proof fn lemma_run_one(host: HostView, step: Step)
    ensures
        run(host, seq![step]) == apply_step(host, step),
{
    lemma_run_push(host, Seq::empty(), step);
    assert(Seq::<Step>::empty().push(step) =~= seq![step]);
}

/// Running a plan of two steps is taking the first and then the second.
pub proof fn lemma_run_two(host: HostView, first: Step, second: Step)
    ensures
        run(host, seq![first, second]) == apply_step(apply_step(host, first), second),
{
    lemma_run_one(host, first);
    lemma_run_push(host, seq![first], second);
    assert(seq![first].push(second) =~= seq![first, second]);
}

/// Running two plans one after the other is running their concatenation.
pub proof fn lemma_run_concat(host: HostView, first: Seq<Step>, second: Seq<Step>)
    ensures
        run(host, first + second) == run(run(host, first), second),
    decreases second.len(),
{
    if second.len() == 0 {
        assert(first + second =~= first);
    } else {
        lemma_run_concat(host, first, second.drop_last());
        assert((first + second).drop_last() =~= first + second.drop_last());
    }
}

/// What a caller has to observe of the real window before a command can plan:
/// the inner size, where the host reports one, and which quadrant panes exist.
#[derive(Clone, Copy, Debug, PartialEq, Eq)]
pub struct WindowProbe {
    pub size: Option<WindowSize>,
    pub main1: bool,
    pub main2: bool,
    pub main3: bool,
    pub main4: bool,
}

impl WindowProbe {
    /// Whether the probe found the quadrant pane. The probe does not look for
    /// the control pane.
    pub open spec fn has(self, pane: Pane) -> bool {
        match pane {
            Pane::Main1 => self.main1,
            Pane::Main2 => self.main2,
            Pane::Main3 => self.main3,
            Pane::Main4 => self.main4,
            Pane::Control => false,
        }
    }

    /// Whether the probe found the quadrant pane.
    pub fn holds(&self, pane: Pane) -> (found: bool)
        ensures
            found == self.has(pane),
    {
        match pane {
            Pane::Main1 => self.main1,
            Pane::Main2 => self.main2,
            Pane::Main3 => self.main3,
            Pane::Main4 => self.main4,
            Pane::Control => false,
        }
    }
}

/// The probe that an observer of `host` would bring back.
pub open spec fn probe_of(host: HostView) -> WindowProbe {
    WindowProbe {
        size: host.size,
        main1: host.panes.contains_key(Pane::Main1),
        main2: host.panes.contains_key(Pane::Main2),
        main3: host.panes.contains_key(Pane::Main3),
        main4: host.panes.contains_key(Pane::Main4),
    }
}

/// An in-memory host window. It carries out plans the way [`apply_step`]
/// says, so a caller can see where a plan leads without a real window.
pub struct HostWindow {
    size: Option<WindowSize>,
    main1: Slot,
    main2: Slot,
    main3: Slot,
    main4: Slot,
    control: Slot,
    observers: u64,
}

struct Slot {
    state: Option<PaneState>,
    refused: bool,
}

impl View for HostWindow {
    type V = HostView;

    closed spec fn view(&self) -> HostView {
        HostView {
            size: self.size,
            panes: Map::new(|pane: Pane| self.slot(pane).state is Some, |pane: Pane| self.slot(pane).state->0@),
            refuses: Set::new(|pane: Pane| self.slot(pane).refused),
            observers: self.observers,
        }
    }
}

impl HostWindow {
    spec fn slot(self, pane: Pane) -> Slot {
        match pane {
            Pane::Main1 => self.main1,
            Pane::Main2 => self.main2,
            Pane::Main3 => self.main3,
            Pane::Main4 => self.main4,
            Pane::Control => self.control,
        }
    }

    fn slot_of(&self, pane: Pane) -> (slot: &Slot)
        ensures
            *slot == self.slot(pane),
    {
        match pane {
            Pane::Main1 => &self.main1,
            Pane::Main2 => &self.main2,
            Pane::Main3 => &self.main3,
            Pane::Main4 => &self.main4,
            Pane::Control => &self.control,
        }
    }

    /// A window of the given inner size that holds no pane yet and refuses
    /// none.
    pub fn new(size: Option<WindowSize>) -> (host: HostWindow)
        ensures
            host@ == (HostView { size, panes: Map::empty(), refuses: Set::empty(), observers: 0 }),
    {
        let host = HostWindow {
            size,
            main1: Slot { state: None, refused: false },
            main2: Slot { state: None, refused: false },
            main3: Slot { state: None, refused: false },
            main4: Slot { state: None, refused: false },
            control: Slot { state: None, refused: false },
            observers: 0,
        };
        assert(host@.panes =~= Map::empty());
        assert(host@.refuses =~= Set::empty());
        host
    }

    /// From now on the window refuses to create `pane`. A pane that it holds
    /// already stays.
    pub fn refuse(&mut self, pane: Pane)
        ensures
            final(self)@ == old(self)@.refusing(pane),
    {
        match pane {
            Pane::Main1 => {
                self.main1.refused = true;
            },
            Pane::Main2 => {
                self.main2.refused = true;
            },
            Pane::Main3 => {
                self.main3.refused = true;
            },
            Pane::Main4 => {
                self.main4.refused = true;
            },
            Pane::Control => {
                self.control.refused = true;
            },
        }
        assert(self@.panes =~= old(self)@.panes);
        assert(self@.refuses =~= old(self)@.refuses.insert(pane));
    }

    /// Whether the window refuses to create `pane`.
    pub fn refuses(&self, pane: Pane) -> (refused: bool)
        ensures
            refused == self@.refuses.contains(pane),
    {
        self.slot_of(pane).refused
    }

    /// The inner size, where the host reports one.
    pub fn size(&self) -> (size: Option<WindowSize>)
        ensures
            size == self@.size,
    {
        self.size
    }

    /// How many resize observers were registered.
    pub fn observers(&self) -> (count: u64)
        ensures
            count == self@.observers,
    {
        self.observers
    }

    /// What the window shows in `pane`, if it holds that pane.
    pub fn pane(&self, pane: Pane) -> (found: Option<&PaneState>)
        ensures
            match found {
                Some(state) => self@.panes.contains_key(pane) && self@.panes[pane] == state@,
                None => !self@.panes.contains_key(pane),
            },
    {
        self.slot_of(pane).state.as_ref()
    }

    /// The host reports a new inner size, or stops reporting one.
    pub fn set_size(&mut self, size: Option<WindowSize>)
        ensures
            final(self)@ == old(self)@.resized(size),
    {
        self.size = size;
        assert(self@.panes =~= old(self)@.panes);
        assert(self@.refuses =~= old(self)@.refuses);
    }

    /// Observes the window the way a caller observes the real one.
    pub fn probe(&self) -> (probe: WindowProbe)
        ensures
            probe == probe_of(self@),
    {
        WindowProbe {
            size: self.size,
            main1: self.main1.state.is_some(),
            main2: self.main2.state.is_some(),
            main3: self.main3.state.is_some(),
            main4: self.main4.state.is_some(),
        }
    }

    fn put(&mut self, pane: Pane, state: PaneState)
        ensures
            final(self)@ == old(self)@.with_pane(pane, state@),
    {
        match pane {
            Pane::Main1 => {
                self.main1.state = Some(state);
            },
            Pane::Main2 => {
                self.main2.state = Some(state);
            },
            Pane::Main3 => {
                self.main3.state = Some(state);
            },
            Pane::Main4 => {
                self.main4.state = Some(state);
            },
            Pane::Control => {
                self.control.state = Some(state);
            },
        }
        assert(self@.panes =~= old(self)@.panes.insert(pane, state@));
        assert(self@.refuses =~= old(self)@.refuses);
    }

    /// Carries out one action.
    pub fn apply(&mut self, action: &Action)
        ensures
            final(self)@ == apply_step(old(self)@, action@),
    {
        match action {
            Action::Create { pane, url, rect } => {
                if self.pane(*pane).is_none() && !self.refuses(*pane) {
                    self.put(*pane, PaneState { rect: *rect, url: url.clone() });
                }
            },
            Action::Navigate { pane, url } => {
                let next = match self.pane(*pane) {
                    Some(before) => Some(PaneState { rect: before.rect, url: url.clone() }),
                    None => None,
                };
                if let Some(state) = next {
                    self.put(*pane, state);
                }
            },
            Action::Resize { pane, width, height } => {
                let next = match self.pane(*pane) {
                    Some(before) => Some(
                        PaneState {
                            rect: Rect { x: before.rect.x, y: before.rect.y, width: *width, height: *height },
                            url: before.url.clone(),
                        },
                    ),
                    None => None,
                };
                if let Some(state) = next {
                    self.put(*pane, state);
                }
            },
            Action::Move { pane, x, y } => {
                let next = match self.pane(*pane) {
                    Some(before) => Some(
                        PaneState {
                            rect: Rect { x: *x, y: *y, width: before.rect.width, height: before.rect.height },
                            url: before.url.clone(),
                        },
                    ),
                    None => None,
                };
                if let Some(state) = next {
                    self.put(*pane, state);
                }
            },
            Action::WatchResize => {
                if self.observers < u64::MAX {
                    self.observers = self.observers + 1;
                }
                assert(self@.panes =~= old(self)@.panes);
                assert(self@.refuses =~= old(self)@.refuses);
            },
            Action::Settle { millis } => {},
        }
    }

    /// Carries out a plan, first action to last.
    pub fn run_plan(&mut self, plan: &Vec<Action>)
        ensures
            final(self)@ == run(old(self)@, steps_of(plan@)),
    {
        let mut done: usize = 0;
        while done < plan.len()
            invariant
                done <= plan.len(),
                self@ == run(old(self)@, steps_of(plan@).take(done as int)),
            decreases plan.len() - done,
        {
            self.apply(&plan[done]);
            proof {
                let steps = steps_of(plan@);
                assert(steps.take(done + 1).drop_last() =~= steps.take(done as int));
            }
            done = done + 1;
        }
        assert(steps_of(plan@).take(done as int) =~= steps_of(plan@));
    }
}

} // verus!
