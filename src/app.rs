//! The control loop's decisions: which intent an event asks for, the FIFO of
//! intents, and what executing each of them does to the model.
use vstd::prelude::*;

use core::time::Duration;

use crate::action_queue::{dequeue, enqueue, new_queue, queued_actions, ActionQueue};
use crate::event_stream::{Event, KeyCode, KeyEvent, KeyEventKind, MouseEvent, TerminalEvent};
use crate::hwmodule::{contents_view, refreshed, HWModule, HWModuleView};
use crate::view_state::{Area, ViewState};

verus! {

/// An intent queued by the control loop.
#[derive(Clone, Copy, Debug, PartialEq, Eq, Structural)]
pub enum Action {
    Quit,
    Render,
    RefreshSensors,
}

/// A tunable supplied once, at construction.
pub enum AppOptions {
    SensorRefreshInterval(Duration),
}

/// What the caller must carry out after an intent was executed.
#[derive(Clone, Copy, Debug, PartialEq, Eq, Structural)]
pub enum Effect {
    /// Nothing is left to do outside.
    Nothing,
    /// Read the files of `refresh_sources` and hand the contents to
    /// `refresh_modules`.
    Refresh,
    /// Draw the current snapshot.
    Draw,
}

/// The duration of `ms` milliseconds.
pub uninterp spec fn duration_of_millis(ms: u64) -> Duration;

/// Relies on core::time::Duration::from_millis, which depends on its
/// argument alone.
pub assume_specification[ core::time::Duration::from_millis ](millis: u64) -> (r: Duration)
    ensures
        r == duration_of_millis(millis),
;

/// The refresh period used when none is configured, in milliseconds.
pub const DEFAULT_REFRESH_MILLIS: u64 = 1000;

/// The refresh period after applying `options` in order, starting from
/// `start`: the last one given wins.
pub open spec fn interval_after(options: Seq<AppOptions>, start: Duration) -> Duration {
    if options.len() == 0 {
        start
    } else {
        match options.last() {
            AppOptions::SensorRefreshInterval(d) => d,
        }
    }
}

/// The intent of a key event: `q` pressed quits; nothing else is bound.
pub open spec fn key_intent(k: KeyEvent) -> Option<Action> {
    if k.code == KeyCode::Char('q') {
        Some(Action::Quit)
    } else {
        None
    }
}

/// The intent that an event maps to, if any.
pub open spec fn intent_of(e: Event) -> Option<Action> {
    match e {
        Event::SensorRefresh => Some(Action::RefreshSensors),
        Event::Crossterm(t) => match t {
            TerminalEvent::Key(k) => if k.kind == KeyEventKind::Press {
                key_intent(k)
            } else {
                None
            },
            TerminalEvent::FocusGained => Some(Action::Render),
            TerminalEvent::Resize(_, _) => Some(Action::Render),
            _ => None,
        },
        _ => None,
    }
}

/// What executing `a` queues behind the intents already waiting: a refresh
/// is followed by a redraw.
pub open spec fn follow_up(a: Action) -> Seq<Action> {
    if a == Action::RefreshSensors {
        seq![Action::Render]
    } else {
        Seq::empty()
    }
}

/// The queue once its oldest intent has been executed.
pub open spec fn after_step(q: Seq<Action>) -> Seq<Action> {
    q.drop_first() + follow_up(q[0])
}

/// The queue after `n` executions, stopping where it runs empty.
pub open spec fn after_steps(q: Seq<Action>, n: nat) -> Seq<Action>
    decreases n,
{
    if n == 0 {
        q
    } else {
        let p = after_steps(q, (n - 1) as nat);
        if p.len() == 0 {
            p
        } else {
            after_step(p)
        }
    }
}

/// What the executions of the intents `s`, in order, queue behind.
pub open spec fn follow_ups(s: Seq<Action>) -> Seq<Action>
    decreases s.len(),
{
    if s.len() == 0 {
        Seq::empty()
    } else {
        follow_ups(s.drop_last()) + follow_up(s.last())
    }
}

/// The results of one refresh round, as contracts see them: per module
/// instance, the contents of its files, or `None` where its task failed.
pub open spec fn round_view(results: Seq<Option<Vec<Option<String>>>>) -> Seq<
    Option<Seq<Option<Seq<char>>>>,
> {
    Seq::new(
        results.len(),
        |i: int|
            match results[i] {
                Some(r) => Some(contents_view(r@)),
                None => None,
            },
    )
}

/// The module set after a refresh round with `results`: each instance with a
/// result takes its readings; an instance whose task failed, or that has no
/// result, stays as it was. Names, order and count never change.
pub open spec fn after_round(
    modules: Seq<HWModuleView>,
    results: Seq<Option<Seq<Option<Seq<char>>>>>,
) -> Seq<HWModuleView> {
    Seq::new(
        modules.len(),
        |i: int|
            if i < results.len() && results[i] is Some {
                HWModuleView {
                    sensors: refreshed(modules[i].sensors, results[i]->0),
                    ..modules[i]
                }
            } else {
                modules[i]
            },
    )
}

/// One instance's failed refresh (its result `None`) leaves it as it was and
/// every other instance as the round leaves it anyway: their values, count
/// and order do not depend on the failure.
pub proof fn lemma_failure_isolated(
    modules: Seq<HWModuleView>,
    results: Seq<Option<Seq<Option<Seq<char>>>>>,
    j: int,
)
    requires
        0 <= j < results.len(),
    ensures
        after_round(modules, results.update(j, None)).len() == modules.len(),
        forall|i: int|
            0 <= i < modules.len() && i != j ==> #[trigger] after_round(
                modules,
                results.update(j, None),
            )[i] == after_round(modules, results)[i],
        j < modules.len() ==> after_round(modules, results.update(j, None))[j] == modules[j],
{
}

/// A round is taken whole: once it completes with a result for every
/// instance, each instance shows this round's readings and none is left at
/// the previous round.
pub proof fn lemma_round_whole(
    modules: Seq<HWModuleView>,
    results: Seq<Option<Seq<Option<Seq<char>>>>>,
)
    requires
        results.len() == modules.len(),
        forall|i: int| 0 <= i < results.len() ==> (#[trigger] results[i]) is Some,
    ensures
        after_round(modules, results).len() == modules.len(),
        forall|i: int|
            0 <= i < modules.len() ==> (#[trigger] after_round(modules, results)[i]).sensors
                == refreshed(modules[i].sensors, results[i]->0),
        forall|i: int|
            0 <= i < modules.len() ==> (#[trigger] after_round(modules, results)[i]).name
                == modules[i].name,
{
}

proof fn lemma_after_steps_prefix(q: Seq<Action>, r: Seq<Action>, n: nat)
    requires
        n <= q.len(),
    ensures
        after_steps(q + r, n) == q.subrange(n as int, q.len() as int) + r + follow_ups(
            q.subrange(0, n as int),
        ),
    decreases n,
{
    if n == 0 {
        assert(q.subrange(0, q.len() as int) =~= q);
        assert(follow_ups(q.subrange(0, 0)) =~= Seq::<Action>::empty());
        assert(q + r + Seq::<Action>::empty() =~= q + r);
    } else {
        let m = (n - 1) as nat;
        lemma_after_steps_prefix(q, r, m);
        let p = after_steps(q + r, m);
        let f = follow_ups(q.subrange(0, m as int));
        assert(p.len() > 0);
        assert(p[0] == q[m as int]);
        assert(p.drop_first() =~= q.subrange(n as int, q.len() as int) + r + f);
        assert(q.subrange(0, n as int).drop_last() =~= q.subrange(0, m as int));
        assert(q.subrange(0, n as int).last() == q[m as int]);
        assert(after_steps(q + r, n) =~= q.subrange(n as int, q.len() as int) + r + follow_ups(
            q.subrange(0, n as int),
        ));
    }
}

/// Queued intents run first in, first out, and none is skipped: with `q`
/// waiting (a refresh among them, say) and a quit queued behind, the first
/// `q.len()` executions are exactly those of `q`, in order, and the quit
/// comes next.
pub proof fn lemma_quit_after_queued(q: Seq<Action>)
    ensures
        forall|n: nat|
            n < q.len() ==> (#[trigger] after_steps(q.push(Action::Quit), n)).len() > 0
                && after_steps(q.push(Action::Quit), n)[0] == q[n as int],
        after_steps(q.push(Action::Quit), q.len()).len() > 0,
        after_steps(q.push(Action::Quit), q.len())[0] == Action::Quit,
{
    assert(q.push(Action::Quit) =~= q + seq![Action::Quit]);
    assert forall|n: nat| n < q.len() implies (#[trigger] after_steps(
        q.push(Action::Quit),
        n,
    )).len() > 0 && after_steps(q.push(Action::Quit), n)[0] == q[n as int] by {
        lemma_after_steps_prefix(q, seq![Action::Quit], n);
    }
    lemma_after_steps_prefix(q, seq![Action::Quit], q.len());
}

/// The engine's state as contracts see it.
pub struct AppView {
    pub exit: bool,
    pub area: Area,
    pub modules: Seq<HWModuleView>,
    pub interval: Duration,
    pub queue: Seq<Action>,
    pub refreshing: bool,
}

pub struct App {
    exit: bool,
    view_state: ViewState,
    modules: Vec<HWModule>,
    sensor_refresh_interval: Duration,
    actions: ActionQueue,
    refreshing: bool,
}

impl View for App {
    type V = AppView;

    closed spec fn view(&self) -> AppView {
        AppView {
            exit: self.exit,
            area: self.view_state@,
            modules: Seq::new(self.modules@.len(), |i: int| self.modules@[i]@),
            interval: self.sensor_refresh_interval,
            queue: queued_actions(self.actions),
            refreshing: self.refreshing,
        }
    }
}

/// The percentage of the width that each of `count` module columns takes.
pub fn module_column_percent(count: usize) -> (r: u16)
    ensures
        r as int == 100int / (if count == 0 {
            1int
        } else {
            count as int
        }),
{
    let n = if count == 0 {
        1
    } else {
        count
    };
    (100 / n) as u16
}

impl App {
    /// An engine with no modules and an empty queue, running, with the
    /// refresh period that `options` set (1000 ms where none does).
    pub fn new(options: Option<Vec<AppOptions>>) -> (r: Self)
        ensures
            r@ == (AppView {
                exit: false,
                area: Area::zero(),
                modules: Seq::empty(),
                interval: match options {
                    Some(o) => interval_after(o@, duration_of_millis(DEFAULT_REFRESH_MILLIS)),
                    None => duration_of_millis(DEFAULT_REFRESH_MILLIS),
                },
                queue: Seq::empty(),
                refreshing: false,
            }),
    {
        let mut app = App {
            exit: false,
            view_state: ViewState::new(),
            modules: Vec::new(),
            sensor_refresh_interval: Duration::from_millis(DEFAULT_REFRESH_MILLIS),
            actions: new_queue(),
            refreshing: false,
        };
        app.load_options(options);
        proof {
            assert(app@.modules =~= Seq::<HWModuleView>::empty());
        }
        app
    }

    fn load_options(&mut self, options: Option<Vec<AppOptions>>)
        ensures
            final(self)@ == (AppView {
                interval: match options {
                    Some(o) => interval_after(o@, old(self)@.interval),
                    None => old(self)@.interval,
                },
                ..old(self)@
            }),
    {
        let ghost start = self.sensor_refresh_interval;
        if let Some(options) = options {
            let ghost os = options@;
            for option in it: options.into_iter()
                invariant
                    it.seq() == os,
                    self.sensor_refresh_interval == interval_after(
                        os.subrange(0, it.index() as int),
                        start,
                    ),
                    self@ == (AppView { interval: self.sensor_refresh_interval, ..old(self)@ }),
            {
                match option {
                    AppOptions::SensorRefreshInterval(interval) => {
                        self.sensor_refresh_interval = interval;
                    },
                }
                proof {
                    let k = it.index() as int;
                    assert(os.subrange(0, k + 1).last() == os[k]);
                }
            }
            proof {
                assert(os.subrange(0, os.len() as int) =~= os);
            }
        }
    }

    /// Starts the engine on a screen of `area` with the discovered
    /// `modules`, and queues a first redraw.
    pub fn init(&mut self, area: Area, modules: Vec<HWModule>)
        ensures
            final(self)@ == (AppView {
                area,
                modules: old(self)@.modules + Seq::new(modules@.len(), |i: int| modules@[i]@),
                queue: old(self)@.queue.push(Action::Render),
                ..old(self)@
            }),
    {
        self.view_state.set_area(area);
        self.init_modules(modules);
        self.push_action(Action::Render);
    }

    /// Adds the discovered `modules` to the module set, in order.
    pub fn init_modules(&mut self, modules: Vec<HWModule>)
        ensures
            final(self)@ == (AppView {
                modules: old(self)@.modules + Seq::new(modules@.len(), |i: int| modules@[i]@),
                ..old(self)@
            }),
    {
        let ghost added = Seq::new(modules@.len(), |i: int| modules@[i]@);
        let ghost before = self@;
        let mut modules = modules;
        self.modules.append(&mut modules);
        proof {
            assert(self@.modules =~= before.modules + added);
        }
    }

    /// Stops the loop: no event is consumed after this.
    pub fn exit(&mut self)
        ensures
            final(self)@ == (AppView { exit: true, ..old(self)@ }),
    {
        self.exit = true;
    }

    pub fn is_exiting(&self) -> (r: bool)
        ensures
            r == self@.exit,
    {
        self.exit
    }

    /// Whether a refresh round is in flight.
    pub fn is_refreshing(&self) -> (r: bool)
        ensures
            r == self@.refreshing,
    {
        self.refreshing
    }

    pub fn push_action(&mut self, action: Action)
        ensures
            final(self)@ == (AppView { queue: old(self)@.queue.push(action), ..old(self)@ }),
    {
        enqueue(&mut self.actions, action);
    }

    /// The oldest queued intent, taken off the queue. While a refresh round is
    /// in flight nothing is handed out, so no second round can start.
    pub fn next_action(&mut self) -> (r: Option<Action>)
        ensures
            old(self)@.refreshing || old(self)@.queue.len() == 0 ==> r is None && final(self)@
                == old(self)@,
            !old(self)@.refreshing && old(self)@.queue.len() > 0 ==> r == Some(
                old(self)@.queue[0],
            ) && final(self)@ == (AppView {
                queue: old(self)@.queue.drop_first(),
                ..old(self)@
            }),
    {
        if self.refreshing {
            return None;
        }
        dequeue(&mut self.actions)
    }

    /// The intent that `event` maps to, if any.
    pub fn handle_event(&self, event: &Event) -> (r: Option<Action>)
        ensures
            r == intent_of(*event),
    {
        match event {
            Event::SensorRefresh => Some(Action::RefreshSensors),
            Event::Crossterm(t) => match t {
                TerminalEvent::Key(k) => {
                    if k.kind == KeyEventKind::Press {
                        self.handle_key_event(k)
                    } else {
                        None
                    }
                },
                TerminalEvent::Mouse(m) => self.handle_mouse_event(m),
                TerminalEvent::FocusGained => Some(Action::Render),
                TerminalEvent::Resize(_, _) => Some(Action::Render),
                _ => None,
            },
            _ => None,
        }
    }

    /// Maps `event` to its intent and queues it.
    pub fn push_event(&mut self, event: &Event)
        ensures
            final(self)@ == (AppView {
                queue: match intent_of(*event) {
                    Some(a) => old(self)@.queue.push(a),
                    None => old(self)@.queue,
                },
                ..old(self)@
            }),
    {
        if let Some(action) = self.handle_event(event) {
            self.push_action(action);
        }
    }

    fn handle_key_event(&self, key_event: &KeyEvent) -> (r: Option<Action>)
        ensures
            r == key_intent(*key_event),
    {
        match key_event.code {
            KeyCode::Char('q') => Some(Action::Quit),
            _ => None,
        }
    }

    fn handle_mouse_event(&self, mouse_event: &MouseEvent) -> (r: Option<Action>)
        ensures
            r is None,
    {
        None
    }

    /// Executes `action` as far as the model goes. Quit stops the loop; a
    /// refresh starts a round that `refresh_modules` completes; a redraw is
    /// left to the caller.
    pub fn handle_action(&mut self, action: Action) -> (r: Effect)
        requires
            !old(self)@.refreshing,
        ensures
            action == Action::Quit ==> r == Effect::Nothing && final(self)@ == (AppView {
                exit: true,
                ..old(self)@
            }),
            action == Action::Render ==> r == Effect::Draw && final(self)@ == old(self)@,
            action == Action::RefreshSensors ==> r == Effect::Refresh && final(self)@ == (
            AppView { refreshing: true, ..old(self)@ }),
    {
        match action {
            Action::Quit => {
                self.exit();
                Effect::Nothing
            },
            Action::RefreshSensors => {
                self.refreshing = true;
                Effect::Refresh
            },
            Action::Render => Effect::Draw,
        }
    }

    /// For each module instance in order, the files that its refresh reads.
    pub fn refresh_sources(&self) -> (r: Vec<Vec<String>>)
        ensures
            r@.len() == self@.modules.len(),
            forall|i: int|
                0 <= i < r@.len() ==> (#[trigger] r@[i])@.len() == self@.modules[i].sources.len(),
            forall|i: int, j: int|
                0 <= i < r@.len() && 0 <= j < r@[i]@.len() ==> (#[trigger] r@[i]@[j])@
                    == self@.modules[i].sources[j],
    {
        let mut r: Vec<Vec<String>> = Vec::new();
        let mut i: usize = 0;
        while i < self.modules.len()
            invariant
                i <= self.modules@.len(),
                r@.len() == i,
                forall|k: int|
                    0 <= k < i ==> (#[trigger] r@[k])@.len() == self@.modules[k].sources.len(),
                forall|k: int, j: int|
                    0 <= k < i && 0 <= j < r@[k]@.len() ==> (#[trigger] r@[k]@[j])@
                        == self@.modules[k].sources[j],
            decreases self.modules@.len() - i,
        {
            r.push(self.modules[i].sources());
            i = i + 1;
        }
        r
    }

    /// Completes the round in flight with `results`, one per module instance
    /// in order: the whole module set takes the round at once, and a redraw
    /// is queued.
    pub fn refresh_modules(&mut self, results: Vec<Option<Vec<Option<String>>>>)
        requires
            old(self)@.refreshing,
        ensures
            final(self)@ == (AppView {
                modules: after_round(old(self)@.modules, round_view(results@)),
                queue: old(self)@.queue + follow_up(Action::RefreshSensors),
                refreshing: false,
                ..old(self)@
            }),
    {
        let ghost before = self@;
        let ghost rv = round_view(results@);
        let mut taken: Vec<HWModule> = Vec::new();
        std::mem::swap(&mut taken, &mut self.modules);
        let ghost olds = taken@;
        let m = taken.len();
        let n = results.len();
        let mut done: Vec<HWModule> = Vec::new();
        let mut i: usize = 0;
        for module in it: taken.into_iter()
            invariant
                it.seq() == olds,
                i == it.index(),
                m == olds.len(),
                n == results@.len(),
                rv == round_view(results@),
                before.modules == Seq::new(olds.len(), |k: int| olds[k]@),
                done@.len() == i,
                forall|k: int|
                    0 <= k < i ==> (#[trigger] done@[k])@ == after_round(before.modules, rv)[k],
        {
            let mut module = module;
            if i < n {
                match &results[i] {
                    Some(readings) => module.refresh_sensors(readings),
                    None => {},
                }
            }
            done.push(module);
            i = i + 1;
        }
        self.modules = done;
        self.refreshing = false;
        self.push_action(Action::Render);
        proof {
            assert(self@.modules =~= after_round(before.modules, rv));
            assert(follow_up(Action::RefreshSensors) == seq![Action::Render]);
            assert(before.queue.push(Action::Render) =~= before.queue + seq![Action::Render]);
        }
    }

    /// Lays out module `i` at `areas[i]`, for each module that has an area.
    pub fn layout_modules(&mut self, areas: &Vec<Area>)
        ensures
            final(self)@ == (AppView {
                modules: Seq::new(
                    old(self)@.modules.len(),
                    |i: int|
                        if i < areas@.len() {
                            HWModuleView { area: areas@[i], ..old(self)@.modules[i] }
                        } else {
                            old(self)@.modules[i]
                        },
                ),
                ..old(self)@
            }),
    {
        let ghost before = self@;
        let mut taken: Vec<HWModule> = Vec::new();
        std::mem::swap(&mut taken, &mut self.modules);
        let ghost olds = taken@;
        let m = taken.len();
        let mut done: Vec<HWModule> = Vec::new();
        let mut i: usize = 0;
        for module in it: taken.into_iter()
            invariant
                it.seq() == olds,
                i == it.index(),
                m == olds.len(),
                before.modules == Seq::new(olds.len(), |k: int| olds[k]@),
                done@.len() == i,
                forall|k: int|
                    0 <= k < i ==> (#[trigger] done@[k])@ == (if k < areas@.len() {
                        HWModuleView { area: areas@[k], ..before.modules[k] }
                    } else {
                        before.modules[k]
                    }),
        {
            let mut module = module;
            if i < areas.len() {
                module.view_state().set_area(areas[i]);
            }
            done.push(module);
            i = i + 1;
        }
        self.modules = done;
        proof {
            assert(self@.modules =~= Seq::new(
                before.modules.len(),
                |k: int|
                    if k < areas@.len() {
                        HWModuleView { area: areas@[k], ..before.modules[k] }
                    } else {
                        before.modules[k]
                    },
            ));
        }
    }

    /// The module set, for reading.
    pub fn modules(&self) -> (r: &Vec<HWModule>)
        ensures
            r@.len() == self@.modules.len(),
            forall|i: int| 0 <= i < r@.len() ==> (#[trigger] r@[i])@ == self@.modules[i],
    {
        &self.modules
    }

    /// Where the whole engine is drawn.
    pub fn area(&self) -> (r: Area)
        ensures
            r == self@.area,
    {
        self.view_state.area()
    }

    pub fn sensor_refresh_interval(&self) -> (r: Duration)
        ensures
            r == self@.interval,
    {
        self.sensor_refresh_interval
    }
}

} // verus!
