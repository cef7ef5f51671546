//! The `wast` command as a session: one engine and one execution context
//! are set up, then the scripts run in the order given until the first one
//! fails.
use vstd::prelude::*;

verus! {

/// Why a script run failed.
#[derive(Debug, PartialEq, Eq)]
pub enum WastError {
    /// No script was given.
    NoScripts,
    /// The configuration or the engine was rejected; the backend's message.
    Config { message: String },
    /// The script at `path` failed, with the interpreter's message.
    ScriptFailed { path: Vec<u8>, message: String },
}

/// The mathematical form of a [`WastError`].
pub enum WastErrorView {
    NoScripts,
    Config { message: Seq<char> },
    ScriptFailed { path: Seq<u8>, message: Seq<char> },
}

impl View for WastError {
    type V = WastErrorView;

    open spec fn view(&self) -> WastErrorView {
        match self {
            WastError::NoScripts => WastErrorView::NoScripts,
            WastError::Config { message } => WastErrorView::Config { message: message@ },
            WastError::ScriptFailed { path, message } => WastErrorView::ScriptFailed {
                path: path@,
                message: message@,
            },
        }
    }
}

/// What the caller is to do next.
#[derive(Debug)]
pub enum WastAction {
    /// Resolve the configuration for the host, build the engine and one
    /// execution context, and register the standard test fixture in it.
    SetUp,
    /// Run the script at `path`, the `index`-th given, in the shared context.
    RunScript { index: usize, path: Vec<u8> },
    /// The run is over, with this result.
    Finish { result: Result<(), WastError> },
}

/// The mathematical form of a [`WastAction`].
pub enum WastActionView {
    SetUp,
    RunScript { index: nat, path: Seq<u8> },
    Finish { result: Result<(), WastErrorView> },
}

impl View for WastAction {
    type V = WastActionView;

    open spec fn view(&self) -> WastActionView {
        match self {
            WastAction::SetUp => WastActionView::SetUp,
            WastAction::RunScript { index, path } => WastActionView::RunScript {
                index: *index as nat,
                path: path@,
            },
            WastAction::Finish { result } => WastActionView::Finish {
                result: match result {
                    Ok(()) => Ok(()),
                    Err(e) => Err(e@),
                },
            },
        }
    }
}

/// What came of the last action.
#[derive(Debug)]
pub enum WastEvent {
    SetUpDone(Result<(), String>),
    ScriptRan(Result<(), String>),
}

/// The mathematical form of a [`WastEvent`].
pub enum WastEventView {
    SetUpDone(Result<(), Seq<char>>),
    ScriptRan(Result<(), Seq<char>>),
}

impl View for WastEvent {
    type V = WastEventView;

    open spec fn view(&self) -> WastEventView {
        match self {
            WastEvent::SetUpDone(r) => WastEventView::SetUpDone(
                match r {
                    Ok(()) => Ok(()),
                    Err(m) => Err(m@),
                },
            ),
            WastEvent::ScriptRan(r) => WastEventView::ScriptRan(
                match r {
                    Ok(()) => Ok(()),
                    Err(m) => Err(m@),
                },
            ),
        }
    }
}

/// The step a run waits on.
#[derive(Debug, Clone, Copy, PartialEq, Eq, Structural)]
pub enum WastStage {
    SetUp,
    Running,
    Done,
}

/// The mathematical form of a run: the scripts, the index of the one that
/// runs now, and the stage.
pub struct WastModel {
    pub scripts: Seq<Seq<u8>>,
    pub next: nat,
    pub stage: WastStage,
}

/// A run's invariant: while it is not over there is a script to run.
pub open spec fn wast_wf(m: WastModel) -> bool {
    &&& m.stage is SetUp ==> m.scripts.len() > 0
    &&& m.stage is Running ==> m.next < m.scripts.len()
}

/// How a run opens: with no script it is over at once.
pub open spec fn wast_start(scripts: Seq<Seq<u8>>) -> (WastModel, WastActionView) {
    if scripts.len() == 0 {
        (
            WastModel { scripts, next: 0, stage: WastStage::Done },
            WastActionView::Finish { result: Err(WastErrorView::NoScripts) },
        )
    } else {
        (WastModel { scripts, next: 0, stage: WastStage::SetUp }, WastActionView::SetUp)
    }
}

/// The event that each stage waits for.
pub open spec fn wast_accepts(stage: WastStage, e: WastEventView) -> bool {
    match stage {
        WastStage::SetUp => e is SetUpDone,
        WastStage::Running => e is ScriptRan,
        WastStage::Done => false,
    }
}

/// The state and action that run the `i`-th script.
pub open spec fn run_script(m: WastModel, i: nat) -> (WastModel, WastActionView) {
    (
        WastModel { next: i, stage: WastStage::Running, ..m },
        WastActionView::RunScript { index: i, path: m.scripts[i as int] },
    )
}

/// One step of a run. A failing script ends it with an error that names the
/// script; a passing one hands on to the next, or ends the run after the last.
pub open spec fn wast_step(m: WastModel, e: WastEventView) -> (WastModel, WastActionView) {
    let done = WastModel { stage: WastStage::Done, ..m };
    match e {
        WastEventView::SetUpDone(r) => match r {
            Err(message) => (
                done,
                WastActionView::Finish { result: Err(WastErrorView::Config { message }) },
            ),
            Ok(()) => run_script(m, 0),
        },
        WastEventView::ScriptRan(r) => match r {
            Err(message) => (
                done,
                WastActionView::Finish {
                    result: Err(
                        WastErrorView::ScriptFailed { path: m.scripts[m.next as int], message },
                    ),
                },
            ),
            Ok(()) => if m.next + 1 < m.scripts.len() {
                run_script(m, m.next + 1)
            } else {
                (done, WastActionView::Finish { result: Ok(()) })
            },
        },
    }
}

/// The state and last action after `events` are handled in turn, from the
/// state `m` whose action was `a`.
pub open spec fn wast_run(m: WastModel, a: WastActionView, events: Seq<WastEventView>) -> (
    WastModel,
    WastActionView,
)
    decreases events.len(),
{
    if events.len() == 0 {
        (m, a)
    } else {
        wast_step(wast_run(m, a, events.drop_last()).0, events.last())
    }
}

/// Whether every event is a script that passed.
pub open spec fn all_passed(events: Seq<WastEventView>) -> bool {
    forall|i: int| 0 <= i < events.len() ==> events[i] == WastEventView::ScriptRan(Ok(()))
}

/// After the set-up succeeds, the scripts run one after another in the order
/// given: when the first `k` have passed, the run waits on script `k` and has
/// started none after it.
pub proof fn lemma_scripts_run_in_order(scripts: Seq<Seq<u8>>, events: Seq<WastEventView>)
    requires
        events.len() < scripts.len(),
        all_passed(events),
    ensures
        ({
            let start = wast_step(wast_start(scripts).0, WastEventView::SetUpDone(Ok(())));
            let r = wast_run(start.0, start.1, events);
            &&& r.0.scripts == scripts
            &&& r.0.stage is Running
            &&& r.0.next == events.len()
            &&& r.1 == (WastActionView::RunScript {
                index: events.len(),
                path: scripts[events.len() as int],
            })
        }),
    decreases events.len(),
{
    if events.len() > 0 {
        let prev = events.drop_last();
        assert(all_passed(prev)) by {
            assert(forall|i: int| 0 <= i < prev.len() ==> prev[i] == events[i]);
        }
        assert(events.last() == events[events.len() - 1]);
        lemma_scripts_run_in_order(scripts, prev);
        let start = wast_step(wast_start(scripts).0, WastEventView::SetUpDone(Ok(())));
        let rp = wast_run(start.0, start.1, prev);
        assert(rp.0.scripts == scripts);
        assert(wast_run(start.0, start.1, events) == wast_step(rp.0, events.last()));
    }
}

/// The first failing script ends the run with an error that names it, and no
/// later script is started: the finished run takes no further event.
pub proof fn lemma_stops_at_first_failure(
    scripts: Seq<Seq<u8>>,
    events: Seq<WastEventView>,
    message: Seq<char>,
)
    requires
        events.len() < scripts.len(),
        all_passed(events),
    ensures
        ({
            let start = wast_step(wast_start(scripts).0, WastEventView::SetUpDone(Ok(())));
            let r = wast_run(start.0, start.1, events.push(WastEventView::ScriptRan(Err(message))));
            &&& r.0.stage is Done
            &&& r.1 == (WastActionView::Finish {
                result: Err(
                    WastErrorView::ScriptFailed { path: scripts[events.len() as int], message },
                ),
            })
            &&& forall|e: WastEventView| !wast_accepts(r.0.stage, e)
        }),
{
    lemma_scripts_run_in_order(scripts, events);
    let ev = events.push(WastEventView::ScriptRan(Err(message)));
    assert(ev.drop_last() =~= events);
}

/// A run in which every script passes ends in success after the last one.
pub proof fn lemma_all_pass_succeeds(scripts: Seq<Seq<u8>>, events: Seq<WastEventView>)
    requires
        events.len() == scripts.len(),
        scripts.len() > 0,
        all_passed(events),
    ensures
        ({
            let start = wast_step(wast_start(scripts).0, WastEventView::SetUpDone(Ok(())));
            let r = wast_run(start.0, start.1, events);
            &&& r.0.stage is Done
            &&& r.1 == (WastActionView::Finish { result: Ok(()) })
        }),
{
    let prev = events.drop_last();
    assert(all_passed(prev)) by {
        assert(forall|i: int| 0 <= i < prev.len() ==> prev[i] == events[i]);
    }
    assert(events.last() == events[events.len() - 1]);
    lemma_scripts_run_in_order(scripts, prev);
    let start = wast_step(wast_start(scripts).0, WastEventView::SetUpDone(Ok(())));
    assert(wast_run(start.0, start.1, events) == wast_step(
        wast_run(start.0, start.1, prev).0,
        events.last(),
    ));
}

/// The engine and execution context are set up once, at the start: no step
/// asks for another, so every script runs in the one context and sees what
/// earlier scripts left in it.
pub proof fn lemma_one_context_per_run(m: WastModel, e: WastEventView)
    ensures
        !(wast_step(m, e).1 is SetUp),
{
}

/// A `wast` run in progress.
pub struct WastSession {
    scripts: Vec<Vec<u8>>,
    next: usize,
    stage: WastStage,
}

impl View for WastSession {
    type V = WastModel;

    closed spec fn view(&self) -> WastModel {
        WastModel {
            scripts: self.scripts@.map_values(|s: Vec<u8>| s@),
            next: self.next as nat,
            stage: self.stage,
        }
    }
}

/// The message of a failed result.
fn error_text(r: Result<(), String>) -> (m: Option<String>)
    ensures
        match r {
            Ok(()) => m is None,
            Err(e) => m is Some && m->Some_0@ == e@,
        },
{
    match r {
        Ok(()) => None,
        Err(e) => Some(e),
    }
}

impl WastSession {
    /// Opens a run of `scripts`, in this order, with the first action.
    pub fn start(scripts: Vec<Vec<u8>>) -> (r: (WastSession, WastAction))
        ensures
            (r.0@, r.1@) == wast_start(scripts@.map_values(|s: Vec<u8>| s@)),
            wast_wf(r.0@),
    {
        if scripts.len() == 0 {
            (
                WastSession { scripts, next: 0, stage: WastStage::Done },
                WastAction::Finish { result: Err(WastError::NoScripts) },
            )
        } else {
            (WastSession { scripts, next: 0, stage: WastStage::SetUp }, WastAction::SetUp)
        }
    }

    /// The step the run waits on.
    pub fn stage(&self) -> (r: WastStage)
        ensures
            r == self@.stage,
    {
        self.stage
    }

    /// Whether `event` is what the run waits for.
    pub fn accepts(&self, event: &WastEvent) -> (r: bool)
        ensures
            r == wast_accepts(self@.stage, event@),
    {
        match self.stage {
            WastStage::SetUp => matches!(event, WastEvent::SetUpDone(_)),
            WastStage::Running => matches!(event, WastEvent::ScriptRan(_)),
            WastStage::Done => false,
        }
    }

    fn run_script(&mut self, i: usize) -> (a: WastAction)
        requires
            i < old(self).scripts@.len(),
        ensures
            (final(self)@, a@) == run_script(old(self)@, i as nat),
    {
        self.next = i;
        self.stage = WastStage::Running;
        WastAction::RunScript { index: i, path: self.scripts[i].clone() }
    }

    /// Takes what came of the last action and returns the next one.
    pub fn handle(&mut self, event: WastEvent) -> (a: WastAction)
        requires
            wast_wf(old(self)@),
            wast_accepts(old(self)@.stage, event@),
        ensures
            (final(self)@, a@) == wast_step(old(self)@, event@),
            wast_wf(final(self)@),
    {
        assert(self@.scripts.len() == self.scripts@.len());
        match event {
            WastEvent::SetUpDone(r) => match error_text(r) {
                Some(message) => {
                    self.stage = WastStage::Done;
                    WastAction::Finish { result: Err(WastError::Config { message }) }
                },
                None => self.run_script(0),
            },
            WastEvent::ScriptRan(r) => match error_text(r) {
                Some(message) => {
                    let path = self.scripts[self.next].clone();
                    self.stage = WastStage::Done;
                    WastAction::Finish { result: Err(WastError::ScriptFailed { path, message }) }
                },
                None => if self.next < self.scripts.len() - 1 {
                    self.run_script(self.next + 1)
                } else {
                    self.stage = WastStage::Done;
                    WastAction::Finish { result: Ok(()) }
                },
            },
        }
    }
}

} // verus!
