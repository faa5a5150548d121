//! The live task display as a state machine: which tasks are on screen,
//! what each has seen so far, and which line a progress event asks for.
//! Drawing the lines (colours, spinners, timings) is left to the caller.

use std::collections::HashMap;
use vstd::prelude::*;
use crate::event::FaultEventKind;
use crate::termui::{
    average_rate, last_n, latency_to_sparkline_bar, spec_last_n, spec_sparkline_bar, spec_sum, Tone,
};
use crate::types::Direction;

verus! {

broadcast use vstd::std_specs::hash::group_hash_axioms;

/// Most latency samples a sparkline shows.
pub const SPARKLINE_WIDTH: usize = 20;

/// The fault a task was set up with.
#[derive(Clone, Copy, Debug, PartialEq, Eq, Structural)]
pub struct ShownFault {
    pub kind: FaultEventKind,
    /// Whether a DNS fault fired; `None` when unknown or not a DNS fault.
    pub dns_triggered: Option<bool>,
}

/// A fault applied to a task's traffic, as far as the display keeps it.
#[derive(Clone, Copy, Debug, PartialEq, Eq, Structural)]
pub enum AppliedFault {
    /// A delay, in nanoseconds, when one was drawn.
    Latency { delay_nanos: Option<u128> },
    /// A byte rate, when one was set.
    Bandwidth { bps: Option<usize> },
    /// A dropped packet.
    PacketLoss,
    /// Any other fault; the display keeps no sample of it.
    Other,
}

/// What the display remembers of a running task.
pub struct TaskView {
    pub url: String,
    pub fault: Option<ShownFault>,
    pub status_code: Option<u16>,
    pub samples: Vec<AppliedFault>,
}

/// Mathematical model of a task's record.
pub struct TaskModel {
    pub url: Seq<char>,
    pub fault: Option<ShownFault>,
    pub status_code: Option<u16>,
    pub samples: Seq<AppliedFault>,
}

impl View for TaskView {
    type V = TaskModel;

    open spec fn view(&self) -> TaskModel {
        TaskModel {
            url: self.url@,
            fault: self.fault,
            status_code: self.status_code,
            samples: self.samples@,
        }
    }
}

/// A progress event of a proxied task, without its timings.
#[allow(inconsistent_fields)]
pub enum DisplayEvent {
    Started { id: usize, url: String },
    IpResolved { id: usize },
    WithFault { id: usize, fault: ShownFault },
    FaultApplied { id: usize, fault: AppliedFault, direction: Direction },
    FirstByte { id: usize },
    ResponseReceived { id: usize, status_code: u16 },
    Completed { id: usize },
    Error { id: usize },
}

/// What a finished task's line shows in place of per-sample detail.
pub enum Summary {
    /// Bars of the most recent latencies.
    Sparkline { bars: Vec<(char, Tone)> },
    /// Mean of the bandwidth samples, in bytes per second.
    AverageRate { bps: usize },
}

/// The part of a task's line that depends on the event.
pub enum LineDetail {
    /// The DNS lookup finished: URL and lookup time.
    Resolved,
    /// The task's fault is known.
    Faulted,
    /// A latency was applied: bars of the most recent latencies.
    Sparkline { bars: Vec<(char, Tone)> },
    /// A byte rate was applied in the given direction.
    Rate { direction: Direction, bps: usize },
    /// A packet was dropped.
    PacketLoss,
    /// A response came with this status.
    Status { code: u16 },
    /// The task completed; `code` is 0 when no response was seen.
    Completed { summary: Summary, code: u16 },
    /// The task failed.
    Failed,
}

/// What the display does for one event.
pub enum DisplayAction {
    /// Nothing to draw.
    Nothing,
    /// Adds a spinner for a new task, showing its URL.
    Open { url: String },
    /// Redraws a running task's line.
    Update { url: String, fault: Option<ShownFault>, detail: LineDetail },
    /// Draws a task's last line and removes its spinner.
    Finish { url: String, fault: Option<ShownFault>, detail: LineDetail },
}

/// Bars of every latency sample that carries a delay, oldest first.
pub open spec fn spec_latency_bars(samples: Seq<AppliedFault>) -> Seq<(char, Tone)>
    decreases samples.len(),
{
    if samples.len() == 0 {
        Seq::empty()
    } else {
        let rest = spec_latency_bars(samples.drop_last());
        match samples.last() {
            AppliedFault::Latency { delay_nanos: Some(d) } => rest.push(spec_sparkline_bar(d)),
            _ => rest,
        }
    }
}

/// The sparkline of a task: bars of its most recent latencies.
pub open spec fn spec_sparkline(samples: Seq<AppliedFault>) -> Seq<(char, Tone)> {
    spec_last_n(spec_latency_bars(samples), SPARKLINE_WIDTH as nat)
}

/// Rate a sample counts for in the average: its byte rate for a bandwidth
/// sample that has one, 0 for every other sample.
pub open spec fn spec_sample_rate(f: AppliedFault) -> usize {
    match f {
        AppliedFault::Bandwidth { bps: Some(b) } => b,
        _ => 0,
    }
}

/// Summary of a finished task: the mean rate over all its samples when its
/// fault is a bandwidth fault and it has samples, else its sparkline.
pub open spec fn spec_summary_is(t: TaskModel, s: Summary) -> bool {
    let rates = t.samples.map_values(|f: AppliedFault| spec_sample_rate(f));
    if (t.fault matches Some(f) && f.kind == FaultEventKind::Bandwidth) && t.samples.len() > 0 {
        s matches Summary::AverageRate { bps } && bps == spec_sum(rates) / t.samples.len()
    } else {
        s matches Summary::Sparkline { bars } && bars@ == spec_sparkline(t.samples)
    }
}

/// A new task's record.
pub open spec fn spec_fresh(url: Seq<char>) -> TaskModel {
    TaskModel { url, fault: None, status_code: None, samples: Seq::empty() }
}

/// Whether an applied fault is kept as a sample.
pub open spec fn spec_is_sampled(f: AppliedFault) -> bool {
    !(f is Other)
}

/// Whether an action redraws a running line showing the task's URL and
/// fault.
pub open spec fn spec_updates(a: DisplayAction, t: TaskModel) -> bool {
    a matches DisplayAction::Update { url, fault, .. } && url@ == t.url && fault == t.fault
}

/// Whether an action finishes a line with the task's URL and fault.
pub open spec fn spec_finishes(a: DisplayAction, t: TaskModel) -> bool {
    a matches DisplayAction::Finish { url, fault, .. } && url@ == t.url && fault == t.fault
}

/// The tasks on screen, by id.
pub struct TaskBoard {
    tasks: HashMap<usize, TaskView>,
}

impl View for TaskBoard {
    type V = Map<usize, TaskModel>;

    closed spec fn view(&self) -> Map<usize, TaskModel> {
        self.tasks@.map_values(|t: TaskView| t@)
    }
}

/// Bars of the latency samples, oldest first.
fn latency_bars(samples: &Vec<AppliedFault>) -> (r: Vec<(char, Tone)>)
    ensures
        r@ == spec_latency_bars(samples@),
{
    let mut bars: Vec<(char, Tone)> = Vec::new();
    let mut i: usize = 0;
    while i < samples.len()
        invariant
            i <= samples.len(),
            bars@ == spec_latency_bars(samples@.take(i as int)),
        decreases samples.len() - i,
    {
        assert(samples@.take(i + 1).drop_last() =~= samples@.take(i as int));
        match samples[i] {
            AppliedFault::Latency { delay_nanos: Some(d) } => {
                bars.push(latency_to_sparkline_bar(d));
            },
            _ => {},
        }
        i += 1;
    }
    assert(samples@.take(samples.len() as int) =~= samples@);
    bars
}

/// The sparkline of a task.
fn sparkline(samples: &Vec<AppliedFault>) -> (r: Vec<(char, Tone)>)
    ensures
        r@ == spec_sparkline(samples@),
{
    let all = latency_bars(samples);
    last_n(&all, SPARKLINE_WIDTH)
}

/// The rates the samples count for.
fn sample_rates(samples: &Vec<AppliedFault>) -> (r: Vec<usize>)
    ensures
        r@ == samples@.map_values(|f: AppliedFault| spec_sample_rate(f)),
{
    let mut rates: Vec<usize> = Vec::new();
    let mut i: usize = 0;
    while i < samples.len()
        invariant
            i <= samples.len(),
            rates@ == samples@.take(i as int).map_values(|f: AppliedFault| spec_sample_rate(f)),
        decreases samples.len() - i,
    {
        let r = match samples[i] {
            AppliedFault::Bandwidth { bps: Some(b) } => b,
            _ => 0,
        };
        rates.push(r);
        i += 1;
        assert(rates@ =~= samples@.take(i as int).map_values(|f: AppliedFault| spec_sample_rate(f)));
    }
    assert(samples@.take(samples.len() as int) =~= samples@);
    rates
}

/// The summary shown when a task completes.
fn summarize(t: &TaskView) -> (s: Summary)
    ensures
        spec_summary_is(t@, s),
{
    let is_bandwidth = match t.fault {
        Some(f) => f.kind == FaultEventKind::Bandwidth,
        None => false,
    };
    if is_bandwidth && t.samples.len() > 0 {
        let rates = sample_rates(&t.samples);
        match average_rate(&rates) {
            Some(avg) => Summary::AverageRate { bps: avg },
            None => Summary::Sparkline { bars: sparkline(&t.samples) },
        }
    } else {
        Summary::Sparkline { bars: sparkline(&t.samples) }
    }
}

impl TaskBoard {
    /// A display with no task on it.
    pub fn new() -> (b: TaskBoard)
        ensures
            b@ == Map::<usize, TaskModel>::empty(),
    {
        let b = TaskBoard { tasks: HashMap::new() };
        assert(b@ =~= Map::<usize, TaskModel>::empty());
        b
    }

    /// Number of tasks on screen.
    pub fn len(&self) -> (n: usize)
        ensures
            n == self@.len(),
    {
        proof {
            assert(self@.dom() =~= self.tasks@.dom());
        }
        self.tasks.len()
    }

    /// Whether a task is on screen.
    pub fn contains(&self, id: usize) -> (r: bool)
        ensures
            r == self@.contains_key(id),
    {
        self.tasks.contains_key(&id)
    }

    /// Takes a task's record off the board.
    fn take(&mut self, id: usize) -> (r: Option<TaskView>)
        ensures
            final(self)@ == old(self)@.remove(id),
            match r {
                Some(t) => old(self)@.contains_key(id) && t@ == old(self)@[id],
                None => !old(self)@.contains_key(id),
            },
    {
        let r = self.tasks.remove(&id);
        assert(self@ =~= old(self)@.remove(id));
        r
    }

    /// Puts a task's record on the board.
    fn put(&mut self, id: usize, t: TaskView)
        ensures
            final(self)@ == old(self)@.insert(id, t@),
    {
        let ghost tv = t@;
        self.tasks.insert(id, t);
        assert(self@ =~= old(self)@.insert(id, tv));
    }

    /// Applies one progress event: updates the task it names and says which
    /// line to draw. Events for a task that is not on screen change
    /// nothing and draw nothing, except `Started`, which puts a fresh task
    /// on screen (replacing one with the same id).
    pub fn step(&mut self, event: DisplayEvent) -> (action: DisplayAction)
        ensures
            match event {
                DisplayEvent::Started { id, url } => {
                    &&& final(self)@ == old(self)@.insert(id, spec_fresh(url@))
                    &&& action matches DisplayAction::Open { url: u } && u@ == url@
                },
                DisplayEvent::IpResolved { id } => {
                    &&& final(self)@ == old(self)@
                    &&& if old(self)@.contains_key(id) {
                        spec_updates(action, old(self)@[id])
                            && action->Update_detail is Resolved
                    } else {
                        action is Nothing
                    }
                },
                DisplayEvent::WithFault { id, fault } => if old(self)@.contains_key(id) {
                    let t = TaskModel { fault: Some(fault), ..old(self)@[id] };
                    &&& final(self)@ == old(self)@.insert(id, t)
                    &&& spec_updates(action, t) && action->Update_detail is Faulted
                } else {
                    final(self)@ == old(self)@ && action is Nothing
                },
                DisplayEvent::FaultApplied { id, fault, direction } => if old(self)@.contains_key(id) {
                    let old_t = old(self)@[id];
                    let t = if spec_is_sampled(fault) {
                        TaskModel { samples: old_t.samples.push(fault), ..old_t }
                    } else {
                        old_t
                    };
                    &&& final(self)@ == old(self)@.insert(id, t)
                    &&& match fault {
                        AppliedFault::Latency { delay_nanos: Some(_) } => spec_updates(action, t)
                            && (action->Update_detail matches LineDetail::Sparkline { bars }
                            && bars@ == spec_sparkline(t.samples)),
                        AppliedFault::Bandwidth { bps: Some(b) } => spec_updates(action, t)
                            && action->Update_detail == (LineDetail::Rate { direction, bps: b }),
                        AppliedFault::PacketLoss => spec_updates(action, t)
                            && action->Update_detail is PacketLoss,
                        _ => action is Nothing,
                    }
                } else {
                    final(self)@ == old(self)@ && action is Nothing
                },
                DisplayEvent::FirstByte { id } => final(self)@ == old(self)@ && action is Nothing,
                DisplayEvent::ResponseReceived { id, status_code } => if old(self)@.contains_key(id) {
                    let t = TaskModel { status_code: Some(status_code), ..old(self)@[id] };
                    &&& final(self)@ == old(self)@.insert(id, t)
                    &&& spec_updates(action, t)
                    &&& action->Update_detail == (LineDetail::Status { code: status_code })
                } else {
                    final(self)@ == old(self)@ && action is Nothing
                },
                DisplayEvent::Completed { id } => if old(self)@.contains_key(id) {
                    let t = old(self)@[id];
                    &&& final(self)@ == old(self)@.remove(id)
                    &&& spec_finishes(action, t)
                    &&& action->Finish_detail matches LineDetail::Completed { summary, code }
                    &&& spec_summary_is(t, summary)
                    &&& code == (match t.status_code {
                        Some(c) => c,
                        None => 0u16,
                    })
                } else {
                    final(self)@ == old(self)@ && action is Nothing
                },
                DisplayEvent::Error { id } => if old(self)@.contains_key(id) {
                    &&& final(self)@ == old(self)@.remove(id)
                    &&& spec_finishes(action, old(self)@[id])
                    &&& action->Finish_detail is Failed
                } else {
                    final(self)@ == old(self)@ && action is Nothing
                },
            },
    {
        match event {
            DisplayEvent::Started { id, url } => {
                let shown = url.clone();
                self.put(id, TaskView { url, fault: None, status_code: None, samples: Vec::new() });
                proof {
                    assert(shown@ == url@);
                }
                DisplayAction::Open { url: shown }
            },
            DisplayEvent::IpResolved { id } => match self.take(id) {
                Some(t) => {
                    let url = t.url.clone();
                    let fault = t.fault;
                    self.put(id, t);
                    proof {
                        assert(self@ =~= old(self)@);
                    }
                    DisplayAction::Update { url, fault, detail: LineDetail::Resolved }
                },
                None => DisplayAction::Nothing,
            },
            DisplayEvent::WithFault { id, fault } => match self.take(id) {
                Some(t) => {
                    let t2 = TaskView { fault: Some(fault), ..t };
                    let url = t2.url.clone();
                    self.put(id, t2);
                    DisplayAction::Update { url, fault: Some(fault), detail: LineDetail::Faulted }
                },
                None => DisplayAction::Nothing,
            },
            DisplayEvent::FaultApplied { id, fault, direction } => match self.take(id) {
                Some(t) => {
                    let mut t = t;
                    match fault {
                        AppliedFault::Other => {},
                        _ => {
                            t.samples.push(fault);
                        },
                    }
                    let url = t.url.clone();
                    let shown = t.fault;
                    let detail = match fault {
                        AppliedFault::Latency { delay_nanos: Some(_) } => Some(
                            LineDetail::Sparkline { bars: sparkline(&t.samples) },
                        ),
                        AppliedFault::Bandwidth { bps: Some(b) } => Some(
                            LineDetail::Rate { direction, bps: b },
                        ),
                        AppliedFault::PacketLoss => Some(LineDetail::PacketLoss),
                        _ => None,
                    };
                    self.put(id, t);
                    match detail {
                        Some(detail) => DisplayAction::Update { url, fault: shown, detail },
                        None => DisplayAction::Nothing,
                    }
                },
                None => DisplayAction::Nothing,
            },
            DisplayEvent::FirstByte { id } => DisplayAction::Nothing,
            DisplayEvent::ResponseReceived { id, status_code } => match self.take(id) {
                Some(t) => {
                    let t2 = TaskView { status_code: Some(status_code), ..t };
                    let url = t2.url.clone();
                    let fault = t2.fault;
                    self.put(id, t2);
                    DisplayAction::Update { url, fault, detail: LineDetail::Status { code: status_code } }
                },
                None => DisplayAction::Nothing,
            },
            DisplayEvent::Completed { id } => match self.take(id) {
                Some(t) => {
                    let summary = summarize(&t);
                    let code = match t.status_code {
                        Some(c) => c,
                        None => 0,
                    };
                    DisplayAction::Finish {
                        url: t.url,
                        fault: t.fault,
                        detail: LineDetail::Completed { summary, code },
                    }
                },
                None => DisplayAction::Nothing,
            },
            DisplayEvent::Error { id } => match self.take(id) {
                Some(t) => DisplayAction::Finish { url: t.url, fault: t.fault, detail: LineDetail::Failed },
                None => DisplayAction::Nothing,
            },
        }
    }
}

} // verus!
