use vstd::prelude::*;
use crate::card::PcscState;
use crate::error::ScardError;
use crate::handle::{ScardHandle, MonitorReply};
use crate::client::monitor_start_error;

verus! {

/// What a client of the monitoring verb asks for.
#[derive(Debug, Copy, Clone, PartialEq, Eq, Structural)]
pub enum ApiAction {
    START,
    STOP,
}

/// The name of the event that a card slot state is pushed as.
pub open spec fn event_label_of(status: PcscState) -> Seq<char> {
    match status {
        PcscState::PRESENT => "PRESENT"@,
        PcscState::EMPTY => "ABSENT"@,
        PcscState::UNKNOWN => "UNKNOWN"@,
    }
}

/// A present card is pushed as "PRESENT", an empty slot as "ABSENT", an
/// unknown state as "UNKNOWN": three different events.
pub proof fn lemma_event_labels(status: PcscState)
    ensures
        status == PcscState::PRESENT ==> event_label_of(status) == "PRESENT"@,
        status == PcscState::EMPTY ==> event_label_of(status) == "ABSENT"@,
        status == PcscState::UNKNOWN ==> event_label_of(status) == "UNKNOWN"@,
{
}

/// The name of the event that a card slot state is pushed as: an empty
/// slot is reported as absent.
pub fn event_label(status: PcscState) -> (res: &'static str)
    ensures
        res@ == event_label_of(status),
{
    match status {
        PcscState::PRESENT => "PRESENT",
        PcscState::EMPTY => "ABSENT",
        PcscState::UNKNOWN => "UNKNOWN",
    }
}

/// What the monitoring verb does next.
#[derive(Debug, Copy, Clone, PartialEq, Eq, Structural)]
pub enum EventStep {
    /// Start the reader monitoring thread (see `ScardHandle::monitor_request`).
    StartThread,
    /// Subscribe the request to the reader event.
    Subscribe,
    /// Unsubscribe the request from the reader event.
    Unsubscribe,
}

/// What the monitoring verb does first, given the id of its monitoring
/// thread (zero where none runs) and the action asked for: a start starts the
/// thread only where none runs, and subscribes otherwise; a stop only
/// unsubscribes.
pub open spec fn event_step(tid: u64, action: ApiAction) -> EventStep {
    match action {
        ApiAction::START => if tid == 0 { EventStep::StartThread } else { EventStep::Subscribe },
        ApiAction::STOP => EventStep::Unsubscribe,
    }
}

/// The state of the monitoring verb: the id of the reader monitoring thread
/// it started, zero while it started none.
pub struct ScardMonitorCtx {
    tid: u64,
}

impl View for ScardMonitorCtx {
    type V = u64;

    closed spec fn view(&self) -> u64 {
        self.tid
    }
}

impl ScardMonitorCtx {
    /// A monitoring verb that started no thread yet.
    pub fn new() -> (res: ScardMonitorCtx)
        ensures
            res@ == 0,
    {
        ScardMonitorCtx { tid: 0 }
    }

    /// The id of the monitoring thread, zero where none was started.
    pub fn tid(&self) -> (res: u64)
        ensures
            res == self@,
    {
        self.tid
    }

    /// What the monitoring verb does first for `action`.
    pub fn event_request(&self, action: ApiAction) -> (res: EventStep)
        ensures
            res == event_step(self@, action),
            action == ApiAction::START && self@ == 0 ==> res == EventStep::StartThread,
            action == ApiAction::START && self@ != 0 ==> res == EventStep::Subscribe,
            action == ApiAction::STOP ==> res == EventStep::Unsubscribe,
    {
        match action {
            ApiAction::START => {
                if self.tid == 0 {
                    EventStep::StartThread
                } else {
                    EventStep::Subscribe
                }
            },
            ApiAction::STOP => EventStep::Unsubscribe,
        }
    }

    /// Takes the thread id that starting the monitoring thread returned, with
    /// the reader's name at that time: a
    /// thread that started is remembered and the request is then subscribed;
    /// a thread that did not start ends the request with the start error and
    /// changes nothing.
    pub fn thread_started(&mut self, scard: &ScardHandle, tid: u64, reader_name: &[u8]) -> (res: Result<EventStep, ScardError>)
        ensures
            tid == 0 ==> res is Err && res->Err_0@ == monitor_start_error(reader_name@)
                && final(self)@ == old(self)@,
            tid != 0 ==> res == Ok::<EventStep, ScardError>(EventStep::Subscribe) && final(self)@ == tid,
            old(self)@ == 0 ==> final(self)@ == tid_after(old(self)@, ApiAction::START, tid),
    {
        match scard.monitor(MonitorReply::Started { tid }, reader_name) {
            Ok(t) => {
                self.tid = t;
                Ok(EventStep::Subscribe)
            },
            Err(e) => Err(e),
        }
    }
}

/// A start never unsubscribes: with no thread it starts one, and with any
/// thread running it subscribes the caller; a stop always unsubscribes.
pub proof fn lemma_event_step_by_thread(tid: u64)
    ensures
        tid == 0 ==> event_step(tid, ApiAction::START) == EventStep::StartThread,
        tid != 0 ==> event_step(tid, ApiAction::START) == EventStep::Subscribe,
        event_step(tid, ApiAction::START) != EventStep::Unsubscribe,
        event_step(tid, ApiAction::STOP) == EventStep::Unsubscribe,
{
}

/// The thread id the monitoring verb holds after a request for `action`,
/// where starting a thread, if it was asked for, returned `started`.
pub open spec fn tid_after(tid: u64, action: ApiAction, started: u64) -> u64 {
    if event_step(tid, action) == EventStep::StartThread && started != 0 {
        started
    } else {
        tid
    }
}

/// How many monitoring threads a series of requests starts, from the thread
/// id `tid`: each request is an action and what starting a thread returns,
/// should that request ask for one.
pub open spec fn thread_starts(tid: u64, requests: Seq<(ApiAction, u64)>) -> nat
    decreases requests.len(),
{
    if requests.len() == 0 {
        0
    } else {
        let (action, started) = requests[0];
        let here: nat = if event_step(tid, action) == EventStep::StartThread && started != 0 { 1 } else { 0 };
        here + thread_starts(tid_after(tid, action, started), requests.drop_first())
    }
}

/// The monitoring verb starts at most one reader monitoring thread over its
/// whole life, and none once it holds a thread: a start only starts a
/// thread while none was started, and a stop never touches it.
pub proof fn lemma_thread_started_once(tid: u64, requests: Seq<(ApiAction, u64)>)
    ensures
        thread_starts(tid, requests) <= (if tid == 0 { 1nat } else { 0nat }),
    decreases requests.len(),
{
    if requests.len() > 0 {
        let (action, started) = requests[0];
        lemma_thread_started_once(tid_after(tid, action, started), requests.drop_first());
    }
}

} // verus!
