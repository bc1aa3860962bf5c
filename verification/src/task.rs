//! One transfer as a state machine. The machine takes what happened (a
//! probe of the disk, the server's answer, a chunk, the end of a step on
//! disk) and answers with the next state and with what is to be done next.

use vstd::prelude::*;
use crate::model::{DownloadInfo, DownloadProgress, DownloadState};
use crate::names::{range_text, range_value};

verus! {

/// How the partial file is opened.
#[derive(Clone, Copy, Debug, PartialEq, Eq, Structural)]
pub enum WriteMode {
    /// A fresh body: start the file over.
    Truncate,
    /// A continued body: keep what is on disk and write behind it.
    Append,
}

/// The step of an attempt that a task is in.
#[derive(Clone, Copy, Debug)]
pub enum Phase {
    /// No attempt is in flight.
    Idle,
    /// The request is out, with the offset it asked to resume from.
    Requested(Option<u64>),
    /// The partial file is being opened.
    Opening(WriteMode),
    /// The body is being read and written.
    Streaming,
    /// The attempt has failed for the reason given; what was buffered is
    /// being flushed before the failure is reported.
    Draining(Fault),
    /// The body is complete and is being flushed.
    Flushing,
    /// The partial file is being renamed to its final name.
    Renaming,
    /// The metadata sidecar is being removed.
    Unlinking,
}

/// Why an attempt failed, or why a task does not run.
#[derive(Clone, Copy, Debug, PartialEq, Eq, Structural)]
pub enum Fault {
    /// The download directory could not be created.
    Directory,
    /// The origin could not be reached.
    Unreachable,
    /// The transport failed while the body was read.
    Transport,
    /// The server answered with a status other than 200, 206 and 410.
    Status(u16),
    /// The server sent more than the counter or the announced total holds.
    Overrun,
    /// The link is no longer valid (status 410).
    Expired,
    /// The partial file could not be opened.
    Open,
    /// A write to the partial file failed.
    Write,
    /// The buffered bytes could not be flushed.
    Flush,
    /// The partial file could not be renamed.
    Rename,
    /// The metadata sidecar could not be removed.
    RemoveSidecar,
}

/// The classes of failure.
#[derive(Clone, Copy, Debug, PartialEq, Eq, Structural)]
pub enum FaultKind {
    Network,
    Protocol,
    Expired,
    Filesystem,
}

impl Fault {
    /// The class of the failure.
    pub open spec fn spec_kind(self) -> FaultKind {
        match self {
            Fault::Unreachable | Fault::Transport => FaultKind::Network,
            Fault::Status(_) | Fault::Overrun => FaultKind::Protocol,
            Fault::Expired => FaultKind::Expired,
            _ => FaultKind::Filesystem,
        }
    }

    /// The class of the failure.
    pub fn kind(self) -> (r: FaultKind)
        ensures
            r == self.spec_kind(),
    {
        match self {
            Fault::Unreachable | Fault::Transport => FaultKind::Network,
            Fault::Status(_) | Fault::Overrun => FaultKind::Protocol,
            Fault::Expired => FaultKind::Expired,
            _ => FaultKind::Filesystem,
        }
    }
}

/// What happened outside since the last step.
#[derive(Clone, Copy, Debug)]
pub enum Event {
    /// The request could not be sent or was not answered.
    Unreachable,
    /// The server answered.
    Status { code: u16, content_length: Option<u64> },
    /// The partial file was opened, or could not be.
    Opened(bool),
    /// A chunk of this many bytes arrived.
    Chunk(u64),
    /// The last chunk could not be written.
    WriteFailed,
    /// The transport failed in the middle of the body.
    StreamFailed,
    /// The body ended without error.
    StreamEnded,
    /// The buffered bytes were flushed, or could not be.
    Flushed(bool),
    /// The partial file was renamed, or could not be.
    Renamed(bool),
    /// The metadata sidecar was removed, or could not be.
    SidecarRemoved(bool),
}

/// What is to be done next.
#[derive(Clone, Copy, Debug, PartialEq, Eq, Structural)]
pub enum Action {
    /// Nothing: the task waits for the user.
    Nothing,
    /// Cancel the attempt in flight at once.
    Abort,
    /// Look at the disk, then call `try_start`.
    Probe,
    /// Open the partial file in this mode.
    Open(WriteMode),
    /// Read the body.
    Stream,
    /// Write the chunk behind what is buffered, then read on.
    Write,
    /// Flush what is buffered.
    Flush,
    /// Rename the partial file to its final name.
    Rename,
    /// Remove the metadata sidecar.
    RemoveSidecar,
    /// Record the completed file.
    Record,
}

/// The answer to an event.
#[derive(Clone, Copy, Debug)]
pub struct Step {
    pub action: Action,
    /// What to tell the user, if anything.
    pub fault: Option<Fault>,
    /// Whether the task's record is to be saved before anything else.
    pub persist: bool,
    /// Whether what the user sees has changed.
    pub changed: bool,
}

impl Step {
    /// The answer that asks for nothing and reports nothing.
    pub open spec fn spec_quiet() -> Step {
        Step { action: Action::Nothing, fault: None, persist: false, changed: false }
    }

    /// The answer that asks for nothing and reports nothing.
    pub fn quiet() -> (r: Step)
        ensures
            r == Step::spec_quiet(),
    {
        Step { action: Action::Nothing, fault: None, persist: false, changed: false }
    }
}

/// What a probe of the disk found.
#[derive(Clone, Copy, Debug)]
pub struct Probe {
    /// The download directory exists or was created.
    pub dir_ready: bool,
    /// A file of the final name exists.
    pub final_exists: bool,
    /// The file identifier is in the index of completed files.
    pub indexed: bool,
    /// The size of the partial file, if there is one.
    pub part_size: Option<u64>,
}

/// The request to send.
#[derive(Debug)]
pub struct Request {
    /// The byte to resume from, if a partial file exists.
    pub offset: Option<u64>,
    /// The value of the range header, if one is to be sent.
    pub range: Option<String>,
}

/// Why `try_start` sent nothing.
#[derive(Clone, Copy, Debug, PartialEq, Eq, Structural)]
pub enum Refusal {
    /// An attempt is in flight already.
    InFlight,
    /// The task is `Expired` or `Done`: it is not started again.
    Finished,
    /// The download directory could not be created.
    Directory,
    /// The final file exists and the index does not know it: its record
    /// is to be written.
    MissingMetadata,
    /// The final file exists and is indexed.
    AlreadyDownloaded,
}

/// One transfer: its record and the phase of its attempt.
pub struct DownloadTask {
    pub dl_info: DownloadInfo,
    pub phase: Phase,
}

impl DownloadTask {
    /// Only a task that is `Downloading` has an attempt in flight, its
    /// progress is within the total, and a file is put in place only when
    /// nothing of a known total is missing.
    pub open spec fn wf(self) -> bool {
        &&& self.dl_info.wf()
        &&& !(self.phase is Idle) ==> self.dl_info.state == DownloadState::Downloading
        &&& self.finishing() ==> self.dl_info.progress.is_complete()
    }

    /// Whether the body has ended and the file is being put in place.
    pub open spec fn finishing(self) -> bool {
        self.phase is Flushing || self.phase is Renaming || self.phase is Unlinking
    }

    /// Whether an attempt is in flight.
    pub open spec fn in_flight(self) -> bool {
        !(self.phase is Idle)
    }

    /// The task in another state, with other progress and in another
    /// phase; the file and the URL stay.
    pub open spec fn with(self, state: DownloadState, progress: DownloadProgress, phase: Phase) -> DownloadTask {
        DownloadTask { dl_info: DownloadInfo { state, progress, ..self.dl_info }, phase }
    }

    /// The attempt goes on in `phase`, and `action` is next.
    pub open spec fn moved(self, phase: Phase, action: Action) -> (DownloadTask, Step) {
        (
            DownloadTask { phase, ..self },
            Step { action, fault: None, persist: false, changed: false },
        )
    }

    /// The attempt ends in `Error`.
    pub open spec fn failed(self, fault: Fault) -> (DownloadTask, Step) {
        (
            self.with(DownloadState::Error, self.dl_info.progress, Phase::Idle),
            Step { action: Action::Nothing, fault: Some(fault), persist: true, changed: true },
        )
    }

    /// The event is not one that the phase waits for.
    pub open spec fn ignored(self) -> (DownloadTask, Step) {
        (self, Step::spec_quiet())
    }

    /// The server's answer to the request that asked to resume from `from`.
    pub open spec fn answered(self, from: Option<u64>, code: u16, content_length: Option<u64>) -> (
        DownloadTask,
        Step,
    ) {
        let fresh = DownloadProgress { bytes_read: 0, size: content_length };
        if code == 200 {
            (
                self.with(DownloadState::Downloading, fresh, Phase::Opening(WriteMode::Truncate)),
                Step { action: Action::Open(WriteMode::Truncate), fault: None, persist: true, changed: false },
            )
        } else if code == 206 {
            let progress = match from {
                Some(offset) => self.dl_info.progress.resumed_at(offset),
                None => fresh,
            };
            (
                self.with(DownloadState::Downloading, progress, Phase::Opening(WriteMode::Append)),
                Step { action: Action::Open(WriteMode::Append), fault: None, persist: true, changed: false },
            )
        } else if code == 410 {
            (
                self.with(DownloadState::Expired, self.dl_info.progress, Phase::Idle),
                Step { action: Action::Nothing, fault: Some(Fault::Expired), persist: true, changed: true },
            )
        } else {
            self.failed(Fault::Status(code))
        }
    }

    /// A chunk of `len` bytes while the body is read. A chunk that the
    /// counter or a known total has no room for is not written: what was
    /// buffered before it is flushed, and the attempt then fails.
    pub open spec fn received(self, len: u64) -> (DownloadTask, Step) {
        if self.dl_info.progress.admits(len) {
            (
                self.with(
                    self.dl_info.state,
                    DownloadProgress {
                        bytes_read: (self.dl_info.progress.bytes_read + len) as u64,
                        ..self.dl_info.progress
                    },
                    Phase::Streaming,
                ),
                Step { action: Action::Write, fault: None, persist: false, changed: true },
            )
        } else {
            self.moved(Phase::Draining(Fault::Overrun), Action::Flush)
        }
    }

    /// The transfer is complete.
    pub open spec fn completed(self) -> (DownloadTask, Step) {
        (
            self.with(DownloadState::Done, self.dl_info.progress, Phase::Idle),
            Step { action: Action::Record, fault: None, persist: false, changed: true },
        )
    }

    /// The machine: the task and the answer after `event`. An event that
    /// the phase does not wait for changes nothing. A body that ends before
    /// a known total has arrived is a failed transport.
    pub open spec fn next(self, event: Event) -> (DownloadTask, Step) {
        match (self.phase, event) {
            (Phase::Requested(_), Event::Unreachable) => self.failed(Fault::Unreachable),
            (Phase::Requested(from), Event::Status { code, content_length }) => self.answered(
                from,
                code,
                content_length,
            ),
            (Phase::Opening(_), Event::Opened(true)) => self.moved(Phase::Streaming, Action::Stream),
            (Phase::Opening(_), Event::Opened(false)) => self.failed(Fault::Open),
            (Phase::Streaming, Event::Chunk(len)) => self.received(len),
            (Phase::Streaming, Event::WriteFailed) => self.failed(Fault::Write),
            (Phase::Streaming, Event::StreamFailed) => self.moved(
                Phase::Draining(Fault::Transport),
                Action::Flush,
            ),
            (Phase::Streaming, Event::StreamEnded) => if self.dl_info.progress.is_complete() {
                self.moved(Phase::Flushing, Action::Flush)
            } else {
                self.moved(Phase::Draining(Fault::Transport), Action::Flush)
            },
            (Phase::Draining(cause), Event::Flushed(true)) => self.failed(cause),
            (Phase::Draining(_), Event::Flushed(false)) => self.failed(Fault::Flush),
            (Phase::Flushing, Event::Flushed(true)) => self.moved(Phase::Renaming, Action::Rename),
            (Phase::Flushing, Event::Flushed(false)) => self.failed(Fault::Flush),
            (Phase::Renaming, Event::Renamed(true)) => self.moved(Phase::Unlinking, Action::RemoveSidecar),
            (Phase::Renaming, Event::Renamed(false)) => self.failed(Fault::Rename),
            (Phase::Unlinking, Event::SidecarRemoved(true)) => self.completed(),
            (Phase::Unlinking, Event::SidecarRemoved(false)) => self.failed(Fault::RemoveSidecar),
            _ => self.ignored(),
        }
    }

    /// The task and the answer after the user asked to pause or resume. On
    /// an `Expired` or `Done` task the toggle does nothing: the task stays,
    /// nothing is saved, and for an `Expired` one the user is told that the
    /// link has expired.
    pub open spec fn toggled(self) -> (DownloadTask, Step) {
        match self.dl_info.state {
            DownloadState::Downloading => (
                self.with(DownloadState::Paused, self.dl_info.progress, Phase::Idle),
                Step {
                    action: if self.in_flight() { Action::Abort } else { Action::Nothing },
                    fault: None,
                    persist: true,
                    changed: true,
                },
            ),
            DownloadState::Paused | DownloadState::Error => (
                self.with(DownloadState::Downloading, self.dl_info.progress, self.phase),
                Step { action: Action::Probe, fault: None, persist: true, changed: true },
            ),
            DownloadState::Expired => (
                self,
                Step { action: Action::Nothing, fault: Some(Fault::Expired), persist: false, changed: false },
            ),
            DownloadState::Done => self.ignored(),
        }
    }

    /// Why a start on `probe` sends nothing, if it does not.
    pub open spec fn refusal(self, probe: Probe) -> Option<Refusal> {
        if self.in_flight() {
            Some(Refusal::InFlight)
        } else if self.dl_info.state.is_terminal() {
            Some(Refusal::Finished)
        } else if !probe.dir_ready {
            Some(Refusal::Directory)
        } else if probe.final_exists {
            if probe.indexed {
                Some(Refusal::AlreadyDownloaded)
            } else {
                Some(Refusal::MissingMetadata)
            }
        } else {
            None
        }
    }

    /// The task after a start on `probe`.
    pub open spec fn started(self, probe: Probe) -> DownloadTask {
        match self.refusal(probe) {
            None => self.with(DownloadState::Downloading, self.dl_info.progress, Phase::Requested(probe.part_size)),
            Some(Refusal::Directory) => self.with(DownloadState::Error, self.dl_info.progress, Phase::Idle),
            Some(_) => self,
        }
    }

    /// The task that a record is built as: in the record's state, with no
    /// attempt in flight. A total that is smaller than what was received is
    /// forgotten.
    pub open spec fn built(dl_info: DownloadInfo) -> DownloadTask {
        DownloadTask {
            dl_info: DownloadInfo { progress: dl_info.progress.resumed_at(dl_info.progress.bytes_read), ..dl_info },
            phase: Phase::Idle,
        }
    }

    /// A task for `dl_info`, in the state that the record holds, with no
    /// attempt in flight.
    pub fn new(dl_info: DownloadInfo) -> (r: Self)
        ensures
            r == DownloadTask::built(dl_info),
            dl_info.wf() ==> r.dl_info == dl_info,
            r.wf(),
    {
        let mut dl_info = dl_info;
        let mut progress = dl_info.progress;
        progress.resume_at(progress.bytes_read);
        dl_info.progress = progress;
        DownloadTask { dl_info, phase: Phase::Idle }
    }

    /// Whether an attempt is in flight.
    pub fn is_running(&self) -> (r: bool)
        ensures
            r == self.in_flight(),
    {
        match self.phase {
            Phase::Idle => false,
            _ => true,
        }
    }

    /// Ends the attempt in flight, if there is one: the result says whether
    /// one is to be cancelled. The state stays, so that a task that was
    /// `Downloading` is taken up again at the next launch.
    pub fn stop(&mut self) -> (abort: bool)
        ensures
            abort == old(self).in_flight(),
            *final(self) == (DownloadTask { phase: Phase::Idle, ..*old(self) }),
    {
        let abort = self.is_running();
        self.phase = Phase::Idle;
        abort
    }

    fn set_error(&mut self, fault: Fault) -> (step: Step)
        ensures
            (*final(self), step) == old(self).failed(fault),
    {
        self.dl_info.state = DownloadState::Error;
        self.phase = Phase::Idle;
        Step { action: Action::Nothing, fault: Some(fault), persist: true, changed: true }
    }

    fn move_to(&mut self, phase: Phase, action: Action) -> (step: Step)
        ensures
            (*final(self), step) == old(self).moved(phase, action),
    {
        self.phase = phase;
        Step { action, fault: None, persist: false, changed: false }
    }

    /// Pauses a task that is `Downloading`, resumes one that is `Paused` or
    /// in `Error`, and leaves an `Expired` or `Done` one as it is.
    pub fn toggle_pause(&mut self) -> (step: Step)
        requires
            old(self).wf(),
        ensures
            (*final(self), step) == old(self).toggled(),
            final(self).wf(),
    {
        match self.dl_info.state {
            DownloadState::Downloading => {
                let running = self.is_running();
                self.dl_info.state = DownloadState::Paused;
                self.phase = Phase::Idle;
                Step {
                    action: if running { Action::Abort } else { Action::Nothing },
                    fault: None,
                    persist: true,
                    changed: true,
                }
            },
            DownloadState::Paused | DownloadState::Error => {
                self.dl_info.state = DownloadState::Downloading;
                Step { action: Action::Probe, fault: None, persist: true, changed: true }
            },
            DownloadState::Expired => {
                Step { action: Action::Nothing, fault: Some(Fault::Expired), persist: false, changed: false }
            },
            DownloadState::Done => Step::quiet(),
        }
    }

    /// Starts an attempt on what a probe of the disk found. The request
    /// resumes from the size of the partial file, if there is one. Nothing
    /// is sent while an attempt is in flight, for a task that is `Expired`
    /// or `Done`, without the download directory, or when the final file
    /// exists.
    pub fn try_start(&mut self, probe: Probe) -> (r: Result<Request, Refusal>)
        requires
            old(self).wf(),
        ensures
            *final(self) == old(self).started(probe),
            final(self).wf(),
            match r {
                Ok(request) => {
                    &&& old(self).refusal(probe) is None
                    &&& request.offset == probe.part_size
                    &&& match request.range {
                        Some(value) => probe.part_size is Some && value@ == range_text(probe.part_size->0),
                        None => probe.part_size is None,
                    }
                },
                Err(why) => old(self).refusal(probe) == Some(why),
            },
    {
        if self.is_running() {
            return Err(Refusal::InFlight);
        }
        if self.dl_info.state.terminal() {
            return Err(Refusal::Finished);
        }
        if !probe.dir_ready {
            self.dl_info.state = DownloadState::Error;
            return Err(Refusal::Directory);
        }
        if probe.final_exists {
            if probe.indexed {
                return Err(Refusal::AlreadyDownloaded);
            } else {
                return Err(Refusal::MissingMetadata);
            }
        }
        self.dl_info.state = DownloadState::Downloading;
        self.phase = Phase::Requested(probe.part_size);
        let range = match probe.part_size {
            Some(offset) => Some(range_value(offset)),
            None => None,
        };
        Ok(Request { offset: probe.part_size, range })
    }

    fn on_status(&mut self, from: Option<u64>, code: u16, content_length: Option<u64>) -> (step: Step)
        requires
            old(self).wf(),
        ensures
            (*final(self), step) == old(self).answered(from, code, content_length),
            final(self).wf() || !(final(self).phase is Idle),
            final(self).dl_info.wf(),
    {
        if code == 200 {
            self.dl_info.state = DownloadState::Downloading;
            self.dl_info.progress = DownloadProgress::new(0, content_length);
            self.phase = Phase::Opening(WriteMode::Truncate);
            Step { action: Action::Open(WriteMode::Truncate), fault: None, persist: true, changed: false }
        } else if code == 206 {
            self.dl_info.state = DownloadState::Downloading;
            match from {
                Some(offset) => {
                    let mut progress = self.dl_info.progress;
                    progress.resume_at(offset);
                    self.dl_info.progress = progress;
                },
                None => {
                    self.dl_info.progress = DownloadProgress::new(0, content_length);
                },
            }
            self.phase = Phase::Opening(WriteMode::Append);
            Step { action: Action::Open(WriteMode::Append), fault: None, persist: true, changed: false }
        } else if code == 410 {
            self.dl_info.state = DownloadState::Expired;
            self.phase = Phase::Idle;
            Step { action: Action::Nothing, fault: Some(Fault::Expired), persist: true, changed: true }
        } else {
            self.set_error(Fault::Status(code))
        }
    }

    fn on_chunk(&mut self, len: u64) -> (step: Step)
        requires
            old(self).wf(),
            old(self).phase is Streaming,
        ensures
            (*final(self), step) == old(self).received(len),
            final(self).wf(),
    {
        if self.dl_info.progress.can_take(len) {
            let mut progress = self.dl_info.progress;
            progress.advance(len);
            self.dl_info.progress = progress;
            Step { action: Action::Write, fault: None, persist: false, changed: true }
        } else {
            self.move_to(Phase::Draining(Fault::Overrun), Action::Flush)
        }
    }

    /// Takes one event and answers with what is to be done next.
    pub fn advance(&mut self, event: Event) -> (step: Step)
        requires
            old(self).wf(),
        ensures
            (*final(self), step) == old(self).next(event),
            final(self).wf(),
    {
        match self.phase {
            Phase::Idle => Step::quiet(),
            Phase::Requested(from) => match event {
                Event::Unreachable => self.set_error(Fault::Unreachable),
                Event::Status { code, content_length } => self.on_status(from, code, content_length),
                _ => Step::quiet(),
            },
            Phase::Opening(_) => match event {
                Event::Opened(true) => self.move_to(Phase::Streaming, Action::Stream),
                Event::Opened(false) => self.set_error(Fault::Open),
                _ => Step::quiet(),
            },
            Phase::Streaming => match event {
                Event::Chunk(len) => self.on_chunk(len),
                Event::WriteFailed => self.set_error(Fault::Write),
                Event::StreamFailed => self.move_to(Phase::Draining(Fault::Transport), Action::Flush),
                Event::StreamEnded => if self.dl_info.progress.complete() {
                    self.move_to(Phase::Flushing, Action::Flush)
                } else {
                    self.move_to(Phase::Draining(Fault::Transport), Action::Flush)
                },
                _ => Step::quiet(),
            },
            Phase::Draining(cause) => match event {
                Event::Flushed(true) => self.set_error(cause),
                Event::Flushed(false) => self.set_error(Fault::Flush),
                _ => Step::quiet(),
            },
            Phase::Flushing => match event {
                Event::Flushed(true) => self.move_to(Phase::Renaming, Action::Rename),
                Event::Flushed(false) => self.set_error(Fault::Flush),
                _ => Step::quiet(),
            },
            Phase::Renaming => match event {
                Event::Renamed(true) => self.move_to(Phase::Unlinking, Action::RemoveSidecar),
                Event::Renamed(false) => self.set_error(Fault::Rename),
                _ => Step::quiet(),
            },
            Phase::Unlinking => match event {
                Event::SidecarRemoved(true) => {
                    self.dl_info.state = DownloadState::Done;
                    self.phase = Phase::Idle;
                    Step { action: Action::Record, fault: None, persist: false, changed: true }
                },
                Event::SidecarRemoved(false) => self.set_error(Fault::RemoveSidecar),
                _ => Step::quiet(),
            },
        }
    }

    /// No event changes which file a task is for, nor its URL.
    pub proof fn next_keeps_file(task: DownloadTask, event: Event)
        ensures
            task.next(event).0.dl_info.file_info == task.dl_info.file_info,
            task.next(event).0.dl_info.url == task.dl_info.url,
    {
    }
}

} // verus!
