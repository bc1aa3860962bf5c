//! Whole runs of a transfer: what a sequence of events makes of a task, and
//! what the actions that the task answers with make of the partial file.

use vstd::prelude::*;
use crate::model::{DownloadProgress, DownloadState};
use crate::task::{Action, DownloadTask, Event, Fault, Phase, Probe, Refusal, WriteMode};

verus! {

/// The task after `events`, one after the other.
pub open spec fn run(task: DownloadTask, events: Seq<Event>) -> DownloadTask
    decreases events.len(),
{
    if events.len() == 0 {
        task
    } else {
        run(task.next(events[0]).0, events.drop_first())
    }
}

/// The bytes of a body that arrived in the chunks `body`.
pub open spec fn joined(body: Seq<Seq<u8>>) -> Seq<u8>
    decreases body.len(),
{
    if body.len() == 0 {
        Seq::empty()
    } else {
        body[0] + joined(body.drop_first())
    }
}

/// The events of the arrival of the chunks `body`.
pub open spec fn arrivals(body: Seq<Seq<u8>>) -> Seq<Event> {
    Seq::new(body.len(), |i: int| Event::Chunk(body[i].len() as u64))
}

/// The partial file after it was opened in `mode` over `on_disk` and every
/// chunk of `body` was written and flushed.
pub open spec fn written(mode: WriteMode, on_disk: Seq<u8>, body: Seq<Seq<u8>>) -> Seq<u8> {
    match mode {
        WriteMode::Truncate => joined(body),
        WriteMode::Append => on_disk + joined(body),
    }
}

/// The events of a body that ends without error and of a file that is put
/// in place without error.
pub open spec fn clean_end() -> Seq<Event> {
    seq![Event::StreamEnded, Event::Flushed(true), Event::Renamed(true), Event::SidecarRemoved(true)]
}

/// Whether a task with this progress takes `more` bytes.
pub open spec fn has_room(progress: DownloadProgress, more: nat) -> bool {
    &&& progress.bytes_read + more <= u64::MAX
    &&& progress.size matches Some(total) ==> progress.bytes_read + more <= total
}

/// While a body is read, the counter grows by the length of each chunk: a
/// task that has room for the whole body counts exactly its bytes and goes
/// on reading.
pub proof fn counter_tracks_body(task: DownloadTask, body: Seq<Seq<u8>>)
    requires
        task.wf(),
        task.phase is Streaming,
        has_room(task.dl_info.progress, joined(body).len()),
    ensures
        run(task, arrivals(body)) == task.with(
            task.dl_info.state,
            DownloadProgress {
                bytes_read: (task.dl_info.progress.bytes_read + joined(body).len()) as u64,
                ..task.dl_info.progress
            },
            Phase::Streaming,
        ),
        run(task, arrivals(body)).wf(),
    decreases body.len(),
{
    if body.len() > 0 {
        let rest = body.drop_first();
        assert(arrivals(body).drop_first() =~= arrivals(rest));
        assert(joined(body).len() == body[0].len() + joined(rest).len());
        let after = task.next(arrivals(body)[0]).0;
        counter_tracks_body(after, rest);
    }
}

/// A run that ends in another run.
pub proof fn run_in_two(task: DownloadTask, first: Seq<Event>, second: Seq<Event>)
    ensures
        run(task, first + second) == run(run(task, first), second),
    decreases first.len(),
{
    if first.len() == 0 {
        assert(first + second =~= second);
    } else {
        assert((first + second).drop_first() =~= first.drop_first() + second);
        run_in_two(task.next(first[0]).0, first.drop_first(), second);
    }
}

/// A task becomes `Done` only with everything received: when the server
/// told the total size, the counter equals it.
pub proof fn done_means_complete(task: DownloadTask, event: Event)
    requires
        task.wf(),
        task.dl_info.state != DownloadState::Done,
        task.next(event).0.dl_info.state == DownloadState::Done,
    ensures
        task.next(event).0.dl_info.progress.is_complete(),
        task.next(event).0.dl_info.progress.size matches Some(total) ==> task.next(
            event,
        ).0.dl_info.progress.bytes_read == total,
{
}

/// A task with no attempt in flight takes no event.
pub proof fn idle_task_ignores(task: DownloadTask, events: Seq<Event>)
    requires
        task.phase is Idle,
    ensures
        run(task, events) == task,
    decreases events.len(),
{
    if events.len() > 0 {
        idle_task_ignores(task.next(events[0]).0, events.drop_first());
    }
}

/// Whether every chunk of `body` has a length that a `u64` holds.
pub open spec fn countable(body: Seq<Seq<u8>>) -> bool {
    forall|i: int| 0 <= i < body.len() ==> (#[trigger] body[i]).len() <= u64::MAX
}

/// A task that flushes after a failure takes no chunk.
pub proof fn draining_task_takes_no_chunk(task: DownloadTask, body: Seq<Seq<u8>>)
    requires
        task.phase is Draining,
    ensures
        run(task, arrivals(body)) == task,
    decreases body.len(),
{
    if body.len() > 0 {
        assert(arrivals(body).drop_first() =~= arrivals(body.drop_first()));
        draining_task_takes_no_chunk(task, body.drop_first());
    }
}

/// A task that flushes after a failure ends in `Error`, whatever the end
/// of the body looks like.
pub proof fn draining_task_fails(task: DownloadTask)
    requires
        task.phase is Draining,
    ensures
        run(task, clean_end()).dl_info.state == DownloadState::Error,
        !run(task, clean_end()).in_flight(),
        run(task, clean_end()).dl_info.progress == task.dl_info.progress,
{
    let e = clean_end();
    let b = task.next(e[1]).0;
    let e1 = e.drop_first();
    let e2 = e1.drop_first();
    assert(e1[0] == e[1]);
    assert(task.next(e[0]).0 == task);
    idle_task_ignores(b, e2);
    assert(run(task, e1) == b);
    assert(run(task, e) == b);
}

/// While the chunks of a body arrive, a task either counts every byte and
/// reads on, or it has met a chunk that it has no room for and flushes
/// what it took before.
pub proof fn body_is_counted_or_fails(task: DownloadTask, body: Seq<Seq<u8>>)
    requires
        task.wf(),
        task.phase is Streaming,
        countable(body),
    ensures
        ({
            let after = run(task, arrivals(body));
            &&& after.wf()
            &&& {
                ||| {
                    &&& after.phase is Streaming
                    &&& has_room(task.dl_info.progress, joined(body).len())
                    &&& after.dl_info.progress.bytes_read == task.dl_info.progress.bytes_read + joined(body).len()
                    &&& after.dl_info.progress.size == task.dl_info.progress.size
                }
                ||| after.phase is Draining
            }
        }),
    decreases body.len(),
{
    if body.len() > 0 {
        let rest = body.drop_first();
        assert(arrivals(body).drop_first() =~= arrivals(rest));
        assert(joined(body).len() == body[0].len() + joined(rest).len());
        assert(countable(rest)) by {
            assert forall|i: int| 0 <= i < rest.len() implies (#[trigger] rest[i]).len() <= u64::MAX by {
                assert(rest[i] == body[i + 1]);
            }
        }
        let after = task.next(arrivals(body)[0]).0;
        if after.phase is Streaming {
            body_is_counted_or_fails(after, rest);
        } else {
            draining_task_takes_no_chunk(after, rest);
        }
    }
}

/// A body that ends before the announced total has arrived does not
/// complete the download: after the flush the task is in `Error`.
pub proof fn short_body_fails(task: DownloadTask)
    requires
        task.wf(),
        task.phase is Streaming,
        !task.dl_info.progress.is_complete(),
    ensures
        run(task, clean_end()) == task.with(DownloadState::Error, task.dl_info.progress, Phase::Idle),
{
    let e = clean_end();
    let a = task.next(e[0]).0;
    let b = a.next(e[1]).0;
    let e1 = e.drop_first();
    let e2 = e1.drop_first();
    assert(e1[0] == e[1]);
    idle_task_ignores(b, e2);
    assert(run(a, e1) == b);
    assert(run(task, e) == b);
}

/// Every completed download has the size that the server announced: where
/// the counter stood at the size of the partial file when the body began,
/// the total is known, and the chunks of `body` and a clean end make the
/// task `Done`, the file that was written has exactly the total size.
pub proof fn completed_file_has_total_size(
    task: DownloadTask,
    total: u64,
    mode: WriteMode,
    on_disk: Seq<u8>,
    body: Seq<Seq<u8>>,
)
    requires
        task.wf(),
        task.phase is Streaming,
        task.dl_info.progress.size == Some(total),
        countable(body),
        written(mode, on_disk, Seq::empty()).len() == task.dl_info.progress.bytes_read,
        run(task, arrivals(body) + clean_end()).dl_info.state == DownloadState::Done,
    ensures
        written(mode, on_disk, body).len() == total,
        run(task, arrivals(body) + clean_end()).dl_info.progress.bytes_read == total,
{
    body_is_counted_or_fails(task, body);
    run_in_two(task, arrivals(body), clean_end());
    let after = run(task, arrivals(body));
    if after.phase is Streaming {
        if after.dl_info.progress.is_complete() {
            clean_end_completes(after);
        } else {
            short_body_fails(after);
        }
    } else {
        draining_task_fails(after);
    }
}

/// A fresh download whose body arrives whole ends `Done`, and the file
/// that was written has the size that the server announced.
pub proof fn fresh_download_has_announced_size(
    task: DownloadTask,
    from: Option<u64>,
    total: u64,
    on_disk: Seq<u8>,
    body: Seq<Seq<u8>>,
)
    requires
        task.wf(),
        task.phase == Phase::Requested(from),
        joined(body).len() == total,
    ensures
        ({
            let (opening, step) = task.next(Event::Status { code: 200, content_length: Some(total) });
            let end = run(opening, seq![Event::Opened(true)] + arrivals(body) + clean_end());
            &&& step.action == Action::Open(WriteMode::Truncate)
            &&& end.dl_info.state == DownloadState::Done
            &&& !end.in_flight()
            &&& end.dl_info.progress.size == Some(total)
            &&& end.dl_info.progress.bytes_read == total
            &&& written(WriteMode::Truncate, on_disk, body).len() == total
        }),
{
    let opening = task.next(Event::Status { code: 200, content_length: Some(total) }).0;
    let streaming = opening.next(Event::Opened(true)).0;
    let opened = seq![Event::Opened(true)];
    assert(run(opening, opened) == streaming) by {
        assert(opened.drop_first() =~= Seq::<Event>::empty());
        assert(run(streaming, opened.drop_first()) == streaming);
    }
    counter_tracks_body(streaming, body);
    let read = run(streaming, arrivals(body));
    run_in_two(opening, opened, arrivals(body));
    run_in_two(opening, opened + arrivals(body), clean_end());
    clean_end_completes(read);
}

/// After a body that arrived whole, a clean end puts the file in place:
/// the task is `Done`, nothing is in flight, and the counter stays.
pub proof fn clean_end_completes(task: DownloadTask)
    requires
        task.wf(),
        task.phase is Streaming,
        task.dl_info.progress.is_complete(),
    ensures
        run(task, clean_end()) == task.with(DownloadState::Done, task.dl_info.progress, Phase::Idle),
{
    let e = clean_end();
    let a = task.next(e[0]).0;
    let b = a.next(e[1]).0;
    let c = b.next(e[2]).0;
    let d = c.next(e[3]).0;
    let e1 = e.drop_first();
    let e2 = e1.drop_first();
    let e3 = e2.drop_first();
    let e4 = e3.drop_first();
    assert(e1[0] == e[1] && e2[0] == e[2] && e3[0] == e[3] && e4.len() == 0);
    assert(run(d, e4) == d);
    assert(run(c, e3) == d);
    assert(run(b, e2) == d);
    assert(run(a, e1) == d);
    assert(run(task, e) == d);
}

/// A start over a partial file of `on_disk.len()` bytes asks the server for
/// the bytes from that offset on. When the server continues (206), the file
/// is opened to append and the counter starts at the offset; when the body
/// has arrived, the file holds the bytes that were on disk and behind them
/// the bytes of the server, and the counter is its size. A clean end then
/// makes the task `Done`.
pub proof fn resume_continues_partial_file(
    task: DownloadTask,
    probe: Probe,
    content_length: Option<u64>,
    on_disk: Seq<u8>,
    body: Seq<Seq<u8>>,
)
    requires
        task.wf(),
        task.refusal(probe) is None,
        probe.part_size == Some(on_disk.len() as u64),
        on_disk.len() <= u64::MAX,
        has_room(task.dl_info.progress.resumed_at(on_disk.len() as u64), joined(body).len()),
    ensures
        ({
            let started = task.started(probe);
            let (opening, step) = started.next(Event::Status { code: 206, content_length });
            let read = run(opening, seq![Event::Opened(true)] + arrivals(body));
            let file = written(WriteMode::Append, on_disk, body);
            &&& started.phase == Phase::Requested(Some(on_disk.len() as u64))
            &&& step.action == Action::Open(WriteMode::Append)
            &&& opening.dl_info.progress.bytes_read == on_disk.len()
            &&& file == on_disk + joined(body)
            &&& read.phase is Streaming
            &&& read.dl_info.progress.bytes_read == file.len()
            &&& read.dl_info.progress.is_complete() ==> run(read, clean_end()).dl_info.state
                == DownloadState::Done
        }),
{
    let started = task.started(probe);
    let opening = started.next(Event::Status { code: 206, content_length }).0;
    let streaming = opening.next(Event::Opened(true)).0;
    let opened = seq![Event::Opened(true)];
    assert(run(opening, opened) == streaming) by {
        assert(opened.drop_first() =~= Seq::<Event>::empty());
        assert(run(streaming, opened.drop_first()) == streaming);
    }
    counter_tracks_body(streaming, body);
    run_in_two(opening, opened, arrivals(body));
    let read = run(streaming, arrivals(body));
    if read.dl_info.progress.is_complete() {
        clean_end_completes(read);
    }
}

/// Pausing a task that is `Downloading` and resuming it loses none of the
/// bytes that were flushed and fetches none of them again: the pause ends
/// the attempt and leaves the partial file, the resume asks for the bytes
/// from the size of that file on, and a continued body is written behind
/// it.
pub proof fn pause_then_resume_keeps_flushed(
    task: DownloadTask,
    probe: Probe,
    content_length: Option<u64>,
    flushed: Seq<u8>,
    body: Seq<Seq<u8>>,
)
    requires
        task.wf(),
        task.dl_info.state == DownloadState::Downloading,
        probe.dir_ready,
        !probe.final_exists,
        probe.part_size == Some(flushed.len() as u64),
        flushed.len() <= u64::MAX,
        has_room(task.dl_info.progress.resumed_at(flushed.len() as u64), joined(body).len()),
    ensures
        ({
            let (paused, pause) = task.toggled();
            let (resumed, resume) = paused.toggled();
            let started = resumed.started(probe);
            let (opening, step) = started.next(Event::Status { code: 206, content_length });
            let read = run(opening, seq![Event::Opened(true)] + arrivals(body));
            &&& paused.dl_info.state == DownloadState::Paused
            &&& !paused.in_flight()
            &&& pause.action == (if task.in_flight() {
                Action::Abort
            } else {
                Action::Nothing
            })
            &&& resume.action == Action::Probe
            &&& started.phase == Phase::Requested(Some(flushed.len() as u64))
            &&& step.action == Action::Open(WriteMode::Append)
            &&& written(WriteMode::Append, flushed, body) == flushed + joined(body)
            &&& read.dl_info.progress.bytes_read == flushed.len() + joined(body).len()
        }),
{
    let resumed = task.toggled().0.toggled().0;
    assert(resumed.wf());
    assert(resumed.dl_info.progress == task.dl_info.progress);
    resume_continues_partial_file(resumed, probe, content_length, flushed, body);
}

/// A server that answers a request with 410 makes the task `Expired`, with
/// nothing in flight and nothing to open or write. An `Expired` task stays
/// as it is when it is asked to resume, and no event moves it.
pub proof fn gone_expires_for_good(task: DownloadTask, content_length: Option<u64>, event: Event)
    requires
        task.wf(),
        task.phase is Requested,
    ensures
        ({
            let (expired, step) = task.next(Event::Status { code: 410, content_length });
            &&& expired.dl_info.state == DownloadState::Expired
            &&& !expired.in_flight()
            &&& step.action == Action::Nothing
            &&& step.fault == Some(Fault::Expired)
            &&& step.persist
            &&& expired.toggled().0 == expired
            &&& expired.toggled().1.action == Action::Nothing
            &&& !expired.toggled().1.persist
            &&& expired.next(event).0 == expired
            &&& expired.next(event).1.action == Action::Nothing
        }),
{
}

/// `Expired` and `Done` are final: neither the user's toggle, nor a start,
/// nor any event changes a task in one of them, and none of them asks to
/// save its record or to do anything on disk or on the network.
pub proof fn finished_tasks_stay(task: DownloadTask, probe: Probe, event: Event)
    requires
        task.wf(),
        task.dl_info.state.is_terminal(),
    ensures
        task.toggled().0 == task,
        task.toggled().1.action == Action::Nothing,
        !task.toggled().1.persist,
        task.started(probe) == task,
        task.refusal(probe) == Some(Refusal::Finished),
        task.next(event) == task.ignored(),
        !task.next(event).1.persist,
{
}

/// Within an attempt the counter never goes back, and the total stays:
/// only the server's answer to a new request sets them anew.
pub proof fn counter_never_goes_back(task: DownloadTask, event: Event)
    requires
        task.wf(),
        !(task.phase is Requested),
    ensures
        task.next(event).0.dl_info.progress.bytes_read >= task.dl_info.progress.bytes_read,
        task.next(event).0.dl_info.progress.size == task.dl_info.progress.size,
        task.toggled().0.dl_info.progress == task.dl_info.progress,
{
}

/// Every change of state is saved: the answer to an event or to a toggle
/// that changes the state asks to save the record, but where the task
/// becomes `Done`, whose sidecar is gone by then. A toggle that changes
/// nothing saves nothing.
pub proof fn state_changes_are_saved(task: DownloadTask, event: Event)
    requires
        task.wf(),
    ensures
        task.next(event).0.dl_info.state != task.dl_info.state ==> task.next(event).1.persist || task.next(
            event,
        ).0.dl_info.state == DownloadState::Done,
        task.toggled().0.dl_info.state != task.dl_info.state ==> task.toggled().1.persist,
        task.toggled().0 == task ==> !task.toggled().1.persist,
{
}

/// Nothing is renamed or removed before the body has ended and its bytes
/// are flushed: the file is renamed only in answer to a flush that
/// succeeded after the end of the body, the sidecar is removed only in
/// answer to that rename, and the file is recorded only after both.
pub proof fn destructive_steps_follow_the_flush(task: DownloadTask, event: Event)
    requires
        task.wf(),
    ensures
        task.next(event).1.action == Action::Rename ==> task.phase is Flushing && event == Event::Flushed(true),
        task.next(event).1.action == Action::RemoveSidecar ==> task.phase is Renaming && event == Event::Renamed(
            true,
        ),
        task.next(event).1.action == Action::Record ==> task.phase is Unlinking && event
            == Event::SidecarRemoved(true),
        task.next(event).0.phase is Flushing ==> (task.phase is Flushing || (task.phase is Streaming && event
            == Event::StreamEnded)),
{
}

/// What was buffered is flushed before a failure of the body surfaces: a
/// failed transport, a body that ended short and a chunk beyond the total
/// are reported only in answer to the flush that followed them.
pub proof fn body_failures_follow_the_flush(task: DownloadTask, event: Event)
    requires
        task.wf(),
    ensures
        (task.next(event).1.fault == Some(Fault::Transport) || task.next(event).1.fault == Some(Fault::Overrun))
            ==> task.phase is Draining && event == Event::Flushed(true),
        task.phase is Streaming && (event == Event::StreamFailed || (event is Chunk
            && !task.dl_info.progress.admits(event->Chunk_0)) || (event == Event::StreamEnded
            && !task.dl_info.progress.is_complete())) ==> {
            &&& task.next(event).1.action == Action::Flush
            &&& task.next(event).1.fault is None
            &&& task.next(event).0.dl_info == task.dl_info
        },
{
}

} // verus!
