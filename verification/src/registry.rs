//! The registry of transfers: an ordered collection of tasks, addressed by
//! position as the user sees it, with at most one task per file identifier.

use vstd::prelude::*;
use crate::cache::LocalFileCache;
use crate::model::{DownloadInfo, DownloadProgress, DownloadState, FileInfo, LocalFile};
use crate::names::{part_name, part_text, range_text, sidecar_name, sidecar_text};
use crate::task::{DownloadTask, Event, Phase, Probe, Refusal, Request, Step};

verus! {

/// Why a link was not queued.
#[derive(Clone, Copy, Debug, PartialEq, Eq, Structural)]
pub enum QueueError {
    /// The link is malformed: no task was created.
    LinkParse,
    /// The registry holds an active task for that file identifier.
    Duplicate,
}

/// What a link holds: the file and the URL to fetch it from.
#[derive(Debug)]
pub struct ParsedLink {
    pub file_info: FileInfo,
    pub url: String,
}

/// What `delete` took out.
pub struct Removed {
    /// The task, with no attempt in flight.
    pub task: DownloadTask,
    /// Whether an attempt was in flight and is to be cancelled.
    pub abort: bool,
    /// The name of the partial file, which is to be removed.
    pub part_file: String,
    /// The name of the metadata sidecar, which is to be removed.
    pub sidecar_file: String,
}

pub struct Downloads {
    tasks: Vec<DownloadTask>,
    has_changed: bool,
}

/// Whether one of `tasks` is for `file_id`.
pub open spec fn holds(tasks: Seq<DownloadTask>, file_id: u64) -> bool {
    exists|i: int| 0 <= i < tasks.len() && #[trigger] tasks[i].dl_info.file_info.file_id == file_id
}

/// Whether one of `tasks` is for `file_id` and is active, that is
/// `Downloading`.
pub open spec fn active(tasks: Seq<DownloadTask>, file_id: u64) -> bool {
    exists|i: int|
        0 <= i < tasks.len() && #[trigger] tasks[i].dl_info.file_info.file_id == file_id
            && tasks[i].dl_info.state == DownloadState::Downloading
}

/// Every task is well formed and no file identifier occurs twice.
pub open spec fn well_formed(tasks: Seq<DownloadTask>) -> bool {
    &&& forall|i: int| 0 <= i < tasks.len() ==> (#[trigger] tasks[i]).wf()
    &&& forall|i: int, j: int|
        0 <= i < j < tasks.len() ==> (#[trigger] tasks[i]).dl_info.file_info.file_id != (
        #[trigger] tasks[j]).dl_info.file_info.file_id
}

/// The task that a queued link starts as.
pub open spec fn fresh_task(link: ParsedLink) -> DownloadTask {
    DownloadTask {
        dl_info: DownloadInfo {
            file_info: link.file_info,
            url: link.url,
            state: DownloadState::Downloading,
            progress: DownloadProgress { bytes_read: 0, size: None },
        },
        phase: Phase::Idle,
    }
}

/// A sidecar record that a scan of the download directory found.
#[derive(Debug)]
pub struct Sidecar {
    /// The transfer as it was last saved.
    pub info: DownloadInfo,
    /// Whether the final file exists and the index of completed files
    /// holds it.
    pub final_indexed: bool,
}

/// Whether `record` is rebuilt beside `tasks`.
pub open spec fn restorable(tasks: Seq<DownloadTask>, record: Sidecar) -> bool {
    !record.final_indexed && !holds(tasks, record.info.file_info.file_id)
}

/// `tasks` after `record` was looked at: a record that is rebuilt stands
/// last, in its saved state and with no attempt in flight.
pub open spec fn restored_one(tasks: Seq<DownloadTask>, record: Sidecar) -> Seq<DownloadTask> {
    if restorable(tasks, record) {
        tasks.push(DownloadTask::built(record.info))
    } else {
        tasks
    }
}

/// `tasks` after each of `records` was looked at, in order.
pub open spec fn restored(tasks: Seq<DownloadTask>, records: Seq<Sidecar>) -> Seq<DownloadTask>
    decreases records.len(),
{
    if records.len() == 0 {
        tasks
    } else {
        restored(restored_one(tasks, records[0]), records.drop_first())
    }
}

/// The positions of the tasks rebuilt from `records` that were
/// `Downloading`, in order.
pub open spec fn restarts(tasks: Seq<DownloadTask>, records: Seq<Sidecar>) -> Seq<usize>
    decreases records.len(),
{
    if records.len() == 0 {
        Seq::empty()
    } else {
        let rest = restarts(restored_one(tasks, records[0]), records.drop_first());
        if restorable(tasks, records[0]) && records[0].info.state == DownloadState::Downloading {
            seq![tasks.len() as usize] + rest
        } else {
            rest
        }
    }
}

/// The record of the completed file that `file_info` describes.
pub open spec fn local_record(file_info: FileInfo) -> LocalFile {
    LocalFile {
        file_id: file_info.file_id,
        game: file_info.game,
        mod_id: file_info.mod_id,
        file_name: file_info.file_name,
    }
}

impl Downloads {
    /// The tasks in the order in which they were inserted.
    pub closed spec fn view(&self) -> Seq<DownloadTask> {
        self.tasks@
    }

    /// The flag that says that what the user sees has changed.
    pub closed spec fn dirty(&self) -> bool {
        self.has_changed
    }

    /// Every task is well formed and no file has two tasks.
    pub open spec fn wf(&self) -> bool {
        well_formed(self@)
    }

    /// A registry without tasks.
    pub fn new() -> (r: Self)
        ensures
            r@ == Seq::<DownloadTask>::empty(),
            !r.dirty(),
            r.wf(),
    {
        Downloads { tasks: Vec::new(), has_changed: false }
    }

    /// The number of tasks.
    pub fn len(&self) -> (r: usize)
        ensures
            r == self@.len(),
    {
        self.tasks.len()
    }

    /// The task at `index`, if there is one.
    pub fn task(&self, index: usize) -> (r: Option<&DownloadTask>)
        ensures
            match r {
                Some(task) => index < self@.len() && *task == self@[index as int],
                None => index >= self@.len(),
            },
    {
        if index < self.tasks.len() {
            Some(&self.tasks[index])
        } else {
            None
        }
    }

    /// Where the first task for `file_id` stands, if the registry holds
    /// one.
    pub fn position(&self, file_id: u64) -> (r: Option<usize>)
        ensures
            match r {
                Some(i) => {
                    &&& i < self@.len()
                    &&& self@[i as int].dl_info.file_info.file_id == file_id
                    &&& forall|k: int| 0 <= k < i ==> self@[k].dl_info.file_info.file_id != file_id
                },
                None => !holds(self@, file_id),
            },
    {
        let mut i: usize = 0;
        while i < self.tasks.len()
            invariant
                i <= self.tasks@.len(),
                forall|k: int| 0 <= k < i ==> self.tasks@[k].dl_info.file_info.file_id != file_id,
            decreases self.tasks@.len() - i,
        {
            if self.tasks[i].dl_info.file_info.file_id == file_id {
                return Some(i);
            }
            i = i + 1;
        }
        None
    }

    /// Reads and clears the flag.
    pub fn take_changed(&mut self) -> (r: bool)
        ensures
            r == old(self).dirty(),
            !final(self).dirty(),
            final(self)@ == old(self)@,
    {
        let r = self.has_changed;
        self.has_changed = false;
        r
    }

    /// Queues what a link was parsed to, or refuses it. A link for a file
    /// that is being downloaded is a duplicate. A link for a file whose
    /// task is not active (`Paused`, `Error`, `Expired` or `Done`) takes
    /// that task's place: the old task leaves, the others keep their order.
    /// The new task is `Downloading`, has received nothing and stands last;
    /// the result is its position, at which it is to be started.
    pub fn queue(&mut self, parsed: Option<ParsedLink>) -> (r: Result<usize, QueueError>)
        requires
            old(self).wf(),
        ensures
            final(self).wf(),
            match parsed {
                None => r == Err::<usize, QueueError>(QueueError::LinkParse),
                Some(link) => if active(old(self)@, link.file_info.file_id) {
                    r == Err::<usize, QueueError>(QueueError::Duplicate)
                } else if holds(old(self)@, link.file_info.file_id) {
                    &&& r == Ok::<usize, QueueError>((old(self)@.len() - 1) as usize)
                    &&& exists|i: int|
                        {
                            &&& 0 <= i < old(self)@.len()
                            &&& #[trigger] old(self)@[i].dl_info.file_info.file_id == link.file_info.file_id
                            &&& final(self)@ == old(self)@.remove(i).push(fresh_task(link))
                        }
                } else {
                    &&& r == Ok::<usize, QueueError>(old(self)@.len() as usize)
                    &&& final(self)@ == old(self)@.push(fresh_task(link))
                },
            },
            match r {
                Ok(at) => final(self).dirty() && at == final(self)@.len() - 1 && final(self)@[at as int]
                    == fresh_task(parsed->0),
                Err(_) => final(self)@ == old(self)@ && final(self).dirty() == old(self).dirty(),
            },
    {
        match parsed {
            None => Err(QueueError::LinkParse),
            Some(link) => {
                let ghost file_id = link.file_info.file_id;
                match self.position(link.file_info.file_id) {
                    Some(i) => {
                        let busy = match self.tasks[i].dl_info.state {
                            DownloadState::Downloading => true,
                            _ => false,
                        };
                        if busy {
                            return Err(QueueError::Duplicate);
                        }
                        let ghost before = self.tasks@;
                        self.tasks.remove(i);
                        let ghost rest = self.tasks@;
                        proof {
                            assert forall|k: int| 0 <= k < rest.len() implies (#[trigger] rest[k]).wf()
                                && rest[k].dl_info.file_info.file_id != file_id by {
                                if k < i {
                                    assert(rest[k] == before[k]);
                                } else {
                                    assert(rest[k] == before[k + 1]);
                                }
                            }
                            assert forall|a: int, b: int| 0 <= a < b < rest.len() implies (
                            #[trigger] rest[a]).dl_info.file_info.file_id != (
                            #[trigger] rest[b]).dl_info.file_info.file_id by {
                                let a0 = if a < i { a } else { a + 1 };
                                let b0 = if b < i { b } else { b + 1 };
                                assert(rest[a] == before[a0] && rest[b] == before[b0]);
                            }
                        }
                        let at = self.tasks.len();
                        self.tasks.push(DownloadTask::new(DownloadInfo::new(link.file_info, link.url)));
                        self.has_changed = true;
                        Ok(at)
                    },
                    None => {
                        let at = self.tasks.len();
                        self.tasks.push(DownloadTask::new(DownloadInfo::new(link.file_info, link.url)));
                        self.has_changed = true;
                        Ok(at)
                    },
                }
            },
        }
    }

    /// Pauses or resumes the task at `index`. An index out of range changes
    /// nothing.
    pub fn toggle_pause_for(&mut self, index: usize) -> (r: Option<Step>)
        requires
            old(self).wf(),
        ensures
            final(self).wf(),
            match r {
                Some(step) => {
                    &&& index < old(self)@.len()
                    &&& final(self)@ == old(self)@.update(index as int, old(self)@[index as int].toggled().0)
                    &&& step == old(self)@[index as int].toggled().1
                    &&& final(self).dirty()
                },
                None => {
                    &&& index >= old(self)@.len()
                    &&& final(self)@ == old(self)@
                    &&& final(self).dirty() == old(self).dirty()
                },
            },
    {
        if index >= self.tasks.len() {
            return None;
        }
        let step = self.tasks[index].toggle_pause();
        self.has_changed = true;
        Some(step)
    }
    /// Starts the task at `index` on what a probe of the disk found. An index
    /// out of range changes nothing.
    pub fn try_start_for(&mut self, index: usize, probe: Probe) -> (r: Option<Result<Request, Refusal>>)
        requires
            old(self).wf(),
        ensures
            final(self).wf(),
            match r {
                Some(outcome) => {
                    &&& index < old(self)@.len()
                    &&& final(self)@ == old(self)@.update(index as int, old(self)@[index as int].started(probe))
                    &&& final(self).dirty()
                    &&& match outcome {
                        Ok(request) => {
                            &&& old(self)@[index as int].refusal(probe) is None
                            &&& request.offset == probe.part_size
                            &&& match request.range {
                                Some(value) => probe.part_size is Some && value@ == range_text(probe.part_size->0),
                                None => probe.part_size is None,
                            }
                        },
                        Err(why) => old(self)@[index as int].refusal(probe) == Some(why),
                    }
                },
                None => {
                    &&& index >= old(self)@.len()
                    &&& final(self)@ == old(self)@
                    &&& final(self).dirty() == old(self).dirty()
                },
            },
    {
        if index >= self.tasks.len() {
            return None;
        }
        let outcome = self.tasks[index].try_start(probe);
        self.has_changed = true;
        Some(outcome)
    }

    /// Hands `event` to the task for `file_id`. Without such a task nothing
    /// changes.
    pub fn advance(&mut self, file_id: u64, event: Event) -> (r: Option<Step>)
        requires
            old(self).wf(),
        ensures
            final(self).wf(),
            r is Some <==> holds(old(self)@, file_id),
            match r {
                Some(step) => exists|i: int|
                    {
                        &&& 0 <= i < old(self)@.len()
                        &&& #[trigger] old(self)@[i].dl_info.file_info.file_id == file_id
                        &&& final(self)@ == old(self)@.update(i, old(self)@[i].next(event).0)
                        &&& step == old(self)@[i].next(event).1
                        &&& final(self).dirty() == (old(self).dirty() || step.changed)
                    },
                None => final(self)@ == old(self)@ && final(self).dirty() == old(self).dirty(),
            },
    {
        match self.position(file_id) {
            None => None,
            Some(i) => {
                let step = self.tasks[i].advance(event);
                if step.changed {
                    self.has_changed = true;
                }
                proof {
                    DownloadTask::next_keeps_file(old(self)@[i as int], event);
                }
                Some(step)
            },
        }
    }

    /// Takes the task at `index` out of the registry and ends its attempt.
    /// The tasks before it and behind it stay, in their order. The result
    /// holds the task, stopped, says whether an attempt is to be cancelled,
    /// and names the partial file and the sidecar, which are to be removed;
    /// the final file is not. An index out of range changes nothing.
    pub fn delete(&mut self, index: usize) -> (r: Option<Removed>)
        requires
            old(self).wf(),
        ensures
            final(self).wf(),
            match r {
                Some(removed) => {
                    &&& index < old(self)@.len()
                    &&& final(self)@ == old(self)@.remove(index as int)
                    &&& removed.abort == old(self)@[index as int].in_flight()
                    &&& removed.task == (DownloadTask { phase: Phase::Idle, ..old(self)@[index as int] })
                    &&& removed.part_file@ == part_text(removed.task.dl_info.file_info.file_name@)
                    &&& removed.sidecar_file@ == sidecar_text(removed.task.dl_info.file_info.file_name@)
                    &&& final(self).dirty()
                },
                None => {
                    &&& index >= old(self)@.len()
                    &&& final(self)@ == old(self)@
                    &&& final(self).dirty() == old(self).dirty()
                },
            },
    {
        if index >= self.tasks.len() {
            return None;
        }
        let mut task = self.tasks.remove(index);
        let abort = task.stop();
        let part_file = part_name(task.dl_info.file_info.file_name.as_str());
        let sidecar_file = sidecar_name(task.dl_info.file_info.file_name.as_str());
        self.has_changed = true;
        Some(Removed { task, abort, part_file, sidecar_file })
    }

    /// Rebuilds the tasks of the sidecar records that a scan found, in the
    /// order of the scan, each in the state that its record holds and with
    /// no attempt in flight. A record whose final file exists and is
    /// indexed is left out, and so is one for a file that the registry
    /// holds already. The result lists the positions of the rebuilt tasks
    /// that were `Downloading`: they are to be started again; the others
    /// wait for the user. The flag is set where a task was rebuilt.
    pub fn resume_on_startup(&mut self, records: &Vec<Sidecar>) -> (r: Vec<usize>)
        requires
            old(self).wf(),
        ensures
            final(self).wf(),
            final(self)@ == restored(old(self)@, records@),
            r@ == restarts(old(self)@, records@),
            final(self).dirty() == (old(self).dirty() || final(self)@.len() > old(self)@.len()),
    {
        let mut out: Vec<usize> = Vec::new();
        let mut i: usize = 0;
        proof {
            assert(records@.skip(0) =~= records@);
            assert(out@ + restarts(self@, records@) =~= restarts(self@, records@));
        }
        while i < records.len()
            invariant
                i <= records@.len(),
                self.wf(),
                restored(old(self)@, records@) == restored(self@, records@.skip(i as int)),
                restarts(old(self)@, records@) == out@ + restarts(self@, records@.skip(i as int)),
                self@.len() >= old(self)@.len(),
                self.dirty() == (old(self).dirty() || self@.len() > old(self)@.len()),
            decreases records@.len() - i,
        {
            let ghost before = self@;
            let ghost rest = records@.skip(i as int);
            let ghost listed = out@;
            proof {
                assert(rest[0] == records@[i as int]);
                assert(rest.drop_first() =~= records@.skip(i + 1));
            }
            let record = &records[i];
            if !record.final_indexed && self.position(record.info.file_info.file_id).is_none() {
                let info = record.info.duplicate();
                let restart = match info.state {
                    DownloadState::Downloading => true,
                    _ => false,
                };
                if restart {
                    out.push(self.tasks.len());
                }
                self.tasks.push(DownloadTask::new(info));
                self.has_changed = true;
                proof {
                    assert(self@ == before.push(DownloadTask::built(records@[i as int].info)));
                    assert(out@ + restarts(self@, records@.skip(i + 1)) =~= listed + restarts(before, rest));
                }
            }
            i = i + 1;
        }
        proof {
            assert(records@.skip(i as int) =~= Seq::<Sidecar>::empty());
        }
        out
    }

    /// Writes the record of a completed file, or of one that was found on
    /// disk without its record, into the index. The result is that record,
    /// to be saved beside the file.
    pub fn update_metadata(&mut self, cache: &mut LocalFileCache, file_info: &FileInfo) -> (r: LocalFile)
        requires
            old(cache).wf(),
        ensures
            final(cache).wf(),
            r == local_record(*file_info),
            final(cache)@ == old(cache)@.insert(file_info.file_id, r),
            final(self)@ == old(self)@,
            final(self).dirty(),
    {
        cache.push(LocalFile::new(file_info));
        self.has_changed = true;
        LocalFile::new(file_info)
    }
}

} // verus!
