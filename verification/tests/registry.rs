use dmodman::cache::LocalFileCache;
use dmodman::model::{DownloadInfo, DownloadProgress, DownloadState, FileInfo};
use dmodman::registry::{Downloads, ParsedLink, QueueError, Sidecar};
use dmodman::task::{Action, Event, Probe, Refusal, WriteMode};

fn link(file_id: u64, name: &str) -> ParsedLink {
    ParsedLink {
        file_info: FileInfo::new(file_id, name.to_string(), 3, "skyrim".to_string(), None),
        url: format!("https://files.example/{}", name),
    }
}

fn sidecar(file_id: u64, name: &str, state: DownloadState, bytes_read: u64, size: Option<u64>, done: bool) -> Sidecar {
    let mut info = DownloadInfo::new(
        FileInfo::new(file_id, name.to_string(), 3, "skyrim".to_string(), None),
        format!("https://files.example/{}", name),
    );
    info.state = state;
    info.progress = DownloadProgress { bytes_read, size };
    Sidecar { info, final_indexed: done }
}

fn ids(downloads: &Downloads) -> Vec<u64> {
    (0..downloads.len()).map(|i| downloads.task(i).unwrap().dl_info.file_info.file_id).collect()
}

fn clear(part_size: Option<u64>) -> Probe {
    Probe { dir_ready: true, final_exists: false, indexed: false, part_size }
}

#[test]
fn queue_appends_downloading_task() {
    let mut downloads = Downloads::new();
    assert_eq!(downloads.len(), 0);
    assert!(!downloads.take_changed());
    assert_eq!(downloads.queue(Some(link(1, "a.zip"))), Ok(0));
    assert_eq!(downloads.queue(Some(link(2, "b.zip"))), Ok(1));
    assert_eq!(ids(&downloads), vec![1, 2]);
    let task = downloads.task(1).unwrap();
    assert_eq!(task.dl_info.get_state(), DownloadState::Downloading);
    assert_eq!(task.dl_info.progress, DownloadProgress { bytes_read: 0, size: None });
    assert_eq!(task.dl_info.url, "https://files.example/b.zip");
    assert!(!task.is_running());
    assert!(downloads.take_changed());
    assert!(!downloads.take_changed());
}

#[test]
fn queue_refuses_malformed_link() {
    let mut downloads = Downloads::new();
    assert_eq!(downloads.queue(None), Err(QueueError::LinkParse));
    assert_eq!(downloads.len(), 0);
    assert!(!downloads.take_changed());
}

#[test]
fn queue_refuses_duplicate() {
    let mut downloads = Downloads::new();
    assert_eq!(downloads.queue(Some(link(1, "a.zip"))), Ok(0));
    downloads.take_changed();
    assert_eq!(downloads.queue(Some(link(1, "other.zip"))), Err(QueueError::Duplicate));
    assert_eq!(downloads.len(), 1);
    assert_eq!(downloads.task(0).unwrap().dl_info.file_info.file_name, "a.zip");
    assert!(!downloads.take_changed());
}

#[test]
fn delete_removes_only_the_addressed_entry() {
    let mut downloads = Downloads::new();
    for (id, name) in [(1, "a.zip"), (2, "b.zip"), (3, "c.zip"), (4, "d.zip")] {
        assert!(downloads.queue(Some(link(id, name))).is_ok());
    }
    downloads.take_changed();
    let removed = downloads.delete(1).unwrap();
    assert_eq!(removed.task.dl_info.file_info.file_id, 2);
    assert!(!removed.abort);
    assert_eq!(removed.part_file, "b.zip.part");
    assert_eq!(removed.sidecar_file, "b.zip.part.json");
    assert_eq!(ids(&downloads), vec![1, 3, 4]);
    assert!(downloads.take_changed());
    assert!(downloads.delete(2).is_some());
    assert_eq!(ids(&downloads), vec![1, 3]);
    assert!(downloads.delete(0).is_some());
    assert_eq!(ids(&downloads), vec![3]);
}

#[test]
fn delete_out_of_range_changes_nothing() {
    let mut downloads = Downloads::new();
    assert!(downloads.queue(Some(link(1, "a.zip"))).is_ok());
    downloads.take_changed();
    assert!(downloads.delete(1).is_none());
    assert_eq!(ids(&downloads), vec![1]);
    assert!(!downloads.take_changed());
}

#[test]
fn delete_cancels_attempt_in_flight() {
    let mut downloads = Downloads::new();
    assert!(downloads.queue(Some(link(1, "a.zip"))).is_ok());
    assert!(downloads.try_start_for(0, clear(None)).unwrap().is_ok());
    let removed = downloads.delete(0).unwrap();
    assert!(removed.abort);
    assert!(!removed.task.is_running());
    assert_eq!(downloads.len(), 0);
    assert_eq!(downloads.queue(Some(link(1, "a.zip"))), Ok(0));
}

#[test]
fn toggle_pause_for_addresses_by_position() {
    let mut downloads = Downloads::new();
    assert!(downloads.queue(Some(link(1, "a.zip"))).is_ok());
    assert!(downloads.queue(Some(link(2, "b.zip"))).is_ok());
    let step = downloads.toggle_pause_for(1).unwrap();
    assert_eq!(step.action, Action::Nothing);
    assert!(step.persist);
    assert_eq!(downloads.task(0).unwrap().dl_info.get_state(), DownloadState::Downloading);
    assert_eq!(downloads.task(1).unwrap().dl_info.get_state(), DownloadState::Paused);
    let step = downloads.toggle_pause_for(1).unwrap();
    assert_eq!(step.action, Action::Probe);
    assert_eq!(downloads.task(1).unwrap().dl_info.get_state(), DownloadState::Downloading);
}

#[test]
fn toggle_pause_for_out_of_range_is_silent() {
    let mut downloads = Downloads::new();
    assert!(downloads.queue(Some(link(1, "a.zip"))).is_ok());
    downloads.take_changed();
    assert!(downloads.toggle_pause_for(1).is_none());
    assert!(downloads.toggle_pause_for(usize::MAX).is_none());
    assert_eq!(downloads.task(0).unwrap().dl_info.get_state(), DownloadState::Downloading);
    assert!(!downloads.take_changed());
}

#[test]
fn try_start_for_out_of_range() {
    let mut downloads = Downloads::new();
    assert!(downloads.try_start_for(0, clear(None)).is_none());
}

#[test]
fn advance_addresses_by_file() {
    let mut downloads = Downloads::new();
    assert!(downloads.queue(Some(link(1, "a.zip"))).is_ok());
    assert!(downloads.queue(Some(link(2, "b.zip"))).is_ok());
    assert!(downloads.try_start_for(1, clear(None)).unwrap().is_ok());
    downloads.take_changed();
    assert!(downloads.advance(9, Event::Unreachable).is_none());
    let step = downloads.advance(2, Event::Status { code: 200, content_length: Some(10) }).unwrap();
    assert_eq!(step.action, Action::Open(WriteMode::Truncate));
    assert!(!downloads.take_changed());
    assert_eq!(downloads.advance(2, Event::Opened(true)).unwrap().action, Action::Stream);
    assert_eq!(downloads.advance(2, Event::Chunk(10)).unwrap().action, Action::Write);
    assert!(downloads.take_changed());
    assert_eq!(downloads.task(1).unwrap().dl_info.progress.bytes_read, 10);
    assert_eq!(downloads.task(0).unwrap().dl_info.progress.bytes_read, 0);
    assert_eq!(downloads.position(2), Some(1));
    assert_eq!(downloads.position(9), None);
}

#[test]
fn resume_on_startup_rebuilds_in_order() {
    let mut downloads = Downloads::new();
    let records = vec![
        sidecar(1, "a.zip", DownloadState::Downloading, 5, Some(10), false),
        sidecar(2, "b.zip", DownloadState::Paused, 5, Some(10), false),
        sidecar(3, "c.zip", DownloadState::Downloading, 5, Some(10), true),
        sidecar(4, "d.zip", DownloadState::Error, 0, None, false),
        sidecar(5, "e.zip", DownloadState::Expired, 0, None, false),
        sidecar(1, "again.zip", DownloadState::Downloading, 0, None, false),
        sidecar(6, "f.zip", DownloadState::Downloading, 50, Some(10), false),
    ];
    let restart = downloads.resume_on_startup(&records);
    assert_eq!(ids(&downloads), vec![1, 2, 4, 5, 6]);
    assert_eq!(restart, vec![0, 4]);
    let states: Vec<DownloadState> = (0..5).map(|i| downloads.task(i).unwrap().dl_info.get_state()).collect();
    assert_eq!(
        states,
        vec![
            DownloadState::Downloading,
            DownloadState::Paused,
            DownloadState::Error,
            DownloadState::Expired,
            DownloadState::Downloading
        ]
    );
    for i in 0..5 {
        assert!(!downloads.task(i).unwrap().is_running());
    }
    assert_eq!(downloads.task(0).unwrap().dl_info.file_info.file_name, "a.zip");
    assert_eq!(downloads.task(0).unwrap().dl_info.progress, DownloadProgress { bytes_read: 5, size: Some(10) });
    assert_eq!(downloads.task(4).unwrap().dl_info.progress, DownloadProgress { bytes_read: 50, size: None });
}

#[test]
fn resume_on_startup_keeps_tasks_that_are_there() {
    let mut downloads = Downloads::new();
    assert!(downloads.queue(Some(link(2, "b.zip"))).is_ok());
    let records = vec![
        sidecar(2, "b.zip", DownloadState::Paused, 5, Some(10), false),
        sidecar(7, "g.zip", DownloadState::Downloading, 0, None, false),
    ];
    let restart = downloads.resume_on_startup(&records);
    assert_eq!(ids(&downloads), vec![2, 7]);
    assert_eq!(restart, vec![1]);
    assert_eq!(downloads.task(0).unwrap().dl_info.get_state(), DownloadState::Downloading);
}

#[test]
fn update_metadata_writes_record_into_index() {
    let mut downloads = Downloads::new();
    let mut cache = LocalFileCache::empty();
    let info = FileInfo::new(7, "mod.zip".to_string(), 3, "skyrim".to_string(), Some("1.0".to_string()));
    let record = downloads.update_metadata(&mut cache, &info);
    assert_eq!(record.file_id, 7);
    assert_eq!(record.file_name, "mod.zip");
    assert_eq!(record.game, "skyrim");
    assert_eq!(record.mod_id, 3);
    assert_eq!(cache.get(7).unwrap().file_name, "mod.zip");
    assert!(downloads.take_changed());
    assert_eq!(downloads.len(), 0);
}

#[test]
fn complete_file_without_record_is_reconciled_not_downloaded() {
    let mut downloads = Downloads::new();
    let mut cache = LocalFileCache::empty();
    let at = downloads.queue(Some(link(7, "mod.zip"))).unwrap();
    let probe = Probe { dir_ready: true, final_exists: true, indexed: cache.contains(7), part_size: None };
    let outcome = downloads.try_start_for(at, probe).unwrap();
    assert_eq!(outcome.unwrap_err(), Refusal::MissingMetadata);
    assert!(!downloads.task(at).unwrap().is_running());
    let info = downloads.task(at).unwrap().dl_info.file_info.duplicate();
    downloads.update_metadata(&mut cache, &info);
    assert_eq!(cache.get(7).unwrap().file_name, "mod.zip");
    let probe = Probe { dir_ready: true, final_exists: true, indexed: cache.contains(7), part_size: None };
    assert_eq!(downloads.try_start_for(at, probe).unwrap().unwrap_err(), Refusal::AlreadyDownloaded);
}

#[test]
fn paused_partial_download_resumes_to_exact_size() {
    let mut downloads = Downloads::new();
    let records = vec![sidecar(7, "mod.zip", DownloadState::Paused, 500, Some(1000), false)];
    let restart = downloads.resume_on_startup(&records);
    assert!(restart.is_empty());
    assert_eq!(downloads.toggle_pause_for(0).unwrap().action, Action::Probe);
    let request = downloads.try_start_for(0, clear(Some(500))).unwrap().unwrap();
    assert_eq!(request.range, Some("bytes=500-".to_string()));
    let step = downloads.advance(7, Event::Status { code: 206, content_length: Some(500) }).unwrap();
    assert_eq!(step.action, Action::Open(WriteMode::Append));
    assert_eq!(downloads.advance(7, Event::Opened(true)).unwrap().action, Action::Stream);
    assert_eq!(downloads.advance(7, Event::Chunk(200)).unwrap().action, Action::Write);
    assert_eq!(downloads.advance(7, Event::Chunk(300)).unwrap().action, Action::Write);
    assert_eq!(downloads.advance(7, Event::StreamEnded).unwrap().action, Action::Flush);
    assert_eq!(downloads.advance(7, Event::Flushed(true)).unwrap().action, Action::Rename);
    assert_eq!(downloads.advance(7, Event::Renamed(true)).unwrap().action, Action::RemoveSidecar);
    assert_eq!(downloads.advance(7, Event::SidecarRemoved(true)).unwrap().action, Action::Record);
    let task = downloads.task(0).unwrap();
    assert_eq!(task.dl_info.get_state(), DownloadState::Done);
    assert_eq!(task.dl_info.progress, DownloadProgress { bytes_read: 1000, size: Some(1000) });
}

#[test]
fn downloading_partial_download_restarts_on_startup() {
    let mut downloads = Downloads::new();
    let records = vec![sidecar(7, "mod.zip", DownloadState::Downloading, 500, Some(1000), false)];
    let restart = downloads.resume_on_startup(&records);
    assert_eq!(restart, vec![0]);
    let request = downloads.try_start_for(0, clear(Some(500))).unwrap().unwrap();
    assert_eq!(request.offset, Some(500));
    assert_eq!(request.range, Some("bytes=500-".to_string()));
}

#[test]
fn link_for_inactive_task_takes_its_place() {
    for state in [DownloadState::Paused, DownloadState::Error, DownloadState::Expired, DownloadState::Done] {
        let mut downloads = Downloads::new();
        let records = vec![
            sidecar(1, "a.zip", DownloadState::Paused, 0, None, false),
            sidecar(2, "b.zip", state, 5, Some(10), false),
            sidecar(3, "c.zip", DownloadState::Paused, 0, None, false),
        ];
        downloads.resume_on_startup(&records);
        downloads.take_changed();
        assert_eq!(downloads.queue(Some(link(2, "fresh.zip"))), Ok(2));
        assert_eq!(ids(&downloads), vec![1, 3, 2]);
        let task = downloads.task(2).unwrap();
        assert_eq!(task.dl_info.get_state(), DownloadState::Downloading);
        assert_eq!(task.dl_info.file_info.file_name, "fresh.zip");
        assert_eq!(task.dl_info.url, "https://files.example/fresh.zip");
        assert_eq!(task.dl_info.progress, DownloadProgress { bytes_read: 0, size: None });
        assert!(!task.is_running());
        assert!(downloads.take_changed());
    }
}

#[test]
fn link_for_expired_task_is_queued_anew() {
    let mut downloads = Downloads::new();
    assert_eq!(downloads.queue(Some(link(7, "mod.zip"))), Ok(0));
    assert!(downloads.try_start_for(0, clear(None)).unwrap().is_ok());
    downloads.advance(7, Event::Status { code: 410, content_length: None }).unwrap();
    assert_eq!(downloads.task(0).unwrap().dl_info.get_state(), DownloadState::Expired);
    let step = downloads.toggle_pause_for(0).unwrap();
    assert_eq!(step.action, Action::Nothing);
    assert!(!step.persist);
    assert_eq!(downloads.queue(Some(link(7, "mod.zip"))), Ok(0));
    assert_eq!(downloads.len(), 1);
    assert_eq!(downloads.task(0).unwrap().dl_info.get_state(), DownloadState::Downloading);
    assert_eq!(downloads.queue(Some(link(7, "mod.zip"))), Err(QueueError::Duplicate));
}

#[test]
fn link_for_task_in_flight_is_a_duplicate() {
    let mut downloads = Downloads::new();
    assert_eq!(downloads.queue(Some(link(7, "mod.zip"))), Ok(0));
    assert!(downloads.try_start_for(0, clear(None)).unwrap().is_ok());
    assert_eq!(downloads.queue(Some(link(7, "mod.zip"))), Err(QueueError::Duplicate));
    assert!(downloads.task(0).unwrap().is_running());
}
