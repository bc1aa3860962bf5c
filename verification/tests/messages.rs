use dmodman::messages::{fault_message, queue_message, refusal_message};
use dmodman::registry::QueueError;
use dmodman::task::{Fault, Refusal};

#[test]
fn fault_messages_name_the_file() {
    assert_eq!(
        fault_message(Fault::Unreachable, "mod.zip", "dns error"),
        "Unable to contact nexus server to start download."
    );
    assert_eq!(
        fault_message(Fault::Overrun, "mod.zip", ""),
        "Download mod.zip got more bytes than the server announced."
    );
    assert_eq!(
        fault_message(Fault::Expired, "mod.zip", ""),
        "Download link for mod.zip expired, please download again."
    );
    assert_eq!(
        fault_message(Fault::Rename, "mod.zip", ""),
        "Download of mod.zip complete, but unable to remove .part extension."
    );
    assert_eq!(
        fault_message(Fault::RemoveSidecar, "mod.zip", ""),
        "Unable to remove .part.json file after download is complete: mod.zip.part.json"
    );
}

#[test]
fn fault_messages_carry_the_cause() {
    assert_eq!(
        fault_message(Fault::Directory, "mod.zip", "permission denied"),
        "Error when creating download directory: permission denied"
    );
    assert_eq!(fault_message(Fault::Directory, "mod.zip", ""), "Error when creating download directory.");
    assert_eq!(
        fault_message(Fault::Transport, "mod.zip", "connection reset"),
        "Error during download of mod.zip: connection reset"
    );
    assert_eq!(fault_message(Fault::Transport, "mod.zip", ""), "Error during download of mod.zip.");
    assert_eq!(
        fault_message(Fault::Open, "mod.zip", "no such file"),
        "Unable to open mod.zip for writing: no such file"
    );
    assert_eq!(fault_message(Fault::Open, "mod.zip", ""), "Unable to open mod.zip for writing.");
    assert_eq!(
        fault_message(Fault::Write, "mod.zip", "disk full"),
        "IO error when writing bytes to disk: disk full"
    );
    assert_eq!(fault_message(Fault::Write, "mod.zip", ""), "IO error when writing bytes to disk.");
    assert_eq!(
        fault_message(Fault::Flush, "mod.zip", "disk full"),
        "IO error when flushing bytes to disk: disk full"
    );
    assert_eq!(fault_message(Fault::Flush, "mod.zip", ""), "IO error when flushing bytes to disk.");
}

#[test]
fn status_messages_tell_errors_from_surprises() {
    assert_eq!(
        fault_message(Fault::Status(404), "mod.zip", "Not Found"),
        "Download mod.zip failed with error: 404 Not Found"
    );
    assert_eq!(fault_message(Fault::Status(599), "mod.zip", ""), "Download mod.zip failed with error: 599");
    assert_eq!(
        fault_message(Fault::Status(204), "mod.zip", "No Content"),
        "Download mod.zip got unexpected HTTP response: 204 No Content. Please file a bug report."
    );
    assert_eq!(
        fault_message(Fault::Status(600), "mod.zip", ""),
        "Download mod.zip got unexpected HTTP response: 600. Please file a bug report."
    );
    assert_eq!(
        fault_message(Fault::Status(399), "mod.zip", ""),
        "Download mod.zip got unexpected HTTP response: 399. Please file a bug report."
    );
    assert_eq!(fault_message(Fault::Status(400), "", ""), "Download  failed with error: 400");
    assert_eq!(
        fault_message(Fault::Status(0), "", ""),
        "Download  got unexpected HTTP response: 0. Please file a bug report."
    );
}

#[test]
fn refusal_messages() {
    assert_eq!(
        refusal_message(Refusal::Directory, "mod.zip", "read-only file system"),
        Some("Error when creating download directory: read-only file system".to_string())
    );
    assert_eq!(
        refusal_message(Refusal::MissingMetadata, "mod.zip", ""),
        Some("mod.zip already exists but was missing its metadata.".to_string())
    );
    assert_eq!(
        refusal_message(Refusal::AlreadyDownloaded, "mod.zip", ""),
        Some("mod.zip already exists and won't be downloaded.".to_string())
    );
    assert_eq!(refusal_message(Refusal::InFlight, "mod.zip", ""), None);
    assert_eq!(refusal_message(Refusal::Finished, "mod.zip", ""), None);
}

#[test]
fn queue_messages() {
    assert_eq!(queue_message(QueueError::LinkParse), "Unable to parse the download link.");
    assert_eq!(queue_message(QueueError::Duplicate), "A download of that file is in progress already.");
}
