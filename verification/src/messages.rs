//! What the user is told when a transfer fails or is not started.

use vstd::prelude::*;
use crate::names::{append_decimal, decimal, sidecar_text};
use crate::registry::QueueError;
use crate::task::{Fault, Refusal};

verus! {

/// Whether the status is a client's or a server's error.
pub open spec fn is_error_status(code: u16) -> bool {
    400 <= code < 600
}

/// `base` with the cause of the failure behind it, where one is known.
pub open spec fn explained(base: Seq<char>, cause: Seq<char>) -> Seq<char> {
    if cause.len() == 0 {
        base + "."@
    } else {
        base + ": "@ + cause
    }
}

/// A status as the user reads it: the number and, where it has one, its
/// reason phrase.
pub open spec fn status_text(code: u16, reason: Seq<char>) -> Seq<char> {
    if reason.len() == 0 {
        decimal(code as nat)
    } else {
        decimal(code as nat) + " "@ + reason
    }
}

/// The message for `fault` in the transfer of the file `name`. `cause` is
/// what the system said of the failure, or for a status its reason phrase;
/// it may be empty.
pub open spec fn fault_text(fault: Fault, name: Seq<char>, cause: Seq<char>) -> Seq<char> {
    match fault {
        Fault::Directory => explained("Error when creating download directory"@, cause),
        Fault::Unreachable => "Unable to contact nexus server to start download."@,
        Fault::Transport => explained("Error during download of "@ + name, cause),
        Fault::Status(code) => if is_error_status(code) {
            "Download "@ + name + " failed with error: "@ + status_text(code, cause)
        } else {
            "Download "@ + name + " got unexpected HTTP response: "@ + status_text(code, cause)
                + ". Please file a bug report."@
        },
        Fault::Overrun => "Download "@ + name + " got more bytes than the server announced."@,
        Fault::Expired => "Download link for "@ + name + " expired, please download again."@,
        Fault::Open => explained("Unable to open "@ + name + " for writing"@, cause),
        Fault::Write => explained("IO error when writing bytes to disk"@, cause),
        Fault::Flush => explained("IO error when flushing bytes to disk"@, cause),
        Fault::Rename => "Download of "@ + name + " complete, but unable to remove .part extension."@,
        Fault::RemoveSidecar => "Unable to remove .part.json file after download is complete: "@ + sidecar_text(
            name,
        ),
    }
}

/// The message for a start that was refused, where the user is told.
pub open spec fn refusal_text(refusal: Refusal, name: Seq<char>, cause: Seq<char>) -> Option<Seq<char>> {
    match refusal {
        Refusal::Directory => Some(fault_text(Fault::Directory, name, cause)),
        Refusal::MissingMetadata => Some(name + " already exists but was missing its metadata."@),
        Refusal::AlreadyDownloaded => Some(name + " already exists and won't be downloaded."@),
        Refusal::InFlight | Refusal::Finished => None,
    }
}

fn framed(before: &str, name: &str, after: &str) -> (r: String)
    ensures
        r@ == before@ + name@ + after@,
{
    let mut text = String::from_str(before);
    text.append(name);
    text.append(after);
    text
}

fn explain(base: String, cause: &str) -> (r: String)
    ensures
        r@ == explained(base@, cause@),
{
    if cause.unicode_len() == 0 {
        base.concat(".")
    } else {
        base.concat(": ").concat(cause)
    }
}

fn framed_status(before: &str, name: &str, between: &str, code: u16, reason: &str) -> (r: String)
    ensures
        r@ == before@ + name@ + between@ + status_text(code, reason@),
{
    let mut text = framed(before, name, between);
    let ghost head = text@;
    append_decimal(&mut text, code as u64);
    if reason.unicode_len() != 0 {
        text.append(" ");
        text.append(reason);
        proof {
            assert(text@ =~= head + status_text(code, reason@));
        }
    }
    text
}

/// The message for `fault` in the transfer of the file `file_name`, with
/// the cause of the failure where one is known.
pub fn fault_message(fault: Fault, file_name: &str, cause: &str) -> (r: String)
    ensures
        r@ == fault_text(fault, file_name@, cause@),
{
    match fault {
        Fault::Directory => explain(String::from_str("Error when creating download directory"), cause),
        Fault::Unreachable => String::from_str("Unable to contact nexus server to start download."),
        Fault::Transport => explain(String::from_str("Error during download of ").concat(file_name), cause),
        Fault::Status(code) => if 400 <= code && code < 600 {
            framed_status("Download ", file_name, " failed with error: ", code, cause)
        } else {
            framed_status("Download ", file_name, " got unexpected HTTP response: ", code, cause).concat(
                ". Please file a bug report.",
            )
        },
        Fault::Overrun => framed("Download ", file_name, " got more bytes than the server announced."),
        Fault::Expired => framed("Download link for ", file_name, " expired, please download again."),
        Fault::Open => explain(framed("Unable to open ", file_name, " for writing"), cause),
        Fault::Write => explain(String::from_str("IO error when writing bytes to disk"), cause),
        Fault::Flush => explain(String::from_str("IO error when flushing bytes to disk"), cause),
        Fault::Rename => framed("Download of ", file_name, " complete, but unable to remove .part extension."),
        Fault::RemoveSidecar => {
            let text = framed(
                "Unable to remove .part.json file after download is complete: ",
                file_name,
                ".part.json",
            );
            proof {
                assert(text@ =~= fault_text(fault, file_name@, cause@));
            }
            text
        },
    }
}

/// The message for a start that was refused, where the user is told.
pub fn refusal_message(refusal: Refusal, file_name: &str, cause: &str) -> (r: Option<String>)
    ensures
        match r {
            Some(text) => refusal_text(refusal, file_name@, cause@) == Some(text@),
            None => refusal_text(refusal, file_name@, cause@) is None,
        },
{
    match refusal {
        Refusal::Directory => Some(fault_message(Fault::Directory, file_name, cause)),
        Refusal::MissingMetadata => Some(
            String::from_str(file_name).concat(" already exists but was missing its metadata."),
        ),
        Refusal::AlreadyDownloaded => Some(
            String::from_str(file_name).concat(" already exists and won't be downloaded."),
        ),
        Refusal::InFlight | Refusal::Finished => None,
    }
}

/// The message for a link that was not queued.
pub open spec fn queue_text(error: QueueError) -> Seq<char> {
    match error {
        QueueError::LinkParse => "Unable to parse the download link."@,
        QueueError::Duplicate => "A download of that file is in progress already."@,
    }
}

/// The message for a link that was not queued.
pub fn queue_message(error: QueueError) -> (r: String)
    ensures
        r@ == queue_text(error),
{
    match error {
        QueueError::LinkParse => String::from_str("Unable to parse the download link."),
        QueueError::Duplicate => String::from_str("A download of that file is in progress already."),
    }
}

} // verus!
