//! The records that describe a transfer and a completed file.

use vstd::prelude::*;

verus! {

/// Where a transfer stands.
#[derive(Clone, Copy, Debug, PartialEq, Eq, Structural)]
pub enum DownloadState {
    Downloading,
    Paused,
    Error,
    Expired,
    Done,
}

impl DownloadState {
    /// `Expired` and `Done` end a transfer's normal operation.
    pub open spec fn is_terminal(self) -> bool {
        self == DownloadState::Expired || self == DownloadState::Done
    }

    /// Whether the state ends the transfer's normal operation.
    pub fn terminal(self) -> (r: bool)
        ensures
            r == self.is_terminal(),
    {
        match self {
            DownloadState::Expired | DownloadState::Done => true,
            _ => false,
        }
    }
}

/// What is known of a remote file. The file identifier is its identity.
#[derive(Debug)]
pub struct FileInfo {
    pub file_id: u64,
    pub file_name: String,
    pub mod_id: u32,
    pub game: String,
    pub version: Option<String>,
}

impl FileInfo {
    /// The descriptor of the file `file_id`.
    pub fn new(file_id: u64, file_name: String, mod_id: u32, game: String, version: Option<String>) -> (r: Self)
        ensures
            r == (FileInfo { file_id, file_name, mod_id, game, version }),
    {
        FileInfo { file_id, file_name, mod_id, game, version }
    }

    /// An equal copy.
    pub fn duplicate(&self) -> (r: Self)
        ensures
            r == *self,
    {
        let version = match &self.version {
            Some(v) => Some(v.clone()),
            None => None,
        };
        FileInfo {
            file_id: self.file_id,
            file_name: self.file_name.clone(),
            mod_id: self.mod_id,
            game: self.game.clone(),
            version,
        }
    }
}

/// Bytes received so far and, once the server has told it, the total size.
#[derive(Clone, Copy, Debug, PartialEq, Eq, Structural)]
pub struct DownloadProgress {
    pub bytes_read: u64,
    pub size: Option<u64>,
}

impl DownloadProgress {
    /// The bytes received never exceed a known total.
    pub open spec fn wf(self) -> bool {
        self.size matches Some(total) ==> self.bytes_read <= total
    }

    /// Whether `len` more bytes still fit: the counter stays a `u64` and
    /// within a known total.
    pub open spec fn admits(self, len: u64) -> bool {
        &&& self.bytes_read + len <= u64::MAX
        &&& self.size matches Some(total) ==> self.bytes_read + len <= total
    }

    /// Whether everything that the server announced has arrived. Nothing
    /// is missing of an unknown total.
    pub open spec fn is_complete(self) -> bool {
        self.size matches Some(total) ==> self.bytes_read == total
    }

    /// Progress of `bytes_read` bytes of a total of `size`. A total below
    /// what was received cannot be right and is forgotten.
    pub fn new(bytes_read: u64, size: Option<u64>) -> (r: Self)
        ensures
            r == (DownloadProgress { bytes_read, size }).resumed_at(bytes_read),
            r.wf(),
    {
        let mut r = DownloadProgress { bytes_read, size };
        r.resume_at(bytes_read);
        r
    }

    /// Progress of a transfer of which nothing is known yet.
    pub fn unknown() -> (r: Self)
        ensures
            r == (DownloadProgress { bytes_read: 0, size: None }),
            r.wf(),
    {
        DownloadProgress { bytes_read: 0, size: None }
    }

    /// Whether nothing of a known total is missing.
    pub fn complete(&self) -> (r: bool)
        ensures
            r == self.is_complete(),
    {
        match self.size {
            Some(total) => self.bytes_read == total,
            None => true,
        }
    }

    /// Whether `len` more bytes fit.
    pub fn can_take(&self, len: u64) -> (r: bool)
        ensures
            r == self.admits(len),
    {
        if len > u64::MAX - self.bytes_read {
            false
        } else {
            match self.size {
                Some(total) => self.bytes_read + len <= total,
                None => true,
            }
        }
    }

    /// Counts `len` more bytes.
    pub fn advance(&mut self, len: u64)
        requires
            old(self).wf(),
            old(self).admits(len),
        ensures
            final(self).bytes_read == old(self).bytes_read + len,
            final(self).size == old(self).size,
            final(self).wf(),
    {
        self.bytes_read = self.bytes_read + len;
    }

    /// Starts over at `offset`, the size of what is on disk. A total that is
    /// smaller than the offset cannot be right and is forgotten.
    pub open spec fn resumed_at(self, offset: u64) -> DownloadProgress {
        DownloadProgress {
            bytes_read: offset,
            size: match self.size {
                Some(total) => if offset <= total { Some(total) } else { None },
                None => None,
            },
        }
    }

    /// Starts over at `offset`, and forgets a total below it.
    pub fn resume_at(&mut self, offset: u64)
        ensures
            *final(self) == old(self).resumed_at(offset),
            final(self).wf(),
    {
        self.bytes_read = offset;
        let keep: bool = match self.size {
            Some(total) => offset <= total,
            None => false,
        };
        if !keep {
            self.size = None;
        }
    }
}

/// The persisted unit of a transfer.
#[derive(Debug)]
pub struct DownloadInfo {
    pub file_info: FileInfo,
    pub url: String,
    pub state: DownloadState,
    pub progress: DownloadProgress,
}

impl DownloadInfo {
    /// The progress is within a known total.
    pub open spec fn wf(self) -> bool {
        self.progress.wf()
    }

    /// A transfer that was just asked for: `Downloading`, nothing received.
    pub fn new(file_info: FileInfo, url: String) -> (r: Self)
        ensures
            r == (DownloadInfo {
                file_info,
                url,
                state: DownloadState::Downloading,
                progress: DownloadProgress { bytes_read: 0, size: None },
            }),
            r.wf(),
    {
        DownloadInfo { file_info, url, state: DownloadState::Downloading, progress: DownloadProgress::unknown() }
    }

    /// The state of the transfer.
    pub fn get_state(&self) -> (r: DownloadState)
        ensures
            r == self.state,
    {
        self.state
    }

    /// Puts the transfer into `state`; nothing else changes.
    pub fn set_state(&mut self, state: DownloadState)
        ensures
            *final(self) == (DownloadInfo { state, ..*old(self) }),
    {
        self.state = state;
    }

    /// An equal copy.
    pub fn duplicate(&self) -> (r: Self)
        ensures
            r == *self,
    {
        DownloadInfo {
            file_info: self.file_info.duplicate(),
            url: self.url.clone(),
            state: self.state,
            progress: self.progress,
        }
    }
}

/// The record of a completed file on disk.
#[derive(Debug)]
pub struct LocalFile {
    pub file_id: u64,
    pub game: String,
    pub mod_id: u32,
    pub file_name: String,
}

impl LocalFile {
    /// The record of the completed file that `file_info` describes.
    pub fn new(file_info: &FileInfo) -> (r: Self)
        ensures
            r == (LocalFile {
                file_id: file_info.file_id,
                game: file_info.game,
                mod_id: file_info.mod_id,
                file_name: file_info.file_name,
            }),
    {
        LocalFile {
            file_id: file_info.file_id,
            game: file_info.game.clone(),
            mod_id: file_info.mod_id,
            file_name: file_info.file_name.clone(),
        }
    }

    /// An equal copy.
    pub fn duplicate(&self) -> (r: Self)
        ensures
            r == *self,
    {
        LocalFile {
            file_id: self.file_id,
            game: self.game.clone(),
            mod_id: self.mod_id,
            file_name: self.file_name.clone(),
        }
    }
}

} // verus!
