use vstd::prelude::*;

use crate::error::ErrorKind;

verus! {

/// Transfers move file content in chunks of this many bytes, never the whole file at once.
pub const TRANSFER_CHUNK_BYTES: u64 = 32768;

/// Bits of a remote mode word that give the file type.
pub const MODE_TYPE_MASK: u32 = 0o170000;

pub const MODE_DIRECTORY: u32 = 0o040000;

pub const MODE_SYMLINK: u32 = 0o120000;

/// Bits of a mode word that are permissions (with setuid, setgid and sticky).
pub const MODE_PERMISSION_MASK: u32 = 0o7777;

#[derive(Debug, Clone, Copy, PartialEq, Eq, Structural)]
pub enum FileKind {
    File,
    Directory,
    Symlink,
}

/// One entry of a remote directory listing.
pub struct FileEntry {
    pub name: String,
    pub kind: FileKind,
    pub size_bytes: u64,
    /// Seconds since the Unix epoch.
    pub modified_at: u64,
    /// Permission bits of the mode word.
    pub permissions: u32,
    pub path: String,
}

/// One entry as the file channel reports it.
pub struct RawEntry {
    pub name: String,
    pub mode: u32,
    pub size: u64,
    pub mtime: u64,
}

pub open spec fn kind_spec(mode: u32) -> FileKind {
    if mode & MODE_TYPE_MASK == MODE_DIRECTORY {
        FileKind::Directory
    } else if mode & MODE_TYPE_MASK == MODE_SYMLINK {
        FileKind::Symlink
    } else {
        FileKind::File
    }
}

/// The file type that a remote mode word names; anything but a directory or
/// a symbolic link counts as a file.
pub fn kind_of_mode(mode: u32) -> (r: FileKind)
    ensures
        r == kind_spec(mode),
{
    let t = mode & MODE_TYPE_MASK;
    if t == MODE_DIRECTORY {
        FileKind::Directory
    } else if t == MODE_SYMLINK {
        FileKind::Symlink
    } else {
        FileKind::File
    }
}

/// The full path of entry `name` listed in directory `dir`. The entry `.` is
/// the directory itself.
pub open spec fn entry_path(dir: Seq<char>, name: Seq<char>) -> Seq<char> {
    if name == seq!['.'] {
        dir
    } else if dir.len() > 0 && dir.last() == '/' {
        dir + name
    } else {
        dir + seq!['/'] + name
    }
}

/// Joins a listed name onto its directory.
pub fn join_entry_path(dir: &str, name: &str) -> (r: String)
    ensures
        r@ == entry_path(dir@, name@),
{
    let n = name.unicode_len();
    if n == 1 && name.get_char(0) == '.' {
        assert(name@ =~= seq!['.']);
        return String::from_str(dir);
    }
    let d = dir.unicode_len();
    let mut r = String::from_str(dir);
    if !(d > 0 && dir.get_char(d - 1) == '/') {
        r.append("/");
        proof {
            reveal_strlit("/");
        }
    }
    r.append(name);
    r
}

pub open spec fn entry_matches(e: FileEntry, raw: RawEntry, dir: Seq<char>) -> bool {
    &&& e.name@ == raw.name@
    &&& e.kind == kind_spec(raw.mode)
    &&& e.size_bytes == raw.size
    &&& e.modified_at == raw.mtime
    &&& e.permissions == raw.mode & MODE_PERMISSION_MASK
    &&& e.path@ == entry_path(dir, raw.name@)
}

/// Turns the entries of directory `dir` into `FileEntry` values, one for one and
/// in the order the remote returned them (`.` and `..` included when present).
pub fn build_listing(dir: &str, raw: Vec<RawEntry>) -> (r: Vec<FileEntry>)
    ensures
        r@.len() == raw@.len(),
        forall|i: int| 0 <= i < r@.len() ==> entry_matches(#[trigger] r@[i], raw@[i], dir@),
{
    let mut r: Vec<FileEntry> = Vec::new();
    let mut i: usize = 0;
    while i < raw.len()
        invariant
            i <= raw@.len(),
            r@.len() == i,
            forall|j: int| 0 <= j < i ==> entry_matches(#[trigger] r@[j], raw@[j], dir@),
        decreases raw@.len() - i,
    {
        let e = &raw[i];
        let path = join_entry_path(dir, e.name.as_str());
        r.push(
            FileEntry {
                name: e.name.clone(),
                kind: kind_of_mode(e.mode),
                size_bytes: e.size,
                modified_at: e.mtime,
                permissions: e.mode & MODE_PERMISSION_MASK,
                path,
            },
        );
        i = i + 1;
    }
    r
}


/// Status codes of the file-transfer protocol.
pub const STATUS_OK: u32 = 0;

pub const STATUS_NO_SUCH_FILE: u32 = 2;

pub const STATUS_PERMISSION_DENIED: u32 = 3;

pub const STATUS_NO_CONNECTION: u32 = 6;

pub const STATUS_CONNECTION_LOST: u32 = 7;

pub const STATUS_NO_SUCH_PATH: u32 = 10;

pub const STATUS_FILE_ALREADY_EXISTS: u32 = 11;

pub open spec fn status_spec(code: u32) -> Result<(), ErrorKind> {
    if code == STATUS_OK {
        Ok(())
    } else if code == STATUS_NO_SUCH_FILE || code == STATUS_NO_SUCH_PATH {
        Err(ErrorKind::PathNotFound)
    } else if code == STATUS_PERMISSION_DENIED {
        Err(ErrorKind::PermissionDenied)
    } else if code == STATUS_FILE_ALREADY_EXISTS {
        Err(ErrorKind::AlreadyExists)
    } else if code == STATUS_NO_CONNECTION || code == STATUS_CONNECTION_LOST {
        Err(ErrorKind::TransportLost)
    } else {
        Err(ErrorKind::RemoteFailure(code))
    }
}

/// Maps a remote status code to the outcome of one file operation.
pub fn status_outcome(code: u32) -> (r: Result<(), ErrorKind>)
    ensures
        r == status_spec(code),
{
    if code == STATUS_OK {
        Ok(())
    } else if code == STATUS_NO_SUCH_FILE || code == STATUS_NO_SUCH_PATH {
        Err(ErrorKind::PathNotFound)
    } else if code == STATUS_PERMISSION_DENIED {
        Err(ErrorKind::PermissionDenied)
    } else if code == STATUS_FILE_ALREADY_EXISTS {
        Err(ErrorKind::AlreadyExists)
    } else if code == STATUS_NO_CONNECTION || code == STATUS_CONNECTION_LOST {
        Err(ErrorKind::TransportLost)
    } else {
        Err(ErrorKind::RemoteFailure(code))
    }
}

pub open spec fn is_octal_digit(c: char) -> bool {
    '0' <= c && c <= '7'
}

/// The number that a string of octal digits spells.
pub open spec fn octal_value(s: Seq<char>) -> nat
    decreases s.len(),
{
    if s.len() == 0 {
        0
    } else {
        octal_value(s.drop_last()) * 8 + (s.last() as nat - '0' as nat) as nat
    }
}

/// A mode is one to four octal digits, as `chmod` takes it.
pub open spec fn valid_mode(s: Seq<char>) -> bool {
    1 <= s.len() <= 4 && forall|i: int| 0 <= i < s.len() ==> is_octal_digit(#[trigger] s[i])
}

proof fn lemma_octal_bound(s: Seq<char>)
    requires
        forall|i: int| 0 <= i < s.len() ==> is_octal_digit(#[trigger] s[i]),
    ensures
        octal_value(s) < crate::session::pow2(3 * s.len()),
    decreases s.len(),
{
    if s.len() > 0 {
        let t = s.drop_last();
        assert forall|i: int| 0 <= i < t.len() implies is_octal_digit(#[trigger] t[i]) by {
            assert(t[i] == s[i]);
        }
        lemma_octal_bound(t);
        assert(is_octal_digit(s[s.len() - 1]));
        lemma_pow2_plus3(3 * t.len());
        assert(3 * s.len() == 3 * t.len() + 3);
    }
}

proof fn lemma_pow2_plus3(n: nat)
    ensures
        crate::session::pow2(n + 3) == 8 * crate::session::pow2(n),
{
    reveal_with_fuel(crate::session::pow2, 4);
}

/// Parses a permission mode such as `755` or `0644`; anything else is `InvalidMode`.
pub fn parse_mode(mode: &str) -> (r: Result<u32, ErrorKind>)
    ensures
        valid_mode(mode@) ==> r == Ok::<u32, ErrorKind>(octal_value(mode@) as u32),
        !valid_mode(mode@) ==> r == Err::<u32, ErrorKind>(ErrorKind::InvalidMode),
        r matches Ok(v) ==> v <= MODE_PERMISSION_MASK,
{
    let n = mode.unicode_len();
    if n == 0 || n > 4 {
        return Err(ErrorKind::InvalidMode);
    }
    let mut v: u32 = 0;
    let mut i: usize = 0;
    while i < n
        invariant
            n == mode@.len(),
            1 <= n <= 4,
            i <= n,
            forall|j: int| 0 <= j < i ==> is_octal_digit(#[trigger] mode@[j]),
            v == octal_value(mode@.subrange(0, i as int)),
            v < crate::session::pow2(3 * i as nat),
        decreases n - i,
    {
        let c = mode.get_char(i);
        if !('0' <= c && c <= '7') {
            return Err(ErrorKind::InvalidMode);
        }
        proof {
            let p = mode@.subrange(0, i as int + 1);
            assert(p.drop_last() =~= mode@.subrange(0, i as int));
            assert(p.last() == c);
            assert forall|j: int| 0 <= j < p.len() implies is_octal_digit(#[trigger] p[j]) by {
                assert(p[j] == mode@[j]);
            }
            lemma_octal_bound(p);
            lemma_pow2_plus3(3 * i as nat);
            reveal_with_fuel(crate::session::pow2, 13);
        }
        v = v * 8 + (c as u32 - '0' as u32);
        i = i + 1;
    }
    proof {
        assert(mode@.subrange(0, n as int) =~= mode@);
        reveal_with_fuel(crate::session::pow2, 13);
    }
    Ok(v)
}

/// The outcome of one path of a batch operation.
pub struct PathResult {
    pub path: String,
    pub outcome: Result<(), ErrorKind>,
}

/// Per-path outcomes of a batch file mutation, in the order the paths were given.
pub struct BatchOperationResult {
    pub results: Vec<PathResult>,
}

/// Gathers a batch operation's outcome: each path is reported with the
/// outcome of its own status code, whatever became of the others.
pub fn batch_results(paths: Vec<String>, statuses: &Vec<u32>) -> (r: BatchOperationResult)
    requires
        paths@.len() == statuses@.len(),
    ensures
        r.results@.len() == paths@.len(),
        forall|i: int|
            0 <= i < paths@.len() ==> (#[trigger] r.results@[i]).path@ == paths@[i]@
                && r.results@[i].outcome == status_spec(statuses@[i]),
{
    let mut results: Vec<PathResult> = Vec::new();
    let mut i: usize = 0;
    while i < paths.len()
        invariant
            paths@.len() == statuses@.len(),
            i <= paths@.len(),
            results@.len() == i,
            forall|j: int|
                0 <= j < i ==> (#[trigger] results@[j]).path@ == paths@[j]@ && results@[j].outcome
                    == status_spec(statuses@[j]),
        decreases paths@.len() - i,
    {
        results.push(PathResult { path: paths[i].clone(), outcome: status_outcome(statuses[i]) });
        i = i + 1;
    }
    BatchOperationResult { results }
}

impl BatchOperationResult {
    pub open spec fn ok_count_spec(s: Seq<PathResult>) -> nat
        decreases s.len(),
    {
        if s.len() == 0 {
            0
        } else {
            Self::ok_count_spec(s.drop_last()) + if s.last().outcome is Ok {
                1nat
            } else {
                0nat
            }
        }
    }

    /// How many paths succeeded.
    pub fn succeeded(&self) -> (r: usize)
        ensures
            r == Self::ok_count_spec(self.results@),
    {
        let mut n: usize = 0;
        let mut i: usize = 0;
        while i < self.results.len()
            invariant
                i <= self.results@.len(),
                n == Self::ok_count_spec(self.results@.subrange(0, i as int)),
                n <= i,
            decreases self.results@.len() - i,
        {
            proof {
                assert(self.results@.subrange(0, i as int + 1).drop_last() =~= self.results@.subrange(
                    0,
                    i as int,
                ));
            }
            if self.results[i].outcome.is_ok() {
                n = n + 1;
            }
            i = i + 1;
        }
        proof {
            assert(self.results@.subrange(0, i as int) =~= self.results@);
        }
        n
    }

    /// Whether every path succeeded.
    pub fn all_succeeded(&self) -> (r: bool)
        ensures
            r <==> forall|i: int| 0 <= i < self.results@.len() ==> (#[trigger] self.results@[i]).outcome is Ok,
    {
        let mut i: usize = 0;
        while i < self.results.len()
            invariant
                i <= self.results@.len(),
                forall|j: int| 0 <= j < i ==> (#[trigger] self.results@[j]).outcome is Ok,
            decreases self.results@.len() - i,
        {
            if self.results[i].outcome.is_err() {
                return false;
            }
            i = i + 1;
        }
        true
    }
}

/// Progress of one upload or download, counted in bytes.
#[derive(Debug, Clone, Copy, PartialEq, Eq, Structural)]
pub struct TransferProgress {
    /// Size of the source, when the remote reported it.
    pub total: Option<u64>,
    pub transferred: u64,
}

/// Why a transfer stopped, and how far it got.
#[derive(Debug, Clone, Copy, PartialEq, Eq, Structural)]
pub struct TransferFailure {
    pub kind: ErrorKind,
    pub bytes_transferred: u64,
}

/// The progress after `chunks` were written, one after the other, from `p`.
pub open spec fn progress_after(p: TransferProgress, chunks: Seq<u64>) -> TransferProgress
    decreases chunks.len(),
{
    if chunks.len() == 0 {
        p
    } else {
        let q = progress_after(p, chunks.drop_last());
        TransferProgress { transferred: (q.transferred + chunks.last()) as u64, ..q }
    }
}

pub open spec fn chunk_sum(chunks: Seq<u64>) -> nat
    decreases chunks.len(),
{
    if chunks.len() == 0 {
        0
    } else {
        chunk_sum(chunks.drop_last()) + chunks.last() as nat
    }
}

impl TransferProgress {
    /// A transfer that has not moved any byte yet.
    pub fn new(total: Option<u64>) -> (r: TransferProgress)
        ensures
            r.total == total,
            r.transferred == 0,
    {
        TransferProgress { total, transferred: 0 }
    }

    /// How many bytes the next chunk should carry: a full chunk, or what is left
    /// of a source of known size.
    pub fn next_chunk_len(&self) -> (r: u64)
        ensures
            r == (match self.total {
                Some(t) => if t <= self.transferred {
                    0
                } else if t - self.transferred < TRANSFER_CHUNK_BYTES {
                    (t - self.transferred) as u64
                } else {
                    TRANSFER_CHUNK_BYTES
                },
                None => TRANSFER_CHUNK_BYTES,
            }),
    {
        match self.total {
            Some(t) => if t <= self.transferred {
                0
            } else if t - self.transferred < TRANSFER_CHUNK_BYTES {
                t - self.transferred
            } else {
                TRANSFER_CHUNK_BYTES
            },
            None => TRANSFER_CHUNK_BYTES,
        }
    }

    /// Counts a chunk of `n` bytes as written.
    pub fn advance(&mut self, n: u64)
        requires
            old(self).transferred + n <= u64::MAX,
        ensures
            *final(self) == progress_after(*old(self), seq![n]),
            final(self).transferred == old(self).transferred + n,
    {
        proof {
            assert(seq![n].drop_last() =~= Seq::<u64>::empty());
            reveal_with_fuel(progress_after, 2);
        }
        self.transferred = self.transferred + n;
    }

    /// Counts a chunk of `n` bytes that was asked for as `requested` bytes. An
    /// empty or oversized chunk, or one the count cannot hold, means the channel
    /// broke: the progress stays as it was and the interruption is returned.
    pub fn accept_chunk(&mut self, n: u64, requested: u64) -> (r: Result<(), TransferFailure>)
        ensures
            (0 < n <= requested && old(self).transferred + n <= u64::MAX) ==> r is Ok && *final(self)
                == progress_after(*old(self), seq![n]),
            !(0 < n <= requested && old(self).transferred + n <= u64::MAX) ==> r == Err::<
                (),
                TransferFailure,
            >(
                TransferFailure {
                    kind: ErrorKind::TransferInterrupted,
                    bytes_transferred: old(self).transferred,
                },
            ) && *final(self) == *old(self),
    {
        if n == 0 || n > requested || n > u64::MAX - self.transferred {
            return Err(self.interrupted());
        }
        self.advance(n);
        Ok(())
    }

    /// Whether every byte of a source of known size has been moved.
    pub fn is_complete(&self) -> (r: bool)
        ensures
            r <==> self.total == Some(self.transferred),
    {
        match self.total {
            Some(t) => t == self.transferred,
            None => false,
        }
    }

    /// The failure to report when the channel broke mid-transfer: the partial
    /// destination stays in place and the count of bytes moved is named.
    pub fn interrupted(&self) -> (r: TransferFailure)
        ensures
            r.kind == ErrorKind::TransferInterrupted,
            r.bytes_transferred == self.transferred,
    {
        TransferFailure { kind: ErrorKind::TransferInterrupted, bytes_transferred: self.transferred }
    }
}
} // verus!
