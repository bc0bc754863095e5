//! The ledger store: loading a contract ledger ("stock") from its directory,
//! creating a default one transparently on first run, and refusing to touch
//! a file that exists but fails to decode.
//!
//! The codec and the filesystem are collaborators outside this core. The
//! caller performs the read and classifies its result into a [`LoadOutcome`]
//! at the codec boundary; [`resolve_load`] then decides, for every outcome,
//! what is returned and whether a fresh default ledger must be persisted.
//! [`MemStore`] is an in-memory, access-counting store against which the
//! composed operation is verified end to end.

use vstd::prelude::*;

use crate::error::WalletError;

verus! {

/// What the ledger's directory holds, as the codec boundary reports it:
/// nothing, a ledger that decodes, or bytes that fail to decode with the
/// codec's message.
#[derive(Clone, Debug, PartialEq, Eq)]
pub enum FileState<L> {
    Absent,
    Valid(L),
    Damaged(String),
}

/// The classified result of one attempt to read the ledger: the first-class
/// "not found versus other failure" distinction this core rests on, so that
/// it never depends on a collaborator's internal error nesting.
#[derive(Clone, Debug, PartialEq, Eq)]
pub enum LoadOutcome<L> {
    /// The file was read and decoded.
    Loaded(L),
    /// Nothing exists at the path yet: the recoverable first-run condition.
    Absent,
    /// The file exists but failed to decode, with the codec's message.
    Corrupt(String),
    /// Any other input/output failure, with the reported message.
    Io(String),
}

/// What loading the ledger from a directory in state `st` returns, once the
/// recoverable first-run branch has substituted the default ledger.
pub open spec fn load_stock_result<L>(st: FileState<L>, default: L) -> Result<L, WalletError> {
    match st {
        FileState::Valid(l) => Ok(l),
        FileState::Absent => Ok(default),
        FileState::Damaged(m) => Err(WalletError::Deserialize(m)),
    }
}

/// The state of the ledger's directory after one load: the default ledger is
/// persisted on the first-run branch and nothing is written otherwise — in
/// particular a damaged file is never overwritten.
pub open spec fn state_after_load<L>(st: FileState<L>, default: L) -> FileState<L> {
    if st is Absent {
        FileState::Valid(default)
    } else {
        st
    }
}

/// How many file writes one load performs on a directory in state `st`.
pub open spec fn writes_of_load<L>(st: FileState<L>) -> int {
    if st is Absent {
        1
    } else {
        0
    }
}

/// The decision at the heart of the store: for every classified read
/// outcome, what the caller gets back and whether it must persist the
/// returned ledger (directory creation included) as a fresh default.
///
/// Only the `Absent` outcome is recovered; every failure is surfaced
/// verbatim under its own error class.
pub fn resolve_load<L>(outcome: LoadOutcome<L>, default: L) -> (r: Result<(L, bool), WalletError>)
    ensures
        outcome matches LoadOutcome::Loaded(l) ==> r == (Ok::<(L, bool), WalletError>((l, false))),
        outcome is Absent ==> r == (Ok::<(L, bool), WalletError>((default, true))),
        outcome matches LoadOutcome::Corrupt(m) ==> r == (Err::<(L, bool), WalletError>(
            WalletError::Deserialize(m),
        )),
        outcome matches LoadOutcome::Io(m) ==> r == (Err::<(L, bool), WalletError>(
            WalletError::Io(m),
        )),
{
    match outcome {
        LoadOutcome::Loaded(l) => Ok((l, false)),
        LoadOutcome::Absent => Ok((default, true)),
        LoadOutcome::Corrupt(m) => Err(WalletError::Deserialize(m)),
        LoadOutcome::Io(m) => Err(WalletError::Io(m)),
    }
}

/// What one read returns on a directory in state `st`.
pub open spec fn outcome_of<L>(st: FileState<L>) -> LoadOutcome<L> {
    match st {
        FileState::Absent => LoadOutcome::Absent,
        FileState::Valid(l) => LoadOutcome::Loaded(l),
        FileState::Damaged(m) => LoadOutcome::Corrupt(m),
    }
}

/// An in-memory ledger store that counts its accesses: one directory, one
/// ledger file, and the tallies of reads and writes performed on it. It
/// stands in for the filesystem wherever the composed store operations are
/// exercised without a disk.
#[derive(Clone, Debug, PartialEq, Eq)]
pub struct MemStore<L> {
    /// What the ledger file currently holds.
    pub file: FileState<L>,
    /// Whether the directory that holds the file exists.
    pub dir_exists: bool,
    /// How many reads of the file have been performed.
    pub reads: u64,
    /// How many writes of the file have been performed.
    pub writes: u64,
}

impl<L: Copy> MemStore<L> {
    /// A fresh store over the given file state, with nothing counted yet and
    /// the directory reported present exactly when the file is.
    pub fn new(file: FileState<L>) -> (r: Self)
        ensures
            r.file == file,
            r.dir_exists == !(file is Absent),
            r.reads == 0,
            r.writes == 0,
    {
        let dir_exists = !matches!(file, FileState::Absent);
        MemStore { file, dir_exists, reads: 0, writes: 0 }
    }

    /// One read of the ledger file, classified as the codec boundary would
    /// classify it. The store itself is only touched in its read tally.
    pub fn load(&mut self) -> (r: LoadOutcome<L>)
        requires
            old(self).reads < u64::MAX,
        ensures
            r == outcome_of(old(self).file),
            final(self).file == old(self).file,
            final(self).dir_exists == old(self).dir_exists,
            final(self).writes == old(self).writes,
            final(self).reads == old(self).reads + 1,
    {
        self.reads = self.reads + 1;
        match &self.file {
            FileState::Absent => LoadOutcome::Absent,
            FileState::Valid(l) => LoadOutcome::Loaded(*l),
            FileState::Damaged(m) => LoadOutcome::Corrupt(m.clone()),
        }
    }

    /// Ensures the directory exists, creating it if needed; re-creation is a
    /// no-op and neither tally moves.
    pub fn create_dir_all(&mut self)
        ensures
            final(self).file == old(self).file,
            final(self).dir_exists,
            final(self).reads == old(self).reads,
            final(self).writes == old(self).writes,
    {
        self.dir_exists = true;
    }

    /// One write of the ledger file into the existing directory.
    pub fn store_file(&mut self, ledger: L)
        requires
            old(self).dir_exists,
            old(self).writes < u64::MAX,
        ensures
            final(self).file == FileState::Valid(ledger),
            final(self).dir_exists,
            final(self).reads == old(self).reads,
            final(self).writes == old(self).writes + 1,
    {
        self.file = FileState::Valid(ledger);
        self.writes = self.writes + 1;
    }
}

/// A loaded ledger attached to the directory it is persisted under, for
/// downstream contract operations.
#[derive(Clone, Debug, PartialEq, Eq)]
pub struct StoredStock<L> {
    /// The directory the ledger was loaded from and persists under.
    pub stock_path: String,
    /// The in-memory ledger.
    pub stock: L,
}

impl<L> StoredStock<L> {
    /// Binds a loaded ledger to the directory it came from.
    pub fn attach(stock_path: String, stock: L) -> (r: Self)
        ensures
            r.stock_path == stock_path,
            r.stock == stock,
    {
        StoredStock { stock_path, stock }
    }
}

/// First-run initialization is idempotent: on a path that holds no ledger
/// yet, a load yields the default ledger and persists it, and a second load
/// yields a ledger equal to the first while writing nothing further.
pub proof fn lemma_load_or_create_idempotent<L>(default: L)
    ensures
        load_stock_result(FileState::<L>::Absent, default) == Ok::<L, WalletError>(default),
        state_after_load(FileState::<L>::Absent, default) == FileState::<L>::Valid(default),
        load_stock_result(state_after_load(FileState::<L>::Absent, default), default)
            == load_stock_result(FileState::<L>::Absent, default),
        writes_of_load(state_after_load(FileState::<L>::Absent, default)) == 0,
        state_after_load(state_after_load(FileState::<L>::Absent, default), default)
            == state_after_load(FileState::<L>::Absent, default),
{
}

/// A ledger file that fails to decode is surfaced as a corruption error
/// carrying the codec's message, and the file is left untouched: no write
/// happens and its contents stay as they were.
pub proof fn lemma_damaged_file_untouched<L>(message: String, default: L)
    ensures
        load_stock_result(FileState::<L>::Damaged(message), default)
            == Err::<L, WalletError>(WalletError::Deserialize(message)),
        state_after_load(FileState::<L>::Damaged(message), default)
            == FileState::<L>::Damaged(message),
        writes_of_load(FileState::<L>::Damaged(message)) == 0,
{
}

} // verus!
