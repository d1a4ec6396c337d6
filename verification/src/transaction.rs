//! The transaction abstraction: auto-commit statements that open and
//! close a transaction in one round trip, and interactive transactions
//! whose identifier, once assigned by the first statement's response, is
//! attached to every subsequent statement until commit or rollback.

use vstd::prelude::*;

use crate::errors::{YdbError, YdbResult};
use crate::proto::{
    OnlineModeSettings, SerializableModeSettings, SnapshotModeSettings, StaleModeSettings,
    TransactionControl, TransactionSettings, TxMode, TxSelector,
};

verus! {

/// The isolation mode a transaction runs under.
#[derive(Clone, Copy, Debug, PartialEq, Eq, Structural)]
pub enum Mode {
    SerializableReadWrite,
    OnlineReadOnly { allow_inconsistent_reads: bool },
    StaleReadOnly,
    SnapshotReadOnly,
}

impl Mode {
    /// The wire transaction settings this mode stands for.
    pub open spec fn spec_tx_settings(self) -> TransactionSettings {
        TransactionSettings {
            tx_mode: Some(
                match self {
                    Mode::SerializableReadWrite => TxMode::SerializableReadWrite(
                        SerializableModeSettings {},
                    ),
                    Mode::OnlineReadOnly { allow_inconsistent_reads } => TxMode::OnlineReadOnly(
                        OnlineModeSettings { allow_inconsistent_reads },
                    ),
                    Mode::StaleReadOnly => TxMode::StaleReadOnly(StaleModeSettings {}),
                    Mode::SnapshotReadOnly => TxMode::SnapshotReadOnly(SnapshotModeSettings {}),
                },
            ),
        }
    }

    pub fn tx_settings(self) -> (r: TransactionSettings)
        ensures
            r == self.spec_tx_settings(),
    {
        TransactionSettings {
            tx_mode: Some(
                match self {
                    Mode::SerializableReadWrite => TxMode::SerializableReadWrite(
                        SerializableModeSettings {},
                    ),
                    Mode::OnlineReadOnly { allow_inconsistent_reads } => TxMode::OnlineReadOnly(
                        OnlineModeSettings { allow_inconsistent_reads },
                    ),
                    Mode::StaleReadOnly => TxMode::StaleReadOnly(StaleModeSettings {}),
                    Mode::SnapshotReadOnly => TxMode::SnapshotReadOnly(SnapshotModeSettings {}),
                },
            ),
        }
    }
}

/// How a client opens transactions: the isolation mode, and whether
/// statements auto-commit.
#[derive(Clone, Copy, Debug, PartialEq, Eq, Structural)]
pub struct TransactionOptions {
    pub mode: Mode,
    pub autocommit: bool,
}

impl TransactionOptions {
    /// The default options: serializable read-write, no auto-commit.
    pub fn new() -> (r: Self)
        ensures
            r.mode == Mode::SerializableReadWrite,
            !r.autocommit,
    {
        Self { mode: Mode::SerializableReadWrite, autocommit: false }
    }

    pub fn with_mode(self, mode: Mode) -> (r: Self)
        ensures
            r.mode == mode,
            r.autocommit == self.autocommit,
    {
        Self { mode, ..self }
    }

    pub fn with_autocommit(self, autocommit: bool) -> (r: Self)
        ensures
            r.mode == self.mode,
            r.autocommit == autocommit,
    {
        Self { autocommit, ..self }
    }
}

/// The transaction control of an auto-commit statement: begin in the
/// given mode and commit in the same round trip, holding no identifier
/// across calls.
pub fn autocommit_tx_control(mode: Mode) -> (r: TransactionControl)
    ensures
        r.commit_tx,
        r.tx_selector == Some(TxSelector::BeginTx(mode.spec_tx_settings())),
{
    TransactionControl { commit_tx: true, tx_selector: Some(TxSelector::BeginTx(mode.tx_settings())) }
}

/// The client-side state of one interactive transaction: the identifier
/// the server assigned to it, once the first statement's response has
/// reported one.
#[derive(Debug)]
pub struct InteractiveTransaction {
    tx_id: Option<String>,
}

impl InteractiveTransaction {
    pub closed spec fn spec_tx_id(&self) -> Option<String> {
        self.tx_id
    }

    /// A transaction not yet opened on the server.
    pub fn new() -> (r: Self)
        ensures
            r.spec_tx_id() is None,
    {
        Self { tx_id: None }
    }

    /// The transaction selector for the next statement: the first
    /// statement asks the server to begin a serializable read-write
    /// transaction, and every later one names the captured identifier.
    pub fn selector_for_next_statement(&self) -> (r: TxSelector)
        ensures
            self.spec_tx_id() matches Some(id) ==> (r matches TxSelector::TxId(out) && out == id),
            self.spec_tx_id() is None ==> r == TxSelector::BeginTx(
                Mode::SerializableReadWrite.spec_tx_settings(),
            ),
    {
        match &self.tx_id {
            Some(id) => TxSelector::TxId(id.clone()),
            None => TxSelector::BeginTx(Mode::SerializableReadWrite.tx_settings()),
        }
    }

    /// Captures the identifier a statement's response reported: the
    /// first non-empty identifier is kept, and once captured the
    /// identifier never changes until the transaction object is dropped.
    pub fn note_response_tx_id(&mut self, id: String)
        ensures
            old(self).spec_tx_id() matches Some(existing) ==> final(self).spec_tx_id() == Some(
                existing,
            ),
            old(self).spec_tx_id() is None && id@.len() > 0 ==> final(self).spec_tx_id() == Some(
                id,
            ),
            old(self).spec_tx_id() is None && id@.len() == 0 ==> final(self).spec_tx_id() is None,
    {
        if self.tx_id.is_none() {
            if id.as_str().unicode_len() > 0 {
                self.tx_id = Some(id);
            }
        }
    }

    /// The identifier to commit or roll back with. Finishing a
    /// transaction that was never opened is a caller error.
    pub fn finish_tx_id(&self) -> (r: YdbResult<String>)
        ensures
            self.spec_tx_id() matches Some(id) ==> r == Ok::<String, YdbError>(id),
            self.spec_tx_id() is None ==> (r matches Err(e) && e matches YdbError::Custom(m) && m@
                == "no open transaction"@),
    {
        match &self.tx_id {
            Some(id) => Ok(id.clone()),
            None => Err(YdbError::from_str("no open transaction")),
        }
    }
}

} // verus!
