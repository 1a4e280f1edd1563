use vstd::prelude::*;

verus! {

/// Failures of the persistence layer. A missing row is not one of them:
/// single-row reads answer `None` and single-row writes answer `false`.
#[derive(Debug)]
pub enum PillError {
    /// A repository call came before a successful initialisation.
    NotInitialized,
    /// A second initialisation was attempted.
    AlreadyInitialized,
    /// The backend could not be reached or opened, or its path or URL is malformed.
    ConnectionError(String),
    /// A required field is absent or malformed; raised before any statement runs.
    ValidationError(String),
    /// A statement failed, or a row did not have the expected shape.
    StorageError(String),
    /// A synchronisation round trip failed.
    SyncError(String),
}

/// The message that [`PillError::message`] gives: a fixed head, then the
/// detail that the variant carries.
pub open spec fn message_of(e: PillError) -> Seq<char> {
    match e {
        PillError::NotInitialized => "database not initialized"@,
        PillError::AlreadyInitialized => "database already initialized"@,
        PillError::ConnectionError(d) => "connection error: "@ + d@,
        PillError::ValidationError(d) => "validation error: "@ + d@,
        PillError::StorageError(d) => "storage error: "@ + d@,
        PillError::SyncError(d) => "sync error: "@ + d@,
    }
}

impl PillError {
    /// Human-readable message for the host application.
    pub fn message(&self) -> (r: String)
        ensures
            r@ == message_of(*self),
            r@.len() > 0,
    {
        proof {
            reveal_strlit("");
            reveal_strlit("database not initialized");
            reveal_strlit("database already initialized");
            reveal_strlit("connection error: ");
            reveal_strlit("validation error: ");
            reveal_strlit("storage error: ");
            reveal_strlit("sync error: ");
        }
        let (head, detail) = match self {
            PillError::NotInitialized => ("database not initialized", ""),
            PillError::AlreadyInitialized => ("database already initialized", ""),
            PillError::ConnectionError(d) => ("connection error: ", d.as_str()),
            PillError::ValidationError(d) => ("validation error: ", d.as_str()),
            PillError::StorageError(d) => ("storage error: ", d.as_str()),
            PillError::SyncError(d) => ("sync error: ", d.as_str()),
        };
        let r = String::from_str(head).concat(detail);
        assert(r@ =~= message_of(*self));
        r
    }
}

} // verus!
