use crate::error::classify::ErrorCode;
use crate::error::code::{Code, ErrorType};
use crate::error::os::IoFailure;
use vstd::prelude::*;

verus! {

/// A unit of work in the background that ended abnormally: it panicked, or it
/// was cancelled.
#[derive(Debug, Clone, Copy, PartialEq, Eq, Structural)]
pub struct JoinFailure;

impl ErrorCode for JoinFailure {
    open spec fn code(&self) -> Code {
        Code::Internal
    }

    fn error_code(&self) -> (code: Code) {
        Code::Internal
    }
}

/// What the key-value store itself reported, as far as a client is told of
/// it.
#[derive(Debug, Clone, Copy, PartialEq, Eq, Structural)]
pub enum MdbFailure {
    /// The memory map has no room for more.
    MapFull,
    /// The file is not a database of the store.
    Invalid,
    /// Any other report of the store.
    Other,
}

/// A failure of the storage engine.
#[derive(Debug, Clone, Copy, PartialEq, Eq, Structural)]
pub enum StoreFailure {
    Io(IoFailure),
    Mdb(MdbFailure),
    Encoding,
    Decoding,
    InvalidDatabaseTyping,
    DatabaseClosing,
    BadOpenOptions,
}

impl ErrorCode for StoreFailure {
    /// A full map and an invalid database have codes of their own, and a
    /// failure of input or output is classified as such. Anything else that
    /// goes wrong inside the store is internal.
    open spec fn code(&self) -> Code {
        match *self {
            StoreFailure::Mdb(MdbFailure::MapFull) => Code::DatabaseSizeLimitReached,
            StoreFailure::Mdb(MdbFailure::Invalid) => Code::InvalidStore,
            StoreFailure::Io(cause) => cause.code(),
            _ => Code::Internal,
        }
    }

    fn error_code(&self) -> (code: Code) {
        match self {
            StoreFailure::Mdb(MdbFailure::MapFull) => Code::DatabaseSizeLimitReached,
            StoreFailure::Mdb(MdbFailure::Invalid) => Code::InvalidStore,
            StoreFailure::Io(cause) => cause.error_code(),
            StoreFailure::Mdb(_)
            | StoreFailure::Encoding
            | StoreFailure::Decoding
            | StoreFailure::InvalidDatabaseTyping
            | StoreFailure::DatabaseClosing
            | StoreFailure::BadOpenOptions => Code::Internal,
        }
    }
}

/// A temporary file that could not be given its lasting name.
#[derive(Debug, Clone, Copy, PartialEq, Eq, Structural)]
pub struct PersistFailure {
    /// What went wrong when the file was renamed.
    pub error: IoFailure,
}

impl ErrorCode for PersistFailure {
    open spec fn code(&self) -> Code {
        self.error.code()
    }

    fn error_code(&self) -> (code: Code) {
        self.error.error_code()
    }
}

/// A failure of the store of update files.
#[derive(Debug, Clone, Copy, PartialEq, Eq, Structural)]
pub enum FileStoreFailure {
    IoError(IoFailure),
    PersistError(PersistFailure),
}

impl ErrorCode for FileStoreFailure {
    /// Either way the cause is a failure of input or output, and it is
    /// classified as that cause is.
    open spec fn code(&self) -> Code {
        match *self {
            FileStoreFailure::IoError(cause) => cause.code(),
            FileStoreFailure::PersistError(failure) => failure.error.code(),
        }
    }

    fn error_code(&self) -> (code: Code) {
        match self {
            FileStoreFailure::IoError(cause) => cause.error_code(),
            FileStoreFailure::PersistError(failure) => failure.error_code(),
        }
    }
}

/// What a user of the search engine can get wrong, and a few failures that
/// the engine files with them.
#[derive(Debug, Clone, Copy, PartialEq, Eq, Structural)]
pub enum UserFailure {
    AccessingSoftDeletedDocument,
    AttributeLimitReached,
    CriterionError,
    DocumentLimitReached,
    InvalidDocumentId,
    InvalidFacetsDistribution,
    InvalidFilter,
    InvalidGeoField,
    InvalidLmdbOpenOptions,
    InvalidMinTypoWordLenSetting,
    InvalidSortableAttribute,
    InvalidStoreFile,
    MaxDatabaseSizeReached,
    MissingDocumentId,
    MissingPrimaryKey,
    NoSpaceLeftOnDevice,
    PrimaryKeyCannotBeChanged,
    SerdeJson,
    SortError,
    SortRankingRuleMissing,
    TooManyDocumentIds,
    UnknownInternalDocumentId,
}

impl UserFailure {
    /// The failures that clients are not told apart: malformed JSON, options
    /// that the store refused, a full index, and a document that is gone or
    /// that nobody knows.
    pub open spec fn is_undisclosed(self) -> bool {
        self == UserFailure::SerdeJson || self == UserFailure::InvalidLmdbOpenOptions || self
            == UserFailure::DocumentLimitReached || self
            == UserFailure::AccessingSoftDeletedDocument || self
            == UserFailure::UnknownInternalDocumentId
    }
}

impl ErrorCode for UserFailure {
    open spec fn code(&self) -> Code {
        match *self {
            UserFailure::SerdeJson
            | UserFailure::InvalidLmdbOpenOptions
            | UserFailure::DocumentLimitReached
            | UserFailure::AccessingSoftDeletedDocument
            | UserFailure::UnknownInternalDocumentId => Code::Internal,
            UserFailure::InvalidStoreFile => Code::InvalidStore,
            UserFailure::NoSpaceLeftOnDevice => Code::NoSpaceLeftOnDevice,
            UserFailure::MaxDatabaseSizeReached => Code::DatabaseSizeLimitReached,
            UserFailure::AttributeLimitReached => Code::MaxFieldsLimitExceeded,
            UserFailure::InvalidFilter => Code::Filter,
            UserFailure::MissingDocumentId => Code::MissingDocumentId,
            UserFailure::InvalidDocumentId | UserFailure::TooManyDocumentIds => {
                Code::InvalidDocumentId
            },
            UserFailure::MissingPrimaryKey => Code::MissingPrimaryKey,
            UserFailure::PrimaryKeyCannotBeChanged => Code::PrimaryKeyAlreadyPresent,
            UserFailure::SortRankingRuleMissing
            | UserFailure::InvalidSortableAttribute
            | UserFailure::SortError => Code::Sort,
            UserFailure::InvalidFacetsDistribution => Code::BadRequest,
            UserFailure::CriterionError => Code::InvalidRankingRule,
            UserFailure::InvalidGeoField => Code::InvalidGeoField,
            UserFailure::InvalidMinTypoWordLenSetting => Code::InvalidMinWordLengthForTypo,
        }
    }

    fn error_code(&self) -> (code: Code) {
        match self {
            UserFailure::SerdeJson
            | UserFailure::InvalidLmdbOpenOptions
            | UserFailure::DocumentLimitReached
            | UserFailure::AccessingSoftDeletedDocument
            | UserFailure::UnknownInternalDocumentId => Code::Internal,
            UserFailure::InvalidStoreFile => Code::InvalidStore,
            UserFailure::NoSpaceLeftOnDevice => Code::NoSpaceLeftOnDevice,
            UserFailure::MaxDatabaseSizeReached => Code::DatabaseSizeLimitReached,
            UserFailure::AttributeLimitReached => Code::MaxFieldsLimitExceeded,
            UserFailure::InvalidFilter => Code::Filter,
            UserFailure::MissingDocumentId => Code::MissingDocumentId,
            UserFailure::InvalidDocumentId | UserFailure::TooManyDocumentIds => {
                Code::InvalidDocumentId
            },
            UserFailure::MissingPrimaryKey => Code::MissingPrimaryKey,
            UserFailure::PrimaryKeyCannotBeChanged => Code::PrimaryKeyAlreadyPresent,
            UserFailure::SortRankingRuleMissing => Code::Sort,
            UserFailure::InvalidFacetsDistribution => Code::BadRequest,
            UserFailure::InvalidSortableAttribute => Code::Sort,
            UserFailure::CriterionError => Code::InvalidRankingRule,
            UserFailure::InvalidGeoField => Code::InvalidGeoField,
            UserFailure::SortError => Code::Sort,
            UserFailure::InvalidMinTypoWordLenSetting => Code::InvalidMinWordLengthForTypo,
        }
    }
}

/// A failure of the search engine.
#[derive(Debug, Clone, Copy, PartialEq, Eq, Structural)]
pub enum EngineFailure {
    InternalError,
    IoError(IoFailure),
    UserError(UserFailure),
}

impl ErrorCode for EngineFailure {
    /// What the engine got wrong itself is internal; the rest is classified
    /// as its cause is.
    open spec fn code(&self) -> Code {
        match *self {
            EngineFailure::InternalError => Code::Internal,
            EngineFailure::IoError(cause) => cause.code(),
            EngineFailure::UserError(cause) => cause.code(),
        }
    }

    fn error_code(&self) -> (code: Code) {
        match self {
            EngineFailure::InternalError => Code::Internal,
            EngineFailure::IoError(cause) => cause.error_code(),
            EngineFailure::UserError(cause) => cause.error_code(),
        }
    }
}

/// A failure of input or output gets the same code wherever it is met: by
/// itself, in the storage engine, in the search engine, in the store of
/// update files, or when a file is renamed.
pub proof fn lemma_cause_decides(cause: IoFailure)
    ensures
        StoreFailure::Io(cause).code() == cause.code(),
        EngineFailure::IoError(cause).code() == cause.code(),
        FileStoreFailure::IoError(cause).code() == cause.code(),
        (PersistFailure { error: cause }).code() == cause.code(),
        FileStoreFailure::PersistError(PersistFailure { error: cause }).code() == cause.code(),
{
}

/// A failure of the storage engine is told as a full database, as an invalid
/// one, or as a failure of input or output is; anything else stays internal.
pub proof fn lemma_store_failure_codes(failure: StoreFailure)
    ensures
        failure.code() == Code::DatabaseSizeLimitReached <==> failure == StoreFailure::Mdb(
            MdbFailure::MapFull,
        ),
        failure.code() == Code::InvalidStore <==> failure == StoreFailure::Mdb(MdbFailure::Invalid),
        failure.code() == Code::DatabaseSizeLimitReached || failure.code() == Code::InvalidStore
            || failure.code() == Code::IoError || failure.code() == Code::TooManyOpenFiles
            || failure.code() == Code::NoSpaceLeftOnDevice || failure.code() == Code::Internal,
        !(failure is Io) && !(failure is Mdb) ==> failure.code() == Code::Internal,
{
}

/// The user failures that are told as internal are the undisclosed ones, and
/// no others.
pub proof fn lemma_undisclosed_is_internal(failure: UserFailure)
    ensures
        failure.code() == Code::Internal <==> failure.is_undisclosed(),
{
}

/// Whatever fails in the stores, the engine or a task, no client is told that
/// its credentials are at fault, and the answer is 400, 422 or 500; for the
/// stores and for a task it is never 400.
pub proof fn lemma_failures_are_answered(
    store: StoreFailure,
    files: FileStoreFailure,
    engine: EngineFailure,
    task: JoinFailure,
)
    ensures
        store.code().category() != ErrorType::AuthenticationError,
        files.code().category() != ErrorType::AuthenticationError,
        engine.code().category() != ErrorType::AuthenticationError,
        task.code().category() != ErrorType::AuthenticationError,
        store.code().status() == 422 || store.code().status() == 500,
        files.code().status() == 422 || files.code().status() == 500,
        engine.code().status() == 400 || engine.code().status() == 422 || engine.code().status()
            == 500,
        task.code().status() == 500,
{
}

} // verus!
