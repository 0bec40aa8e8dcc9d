use crate::error::names::{is_snake_case, lemma_entry_is_well_formed};
use vstd::prelude::*;

verus! {

/// 400 Bad Request
pub const BAD_REQUEST: u16 = 400;

/// 401 Unauthorized
pub const UNAUTHORIZED: u16 = 401;

/// 403 Forbidden
pub const FORBIDDEN: u16 = 403;

/// 404 Not Found
pub const NOT_FOUND: u16 = 404;

/// 409 Conflict
pub const CONFLICT: u16 = 409;

/// 413 Payload Too Large
pub const PAYLOAD_TOO_LARGE: u16 = 413;

/// 415 Unsupported Media Type
pub const UNSUPPORTED_MEDIA_TYPE: u16 = 415;

/// 422 Unprocessable Entity
pub const UNPROCESSABLE_ENTITY: u16 = 422;

/// 500 Internal Server Error
pub const INTERNAL_SERVER_ERROR: u16 = 500;

/// The broad class an error belongs to. It decides how much of the detail a
/// client may be shown.
#[derive(Debug, Clone, Copy, PartialEq, Eq, Structural)]
pub enum ErrorType {
    InternalError,
    InvalidRequestError,
    AuthenticationError,
}

impl ErrorType {
    /// The word that stands for the class in a response body.
    pub open spec fn wire_name(self) -> Seq<char> {
        match self {
            ErrorType::InternalError => "internal"@,
            ErrorType::InvalidRequestError => "invalid_request"@,
            ErrorType::AuthenticationError => "auth"@,
        }
    }

    /// The word that stands for the class in a response body.
    pub fn to_string(&self) -> (name: String)
        ensures
            name@ == self.wire_name(),
    {
        match self {
            ErrorType::InternalError => "internal".to_string(),
            ErrorType::InvalidRequestError => "invalid_request".to_string(),
            ErrorType::AuthenticationError => "auth".to_string(),
        }
    }
}

/// One entry of the catalog: what a client is told about a [`Code`].
#[derive(Debug, Clone, Copy)]
pub struct ErrCode {
    pub status_code: u16,
    pub error_type: ErrorType,
    pub error_name: &'static str,
}

impl ErrCode {
    /// The entry of a code whose error is one of missing or wrong credentials.
    pub fn authentication(error_name: &'static str, status_code: u16) -> (entry: ErrCode)
        ensures
            entry.status_code == status_code,
            entry.error_name == error_name,
            entry.error_type == ErrorType::AuthenticationError,
    {
        ErrCode { status_code, error_name, error_type: ErrorType::AuthenticationError }
    }

    /// The entry of a code whose error is a fault of the server.
    pub fn internal(error_name: &'static str, status_code: u16) -> (entry: ErrCode)
        ensures
            entry.status_code == status_code,
            entry.error_name == error_name,
            entry.error_type == ErrorType::InternalError,
    {
        ErrCode { status_code, error_name, error_type: ErrorType::InternalError }
    }

    /// The entry of a code whose error is in what the client sent.
    pub fn invalid(error_name: &'static str, status_code: u16) -> (entry: ErrCode)
        ensures
            entry.status_code == status_code,
            entry.error_name == error_name,
            entry.error_type == ErrorType::InvalidRequestError,
    {
        ErrCode { status_code, error_name, error_type: ErrorType::InvalidRequestError }
    }
}

/// Every error condition a client can be told about.
#[derive(Debug, Clone, Copy, PartialEq, Eq, Structural)]
pub enum Code {
    // error related to your setup
    IoError,
    NoSpaceLeftOnDevice,
    TooManyOpenFiles,
    // index related error
    CreateIndex,
    IndexAlreadyExists,
    IndexNotFound,
    InvalidIndexUid,
    InvalidMinWordLengthForTypo,
    DuplicateIndexFound,
    // invalid state error
    InvalidState,
    MissingPrimaryKey,
    PrimaryKeyAlreadyPresent,
    MaxFieldsLimitExceeded,
    MissingDocumentId,
    InvalidDocumentId,
    Filter,
    Sort,
    BadParameter,
    BadRequest,
    DatabaseSizeLimitReached,
    DocumentNotFound,
    Internal,
    InvalidGeoField,
    InvalidRankingRule,
    InvalidStore,
    InvalidToken,
    MissingAuthorizationHeader,
    MissingMasterKey,
    DumpNotFound,
    InvalidTaskDateFilter,
    InvalidTaskStatusesFilter,
    InvalidTaskTypesFilter,
    InvalidTaskCanceledByFilter,
    InvalidTaskUidsFilter,
    TaskNotFound,
    TaskDeletionWithEmptyQuery,
    TaskCancelationWithEmptyQuery,
    PayloadTooLarge,
    RetrieveDocument,
    SearchDocuments,
    UnsupportedMediaType,
    DumpAlreadyInProgress,
    DumpProcessFailed,
    // only met when a dump is imported
    UnretrievableErrorCode,
    InvalidContentType,
    MissingContentType,
    MalformedPayload,
    MissingPayload,
    ApiKeyNotFound,
    MissingParameter,
    InvalidApiKeyActions,
    InvalidApiKeyIndexes,
    InvalidApiKeyExpiresAt,
    InvalidApiKeyDescription,
    InvalidApiKeyName,
    InvalidApiKeyUid,
    ImmutableField,
    ApiKeyAlreadyExists,
}

/// Where the documentation of every code begins; the code's name follows.
pub const DOC_LINK_PREFIX: &'static str = "https://docs.meilisearch.com/errors#";

impl Code {
    /// The class of the code. Server-side faults are internal, the three
    /// credential failures are authentication errors, and everything else is
    /// the client's doing.
    pub open spec fn category(self) -> ErrorType {
        match self {
            Code::CreateIndex
            | Code::InvalidState
            | Code::InvalidStore
            | Code::DatabaseSizeLimitReached
            | Code::Internal
            | Code::RetrieveDocument
            | Code::SearchDocuments
            | Code::DumpProcessFailed => ErrorType::InternalError,
            Code::InvalidToken
            | Code::MissingAuthorizationHeader
            | Code::MissingMasterKey => ErrorType::AuthenticationError,
            _ => ErrorType::InvalidRequestError,
        }
    }

    /// The HTTP status that goes with the code.
    pub open spec fn status(self) -> u16 {
        match self {
            Code::IoError | Code::NoSpaceLeftOnDevice | Code::TooManyOpenFiles => 422,
            Code::CreateIndex
            | Code::InvalidState
            | Code::InvalidStore
            | Code::DatabaseSizeLimitReached
            | Code::Internal
            | Code::DumpProcessFailed => 500,
            Code::IndexAlreadyExists
            | Code::DumpAlreadyInProgress
            | Code::ApiKeyAlreadyExists => 409,
            Code::IndexNotFound
            | Code::DocumentNotFound
            | Code::TaskNotFound
            | Code::DumpNotFound
            | Code::ApiKeyNotFound => 404,
            Code::InvalidToken => 403,
            Code::MissingAuthorizationHeader | Code::MissingMasterKey => 401,
            Code::PayloadTooLarge => 413,
            Code::UnsupportedMediaType
            | Code::MissingContentType
            | Code::InvalidContentType => 415,
            _ => 400,
        }
    }

    /// The name by which clients know the code. It never changes once given.
    pub open spec fn stable_name(self) -> Seq<char> {
        match self {
            Code::IoError => "io_error"@,
            Code::NoSpaceLeftOnDevice => "no_space_left_on_device"@,
            Code::TooManyOpenFiles => "too_many_open_files"@,
            Code::CreateIndex => "index_creation_failed"@,
            Code::IndexAlreadyExists => "index_already_exists"@,
            Code::IndexNotFound => "index_not_found"@,
            Code::InvalidIndexUid => "invalid_index_uid"@,
            Code::InvalidMinWordLengthForTypo => "invalid_min_word_length_for_typo"@,
            Code::DuplicateIndexFound => "duplicate_index_found"@,
            Code::InvalidState => "invalid_state"@,
            Code::MissingPrimaryKey => "primary_key_inference_failed"@,
            Code::PrimaryKeyAlreadyPresent => "index_primary_key_already_exists"@,
            Code::MaxFieldsLimitExceeded => "max_fields_limit_exceeded"@,
            Code::MissingDocumentId => "missing_document_id"@,
            Code::InvalidDocumentId => "invalid_document_id"@,
            Code::Filter => "invalid_filter"@,
            Code::Sort => "invalid_sort"@,
            Code::BadParameter => "bad_parameter"@,
            Code::BadRequest => "bad_request"@,
            Code::DatabaseSizeLimitReached => "database_size_limit_reached"@,
            Code::DocumentNotFound => "document_not_found"@,
            Code::Internal => "internal"@,
            Code::InvalidGeoField => "invalid_geo_field"@,
            Code::InvalidRankingRule => "invalid_ranking_rule"@,
            Code::InvalidStore => "invalid_store_file"@,
            Code::InvalidToken => "invalid_api_key"@,
            Code::MissingAuthorizationHeader => "missing_authorization_header"@,
            Code::MissingMasterKey => "missing_master_key"@,
            Code::DumpNotFound => "dump_not_found"@,
            Code::InvalidTaskDateFilter => "invalid_task_date_filter"@,
            Code::InvalidTaskStatusesFilter => "invalid_task_statuses_filter"@,
            Code::InvalidTaskTypesFilter => "invalid_task_types_filter"@,
            Code::InvalidTaskCanceledByFilter => "invalid_task_canceled_by_filter"@,
            Code::InvalidTaskUidsFilter => "invalid_task_uids_filter"@,
            Code::TaskNotFound => "task_not_found"@,
            Code::TaskDeletionWithEmptyQuery => "missing_task_filters"@,
            Code::TaskCancelationWithEmptyQuery => "missing_task_cancelation_filters"@,
            Code::PayloadTooLarge => "payload_too_large"@,
            Code::RetrieveDocument => "unretrievable_document"@,
            Code::SearchDocuments => "search_error"@,
            Code::UnsupportedMediaType => "unsupported_media_type"@,
            Code::DumpAlreadyInProgress => "dump_already_processing"@,
            Code::DumpProcessFailed => "dump_process_failed"@,
            Code::UnretrievableErrorCode => "unretrievable_error_code"@,
            Code::InvalidContentType => "invalid_content_type"@,
            Code::MissingContentType => "missing_content_type"@,
            Code::MalformedPayload => "malformed_payload"@,
            Code::MissingPayload => "missing_payload"@,
            Code::ApiKeyNotFound => "api_key_not_found"@,
            Code::MissingParameter => "missing_parameter"@,
            Code::InvalidApiKeyActions => "invalid_api_key_actions"@,
            Code::InvalidApiKeyIndexes => "invalid_api_key_indexes"@,
            Code::InvalidApiKeyExpiresAt => "invalid_api_key_expires_at"@,
            Code::InvalidApiKeyDescription => "invalid_api_key_description"@,
            Code::InvalidApiKeyName => "invalid_api_key_name"@,
            Code::InvalidApiKeyUid => "invalid_api_key_uid"@,
            Code::ImmutableField => "immutable_field"@,
            Code::ApiKeyAlreadyExists => "api_key_already_exists"@,
        }
    }

    /// Where the code is documented: always the one prefix, then its name.
    pub open spec fn doc_link(self) -> Seq<char> {
        DOC_LINK_PREFIX@ + self.stable_name()
    }

    /// Every code, each once.
    pub fn all() -> (codes: [Code; 58])
        ensures
            forall|code: Code| codes@.contains(code),
            forall|i: int, j: int| 0 <= i < j < 58 ==> codes@[i] != codes@[j],
    {
        let codes = [
            Code::IoError,
            Code::NoSpaceLeftOnDevice,
            Code::TooManyOpenFiles,
            Code::CreateIndex,
            Code::IndexAlreadyExists,
            Code::IndexNotFound,
            Code::InvalidIndexUid,
            Code::InvalidMinWordLengthForTypo,
            Code::DuplicateIndexFound,
            Code::InvalidState,
            Code::MissingPrimaryKey,
            Code::PrimaryKeyAlreadyPresent,
            Code::MaxFieldsLimitExceeded,
            Code::MissingDocumentId,
            Code::InvalidDocumentId,
            Code::Filter,
            Code::Sort,
            Code::BadParameter,
            Code::BadRequest,
            Code::DatabaseSizeLimitReached,
            Code::DocumentNotFound,
            Code::Internal,
            Code::InvalidGeoField,
            Code::InvalidRankingRule,
            Code::InvalidStore,
            Code::InvalidToken,
            Code::MissingAuthorizationHeader,
            Code::MissingMasterKey,
            Code::DumpNotFound,
            Code::InvalidTaskDateFilter,
            Code::InvalidTaskStatusesFilter,
            Code::InvalidTaskTypesFilter,
            Code::InvalidTaskCanceledByFilter,
            Code::InvalidTaskUidsFilter,
            Code::TaskNotFound,
            Code::TaskDeletionWithEmptyQuery,
            Code::TaskCancelationWithEmptyQuery,
            Code::PayloadTooLarge,
            Code::RetrieveDocument,
            Code::SearchDocuments,
            Code::UnsupportedMediaType,
            Code::DumpAlreadyInProgress,
            Code::DumpProcessFailed,
            Code::UnretrievableErrorCode,
            Code::InvalidContentType,
            Code::MissingContentType,
            Code::MalformedPayload,
            Code::MissingPayload,
            Code::ApiKeyNotFound,
            Code::MissingParameter,
            Code::InvalidApiKeyActions,
            Code::InvalidApiKeyIndexes,
            Code::InvalidApiKeyExpiresAt,
            Code::InvalidApiKeyDescription,
            Code::InvalidApiKeyName,
            Code::InvalidApiKeyUid,
            Code::ImmutableField,
            Code::ApiKeyAlreadyExists,
        ];
        assert forall|code: Code| codes@.contains(code) by {
            assert(exists|i: int| 0 <= i < 58 && codes@[i] == code);
        }
        codes
    }

    /// The code that clients know by `name`, if there is one.
    pub fn from_name(name: &str) -> (found: Option<Code>)
        ensures
            match found {
                Some(code) => code.stable_name() == name@,
                None => forall|code: Code| code.stable_name() != name@,
            },
    {
        let codes = Code::all();
        let wanted = name.to_string();
        let mut i: usize = 0;
        while i < 58
            invariant
                i <= 58,
                wanted@ == name@,
                forall|code: Code| codes@.contains(code),
                forall|j: int| 0 <= j < i ==> codes@[j].stable_name() != name@,
            decreases 58 - i,
        {
            let code = codes[i];
            if code.name() == wanted {
                return Some(code);
            }
            i += 1;
        }
        assert forall|code: Code| code.stable_name() != name@ by {
            assert(codes@.contains(code));
        }
        None
    }

    /// The catalog entry of the code.
    pub fn err_code(&self) -> (entry: ErrCode)
        ensures
            entry.status_code == self.status(),
            entry.error_type == self.category(),
            entry.error_name@ == self.stable_name(),
            100 <= entry.status_code <= 599,
            is_snake_case(entry.error_name@),
    {
        proof {
            lemma_entry_is_well_formed(*self);
        }
        match self {
            // related to the setup
            Code::IoError => ErrCode::invalid("io_error", UNPROCESSABLE_ENTITY),
            Code::TooManyOpenFiles => ErrCode::invalid("too_many_open_files", UNPROCESSABLE_ENTITY),
            Code::NoSpaceLeftOnDevice => {
                ErrCode::invalid("no_space_left_on_device", UNPROCESSABLE_ENTITY)
            },
            // index related errors
            // an internal failure while an index was being created
            Code::CreateIndex => ErrCode::internal("index_creation_failed", INTERNAL_SERVER_ERROR),
            Code::IndexAlreadyExists => ErrCode::invalid("index_already_exists", CONFLICT),
            // the index that was asked for does not exist
            Code::IndexNotFound => ErrCode::invalid("index_not_found", NOT_FOUND),
            Code::InvalidIndexUid => ErrCode::invalid("invalid_index_uid", BAD_REQUEST),
            // invalid state error
            Code::InvalidState => ErrCode::internal("invalid_state", INTERNAL_SERVER_ERROR),
            // no primary key has been set
            Code::MissingPrimaryKey => {
                ErrCode::invalid("primary_key_inference_failed", BAD_REQUEST)
            },
            // an attempt to set a primary key where there is one already
            Code::PrimaryKeyAlreadyPresent => {
                ErrCode::invalid("index_primary_key_already_exists", BAD_REQUEST)
            },
            // invalid ranking rule
            Code::InvalidRankingRule => ErrCode::invalid("invalid_ranking_rule", BAD_REQUEST),
            // invalid database
            Code::InvalidStore => ErrCode::internal("invalid_store_file", INTERNAL_SERVER_ERROR),
            // invalid document
            Code::MaxFieldsLimitExceeded => {
                ErrCode::invalid("max_fields_limit_exceeded", BAD_REQUEST)
            },
            Code::MissingDocumentId => ErrCode::invalid("missing_document_id", BAD_REQUEST),
            Code::InvalidDocumentId => ErrCode::invalid("invalid_document_id", BAD_REQUEST),
            // error related to filters
            Code::Filter => ErrCode::invalid("invalid_filter", BAD_REQUEST),
            // error related to sorts
            Code::Sort => ErrCode::invalid("invalid_sort", BAD_REQUEST),
            Code::BadParameter => ErrCode::invalid("bad_parameter", BAD_REQUEST),
            Code::BadRequest => ErrCode::invalid("bad_request", BAD_REQUEST),
            Code::DatabaseSizeLimitReached => {
                ErrCode::internal("database_size_limit_reached", INTERNAL_SERVER_ERROR)
            },
            Code::DocumentNotFound => ErrCode::invalid("document_not_found", NOT_FOUND),
            Code::Internal => ErrCode::internal("internal", INTERNAL_SERVER_ERROR),
            Code::InvalidGeoField => ErrCode::invalid("invalid_geo_field", BAD_REQUEST),
            Code::InvalidToken => ErrCode::authentication("invalid_api_key", FORBIDDEN),
            Code::MissingAuthorizationHeader => {
                ErrCode::authentication("missing_authorization_header", UNAUTHORIZED)
            },
            Code::MissingMasterKey => ErrCode::authentication("missing_master_key", UNAUTHORIZED),
            Code::InvalidTaskDateFilter => {
                ErrCode::invalid("invalid_task_date_filter", BAD_REQUEST)
            },
            Code::InvalidTaskUidsFilter => {
                ErrCode::invalid("invalid_task_uids_filter", BAD_REQUEST)
            },
            Code::InvalidTaskStatusesFilter => {
                ErrCode::invalid("invalid_task_statuses_filter", BAD_REQUEST)
            },
            Code::InvalidTaskTypesFilter => {
                ErrCode::invalid("invalid_task_types_filter", BAD_REQUEST)
            },
            Code::InvalidTaskCanceledByFilter => {
                ErrCode::invalid("invalid_task_canceled_by_filter", BAD_REQUEST)
            },
            Code::TaskNotFound => ErrCode::invalid("task_not_found", NOT_FOUND),
            Code::TaskDeletionWithEmptyQuery => {
                ErrCode::invalid("missing_task_filters", BAD_REQUEST)
            },
            Code::TaskCancelationWithEmptyQuery => {
                ErrCode::invalid("missing_task_cancelation_filters", BAD_REQUEST)
            },
            Code::DumpNotFound => ErrCode::invalid("dump_not_found", NOT_FOUND),
            Code::PayloadTooLarge => ErrCode::invalid("payload_too_large", PAYLOAD_TOO_LARGE),
            Code::RetrieveDocument => ErrCode::internal("unretrievable_document", BAD_REQUEST),
            Code::SearchDocuments => ErrCode::internal("search_error", BAD_REQUEST),
            Code::UnsupportedMediaType => {
                ErrCode::invalid("unsupported_media_type", UNSUPPORTED_MEDIA_TYPE)
            },
            // error related to dump
            Code::DumpAlreadyInProgress => ErrCode::invalid("dump_already_processing", CONFLICT),
            Code::DumpProcessFailed => {
                ErrCode::internal("dump_process_failed", INTERNAL_SERVER_ERROR)
            },
            Code::MissingContentType => {
                ErrCode::invalid("missing_content_type", UNSUPPORTED_MEDIA_TYPE)
            },
            Code::MalformedPayload => ErrCode::invalid("malformed_payload", BAD_REQUEST),
            Code::InvalidContentType => {
                ErrCode::invalid("invalid_content_type", UNSUPPORTED_MEDIA_TYPE)
            },
            Code::MissingPayload => ErrCode::invalid("missing_payload", BAD_REQUEST),
            // met only when a dump is imported and its task queue holds a code
            // that is not known
            Code::UnretrievableErrorCode => {
                ErrCode::invalid("unretrievable_error_code", BAD_REQUEST)
            },
            // error related to keys
            Code::ApiKeyNotFound => ErrCode::invalid("api_key_not_found", NOT_FOUND),
            Code::MissingParameter => ErrCode::invalid("missing_parameter", BAD_REQUEST),
            Code::InvalidApiKeyActions => ErrCode::invalid("invalid_api_key_actions", BAD_REQUEST),
            Code::InvalidApiKeyIndexes => ErrCode::invalid("invalid_api_key_indexes", BAD_REQUEST),
            Code::InvalidApiKeyExpiresAt => {
                ErrCode::invalid("invalid_api_key_expires_at", BAD_REQUEST)
            },
            Code::InvalidApiKeyDescription => {
                ErrCode::invalid("invalid_api_key_description", BAD_REQUEST)
            },
            Code::InvalidApiKeyName => ErrCode::invalid("invalid_api_key_name", BAD_REQUEST),
            Code::InvalidApiKeyUid => ErrCode::invalid("invalid_api_key_uid", BAD_REQUEST),
            Code::ApiKeyAlreadyExists => ErrCode::invalid("api_key_already_exists", CONFLICT),
            Code::ImmutableField => ErrCode::invalid("immutable_field", BAD_REQUEST),
            Code::InvalidMinWordLengthForTypo => {
                ErrCode::invalid("invalid_min_word_length_for_typo", BAD_REQUEST)
            },
            Code::DuplicateIndexFound => ErrCode::invalid("duplicate_index_found", BAD_REQUEST),
        }
    }

    /// The HTTP status that goes with the code.
    pub fn http(&self) -> (status: u16)
        ensures
            status == self.status(),
            100 <= status <= 599,
    {
        self.err_code().status_code
    }

    /// The name of the code, as clients see it.
    pub fn name(&self) -> (name: String)
        ensures
            name@ == self.stable_name(),
            is_snake_case(name@),
    {
        self.err_code().error_name.to_string()
    }

    /// The class of the code, as clients see it.
    pub fn type_(&self) -> (name: String)
        ensures
            name@ == self.category().wire_name(),
    {
        self.err_code().error_type.to_string()
    }

    /// The address of the code's documentation.
    pub fn url(&self) -> (link: String)
        ensures
            link@ == self.doc_link(),
    {
        let mut link = DOC_LINK_PREFIX.to_string();
        link.append(self.err_code().error_name);
        link
    }
}

/// How the class and the status of a code go together: every status is one
/// of a client's or of the server's errors; a failure of credentials, and
/// nothing else, is answered with 401 or 403; and what is answered with 500
/// is internal.
pub proof fn lemma_class_and_status_agree(code: Code)
    ensures
        400 <= code.status() <= 599,
        code.category() == ErrorType::AuthenticationError <==> code.status() == 401
            || code.status() == 403,
        code.status() >= 500 ==> code.status() == 500 && code.category()
            == ErrorType::InternalError,
{
}

} // verus!
