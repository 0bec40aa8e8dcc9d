use meilisearch_types::error::classify::{ErrorCode, InternalCause};
use meilisearch_types::error::failure::{
    EngineFailure, FileStoreFailure, JoinFailure, MdbFailure, PersistFailure, StoreFailure,
    UserFailure,
};
use meilisearch_types::error::os::IoFailure;
use meilisearch_types::error::Code;

fn numbered(number: i32) -> IoFailure {
    IoFailure { raw_os_error: Some(number) }
}

#[test]
fn three_os_error_numbers_have_a_code_of_their_own() {
    assert_eq!(numbered(5).error_code(), Code::IoError);
    assert_eq!(numbered(24).error_code(), Code::TooManyOpenFiles);
    assert_eq!(numbered(28).error_code(), Code::NoSpaceLeftOnDevice);
}

#[test]
fn any_other_os_error_number_is_internal() {
    for number in [2, 0, 1, 4, 6, 13, 23, 25, 27, 29, -5, i32::MIN, i32::MAX] {
        assert_eq!(numbered(number).error_code(), Code::Internal, "{}", number);
    }
}

#[test]
fn a_failure_without_a_number_is_internal() {
    assert_eq!(IoFailure { raw_os_error: None }.error_code(), Code::Internal);
}

#[test]
fn an_io_error_is_known_by_its_os_number() {
    let full = std::io::Error::from_raw_os_error(28);
    assert_eq!(IoFailure::of(&full), numbered(28));
    assert_eq!(IoFailure::of(&full).error_code(), Code::NoSpaceLeftOnDevice);
    let io = std::io::Error::from_raw_os_error(5);
    assert_eq!(IoFailure::of(&io).error_code(), Code::IoError);
    let files = std::io::Error::from_raw_os_error(24);
    assert_eq!(IoFailure::of(&files).error_code(), Code::TooManyOpenFiles);
    let missing = std::io::Error::from_raw_os_error(2);
    assert_eq!(IoFailure::of(&missing), numbered(2));
    assert_eq!(IoFailure::of(&missing).error_code(), Code::Internal);
}

#[test]
fn an_io_error_of_the_program_has_no_number() {
    let made = std::io::Error::new(std::io::ErrorKind::Other, "made here");
    assert_eq!(IoFailure::of(&made), IoFailure { raw_os_error: None });
    assert_eq!(IoFailure::of(&made).error_code(), Code::Internal);
    let kind = std::io::Error::from(std::io::ErrorKind::NotFound);
    assert_eq!(IoFailure::of(&kind).raw_os_error, None);
}

#[test]
fn no_space_left_is_answered_with_422() {
    let failure = IoFailure::of(&std::io::Error::from_raw_os_error(28));
    assert_eq!(failure.error_code(), Code::NoSpaceLeftOnDevice);
    assert_eq!(failure.http_status(), 422);
    assert_eq!(failure.error_name(), "no_space_left_on_device");
    assert_eq!(failure.error_type(), "invalid_request");
    assert_eq!(failure.error_url(), "https://docs.meilisearch.com/errors#no_space_left_on_device");
}

#[test]
fn a_full_map_is_a_database_size_limit() {
    let failure = StoreFailure::Mdb(MdbFailure::MapFull);
    assert_eq!(failure.error_code(), Code::DatabaseSizeLimitReached);
    assert_eq!(failure.http_status(), 500);
}

#[test]
fn an_invalid_database_is_an_invalid_store() {
    let failure = StoreFailure::Mdb(MdbFailure::Invalid);
    assert_eq!(failure.error_code(), Code::InvalidStore);
    assert_eq!(failure.http_status(), 500);
    assert_eq!(failure.error_name(), "invalid_store_file");
}

#[test]
fn the_rest_of_the_store_is_internal() {
    let failures = [
        StoreFailure::Mdb(MdbFailure::Other),
        StoreFailure::Encoding,
        StoreFailure::Decoding,
        StoreFailure::InvalidDatabaseTyping,
        StoreFailure::DatabaseClosing,
        StoreFailure::BadOpenOptions,
    ];
    for failure in failures {
        assert_eq!(failure.error_code(), Code::Internal, "{:?}", failure);
        assert_eq!(failure.http_status(), 500);
        assert_eq!(failure.error_type(), "internal");
    }
}

#[test]
fn a_cause_is_classified_alike_wherever_it_is_wrapped() {
    for raw in [None, Some(2), Some(5), Some(24), Some(28), Some(29)] {
        let cause = IoFailure { raw_os_error: raw };
        let code = cause.error_code();
        assert_eq!(StoreFailure::Io(cause).error_code(), code);
        assert_eq!(EngineFailure::IoError(cause).error_code(), code);
        assert_eq!(FileStoreFailure::IoError(cause).error_code(), code);
        assert_eq!(PersistFailure { error: cause }.error_code(), code);
        assert_eq!(
            FileStoreFailure::PersistError(PersistFailure { error: cause }).error_code(),
            code
        );
    }
    assert_eq!(
        FileStoreFailure::PersistError(PersistFailure { error: numbered(24) }).error_code(),
        Code::TooManyOpenFiles
    );
    assert_eq!(StoreFailure::Io(numbered(5)).error_code(), Code::IoError);
}

#[test]
fn every_user_failure_has_its_code() {
    let expected = [
        (UserFailure::SerdeJson, Code::Internal),
        (UserFailure::InvalidLmdbOpenOptions, Code::Internal),
        (UserFailure::DocumentLimitReached, Code::Internal),
        (UserFailure::AccessingSoftDeletedDocument, Code::Internal),
        (UserFailure::UnknownInternalDocumentId, Code::Internal),
        (UserFailure::InvalidStoreFile, Code::InvalidStore),
        (UserFailure::NoSpaceLeftOnDevice, Code::NoSpaceLeftOnDevice),
        (UserFailure::MaxDatabaseSizeReached, Code::DatabaseSizeLimitReached),
        (UserFailure::AttributeLimitReached, Code::MaxFieldsLimitExceeded),
        (UserFailure::InvalidFilter, Code::Filter),
        (UserFailure::MissingDocumentId, Code::MissingDocumentId),
        (UserFailure::InvalidDocumentId, Code::InvalidDocumentId),
        (UserFailure::TooManyDocumentIds, Code::InvalidDocumentId),
        (UserFailure::MissingPrimaryKey, Code::MissingPrimaryKey),
        (UserFailure::PrimaryKeyCannotBeChanged, Code::PrimaryKeyAlreadyPresent),
        (UserFailure::SortRankingRuleMissing, Code::Sort),
        (UserFailure::InvalidFacetsDistribution, Code::BadRequest),
        (UserFailure::InvalidSortableAttribute, Code::Sort),
        (UserFailure::CriterionError, Code::InvalidRankingRule),
        (UserFailure::InvalidGeoField, Code::InvalidGeoField),
        (UserFailure::SortError, Code::Sort),
        (UserFailure::InvalidMinTypoWordLenSetting, Code::InvalidMinWordLengthForTypo),
    ];
    for (failure, code) in expected {
        assert_eq!(failure.error_code(), code, "{:?}", failure);
        assert_eq!(EngineFailure::UserError(failure).error_code(), code, "{:?}", failure);
    }
}

#[test]
fn what_the_engine_gets_wrong_itself_is_internal() {
    assert_eq!(EngineFailure::InternalError.error_code(), Code::Internal);
    assert_eq!(EngineFailure::InternalError.http_status(), 500);
}

#[test]
fn a_task_that_ended_abnormally_is_internal() {
    assert_eq!(JoinFailure.error_code(), Code::Internal);
    assert_eq!(JoinFailure.error_name(), "internal");
}

#[test]
fn a_wrapped_cause_is_internal_whatever_it_is() {
    let number = InternalCause::from(7u8);
    assert_eq!(number.cause, 7);
    assert_eq!(number.error_code(), Code::Internal);
    let text: InternalCause<String> = String::from("lock poisoned").into();
    assert_eq!(text.cause, "lock poisoned");
    assert_eq!(text.error_code(), Code::Internal);
    let full = InternalCause::from(StoreFailure::Mdb(MdbFailure::MapFull));
    assert_eq!(full.cause, StoreFailure::Mdb(MdbFailure::MapFull));
    assert_eq!(full.error_code(), Code::Internal);
    assert_eq!(full.http_status(), 500);
    let io = InternalCause::from(std::io::Error::from_raw_os_error(28));
    assert_eq!(io.error_code(), Code::Internal);
}

#[test]
fn what_a_client_is_told_follows_from_the_code() {
    let failures = [
        EngineFailure::InternalError,
        EngineFailure::IoError(numbered(24)),
        EngineFailure::UserError(UserFailure::InvalidFilter),
        EngineFailure::UserError(UserFailure::MissingPrimaryKey),
    ];
    for failure in failures {
        let code = failure.error_code();
        assert_eq!(failure.http_status(), code.http());
        assert_eq!(failure.error_name(), code.name());
        assert_eq!(failure.error_type(), code.type_());
        assert_eq!(failure.error_url(), code.url());
    }
    let filter = EngineFailure::UserError(UserFailure::InvalidFilter);
    assert_eq!(filter.http_status(), 400);
    assert_eq!(filter.error_name(), "invalid_filter");
    assert_eq!(filter.error_type(), "invalid_request");
    assert_eq!(filter.error_url(), "https://docs.meilisearch.com/errors#invalid_filter");
}

struct QueueFull;

impl ErrorCode for QueueFull {
    fn code(&self) -> Code {
        Code::PayloadTooLarge
    }

    fn error_code(&self) -> Code {
        Code::PayloadTooLarge
    }
}

struct Unknown;

impl ErrorCode for Unknown {
    fn error_code(&self) -> Code {
        Code::Internal
    }
}

#[test]
fn an_error_that_says_nothing_else_is_internal() {
    assert_eq!(Unknown.error_code(), Code::Internal);
    assert_eq!(Unknown.http_status(), 500);
    assert_eq!(Unknown.error_name(), "internal");
    assert_eq!(Unknown.error_type(), "internal");
}

#[test]
fn an_error_of_ones_own_is_told_by_its_code() {
    assert_eq!(QueueFull.error_code(), Code::PayloadTooLarge);
    assert_eq!(QueueFull.http_status(), 413);
    assert_eq!(QueueFull.error_name(), "payload_too_large");
    assert_eq!(QueueFull.error_type(), "invalid_request");
    assert_eq!(QueueFull.error_url(), "https://docs.meilisearch.com/errors#payload_too_large");
    let response = meilisearch_types::error::ResponseError::from_error(String::from("the queue is full"), &QueueFull);
    assert_eq!(response.status_code(), 413);
    assert_eq!(response.error_code(), "payload_too_large");
    assert_eq!(response.message(), "the queue is full");
}

#[test]
fn an_io_error_holds_the_number_it_was_made_with() {
    for number in [0, 1, 2, 5, 24, 28, 29, 110, i32::MAX, -1] {
        let error = std::io::Error::from_raw_os_error(number);
        assert_eq!(IoFailure::of(&error).raw_os_error, Some(number));
        assert_eq!(IoFailure::of(&error), IoFailure::of(&error));
    }
}
