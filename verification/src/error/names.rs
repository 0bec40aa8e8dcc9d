use crate::error::code::{Code, DOC_LINK_PREFIX};
use vstd::prelude::*;

verus! {

/// A lower-case ASCII letter.
pub open spec fn is_lower_letter(c: char) -> bool {
    'a' <= c && c <= 'z'
}

/// Words of lower-case ASCII letters, joined by single underscores: at least
/// one word, and no underscore at either end.
pub open spec fn is_snake_case(name: Seq<char>) -> bool {
    &&& name.len() > 0
    &&& is_lower_letter(name[0])
    &&& is_lower_letter(name[name.len() - 1])
    &&& forall|i: int| 0 <= i < name.len() ==> is_lower_letter(#[trigger] name[i]) || name[i] == '_'
    &&& forall|i: int| 0 < i < name.len() ==> !(name[i - 1] == '_' && #[trigger] name[i] == '_')
}

/// What the laws below need of the names, with every name spelled out once:
/// each is in snake case, and no two codes have one name.
proof fn lemma_names_spelled_out()
    ensures
        forall|code: Code| is_snake_case(#[trigger] code.stable_name()),
        forall|a: Code, b: Code|
            a != b ==> #[trigger] a.stable_name() != #[trigger] b.stable_name(),
{
    reveal_strlit("io_error");
    reveal_strlit("no_space_left_on_device");
    reveal_strlit("too_many_open_files");
    reveal_strlit("index_creation_failed");
    reveal_strlit("index_already_exists");
    reveal_strlit("index_not_found");
    reveal_strlit("invalid_index_uid");
    reveal_strlit("invalid_min_word_length_for_typo");
    reveal_strlit("duplicate_index_found");
    reveal_strlit("invalid_state");
    reveal_strlit("primary_key_inference_failed");
    reveal_strlit("index_primary_key_already_exists");
    reveal_strlit("max_fields_limit_exceeded");
    reveal_strlit("missing_document_id");
    reveal_strlit("invalid_document_id");
    reveal_strlit("invalid_filter");
    reveal_strlit("invalid_sort");
    reveal_strlit("bad_parameter");
    reveal_strlit("bad_request");
    reveal_strlit("database_size_limit_reached");
    reveal_strlit("document_not_found");
    reveal_strlit("internal");
    reveal_strlit("invalid_geo_field");
    reveal_strlit("invalid_ranking_rule");
    reveal_strlit("invalid_store_file");
    reveal_strlit("invalid_api_key");
    reveal_strlit("missing_authorization_header");
    reveal_strlit("missing_master_key");
    reveal_strlit("dump_not_found");
    reveal_strlit("invalid_task_date_filter");
    reveal_strlit("invalid_task_statuses_filter");
    reveal_strlit("invalid_task_types_filter");
    reveal_strlit("invalid_task_canceled_by_filter");
    reveal_strlit("invalid_task_uids_filter");
    reveal_strlit("task_not_found");
    reveal_strlit("missing_task_filters");
    reveal_strlit("missing_task_cancelation_filters");
    reveal_strlit("payload_too_large");
    reveal_strlit("unretrievable_document");
    reveal_strlit("search_error");
    reveal_strlit("unsupported_media_type");
    reveal_strlit("dump_already_processing");
    reveal_strlit("dump_process_failed");
    reveal_strlit("unretrievable_error_code");
    reveal_strlit("invalid_content_type");
    reveal_strlit("missing_content_type");
    reveal_strlit("malformed_payload");
    reveal_strlit("missing_payload");
    reveal_strlit("api_key_not_found");
    reveal_strlit("missing_parameter");
    reveal_strlit("invalid_api_key_actions");
    reveal_strlit("invalid_api_key_indexes");
    reveal_strlit("invalid_api_key_expires_at");
    reveal_strlit("invalid_api_key_description");
    reveal_strlit("invalid_api_key_name");
    reveal_strlit("invalid_api_key_uid");
    reveal_strlit("immutable_field");
    reveal_strlit("api_key_already_exists");
    assert forall|a: Code, b: Code| a != b implies #[trigger] a.stable_name()
        != #[trigger] b.stable_name() by {
        // Two names of one length differ in their third, fifteenth or
        // seventeenth character.
        let x = a.stable_name();
        let y = b.stable_name();
        assert(x.len() != y.len() || x[2] != y[2] || x[14] != y[14] || x[16] != y[16]);
    }
}

/// The status of every code is an HTTP status, and its name is in snake
/// case, and so not empty.
pub proof fn lemma_entry_is_well_formed(code: Code)
    ensures
        100 <= code.status() <= 599,
        is_snake_case(code.stable_name()),
{
    lemma_names_spelled_out();
}

/// No two codes share a name.
pub proof fn lemma_stable_name_is_injective(a: Code, b: Code)
    requires
        a != b,
    ensures
        a.stable_name() != b.stable_name(),
{
    lemma_names_spelled_out();
}

/// No two codes are documented in one place.
pub proof fn lemma_doc_link_is_injective(a: Code, b: Code)
    requires
        a != b,
    ensures
        a.doc_link() != b.doc_link(),
{
    lemma_stable_name_is_injective(a, b);
    let prefix = DOC_LINK_PREFIX@;
    assert(a.doc_link().subrange(prefix.len() as int, a.doc_link().len() as int)
        =~= a.stable_name());
    assert(b.doc_link().subrange(prefix.len() as int, b.doc_link().len() as int)
        =~= b.stable_name());
}

} // verus!
