use crate::error::classify::ErrorCode;
use crate::error::code::{Code, DOC_LINK_PREFIX};
use crate::error::json::{json_string, to_json_string};
use crate::error::names::lemma_stable_name_is_injective;
use vstd::prelude::*;
use vstd::std_specs::cmp::PartialEqSpecImpl;
use vstd::utf8::encode_utf8;

verus! {

/// What is added to the message of an I/O error, to say what usually causes
/// one.
pub const IO_ERROR_HINT: &'static str =
    " This error generally happens when you have no space left on device or when your database doesn't have read or write right.";

/// What an error response holds, as plain values.
pub ghost struct Envelope {
    pub status: u16,
    pub message: Seq<char>,
    pub code: Seq<char>,
    pub type_: Seq<char>,
    pub link: Seq<char>,
}

impl Envelope {
    /// The response for an error of the given code with the given message.
    /// Only the message of an I/O error is added to; the rest is the code's
    /// catalog entry.
    pub open spec fn build(message: Seq<char>, code: Code) -> Envelope {
        Envelope {
            status: code.status(),
            message: if code == Code::IoError {
                message + IO_ERROR_HINT@
            } else {
                message
            },
            code: code.stable_name(),
            type_: code.category().wire_name(),
            link: code.doc_link(),
        }
    }

    /// The response that holds these five values.
    pub open spec fn of_parts(
        status: u16,
        message: Seq<char>,
        code: Seq<char>,
        type_: Seq<char>,
        link: Seq<char>,
    ) -> Envelope {
        Envelope { status, message, code, type_, link }
    }

    /// All but the message is the catalog entry of `code`.
    pub open spec fn is_entry_of(self, code: Code) -> bool {
        &&& self.status == code.status()
        &&& self.code == code.stable_name()
        &&& self.type_ == code.category().wire_name()
        &&& self.link == code.doc_link()
    }

    /// The response is that of some code of the catalog.
    pub open spec fn is_catalogued(self) -> bool {
        exists|code: Code| self.is_entry_of(code)
    }

    /// The body that a client receives: the four strings, each as a JSON
    /// string, in one JSON object. The status is no part of it.
    pub open spec fn body(self) -> Seq<char> {
        body_of(
            json_string(self.message),
            json_string(self.code),
            json_string(self.type_),
            json_string(self.link),
        )
    }
}

/// The JSON object with the members `message`, `code`, `type` and `link`, in
/// this order and with nothing between them, where each argument is the JSON
/// text of that member's value.
pub open spec fn body_of(
    message: Seq<char>,
    code: Seq<char>,
    type_: Seq<char>,
    link: Seq<char>,
) -> Seq<char> {
    "{\"message\":"@ + message + ",\"code\":"@ + code + ",\"type\":"@ + type_ + ",\"link\":"@
        + link + "}"@
}

/// Writes the JSON object of a body from the JSON text of its four values.
pub fn write_body(message: &str, code: &str, type_: &str, link: &str) -> (body: String)
    ensures
        body@ == body_of(message@, code@, type_@, link@),
{
    let mut body = "{\"message\":".to_string();
    body.append(message);
    body.append(",\"code\":");
    body.append(code);
    body.append(",\"type\":");
    body.append(type_);
    body.append(",\"link\":");
    body.append(link);
    body.append("}");
    body
}

/// The link of a response is the documentation prefix followed by the code
/// of that same response.
pub proof fn lemma_link_follows_code(message: Seq<char>, code: Code)
    ensures
        Envelope::build(message, code).link == DOC_LINK_PREFIX@ + Envelope::build(
            message,
            code,
        ).code,
{
}

/// A response that is taken apart and put together again is the response
/// that it was.
pub proof fn lemma_parts_give_the_response_back(message: Seq<char>, code: Code)
    ensures
        ({
            let built = Envelope::build(message, code);
            &&& built.is_catalogued()
            &&& Envelope::of_parts(built.status, built.message, built.code, built.type_, built.link)
                == built
        }),
{
    assert(Envelope::build(message, code).is_entry_of(code));
}

/// The status is no part of the body: two responses that agree on the four
/// strings have the same body, whatever their statuses are.
pub proof fn lemma_body_leaves_status_out(a: Envelope, b: Envelope)
    requires
        a.message == b.message,
        a.code == b.code,
        a.type_ == b.type_,
        a.link == b.link,
    ensures
        a.body() == b.body(),
{
}

/// An error as a client is told of it.
#[derive(Debug)]
pub struct ResponseError {
    code: u16,
    message: String,
    error_code: String,
    error_type: String,
    error_link: String,
}

impl View for ResponseError {
    type V = Envelope;

    closed spec fn view(&self) -> Envelope {
        Envelope {
            status: self.code,
            message: self.message@,
            code: self.error_code@,
            type_: self.error_type@,
            link: self.error_link@,
        }
    }
}

impl PartialEq for ResponseError {
    fn eq(&self, other: &Self) -> (equal: bool) {
        self.code == other.code && self.message == other.message && self.error_code
            == other.error_code && self.error_type == other.error_type && self.error_link
            == other.error_link
    }
}

impl PartialEqSpecImpl for ResponseError {
    open spec fn obeys_eq_spec() -> bool {
        true
    }

    /// Two responses are equal where they hold the same: status, message,
    /// code, class and link.
    open spec fn eq_spec(&self, other: &Self) -> bool {
        self@ == other@
    }
}

impl Eq for ResponseError {

}

impl Clone for ResponseError {
    fn clone(&self) -> (copy: Self)
        ensures
            copy@ == self@,
    {
        proof {
            use_type_invariant(self);
        }
        Self {
            code: self.code,
            message: self.message.clone(),
            error_code: self.error_code.clone(),
            error_type: self.error_type.clone(),
            error_link: self.error_link.clone(),
        }
    }
}

impl ResponseError {
    /// Every response is that of some code of the catalog.
    #[verifier::type_invariant]
    closed spec fn catalogued(self) -> bool {
        self@.is_catalogued()
    }

    /// The response for an error of the given code. The message is kept as it
    /// is, but for an I/O error, whose message gets the hint added.
    pub fn from_msg(mut message: String, code: Code) -> (response: Self)
        ensures
            response@ == Envelope::build(message@, code),
    {
        if code == Code::IoError {
            message.append(IO_ERROR_HINT);
        }
        let status: u16 = code.http();
        let error_code = code.name();
        let error_type = code.type_();
        let error_link = code.url();
        proof {
            let built = Self { code: status, message, error_code, error_type, error_link };
            assert(built@.is_entry_of(code));
        }
        Self { code: status, message, error_code, error_type, error_link }
    }

    /// The response that holds these five values, if some code of the
    /// catalog has this status, this name, this class and this link. The
    /// message is free.
    pub fn from_parts(
        status: u16,
        message: String,
        error_code: String,
        error_type: String,
        error_link: String,
    ) -> (response: Option<Self>)
        ensures
            response is Some <==> Envelope::of_parts(
                status,
                message@,
                error_code@,
                error_type@,
                error_link@,
            ).is_catalogued(),
            response matches Some(held) ==> held@ == Envelope::of_parts(
                status,
                message@,
                error_code@,
                error_type@,
                error_link@,
            ),
    {
        let ghost parts = Envelope::of_parts(
            status,
            message@,
            error_code@,
            error_type@,
            error_link@,
        );
        match Code::from_name(error_code.as_str()) {
            None => None,
            Some(code) => {
                let fits = status == code.http() && error_type == code.type_() && error_link
                    == code.url();
                if fits {
                    proof {
                        let built = Self { code: status, message, error_code, error_type, error_link };
                        assert(built@.is_entry_of(code));
                    }
                    Some(Self { code: status, message, error_code, error_type, error_link })
                } else {
                    proof {
                        // No other code has this name, and this one does not fit.
                        assert forall|other: Code| !parts.is_entry_of(other) by {
                            if other != code {
                                lemma_stable_name_is_injective(other, code);
                            }
                        }
                    }
                    None
                }
            },
        }
    }

    /// The response for `error`, with the message that the error gives of
    /// itself.
    pub fn from_error<T: ErrorCode>(message: String, error: &T) -> (response: Self)
        ensures
            response@ == Envelope::build(message@, error.code()),
    {
        Self::from_msg(message, error.error_code())
    }

    /// The HTTP status to answer with. It travels beside the body, not in it.
    pub fn status_code(&self) -> (status: u16)
        ensures
            status == self@.status,
            100 <= status <= 599,
            self@.is_catalogued(),
    {
        proof {
            use_type_invariant(self);
        }
        self.code
    }

    /// What went wrong, in words.
    pub fn message(&self) -> (message: &str)
        ensures
            message@ == self@.message,
    {
        self.message.as_str()
    }

    /// The name of the code of the error.
    pub fn error_code(&self) -> (name: &str)
        ensures
            name@ == self@.code,
            self@.is_catalogued(),
    {
        proof {
            use_type_invariant(self);
        }
        self.error_code.as_str()
    }

    /// The class of the error.
    pub fn error_type(&self) -> (name: &str)
        ensures
            name@ == self@.type_,
            self@.is_catalogued(),
    {
        proof {
            use_type_invariant(self);
        }
        self.error_type.as_str()
    }

    /// Where the error is documented: the one prefix, and then the name of
    /// the code.
    pub fn error_link(&self) -> (link: &str)
        ensures
            link@ == self@.link,
            link@ == DOC_LINK_PREFIX@ + self@.code,
            self@.is_catalogued(),
    {
        proof {
            use_type_invariant(self);
        }
        self.error_link.as_str()
    }

    /// The response as a reader is shown it: its message.
    pub fn to_string(&self) -> (text: String)
        ensures
            text@ == self@.message,
    {
        self.message.clone()
    }

    /// The body of the response, as the bytes that are sent.
    pub fn to_vec(&self) -> (bytes: Vec<u8>)
        ensures
            bytes@ == encode_utf8(self@.body()),
    {
        self.to_json().as_str().as_bytes_vec()
    }

    /// The body of the response, as JSON text.
    pub fn to_json(&self) -> (body: String)
        ensures
            body@ == self@.body(),
    {
        let message = Self::quoted(self.message.as_str());
        let code = Self::quoted(self.error_code.as_str());
        let type_ = Self::quoted(self.error_type.as_str());
        let link = Self::quoted(self.error_link.as_str());
        write_body(message.as_str(), code.as_str(), type_.as_str(), link.as_str())
    }

    fn quoted(text: &str) -> (literal: String)
        ensures
            literal@ == json_string(text@),
    {
        match to_json_string(text) {
            Ok(literal) => literal,
            Err(_) => vstd::pervasive::unreached(),
        }
    }
}

} // verus!
