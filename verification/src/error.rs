use vstd::prelude::*;

verus! {

/// What every error answer of the API carries.
#[derive(Clone, Debug)]
pub struct BaseFields {
    /// The API's error code.
    pub code: i64,
    /// The API's message.
    pub message: String,
    /// Further explanation; empty where there is none.
    pub details: String,
    /// The API's identifier of the request; empty where there is none.
    pub request_id: String,
    /// Whether the API marked the error as transient.
    pub is_transient: bool,
    /// Status of the HTTP answer; 0 where it is not known.
    pub http_status_code: u16,
    /// The API's subcode; 0 where there is none.
    pub error_subcode: i64,
}

/// Why a call of the API failed.
#[derive(Clone, Debug)]
pub enum Error {
    /// The API rejected the credentials.
    Authentication(BaseFields),
    /// The API reported another error.
    Api(BaseFields),
    /// The call failed without an error answer of the API.
    Other(String),
}

impl BaseFields {
    /// Fields with the given code and strings, and no metadata.
    pub open spec fn plain(
        self,
        code: i64,
        message: Seq<char>,
        details: Seq<char>,
        request_id: Seq<char>,
    ) -> bool {
        &&& self.code == code
        &&& self.message@ == message
        &&& self.details@ == details
        &&& self.request_id@ == request_id
        &&& !self.is_transient
        &&& self.http_status_code == 0
        &&& self.error_subcode == 0
    }
}

/// An API error without metadata.
pub fn new_api_error(code: i64, message: &str, details: &str, request_id: &str) -> (err: Error)
    ensures
        err matches Error::Api(fields) && fields.plain(code, message@, details@, request_id@),
        err matches Error::Api(fields) && {
            &&& fields.code == code
            &&& fields.message@ == message@
            &&& fields.details@ == details@
            &&& fields.request_id@ == request_id@
            &&& !fields.is_transient
            &&& fields.http_status_code == 0
            &&& fields.error_subcode == 0
        },
{
    Error::Api(
        BaseFields {
            code,
            message: message.to_owned(),
            details: details.to_owned(),
            request_id: request_id.to_owned(),
            is_transient: false,
            http_status_code: 0,
            error_subcode: 0,
        },
    )
}

/// An authentication error without metadata.
pub fn new_authentication_error(code: i64, message: &str, details: &str) -> (err: Error)
    ensures
        err matches Error::Authentication(fields) && fields.plain(
            code,
            message@,
            details@,
            Seq::empty(),
        ),
        err matches Error::Authentication(fields) && {
            &&& fields.code == code
            &&& fields.message@ == message@
            &&& fields.details@ == details@
            &&& fields.request_id@.len() == 0
            &&& !fields.is_transient
            &&& fields.http_status_code == 0
            &&& fields.error_subcode == 0
        },
{
    Error::Authentication(
        BaseFields {
            code,
            message: message.to_owned(),
            details: details.to_owned(),
            request_id: String::new(),
            is_transient: false,
            http_status_code: 0,
            error_subcode: 0,
        },
    )
}

/// `err` with the given metadata, where it carries any.
pub open spec fn with_metadata(
    err: Error,
    is_transient: bool,
    http_status_code: u16,
    error_subcode: i64,
) -> Error {
    match err {
        Error::Authentication(fields) => Error::Authentication(
            BaseFields { is_transient, http_status_code, error_subcode, ..fields },
        ),
        Error::Api(fields) => Error::Api(
            BaseFields { is_transient, http_status_code, error_subcode, ..fields },
        ),
        Error::Other(message) => Error::Other(message),
    }
}

/// Sets the metadata of `err`; an error without an API answer has none.
pub fn set_error_metadata(
    err: &mut Error,
    is_transient: bool,
    http_status_code: u16,
    error_subcode: i64,
)
    ensures
        *final(err) == with_metadata(*old(err), is_transient, http_status_code, error_subcode),
        match (*old(err), *final(err)) {
            (Error::Authentication(before), Error::Authentication(after)) => {
                &&& after.code == before.code
                &&& after.message == before.message
                &&& after.details == before.details
                &&& after.request_id == before.request_id
                &&& after.is_transient == is_transient
                &&& after.http_status_code == http_status_code
                &&& after.error_subcode == error_subcode
            },
            (Error::Api(before), Error::Api(after)) => {
                &&& after.code == before.code
                &&& after.message == before.message
                &&& after.details == before.details
                &&& after.request_id == before.request_id
                &&& after.is_transient == is_transient
                &&& after.http_status_code == http_status_code
                &&& after.error_subcode == error_subcode
            },
            (Error::Other(before), Error::Other(after)) => before == after,
            _ => false,
        },
{
    match err {
        Error::Authentication(fields) => {
            fields.is_transient = is_transient;
            fields.http_status_code = http_status_code;
            fields.error_subcode = error_subcode;
        },
        Error::Api(fields) => {
            fields.is_transient = is_transient;
            fields.http_status_code = http_status_code;
            fields.error_subcode = error_subcode;
        },
        Error::Other(_) => {},
    }
}

/// The fields of `err`, where the API answered.
pub fn extract_base_fields(err: &Error) -> (fields: Option<&BaseFields>)
    ensures
        match *err {
            Error::Authentication(f) => fields == Some(&f),
            Error::Api(f) => fields == Some(&f),
            Error::Other(_) => fields is None,
        },
{
    match err {
        Error::Authentication(f) => Some(f),
        Error::Api(f) => Some(f),
        Error::Other(_) => None,
    }
}

/// Metadata say nothing about what went wrong: setting them keeps the kind of
/// an error, its code and its texts, and a second setting replaces the first.
pub proof fn law_metadata_keep_the_answer(
    fields: BaseFields,
    is_transient: bool,
    http_status_code: u16,
    error_subcode: i64,
    is_transient_then: bool,
    http_status_code_then: u16,
    error_subcode_then: i64,
)
    ensures
        with_metadata(Error::Api(fields), is_transient, http_status_code, error_subcode) matches
            Error::Api(after) && after.code == fields.code && after.message == fields.message
            && after.details == fields.details && after.request_id == fields.request_id
            && after.is_transient == is_transient && after.http_status_code == http_status_code
            && after.error_subcode == error_subcode,
        with_metadata(
            Error::Authentication(fields),
            is_transient,
            http_status_code,
            error_subcode,
        ) matches Error::Authentication(after) && after.code == fields.code && after.message
            == fields.message && after.details == fields.details && after.request_id
            == fields.request_id && after.is_transient == is_transient && after.http_status_code
            == http_status_code && after.error_subcode == error_subcode,
        forall|err: Error|
            with_metadata(
                #[trigger] with_metadata(err, is_transient, http_status_code, error_subcode),
                is_transient_then,
                http_status_code_then,
                error_subcode_then,
            ) == with_metadata(
                err,
                is_transient_then,
                http_status_code_then,
                error_subcode_then,
            ),
        forall|text: String|
            #[trigger] with_metadata(
                Error::Other(text),
                is_transient,
                http_status_code,
                error_subcode,
            ) == Error::Other(text),
{
}

} // verus!
