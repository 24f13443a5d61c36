use vstd::prelude::*;
use vstd::string::*;
use vstd::utf8::*;

verus! {

/// The kinds of failure that a request can end in.
#[derive(Clone, Copy, Debug, PartialEq, Eq, Structural)]
pub enum ErrorKind {
    NotFound,
    Forbidden,
    Unauthorized,
    InternalServerError,
    BadRequest,
}

/// The reason a text names no variant.
#[derive(Clone, Copy, Debug, PartialEq, Eq, Structural)]
pub enum ParseError {
    VariantNotFound,
}

impl ParseError {
    /// The words for the error.
    pub open spec fn words(self) -> Seq<char> {
        "Matching variant not found"@
    }

    pub fn to_string(&self) -> (s: String)
        ensures
            s@ == self.words(),
    {
        "Matching variant not found".to_owned()
    }
}

/// A failure with the reason shown to the caller.
#[derive(Debug)]
pub enum AppError {
    NotFound { message: String },
    Forbidden { message: String },
    Unauthorized { message: String },
    InternalServerError { message: String },
    BadRequest { message: String },
}

pub type AppResult<T> = Result<T, AppError>;

/// Why a request is turned down: the kind of the error and its reason.
pub ghost struct Refusal {
    pub kind: ErrorKind,
    pub message: Seq<char>,
}

/// A refusal of the given kind with the given reason.
pub open spec fn refusal(kind: ErrorKind, message: Seq<char>) -> Option<Refusal> {
    Some(Refusal { kind, message })
}

/// Whether a result fails exactly where a verdict refuses, and then with the
/// kind and the reason of the refusal.
pub open spec fn follows<T>(r: AppResult<T>, verdict: Option<Refusal>) -> bool {
    match verdict {
        None => r is Ok,
        Some(refusal) => r is Err && r->Err_0.is_kind(refusal.kind, refusal.message),
    }
}

impl ErrorKind {
    /// The HTTP status that stands for the kind.
    pub open spec fn status(self) -> int {
        match self {
            ErrorKind::NotFound => 404,
            ErrorKind::Forbidden => 403,
            ErrorKind::Unauthorized => 401,
            ErrorKind::InternalServerError => 500,
            ErrorKind::BadRequest => 400,
        }
    }

    /// The words that open the displayed text of an error of the kind.
    pub open spec fn prefix(self) -> Seq<char> {
        match self {
            ErrorKind::NotFound => "Not found: "@,
            ErrorKind::Forbidden => "Forbidden: "@,
            ErrorKind::Unauthorized => "Unauthorized: "@,
            ErrorKind::InternalServerError => "Internal server error: "@,
            ErrorKind::BadRequest => "Invalid request parameters: "@,
        }
    }
}

impl AppError {
    pub open spec fn spec_kind(&self) -> ErrorKind {
        match self {
            AppError::NotFound { .. } => ErrorKind::NotFound,
            AppError::Forbidden { .. } => ErrorKind::Forbidden,
            AppError::Unauthorized { .. } => ErrorKind::Unauthorized,
            AppError::InternalServerError { .. } => ErrorKind::InternalServerError,
            AppError::BadRequest { .. } => ErrorKind::BadRequest,
        }
    }

    pub open spec fn spec_message(&self) -> Seq<char> {
        match self {
            AppError::NotFound { message } => message@,
            AppError::Forbidden { message } => message@,
            AppError::Unauthorized { message } => message@,
            AppError::InternalServerError { message } => message@,
            AppError::BadRequest { message } => message@,
        }
    }

    /// Whether the error is of the given kind and carries the given reason.
    pub open spec fn is_kind(&self, kind: ErrorKind, message: Seq<char>) -> bool {
        self.spec_kind() == kind && self.spec_message() == message
    }

    pub open spec fn is_not_found(&self, message: Seq<char>) -> bool {
        self.is_kind(ErrorKind::NotFound, message)
    }

    pub open spec fn is_forbidden(&self, message: Seq<char>) -> bool {
        self.is_kind(ErrorKind::Forbidden, message)
    }

    pub open spec fn is_unauthorized(&self, message: Seq<char>) -> bool {
        self.is_kind(ErrorKind::Unauthorized, message)
    }

    pub open spec fn is_internal(&self, message: Seq<char>) -> bool {
        self.is_kind(ErrorKind::InternalServerError, message)
    }

    pub open spec fn is_bad_request(&self, message: Seq<char>) -> bool {
        self.is_kind(ErrorKind::BadRequest, message)
    }

    pub fn not_found(message: &str) -> (e: AppError)
        ensures
            e.is_not_found(message@),
    {
        AppError::NotFound { message: message.to_owned() }
    }

    pub fn forbidden(message: &str) -> (e: AppError)
        ensures
            e.is_forbidden(message@),
    {
        AppError::Forbidden { message: message.to_owned() }
    }

    pub fn unauthorized(message: &str) -> (e: AppError)
        ensures
            e.is_unauthorized(message@),
    {
        AppError::Unauthorized { message: message.to_owned() }
    }

    pub fn internal_server_error(message: &str) -> (e: AppError)
        ensures
            e.is_internal(message@),
    {
        AppError::InternalServerError { message: message.to_owned() }
    }

    pub fn bad_request(message: &str) -> (e: AppError)
        ensures
            e.is_bad_request(message@),
    {
        AppError::BadRequest { message: message.to_owned() }
    }

    #[verifier::when_used_as_spec(spec_kind)]
    pub fn kind(&self) -> (k: ErrorKind)
        ensures
            k == self.spec_kind(),
    {
        match self {
            AppError::NotFound { .. } => ErrorKind::NotFound,
            AppError::Forbidden { .. } => ErrorKind::Forbidden,
            AppError::Unauthorized { .. } => ErrorKind::Unauthorized,
            AppError::InternalServerError { .. } => ErrorKind::InternalServerError,
            AppError::BadRequest { .. } => ErrorKind::BadRequest,
        }
    }

    /// The reason, without the words that name the kind.
    pub fn message(&self) -> (m: &str)
        ensures
            m@ == self.spec_message(),
    {
        match self {
            AppError::NotFound { message } => message.as_str(),
            AppError::Forbidden { message } => message.as_str(),
            AppError::Unauthorized { message } => message.as_str(),
            AppError::InternalServerError { message } => message.as_str(),
            AppError::BadRequest { message } => message.as_str(),
        }
    }

    /// The HTTP status that the error is answered with.
    pub fn status_code(&self) -> (code: u16)
        ensures
            code == self.spec_kind().status(),
    {
        match self {
            AppError::NotFound { .. } => 404,
            AppError::Forbidden { .. } => 403,
            AppError::Unauthorized { .. } => 401,
            AppError::InternalServerError { .. } => 500,
            AppError::BadRequest { .. } => 400,
        }
    }

    /// The displayed text: the words for the kind, then the reason.
    pub fn to_string(&self) -> (s: String)
        ensures
            s@ == self.spec_kind().prefix() + self.spec_message(),
    {
        let mut s = match self {
            AppError::NotFound { .. } => "Not found: ".to_owned(),
            AppError::Forbidden { .. } => "Forbidden: ".to_owned(),
            AppError::Unauthorized { .. } => "Unauthorized: ".to_owned(),
            AppError::InternalServerError { .. } => "Internal server error: ".to_owned(),
            AppError::BadRequest { .. } => "Invalid request parameters: ".to_owned(),
        };
        s.append(self.message());
        s
    }
}

/// The envelope in which an error goes to the caller.
#[derive(Clone, Debug, PartialEq, Eq)]
pub struct ErrorResponse {
    pub code: u16,
    pub message: String,
    pub error_type: String,
}

/// The most bytes of a response body that an error message repeats.
pub const BODY_LIMIT: usize = 500;

/// Whether a body can be cut after `BODY_LIMIT` bytes without cutting a
/// character in two.
pub open spec fn spec_can_truncate(body: Seq<char>) -> bool {
    encode_utf8(body).len() > BODY_LIMIT ==> is_char_boundary(encode_utf8(body), BODY_LIMIT as int)
}

/// The body as an error message repeats it: whole if it has at most
/// `BODY_LIMIT` bytes, else its first `BODY_LIMIT` bytes and a mark.
pub open spec fn truncated_body(body: Seq<char>) -> Seq<char> {
    if encode_utf8(body).len() > BODY_LIMIT {
        decode_utf8(encode_utf8(body).subrange(0, BODY_LIMIT as int)) + "... (truncated)"@
    } else {
        body
    }
}

/// The message of an error that was answered with a body: the words for the
/// status alone where the body is empty, else the words, a colon and the
/// body.
pub open spec fn handler_message(default_message: Seq<char>, body: Seq<char>) -> Seq<char> {
    if body.len() == 0 {
        default_message
    } else {
        default_message + ": "@ + truncated_body(body)
    }
}

/// Whether a body can be cut after `BODY_LIMIT` bytes without cutting a
/// character in two.
pub fn can_truncate(body: &str) -> (r: bool)
    ensures
        r == spec_can_truncate(body@),
{
    body.as_bytes().len() <= BODY_LIMIT || body.is_char_boundary(BODY_LIMIT)
}

/// The envelope for an error that a handler below answered with a status
/// and, maybe, a body.
pub fn generic_error_handler(
    status_code: u16,
    error_type: &str,
    default_message: &str,
    body: &str,
) -> (response: ErrorResponse)
    requires
        spec_can_truncate(body@),
    ensures
        response.code == status_code,
        response.error_type@ == error_type@,
        response.message@ == handler_message(default_message@, body@),
{
    let mut message = default_message.to_owned();
    if !body.is_empty() {
        message.append(": ");
        if body.as_bytes().len() > BODY_LIMIT {
            let (head, _) = body.split_at(BODY_LIMIT);
            proof {
                encode_utf8_decode_utf8(head@);
                assert(head.spec_bytes() == encode_utf8(body@).subrange(0, BODY_LIMIT as int));
                assert(head@ == decode_utf8(encode_utf8(body@).subrange(0, BODY_LIMIT as int)));
            }
            message.append(head);
            message.append("... (truncated)");
            assert(message@ =~= default_message@ + ": "@ + (head@ + "... (truncated)"@));
        } else {
            message.append(body);
        }
    }
    ErrorResponse { code: status_code, message, error_type: error_type.to_owned() }
}

/// The envelope for a request that was answered with status 400.
pub fn bad_request_handler(body: &str) -> (response: ErrorResponse)
    requires
        spec_can_truncate(body@),
    ensures
        response.code == 400,
        response.error_type@ == "BadRequest"@,
        response.message@ == handler_message("Bad Request"@, body@),
{
    generic_error_handler(400, "BadRequest", "Bad Request", body)
}

/// The envelope for a request that was answered with status 401.
pub fn unauthorized_handler(body: &str) -> (response: ErrorResponse)
    requires
        spec_can_truncate(body@),
    ensures
        response.code == 401,
        response.error_type@ == "Unauthorized"@,
        response.message@ == handler_message("Unauthorized"@, body@),
{
    generic_error_handler(401, "Unauthorized", "Unauthorized", body)
}

/// The envelope for a request that was answered with status 404.
pub fn not_found_handler(body: &str) -> (response: ErrorResponse)
    requires
        spec_can_truncate(body@),
    ensures
        response.code == 404,
        response.error_type@ == "NotFound"@,
        response.message@ == handler_message("Not Found"@, body@),
{
    generic_error_handler(404, "NotFound", "Not Found", body)
}

/// The envelope for a request that was answered with status 500.
pub fn internal_server_error_handler(body: &str) -> (response: ErrorResponse)
    requires
        spec_can_truncate(body@),
    ensures
        response.code == 500,
        response.error_type@ == "InternalServerError"@,
        response.message@ == handler_message("Internal Server Error"@, body@),
{
    generic_error_handler(500, "InternalServerError", "Internal Server Error", body)
}

} // verus!
