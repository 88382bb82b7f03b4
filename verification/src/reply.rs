use vstd::prelude::*;

verus! {

/// The HTTP statuses the portal answers with (`Success` is 200 OK).
#[derive(Clone, Copy, Debug, PartialEq, Eq, Structural)]
pub enum HttpStatus {
    Success,
    BadRequest,
    Unauthorized,
    NotFound,
    Conflict,
    ExpectationFailed,
    InternalServerError,
}

impl HttpStatus {
    /// The numeric status code.
    pub open spec fn spec_code(self) -> u16 {
        match self {
            HttpStatus::Success => 200,
            HttpStatus::BadRequest => 400,
            HttpStatus::Unauthorized => 401,
            HttpStatus::NotFound => 404,
            HttpStatus::Conflict => 409,
            HttpStatus::ExpectationFailed => 417,
            HttpStatus::InternalServerError => 500,
        }
    }

    pub fn code(&self) -> (c: u16)
        ensures
            c == self.spec_code(),
    {
        match self {
            HttpStatus::Success => 200,
            HttpStatus::BadRequest => 400,
            HttpStatus::Unauthorized => 401,
            HttpStatus::NotFound => 404,
            HttpStatus::Conflict => 409,
            HttpStatus::ExpectationFailed => 417,
            HttpStatus::InternalServerError => 500,
        }
    }
}

/// The standard numeric codes of the statuses.
pub proof fn status_codes()
    ensures
        HttpStatus::Success.spec_code() == 200,
        HttpStatus::BadRequest.spec_code() == 400,
        HttpStatus::Unauthorized.spec_code() == 401,
        HttpStatus::NotFound.spec_code() == 404,
        HttpStatus::Conflict.spec_code() == 409,
        HttpStatus::ExpectationFailed.spec_code() == 417,
        HttpStatus::InternalServerError.spec_code() == 500,
{
}

/// The stored record that a reply carries beside its message, if any.
#[derive(Clone, Copy, Debug, PartialEq, Eq, Structural)]
pub enum Record {
    Nothing,
    Section,
    Belong,
    Project,
}

/// The answer to a request: a status, whether it succeeded, a message for
/// the client, and which stored record goes with it.
pub struct Reply {
    pub status: HttpStatus,
    pub success: bool,
    pub message: String,
    pub record: Record,
}

/// A reply as a mathematical value.
pub struct ReplyView {
    pub status: HttpStatus,
    pub success: bool,
    pub message: Seq<char>,
    pub record: Record,
}

impl View for Reply {
    type V = ReplyView;

    open spec fn view(&self) -> ReplyView {
        ReplyView {
            status: self.status,
            success: self.success,
            message: self.message@,
            record: self.record,
        }
    }
}

impl ReplyView {
    /// A reply is consistent when it reports success exactly when its status is 200.
    pub open spec fn consistent(self) -> bool {
        self.success == (self.status == HttpStatus::Success)
    }
}

/// A failed reply with the given status and message.
pub open spec fn failure_view(status: HttpStatus, message: Seq<char>) -> ReplyView {
    ReplyView { status, success: false, message, record: Record::Nothing }
}

/// A successful reply with the given message and record.
pub open spec fn success_view(message: Seq<char>, record: Record) -> ReplyView {
    ReplyView { status: HttpStatus::Success, success: true, message, record }
}

/// Builds a failed reply.
pub fn failure(status: HttpStatus, message: String) -> (r: Reply)
    requires
        status != HttpStatus::Success,
    ensures
        r@ == failure_view(status, message@),
        r@.consistent(),
{
    Reply { status, success: false, message, record: Record::Nothing }
}

/// Builds a successful reply.
pub fn success(message: String, record: Record) -> (r: Reply)
    ensures
        r@ == success_view(message@, record),
        r@.consistent(),
{
    Reply { status: HttpStatus::Success, success: true, message, record }
}

/// The three parts `prefix`, `middle` and `suffix`, joined.
pub fn join3(prefix: &str, middle: &str, suffix: &str) -> (s: String)
    ensures
        s@ == prefix@ + middle@ + suffix@,
{
    let s = String::from_str(prefix);
    let s = s.concat(middle);
    s.concat(suffix)
}

} // verus!
