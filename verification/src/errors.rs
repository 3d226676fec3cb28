//! The service's errors and the responses that report them.

use vstd::prelude::*;
use crate::api::{ErrorResponse, IP_UPLOAD_LIMIT_HEADER, IP_VISIT_ERROR_LIMIT_HEADER};
use crate::text::{decimal, join2, join3, spec_decimal};

verus! {

/// How a query against the box table failed.
#[derive(Clone, Copy, Debug, PartialEq, Eq, Structural)]
pub enum DbFailure {
    /// The query matched no row.
    RowNotFound,
    /// The database itself reported an error.
    Database,
    /// Anything else: the pool, the protocol, decoding.
    Other,
}

/// Everything that can go wrong while a request is served.
///
/// Variants that stand for a failure of a collaborator carry no detail: the
/// detail stays with whoever talked to that collaborator.
#[derive(Debug)]
pub enum Error {
    DbError,
    InvalidCode(String),
    InvalidFileType(String),
    InputValidateError,
    MultipartError,
    IOError,
    ValidateArgsError(String),
    NotFound,
    /// The client has used up the day's wrong guesses; carries the limit.
    IpVisitErrorLimit(i32),
    /// The client has used up the day's uploads; carries the limit.
    IpUploadLimit(i32),
    Unknown,
    RedisError,
    ActixWebError,
    RedisSendCommandError(String),
    DeserializeJsonError,
    ParseGetRedisValue,
}

/// The header of a refusal: its name and, as its value, the limit that the
/// client has reached.
#[derive(Debug)]
pub struct LimitHeader {
    pub name: String,
    pub value: String,
}

/// An error response as plain values: status, the header of a refusal where
/// the error is one, and the body.
#[derive(Debug)]
pub struct ErrorReply {
    pub status: u16,
    pub limit_header: Option<LimitHeader>,
    pub body: ErrorResponse,
}

impl Error {
    /// The HTTP status that reports this error.
    pub open spec fn spec_status_code(self) -> int {
        match self {
            Error::ValidateArgsError(_) | Error::InvalidCode(_) | Error::InvalidFileType(_)
            | Error::InputValidateError => 400,
            Error::NotFound => 404,
            Error::IpVisitErrorLimit(_) | Error::IpUploadLimit(_) => 403,
            _ => 500,
        }
    }

    /// The error's name in upper-case snake form.
    pub open spec fn spec_name(self) -> Seq<char> {
        match self {
            Error::ValidateArgsError(_) => "VALIDATE_ARGS_ERROR"@,
            Error::InvalidCode(_) => "INVALID_CODE"@,
            Error::InvalidFileType(_) => "INVALID_FILE_TYPE"@,
            Error::InputValidateError => "INPUT_VALIDATE_ERROR"@,
            Error::NotFound => "NOT_FOUND"@,
            Error::IpVisitErrorLimit(_) => "IP_VISIT_ERROR_LIMIT"@,
            Error::IpUploadLimit(_) => "IP_UPLOAD_LIMIT"@,
            Error::IOError => "IO_ERROR"@,
            Error::DbError => "DB_ERROR"@,
            Error::Unknown => "UNKNOWN"@,
            Error::MultipartError => "MULTIPART_ERROR"@,
            Error::RedisError => "REDIS_ERROR"@,
            Error::DeserializeJsonError => "DESERIALIZE_JSON_ERROR"@,
            Error::ParseGetRedisValue => "PARSE_GET_REDIS_VALUE"@,
            Error::RedisSendCommandError(_) => "REDIS_SEND_COMMAND_ERROR"@,
            Error::ActixWebError => "ACTIX_WEB_ERROR"@,
        }
    }

    /// What the client is told. Failures inside the service are not spelled
    /// out.
    pub open spec fn spec_error_message(self) -> Seq<char> {
        match self {
            Error::IpVisitErrorLimit(limit) => "今日文件口令错误已达 "@ + spec_decimal(limit as int)
                + " 次, 请明天再访问"@,
            Error::IpUploadLimit(limit) => "今日文件上传已达 "@ + spec_decimal(limit as int)
                + " 次, 请明天再上传"@,
            Error::InvalidCode(msg) => msg@,
            Error::ValidateArgsError(_) | Error::InputValidateError => "input validate error"@,
            Error::InvalidFileType(err) => "invalid file type: "@ + err@,
            Error::NotFound => "not found"@,
            _ => "internal server error"@,
        }
    }

    /// The header that a refusal carries, for the two errors that are
    /// refusals.
    pub open spec fn spec_limit_header_name(self) -> Option<Seq<char>> {
        match self {
            Error::IpUploadLimit(_) => Some(IP_UPLOAD_LIMIT_HEADER@),
            Error::IpVisitErrorLimit(_) => Some(IP_VISIT_ERROR_LIMIT_HEADER@),
            _ => None,
        }
    }

    /// What the header of a refusal says: the limit that the client has
    /// reached, in decimal.
    pub open spec fn spec_limit_header_value(self) -> Seq<char> {
        match self {
            Error::IpUploadLimit(limit) => spec_decimal(limit as int),
            Error::IpVisitErrorLimit(limit) => spec_decimal(limit as int),
            _ => Seq::empty(),
        }
    }

    /// Whether `reply` is the response that reports this error.
    ///
    /// The body repeats the status and holds the error's name and message. A
    /// refusal also carries its limit header, whose value is the limit; no
    /// other error carries a header.
    pub open spec fn is_reported_by(self, reply: ErrorReply) -> bool {
        &&& reply.status == self.spec_status_code()
        &&& reply.body.code == reply.status
        &&& reply.body.error@ == self.spec_name()
        &&& reply.body.message@ == self.spec_error_message()
        &&& match self.spec_limit_header_name() {
            Some(name) => reply.limit_header matches Some(header) && header.name@ == name && header.value@
                == self.spec_limit_header_value(),
            None => reply.limit_header is None,
        }
    }

    /// The HTTP status that reports this error: 400 for a request that is
    /// wrong, 404 for a box that is not there, 403 for a client over its
    /// limit, 500 for everything that went wrong inside.
    pub fn status_code(&self) -> (code: u16)
        ensures
            code == self.spec_status_code(),
    {
        match self {
            Error::ValidateArgsError(_) | Error::InvalidCode(_) | Error::InvalidFileType(_)
            | Error::InputValidateError => 400,
            Error::NotFound => 404,
            Error::IpVisitErrorLimit(_) | Error::IpUploadLimit(_) => 403,
            Error::ActixWebError
            | Error::IOError
            | Error::DbError
            | Error::Unknown
            | Error::DeserializeJsonError
            | Error::MultipartError
            | Error::ParseGetRedisValue
            | Error::RedisSendCommandError(_)
            | Error::RedisError => 500,
        }
    }

    /// The error's name as the body of a response carries it.
    pub fn name(&self) -> (name: String)
        ensures
            name@ == self.spec_name(),
    {
        let name: &str = match self {
            Error::ValidateArgsError(_) => "VALIDATE_ARGS_ERROR",
            Error::InvalidCode(_) => "INVALID_CODE",
            Error::InvalidFileType(_) => "INVALID_FILE_TYPE",
            Error::InputValidateError => "INPUT_VALIDATE_ERROR",
            Error::NotFound => "NOT_FOUND",
            Error::IpVisitErrorLimit(_) => "IP_VISIT_ERROR_LIMIT",
            Error::IpUploadLimit(_) => "IP_UPLOAD_LIMIT",
            Error::IOError => "IO_ERROR",
            Error::DbError => "DB_ERROR",
            Error::Unknown => "UNKNOWN",
            Error::MultipartError => "MULTIPART_ERROR",
            Error::RedisError => "REDIS_ERROR",
            Error::DeserializeJsonError => "DESERIALIZE_JSON_ERROR",
            Error::ParseGetRedisValue => "PARSE_GET_REDIS_VALUE",
            Error::RedisSendCommandError(_) => "REDIS_SEND_COMMAND_ERROR",
            Error::ActixWebError => "ACTIX_WEB_ERROR",
        };
        name.to_owned()
    }

    /// What the client is told. A refusal names the limit in decimal; a
    /// failure inside the service is not spelled out.
    pub fn error_message(&self) -> (message: String)
        ensures
            message@ == self.spec_error_message(),
    {
        match self {
            Error::IpVisitErrorLimit(limit) => join3("今日文件口令错误已达 ", decimal(*limit).as_str(), " 次, 请明天再访问"),
            Error::IpUploadLimit(limit) => join3("今日文件上传已达 ", decimal(*limit).as_str(), " 次, 请明天再上传"),
            Error::InvalidCode(msg) => msg.clone(),
            Error::ValidateArgsError(_) | Error::InputValidateError => "input validate error".to_owned(),
            Error::InvalidFileType(err) => join2("invalid file type: ", err.as_str()),
            Error::NotFound => "not found".to_owned(),
            Error::ActixWebError
            | Error::IOError
            | Error::MultipartError
            | Error::DeserializeJsonError
            | Error::RedisError
            | Error::RedisSendCommandError(_)
            | Error::DbError
            | Error::ParseGetRedisValue
            | Error::Unknown => "internal server error".to_owned(),
        }
    }

    /// The response that reports this error: status, body and, for a refusal,
    /// the header that tells the client its limit.
    pub fn error_response(&self) -> (reply: ErrorReply)
        ensures
            self.is_reported_by(reply),
    {
        let limit_header: Option<LimitHeader> = match self {
            Error::IpUploadLimit(limit) => Some(
                LimitHeader { name: IP_UPLOAD_LIMIT_HEADER.to_owned(), value: decimal(*limit) },
            ),
            Error::IpVisitErrorLimit(limit) => Some(
                LimitHeader { name: IP_VISIT_ERROR_LIMIT_HEADER.to_owned(), value: decimal(*limit) },
            ),
            _ => None,
        };
        let status: u16 = self.status_code();
        ErrorReply {
            status,
            limit_header,
            body: ErrorResponse { code: status, error: self.name(), message: self.error_message() },
        }
    }

    /// The response that reports this error, as [`Error::error_response`]
    /// gives it.
    pub fn to_response(&self) -> (reply: ErrorReply)
        ensures
            self.is_reported_by(reply),
    {
        self.error_response()
    }
}

impl From<DbFailure> for Error {
    fn from(failure: DbFailure) -> (error: Error) {
        match failure {
            DbFailure::RowNotFound => Error::NotFound,
            DbFailure::Database => Error::DbError,
            DbFailure::Other => Error::DbError,
        }
    }
}

impl vstd::std_specs::convert::FromSpecImpl<DbFailure> for Error {
    open spec fn obeys_from_spec() -> bool {
        true
    }

    open spec fn from_spec(failure: DbFailure) -> Error {
        match failure {
            DbFailure::RowNotFound => Error::NotFound,
            DbFailure::Database => Error::DbError,
            DbFailure::Other => Error::DbError,
        }
    }
}

} // verus!
