//! Error values of the clients and the crawler.
use vstd::prelude::*;

verus! {

pub type ClientResult<T> = Result<T, ClientError>;

pub type IoResult<T> = Result<T, IoError>;

pub type CrawlerResult<T> = Result<T, CrawlerError>;

pub enum ClientError {
    UrlError(String),
    RequestError(String),
    ResponseError(String),
    SerializationError(String),
    IoError(IoError),
    HeaderError(String),
    CookieError(String),
}

pub enum IoError {
    FileError(String),
    ParseError(String),
}

/// Failures of the browser-driven crawler and of session handling.
pub enum CrawlerError {
    DriverError(String),
    InteractionError(String),
    ParseError(String),
    SessionError(String),
    LinkedinError(String),
    FileError(String),
    NoFreeSession,
}

/// The text an `IoError` is shown as.
pub open spec fn io_error_text(e: IoError) -> Seq<char> {
    match e {
        IoError::FileError(m) => "FileError: "@ + m@,
        IoError::ParseError(m) => "ParseError: "@ + m@,
    }
}

/// The text a `ClientError` is shown as.
pub open spec fn client_error_text(e: ClientError) -> Seq<char> {
    match e {
        ClientError::UrlError(m) => "UrlError: "@ + m@,
        ClientError::RequestError(m) => "RequestError: "@ + m@,
        ClientError::ResponseError(m) => "ResponseError: "@ + m@,
        ClientError::SerializationError(m) => "SerializationError: "@ + m@,
        ClientError::IoError(inner) => "IoError: "@ + io_error_text(inner),
        ClientError::HeaderError(m) => "HeaderError: "@ + m@,
        ClientError::CookieError(m) => "CookieError: "@ + m@,
    }
}

/// The text a `CrawlerError` is shown as.
pub open spec fn crawler_error_text(e: CrawlerError) -> Seq<char> {
    match e {
        CrawlerError::DriverError(m) => "DriverError: "@ + m@,
        CrawlerError::InteractionError(m) => "InteractionError: "@ + m@,
        CrawlerError::ParseError(m) => "ParseError: "@ + m@,
        CrawlerError::SessionError(m) => "SessionError: "@ + m@,
        CrawlerError::LinkedinError(m) => "LinkedinError: "@ + m@,
        CrawlerError::FileError(m) => "FileError: "@ + m@,
        CrawlerError::NoFreeSession => "NoFreeSession"@,
    }
}

fn prefixed(prefix: &str, message: &str) -> (res: String)
    ensures
        res@ == prefix@ + message@,
{
    let mut out = prefix.to_owned();
    out.append(message);
    out
}

impl IoError {
    /// The error as text: the variant's name, a colon, then its message.
    pub fn to_display_string(&self) -> (res: String)
        ensures
            res@ == io_error_text(*self),
    {
        match self {
            IoError::FileError(m) => prefixed("FileError: ", m.as_str()),
            IoError::ParseError(m) => prefixed("ParseError: ", m.as_str()),
        }
    }
}

impl ClientError {
    /// The error as text: the variant's name, a colon, then its message.
    pub fn to_display_string(&self) -> (res: String)
        ensures
            res@ == client_error_text(*self),
    {
        match self {
            ClientError::UrlError(m) => prefixed("UrlError: ", m.as_str()),
            ClientError::RequestError(m) => prefixed("RequestError: ", m.as_str()),
            ClientError::ResponseError(m) => prefixed("ResponseError: ", m.as_str()),
            ClientError::SerializationError(m) => prefixed("SerializationError: ", m.as_str()),
            ClientError::IoError(inner) => {
                let text = inner.to_display_string();
                prefixed("IoError: ", text.as_str())
            },
            ClientError::HeaderError(m) => prefixed("HeaderError: ", m.as_str()),
            ClientError::CookieError(m) => prefixed("CookieError: ", m.as_str()),
        }
    }
}

impl CrawlerError {
    /// The error as text: the variant's name, a colon, then its message.
    pub fn to_display_string(&self) -> (res: String)
        ensures
            res@ == crawler_error_text(*self),
    {
        match self {
            CrawlerError::DriverError(m) => prefixed("DriverError: ", m.as_str()),
            CrawlerError::InteractionError(m) => prefixed("InteractionError: ", m.as_str()),
            CrawlerError::ParseError(m) => prefixed("ParseError: ", m.as_str()),
            CrawlerError::SessionError(m) => prefixed("SessionError: ", m.as_str()),
            CrawlerError::LinkedinError(m) => prefixed("LinkedinError: ", m.as_str()),
            CrawlerError::FileError(m) => prefixed("FileError: ", m.as_str()),
            CrawlerError::NoFreeSession => "NoFreeSession".to_owned(),
        }
    }
}

} // verus!
