//! The errors of probing a link and of downloading a file, with their texts.

use vstd::prelude::*;
use vstd::string::*;

verus! {

/// Why a link could not be probed.
pub enum UrlError {
    /// An input/output failure, with its description.
    Generic(String),
    /// A failed request, with its description.
    RequestError(String),
    /// The link is not a URL.
    InvalidUrl,
}

impl UrlError {
    /// The text of the error.
    pub fn message(&self) -> (m: String)
        ensures
            m@ == url_error_message(*self),
    {
        match self {
            UrlError::Generic(e) => String::from_str("Io Error: ").concat(e.as_str()),
            UrlError::RequestError(e) => String::from_str("Request Error: ").concat(e.as_str()),
            UrlError::InvalidUrl => String::from_str("Invalid Url"),
        }
    }
}

/// The text of each error.
pub open spec fn url_error_message(e: UrlError) -> Seq<char> {
    match e {
        UrlError::Generic(m) => "Io Error: "@ + m@,
        UrlError::RequestError(m) => "Request Error: "@ + m@,
        UrlError::InvalidUrl => "Invalid Url"@,
    }
}

/// Why a download failed.
pub enum File2DlError {
    /// An input/output failure, with its description.
    Generic(String),
    /// A failed request, with its description.
    RequestError(String),
    /// The status channel could not be read, with the description.
    ChannelRecvError(String),
    /// The status channel could not be written, with the description.
    ChannelSendError(String),
}

impl File2DlError {
    /// The text of the error.
    pub fn message(&self) -> (m: String)
        ensures
            m@ == file2dl_error_message(*self),
    {
        match self {
            File2DlError::Generic(e) => String::from_str("Io Error: ").concat(e.as_str()),
            File2DlError::RequestError(e) => String::from_str("Request Error: ").concat(e.as_str()),
            File2DlError::ChannelRecvError(e) => String::from_str("Watch Channel Reception Failed: ").concat(e.as_str()),
            File2DlError::ChannelSendError(e) => String::from_str("Watch Channel Sending Failed: ").concat(e.as_str()),
        }
    }
}

/// The text of each download error.
pub open spec fn file2dl_error_message(e: File2DlError) -> Seq<char> {
    match e {
        File2DlError::Generic(m) => "Io Error: "@ + m@,
        File2DlError::RequestError(m) => "Request Error: "@ + m@,
        File2DlError::ChannelRecvError(m) => "Watch Channel Reception Failed: "@ + m@,
        File2DlError::ChannelSendError(m) => "Watch Channel Sending Failed: "@ + m@,
    }
}

} // verus!
