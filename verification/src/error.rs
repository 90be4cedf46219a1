//! The errors of the client.

use vstd::prelude::*;
use vstd::string::StringExecFns;
use crate::text::{decimal_digits, decimal_text};
use crate::vars::VarName;

verus! {

/// `base64::DecodeError`: why a text is no base64.
#[verifier::external_type_specification]
#[verifier::external_body]
pub struct ExDecodeError(base64::DecodeError);

/// What can go wrong between a request of the user and the answer of a device.
#[derive(Debug, PartialEq, Eq)]
pub enum Error {
    /// A message was no JSON of the expected shape; the text says why.
    SerDe(String),
    /// A `pack` was not base64.
    Base64Decode(base64::DecodeError),
    /// A decoded `pack` of this many bytes was no whole number of cipher blocks.
    BlockLength(usize),
    /// A payload of this many bytes is too long to encode on this machine.
    PackTooLong(usize),
    /// A socket operation failed; the text says how.
    Io(String),
    /// The receiving side of the client went away.
    Send,
    /// Nothing arrived from the receiving side in time.
    RecvTimeout,
    /// The device did not answer in time.
    ResponseTimeout,
    /// The device with this MAC address has no key yet.
    MacNotBound(String),
    /// No device is known under this name or MAC address.
    NotFound(String),
    /// The catalog holds no variable of this name.
    InvalidVar(String),
    /// The variable does not take this value.
    InvalidValue(VarName, String),
}

/// What an [`Error`] holds, with its texts as sequences of characters.
pub enum ErrorView {
    /// The text of a JSON failure is left out: it is for people to read.
    SerDe,
    Base64Decode(base64::DecodeError),
    BlockLength(usize),
    PackTooLong(usize),
    Io(Seq<char>),
    Send,
    RecvTimeout,
    ResponseTimeout,
    MacNotBound(Seq<char>),
    NotFound(Seq<char>),
    InvalidVar(Seq<char>),
    InvalidValue(Seq<char>, Seq<char>),
}

impl View for Error {
    type V = ErrorView;

    open spec fn view(&self) -> ErrorView {
        match self {
            Error::SerDe(_) => ErrorView::SerDe,
            Error::Base64Decode(e) => ErrorView::Base64Decode(*e),
            Error::BlockLength(n) => ErrorView::BlockLength(*n),
            Error::PackTooLong(n) => ErrorView::PackTooLong(*n),
            Error::Io(s) => ErrorView::Io(s@),
            Error::Send => ErrorView::Send,
            Error::RecvTimeout => ErrorView::RecvTimeout,
            Error::ResponseTimeout => ErrorView::ResponseTimeout,
            Error::MacNotBound(s) => ErrorView::MacNotBound(s@),
            Error::NotFound(s) => ErrorView::NotFound(s@),
            Error::InvalidVar(s) => ErrorView::InvalidVar(s@),
            Error::InvalidValue(n, s) => ErrorView::InvalidValue(n@, s@),
        }
    }
}

impl From<base64::DecodeError> for Error {
    fn from(value: base64::DecodeError) -> (e: Self) {
        Self::Base64Decode(value)
    }
}

impl vstd::std_specs::convert::FromSpecImpl<base64::DecodeError> for Error {
    open spec fn obeys_from_spec() -> bool {
        true
    }

    open spec fn from_spec(value: base64::DecodeError) -> Self {
        Error::Base64Decode(value)
    }
}

impl Error {
    /// The error of a device that did not answer in time.
    pub fn response_timeout() -> (e: Self)
        ensures
            e@ == ErrorView::ResponseTimeout,
    {
        Self::ResponseTimeout
    }

    /// The error of a device that has no key yet.
    pub fn mac_not_bound(mac: &str) -> (e: Self)
        ensures
            e@ == ErrorView::MacNotBound(mac@),
    {
        Self::MacNotBound(mac.to_owned())
    }

    /// The error of a name or MAC address under which no device is known.
    pub fn not_found(id: &str) -> (e: Self)
        ensures
            e@ == ErrorView::NotFound(id@),
    {
        Self::NotFound(id.to_owned())
    }

    /// The error of a name that the catalog of variables does not have.
    pub fn invalid_var(id: &str) -> (e: Self)
        ensures
            e@ == ErrorView::InvalidVar(id@),
    {
        Self::InvalidVar(id.to_owned())
    }

    /// The error of a literal that the variable `var` does not take.
    pub fn invalid_value(var: VarName, value: &str) -> (e: Self)
        ensures
            e@ == ErrorView::InvalidValue(var@, value@),
    {
        Self::InvalidValue(var, value.to_owned())
    }
}

impl Error {
    /// The HTTP status with which a front end reports the error: 404 for a
    /// device that is not known; 503 for what may pass, a failed socket
    /// operation or an answer that did not come in time; 400 for the rest.
    pub fn http_status(&self) -> (status: u16)
        ensures
            status == (match *self {
                Error::NotFound(_) => 404u16,
                Error::Io(_) | Error::ResponseTimeout | Error::RecvTimeout => 503u16,
                _ => 400u16,
            }),
    {
        match self {
            Error::NotFound(_) => 404,
            Error::Io(_) | Error::ResponseTimeout | Error::RecvTimeout => 503,
            _ => 400,
        }
    }

    /// The text that describes the error: the name of its kind and, after a
    /// colon, what it holds.
    pub fn to_string(&self) -> (r: String)
        ensures
            match *self {
                Error::SerDe(s) => r@ == "SerDe: "@ + s@,
                Error::Base64Decode(_) => "Base64Decode: "@.is_prefix_of(r@),
                Error::BlockLength(n) => r@ == "BlockLength: "@ + decimal_digits(n as nat),
                Error::PackTooLong(n) => r@ == "PackTooLong: "@ + decimal_digits(n as nat),
                Error::Io(s) => r@ == "Io: "@ + s@,
                Error::Send => r@ == "Send"@,
                Error::RecvTimeout => r@ == "RecvTimeout"@,
                Error::ResponseTimeout => r@ == "ResponseTimeout"@,
                Error::MacNotBound(s) => r@ == "MacNotBound: "@ + s@,
                Error::NotFound(s) => r@ == "NotFound: "@ + s@,
                Error::InvalidVar(s) => r@ == "InvalidVar: "@ + s@,
                Error::InvalidValue(n, s) => r@ == "InvalidValue for "@ + n@ + ": "@ + s@,
            },
    {
        match self {
            Error::SerDe(s) => String::from_str("SerDe: ").concat(s.as_str()),
            Error::Base64Decode(e) => {
                let detail = e.to_string();
                String::from_str("Base64Decode: ").concat(detail.as_str())
            },
            Error::BlockLength(n) => {
                let detail = decimal_text(*n);
                String::from_str("BlockLength: ").concat(detail.as_str())
            },
            Error::PackTooLong(n) => {
                let detail = decimal_text(*n);
                String::from_str("PackTooLong: ").concat(detail.as_str())
            },
            Error::Io(s) => String::from_str("Io: ").concat(s.as_str()),
            Error::Send => String::from_str("Send"),
            Error::RecvTimeout => String::from_str("RecvTimeout"),
            Error::ResponseTimeout => String::from_str("ResponseTimeout"),
            Error::MacNotBound(s) => String::from_str("MacNotBound: ").concat(s.as_str()),
            Error::NotFound(s) => String::from_str("NotFound: ").concat(s.as_str()),
            Error::InvalidVar(s) => String::from_str("InvalidVar: ").concat(s.as_str()),
            Error::InvalidValue(n, s) => String::from_str("InvalidValue for ").concat(n).concat(
                ": ",
            ).concat(s.as_str()),
        }
    }
}

} // verus!
