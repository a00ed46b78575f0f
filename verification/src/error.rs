//! The error taxonomy: one discriminated type carrying exactly one failure,
//! with a fixed category description per variant, a lossless textual
//! rendering, an accessor for the nested cause, and conversions that fold a
//! codec library's failure into the `Codec` variant.

use vstd::prelude::*;
use vstd::string::StringExecFns;
use crate::digits::dec_digits;
use crate::digits::u64_to_decimal;

verus! {

/// RPC status reported for a call: a numeric status code and an optional
/// human-readable message.
#[derive(Debug)]
pub struct RpcStatus {
    pub code: u32,
    pub message: Option<String>,
}

/// Mathematical view of an [`RpcStatus`].
pub struct RpcStatusV {
    pub code: u32,
    pub message: Option<Seq<char>>,
}

impl View for RpcStatus {
    type V = RpcStatusV;

    open spec fn view(&self) -> RpcStatusV {
        RpcStatusV {
            code: self.code,
            message: match self.message {
                Option::None => Option::None,
                Option::Some(m) => Option::Some(m@),
            },
        }
    }
}

/// The immediate cause stored inside [`Error::Codec`]: the codec library's
/// own failure, carried as the text of its structural rendering. The text is
/// plain owned data, so the cause moves freely across thread boundaries.
#[derive(Debug)]
pub struct CodecCause {
    pub detail: String,
}

impl View for CodecCause {
    type V = Seq<char>;

    open spec fn view(&self) -> Seq<char> {
        self.detail@
    }
}

impl CodecCause {
    /// The cause's textual rendering.
    pub fn describe(&self) -> (r: &str)
        ensures
            r@ == self@,
    {
        self.detail.as_str()
    }
}

/// Errors generated from this library.
#[derive(Debug)]
pub enum Error {
    /// Codec error: message (de)serialization failed; carries the codec
    /// library's failure as the nested cause.
    Codec(CodecCause),
    /// The native engine rejected submission of an operation on a call;
    /// carries the native call-submission status code.
    CallFailure(u32),
    /// The remote peer returned a non-OK application-level status.
    RpcFailure(RpcStatus),
    /// An operation was attempted on an already finished call; carries the
    /// terminal status when it is known.
    RpcFinished(Option<RpcStatus>),
    /// Remote is stopped.
    RemoteStopped,
    /// An orderly shutdown sequence did not complete.
    ShutdownFailed,
    /// The server failed to bind the given host and port.
    BindFail(String, u16),
    /// The completion queue was shut down while still in use.
    QueueShutdown,
    /// Construction of Google default credentials failed.
    GoogleAuthenticationFailed,
    /// A metadata key/value pair violated the required format.
    InvalidMetadata(String),
}

/// Mathematical view of an [`Error`]: the variant together with the view of
/// its payload.
pub enum ErrorV {
    Codec(Seq<char>),
    CallFailure(u32),
    RpcFailure(RpcStatusV),
    RpcFinished(Option<RpcStatusV>),
    RemoteStopped,
    ShutdownFailed,
    BindFail(Seq<char>, u16),
    QueueShutdown,
    GoogleAuthenticationFailed,
    InvalidMetadata(Seq<char>),
}

impl View for Error {
    type V = ErrorV;

    open spec fn view(&self) -> ErrorV {
        match self {
            Error::Codec(c) => ErrorV::Codec(c@),
            Error::CallFailure(code) => ErrorV::CallFailure(*code),
            Error::RpcFailure(s) => ErrorV::RpcFailure(s@),
            Error::RpcFinished(m) => ErrorV::RpcFinished(
                match m {
                    Option::None => Option::None,
                    Option::Some(s) => Option::Some(s@),
                },
            ),
            Error::RemoteStopped => ErrorV::RemoteStopped,
            Error::ShutdownFailed => ErrorV::ShutdownFailed,
            Error::BindFail(h, p) => ErrorV::BindFail(h@, *p),
            Error::QueueShutdown => ErrorV::QueueShutdown,
            Error::GoogleAuthenticationFailed => ErrorV::GoogleAuthenticationFailed,
            Error::InvalidMetadata(m) => ErrorV::InvalidMetadata(m@),
        }
    }
}

/// The fixed category description of each variant: a lookup by the variant
/// tag alone, never reading the payload.
pub open spec fn description_spec(v: ErrorV) -> Seq<char> {
    match v {
        ErrorV::Codec(_) => "Codec Error"@,
        ErrorV::CallFailure(_) => "Call Error"@,
        ErrorV::RpcFailure(_) => "Request Error"@,
        ErrorV::RpcFinished(_) => "Finish Error"@,
        ErrorV::RemoteStopped => "Remote is stopped."@,
        ErrorV::ShutdownFailed => "Failed to shutdown."@,
        ErrorV::BindFail(_, _) => "Bind Error"@,
        ErrorV::QueueShutdown => "completion queue shutdown"@,
        ErrorV::GoogleAuthenticationFailed => "Could not create google default credentials."@,
        ErrorV::InvalidMetadata(_) => "invalid format of metadata"@,
    }
}

/// The rendering of an optional message payload.
pub open spec fn message_render_spec(m: Option<Seq<char>>) -> Seq<char> {
    match m {
        Option::None => "None"@,
        Option::Some(t) => "Some(\""@ + t + "\")"@,
    }
}

/// The rendering of an RPC status: code and optional message, both verbatim.
pub open spec fn status_render_spec(s: RpcStatusV) -> Seq<char> {
    "RpcStatus { code: "@ + dec_digits(s.code as nat) + ", message: "@ + message_render_spec(
        s.message,
    ) + " }"@
}

/// The rendering of an optional RPC status.
pub open spec fn opt_status_render_spec(m: Option<RpcStatusV>) -> Seq<char> {
    match m {
        Option::None => "None"@,
        Option::Some(s) => "Some("@ + status_render_spec(s) + ")"@,
    }
}

/// The full structural rendering of an error: the variant name followed by
/// every payload value, verbatim; deterministic and lossless.
pub open spec fn render_spec(v: ErrorV) -> Seq<char> {
    match v {
        ErrorV::Codec(d) => "Codec("@ + d + ")"@,
        ErrorV::CallFailure(code) => "CallFailure("@ + dec_digits(code as nat) + ")"@,
        ErrorV::RpcFailure(s) => "RpcFailure("@ + status_render_spec(s) + ")"@,
        ErrorV::RpcFinished(m) => "RpcFinished("@ + opt_status_render_spec(m) + ")"@,
        ErrorV::RemoteStopped => "RemoteStopped"@,
        ErrorV::ShutdownFailed => "ShutdownFailed"@,
        ErrorV::BindFail(h, p) => "BindFail(\""@ + h + "\", "@ + dec_digits(p as nat) + ")"@,
        ErrorV::QueueShutdown => "QueueShutdown"@,
        ErrorV::GoogleAuthenticationFailed => "GoogleAuthenticationFailed"@,
        ErrorV::InvalidMetadata(m) => "InvalidMetadata(\""@ + m + "\")"@,
    }
}

/// Renders an optional message payload.
fn render_message(m: &Option<String>) -> (r: String)
    ensures
        r@ == message_render_spec(
            match *m {
                Option::None => Option::None,
                Option::Some(t) => Option::Some(t@),
            },
        ),
{
    match m {
        Option::None => String::from_str("None"),
        Option::Some(t) => {
            let mut s = String::from_str("Some(\"");
            s.append(t.as_str());
            s.append("\")");
            s
        },
    }
}

/// Renders an RPC status.
fn render_status(s: &RpcStatus) -> (r: String)
    ensures
        r@ == status_render_spec(s@),
{
    let mut out = String::from_str("RpcStatus { code: ");
    let d = u64_to_decimal(s.code as u64);
    out.append(d.as_str());
    out.append(", message: ");
    let m = render_message(&s.message);
    out.append(m.as_str());
    out.append(" }");
    out
}

impl Error {
    /// The fixed category description of this error's variant, independent
    /// of the payload.
    pub fn description(&self) -> (r: &'static str)
        ensures
            r@ == description_spec(self@),
    {
        match self {
            Error::Codec(_) => "Codec Error",
            Error::CallFailure(_) => "Call Error",
            Error::RpcFailure(_) => "Request Error",
            Error::RpcFinished(_) => "Finish Error",
            Error::RemoteStopped => "Remote is stopped.",
            Error::ShutdownFailed => "Failed to shutdown.",
            Error::BindFail(_, _) => "Bind Error",
            Error::QueueShutdown => "completion queue shutdown",
            Error::GoogleAuthenticationFailed => "Could not create google default credentials.",
            Error::InvalidMetadata(_) => "invalid format of metadata",
        }
    }

    /// The immediate nested cause: present exactly when the variant is
    /// `Codec`; every other variant is a leaf failure without a cause.
    pub fn cause(&self) -> (r: Option<&CodecCause>)
        ensures
            (r is Some) <==> (self@ is Codec),
            self@ matches ErrorV::Codec(d) ==> (r matches Some(c) && c@ == d),
    {
        match self {
            Error::Codec(c) => Some(c),
            _ => None,
        }
    }

    /// The full structural rendering of this error, variant name and all
    /// payload values included.
    pub fn render(&self) -> (r: String)
        ensures
            r@ == render_spec(self@),
    {
        match self {
            Error::Codec(c) => {
                let mut s = String::from_str("Codec(");
                s.append(c.detail.as_str());
                s.append(")");
                s
            },
            Error::CallFailure(code) => {
                let mut s = String::from_str("CallFailure(");
                let d = u64_to_decimal(*code as u64);
                s.append(d.as_str());
                s.append(")");
                s
            },
            Error::RpcFailure(st) => {
                let mut s = String::from_str("RpcFailure(");
                let t = render_status(st);
                s.append(t.as_str());
                s.append(")");
                s
            },
            Error::RpcFinished(m) => {
                let mut s = String::from_str("RpcFinished(");
                match m {
                    Option::None => {
                        s.append("None");
                    },
                    Option::Some(st) => {
                        s.append("Some(");
                        let t = render_status(st);
                        s.append(t.as_str());
                        s.append(")");
                    },
                }
                s.append(")");
                s
            },
            Error::RemoteStopped => String::from_str("RemoteStopped"),
            Error::ShutdownFailed => String::from_str("ShutdownFailed"),
            Error::BindFail(h, p) => {
                let mut s = String::from_str("BindFail(\"");
                s.append(h.as_str());
                s.append("\", ");
                let d = u64_to_decimal(*p as u64);
                s.append(d.as_str());
                s.append(")");
                s
            },
            Error::QueueShutdown => String::from_str("QueueShutdown"),
            Error::GoogleAuthenticationFailed => String::from_str("GoogleAuthenticationFailed"),
            Error::InvalidMetadata(m) => {
                let mut s = String::from_str("InvalidMetadata(\"");
                s.append(m.as_str());
                s.append("\")");
                s
            },
        }
    }

    /// Wraps a codec failure, given as the text of its rendering, into the
    /// `Codec` variant; the text becomes the nested cause.
    pub fn codec(detail: String) -> (r: Error)
        ensures
            r@ == ErrorV::Codec(detail@),
    {
        Error::Codec(CodecCause { detail })
    }
}

/// Result type alias binding this library's [`Error`] as the failure type,
/// so every fallible operation of the surrounding API returns it uniformly.
pub type Result<T> = core::result::Result<T, Error>;

#[verifier::external_type_specification]
#[verifier::external_body]
pub struct ExProstDecodeError(prost::DecodeError);

#[verifier::external_type_specification]
#[verifier::external_body]
pub struct ExProtobufError(protobuf::ProtobufError);

/// The text of the `Debug` rendering of a prost decode error. That rendering
/// reads only the error's own owned data, so it is a function of the error
/// value alone.
pub uninterp spec fn prost_debug_text_of(e: prost::DecodeError) -> Seq<char>;

/// Relies on the `Debug` rendering of `prost::DecodeError`: the structural
/// description of the decode failure (root cause and field stack), as text.
/// It formats only the error's owned plain data, so the text depends on the
/// error value alone.
#[verifier::external_body]
fn prost_error_text(e: &prost::DecodeError) -> (r: String)
    ensures
        r@ == prost_debug_text_of(*e),
{
    format!("{:?}", e)
}

/// Relies on the `Debug` rendering of `protobuf::ProtobufError`: the
/// structural description of the codec failure, as text. The error can wrap
/// a `std::io::Error`, whose rendering may consult the system's error-string
/// table at format time, so the text is not a function of the error value
/// alone and gets no name here.
#[verifier::external_body]
fn protobuf_error_text(e: &protobuf::ProtobufError) -> (r: String) {
    format!("{:?}", e)
}

impl From<prost::DecodeError> for Error {
    /// Folds a decode failure of the prost codec family into the `Codec`
    /// variant; the failure's `Debug` rendering becomes the nested cause,
    /// nothing of it discarded.
    fn from(e: prost::DecodeError) -> (r: Error)
        ensures
            r@ == ErrorV::Codec(prost_debug_text_of(e)),
    {
        Error::codec(prost_error_text(&e))
    }
}

impl vstd::std_specs::convert::FromSpecImpl<prost::DecodeError> for Error {
    open spec fn obeys_from_spec() -> bool {
        false
    }

    open spec fn from_spec(e: prost::DecodeError) -> Error {
        choose|r: Error| r@ is Codec
    }
}

impl From<protobuf::ProtobufError> for Error {
    /// Folds a failure of the protobuf codec family into the `Codec`
    /// variant; the failure's `Debug` rendering becomes the nested cause.
    fn from(e: protobuf::ProtobufError) -> (r: Error)
        ensures
            r@ is Codec,
    {
        Error::codec(protobuf_error_text(&e))
    }
}

impl vstd::std_specs::convert::FromSpecImpl<protobuf::ProtobufError> for Error {
    open spec fn obeys_from_spec() -> bool {
        false
    }

    open spec fn from_spec(e: protobuf::ProtobufError) -> Error {
        choose|r: Error| r@ is Codec
    }
}

} // verus!
