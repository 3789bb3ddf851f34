use vstd::prelude::*;
use vstd::string::*;
use std::borrow::Cow;
use vstd::std_specs::convert::{FromSpecImpl, IntoSpec};
use crate::error::cow_string;
use crate::text::{decimal_string, decimal_text};
use crate::transport::failure_message;

verus! {

/// What went wrong at the connection layer, without the application's context.
#[derive(Debug)]
#[non_exhaustive]
pub enum ConnectionError {
    /// The configuration is invalid.
    InvalidConfig { message: Cow<'static, str> },
    /// The connection timed out.
    Timeout,
    /// The server refused the connection.
    Refused,
    /// Authentication failed.
    AuthenticationFailed { message: Cow<'static, str> },
    /// The host name could not be resolved.
    DnsResolutionFailed { hostname: String },
    /// TLS failed.
    Tls { message: Cow<'static, str> },
    /// Reading or writing failed.
    Io { source: std::io::Error },
    /// The protocol was violated.
    Protocol { message: Cow<'static, str> },
    /// The connection was closed unexpectedly.
    ConnectionClosed,
    /// Every allowed retry has been used.
    MaxRetriesExceeded { attempts: usize },
    /// The database reported an error.
    DatabaseSpecific { message: Cow<'static, str> },
    /// Any other failure.
    Other { message: Cow<'static, str> },
}

/// The result of an operation on a connection.
pub type ConnectionResult<T> = Result<T, ConnectionError>;

impl ConnectionError {
    /// The text of the error. For `Io` it is the part before the text of
    /// the underlying error.
    pub open spec fn message_text(self) -> Seq<char> {
        match self {
            ConnectionError::InvalidConfig { message } => "invalid configuration: "@ + message@,
            ConnectionError::Timeout => "connection timed out"@,
            ConnectionError::Refused => "connection refused"@,
            ConnectionError::AuthenticationFailed { message } => "authentication failed: "@
                + message@,
            ConnectionError::DnsResolutionFailed { hostname } => "DNS resolution failed for '"@
                + hostname@ + "'"@,
            ConnectionError::Tls { message } => "TLS error: "@ + message@,
            ConnectionError::Io { .. } => "I/O error: "@,
            ConnectionError::Protocol { message } => "protocol error: "@ + message@,
            ConnectionError::ConnectionClosed => "connection closed unexpectedly"@,
            ConnectionError::MaxRetriesExceeded { attempts } => "maximum retries exceeded ("@
                + decimal_text(attempts as nat) + " attempts)"@,
            ConnectionError::DatabaseSpecific { message } => "database error: "@ + message@,
            ConnectionError::Other { message } => message@,
        }
    }

    /// An invalid configuration.
    pub fn invalid_config<M>(message: M) -> (error: Self) where M: Into<Cow<'static, str>>
        ensures
            error is InvalidConfig,
            M::obeys_into_spec() ==> error->InvalidConfig_message == message.into_spec(),
    {
        ConnectionError::InvalidConfig { message: message.into() }
    }

    /// A connection that timed out.
    pub fn timeout() -> (error: Self)
        ensures
            error is Timeout,
    {
        ConnectionError::Timeout
    }

    /// A connection that the server refused.
    pub fn refused() -> (error: Self)
        ensures
            error is Refused,
    {
        ConnectionError::Refused
    }

    /// A failed authentication.
    pub fn auth_failed<M>(message: M) -> (error: Self) where M: Into<Cow<'static, str>>
        ensures
            error is AuthenticationFailed,
            M::obeys_into_spec() ==> error->AuthenticationFailed_message == message.into_spec(),
    {
        ConnectionError::AuthenticationFailed { message: message.into() }
    }

    /// A host name that could not be resolved.
    pub fn dns_failed<H>(hostname: H) -> (error: Self) where H: Into<String>
        ensures
            error is DnsResolutionFailed,
            H::obeys_into_spec() ==> error->hostname == hostname.into_spec(),
    {
        ConnectionError::DnsResolutionFailed { hostname: hostname.into() }
    }

    /// A violation of the protocol.
    pub fn protocol<M>(message: M) -> (error: Self) where M: Into<Cow<'static, str>>
        ensures
            error is Protocol,
            M::obeys_into_spec() ==> error->Protocol_message == message.into_spec(),
    {
        ConnectionError::Protocol { message: message.into() }
    }

    /// An error that the database reported.
    pub fn database<M>(message: M) -> (error: Self) where M: Into<Cow<'static, str>>
        ensures
            error is DatabaseSpecific,
            M::obeys_into_spec() ==> error->DatabaseSpecific_message == message.into_spec(),
    {
        ConnectionError::DatabaseSpecific { message: message.into() }
    }

    /// Whether the error was caused by another one that it holds.
    pub fn has_source(&self) -> (answer: bool)
        ensures
            answer == (self is Io),
    {
        match self {
            ConnectionError::Io { .. } => true,
            _ => false,
        }
    }

    /// The text of the error. For `Io` the text of the underlying error
    /// follows the fixed part.
    pub fn to_string(&self) -> (text: String)
        ensures
            self.message_text().is_prefix_of(text@),
            !(self is Io) ==> text@ == self.message_text(),
    {
        let text = match self {
            ConnectionError::InvalidConfig { message } => labelled("invalid configuration: ", message),
            ConnectionError::Timeout => String::from_str("connection timed out"),
            ConnectionError::Refused => String::from_str("connection refused"),
            ConnectionError::AuthenticationFailed { message } => labelled(
                "authentication failed: ",
                message,
            ),
            ConnectionError::DnsResolutionFailed { hostname } => {
                let mut text = String::from_str("DNS resolution failed for '");
                text.append(hostname.as_str());
                text.append("'");
                text
            },
            ConnectionError::Tls { message } => labelled("TLS error: ", message),
            ConnectionError::Io { source } => {
                let mut text = String::from_str("I/O error: ");
                text.append(failure_message(source).as_str());
                text
            },
            ConnectionError::Protocol { message } => labelled("protocol error: ", message),
            ConnectionError::ConnectionClosed => String::from_str("connection closed unexpectedly"),
            ConnectionError::MaxRetriesExceeded { attempts } => {
                let mut text = String::from_str("maximum retries exceeded (");
                text.append(decimal_string(*attempts as u128).as_str());
                text.append(" attempts)");
                text
            },
            ConnectionError::DatabaseSpecific { message } => labelled("database error: ", message),
            ConnectionError::Other { message } => cow_string(message),
        };
        proof {
            assert(text@.subrange(0, text@.len() as int) =~= text@);
            if self is Io {
                assert(text@.subrange(0, self.message_text().len() as int) =~= self.message_text());
            }
        }
        text
    }
}

/// A label followed by a message.
fn labelled(label: &str, message: &Cow<'static, str>) -> (text: String)
    ensures
        text@ == label@ + message@,
{
    let mut text = String::from_str(label);
    text.append(cow_string(message).as_str());
    text
}

impl From<std::io::Error> for ConnectionError {
    fn from(source: std::io::Error) -> (error: Self) {
        ConnectionError::Io { source }
    }
}

impl FromSpecImpl<std::io::Error> for ConnectionError {
    open spec fn obeys_from_spec() -> bool {
        true
    }

    open spec fn from_spec(source: std::io::Error) -> Self {
        ConnectionError::Io { source }
    }
}

} // verus!
