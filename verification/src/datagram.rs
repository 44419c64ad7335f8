//! Errors of sending and receiving HTTP/3 datagrams over a QUIC connection,
//! and how the transport's errors map onto them.
use vstd::prelude::*;

verus! {

/// Why the QUIC connection was lost.
#[derive(Debug, Clone)]
pub enum ConnectionErrorIncoming {
    /// The peer closed the connection with an application error code.
    ApplicationClose { error_code: u64 },
    /// The connection timed out.
    Timeout,
    /// An error inside the endpoint, with its description.
    InternalError(String),
    /// Any other transport error, with its description.
    Undefined(String),
}

/// Why a datagram could not be sent, as HTTP/3 reports it.
#[derive(Debug, Clone)]
pub enum SendDatagramErrorIncoming {
    /// Datagrams are not available on this connection.
    NotAvailable,
    /// The datagram is larger than the connection allows.
    TooLarge,
    /// The connection was lost.
    ConnectionError(ConnectionErrorIncoming),
}

/// Why the QUIC transport refused to send a datagram (quinn's
/// `SendDatagramError`), the error of a lost connection already in its
/// HTTP/3 form.
#[derive(Debug, Clone)]
pub enum SendDatagramError {
    /// The peer does not support datagrams.
    UnsupportedByPeer,
    /// Datagrams are disabled locally.
    Disabled,
    /// The datagram is larger than the connection allows.
    TooLarge,
    /// The connection was lost.
    ConnectionLost(ConnectionErrorIncoming),
}

/// The HTTP/3 form of a transport error on sending a datagram.
pub open spec fn spec_convert_send_datagram_error(error: SendDatagramError) -> SendDatagramErrorIncoming {
    match error {
        SendDatagramError::UnsupportedByPeer => SendDatagramErrorIncoming::NotAvailable,
        SendDatagramError::Disabled => SendDatagramErrorIncoming::NotAvailable,
        SendDatagramError::TooLarge => SendDatagramErrorIncoming::TooLarge,
        SendDatagramError::ConnectionLost(e) => SendDatagramErrorIncoming::ConnectionError(e),
    }
}

/// Datagrams that the peer does not support or that are disabled are
/// "not available"; the other errors keep their meaning.
pub fn convert_send_datagram_error(error: SendDatagramError) -> (r: SendDatagramErrorIncoming)
    ensures
        r == spec_convert_send_datagram_error(error),
{
    match error {
        SendDatagramError::UnsupportedByPeer | SendDatagramError::Disabled => {
            SendDatagramErrorIncoming::NotAvailable
        },
        SendDatagramError::TooLarge => SendDatagramErrorIncoming::TooLarge,
        SendDatagramError::ConnectionLost(e) => SendDatagramErrorIncoming::ConnectionError(
            convert_h3_error_to_datagram_error(e),
        ),
    }
}

/// The connection error as the datagram layer reports it: the same error.
pub fn convert_h3_error_to_datagram_error(error: ConnectionErrorIncoming) -> (r: ConnectionErrorIncoming)
    ensures
        r == error,
{
    match error {
        ConnectionErrorIncoming::ApplicationClose { error_code } => {
            ConnectionErrorIncoming::ApplicationClose { error_code }
        },
        ConnectionErrorIncoming::Timeout => ConnectionErrorIncoming::Timeout,
        ConnectionErrorIncoming::InternalError(err) => ConnectionErrorIncoming::InternalError(err),
        ConnectionErrorIncoming::Undefined(error) => ConnectionErrorIncoming::Undefined(error),
    }
}

/// A lost connection is always reported as a connection error carrying the
/// same error; only datagrams unsupported by the peer or disabled locally
/// are "not available", and only a datagram too large is "too large".
pub proof fn law_send_error_mapping(error: SendDatagramError, lost: ConnectionErrorIncoming)
    ensures
        spec_convert_send_datagram_error(SendDatagramError::ConnectionLost(lost))
            == SendDatagramErrorIncoming::ConnectionError(lost),
        spec_convert_send_datagram_error(error) is NotAvailable <==> (error is UnsupportedByPeer
            || error is Disabled),
        spec_convert_send_datagram_error(error) is TooLarge <==> error is TooLarge,
        spec_convert_send_datagram_error(error) is ConnectionError <==> error is ConnectionLost,
{
}

} // verus!
