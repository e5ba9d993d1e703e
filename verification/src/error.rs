//! What a caller is told of a request that was not answered.

use crate::h2::GoAwayCanceled;
use hyper::client::conn::TrySendError;
use vstd::prelude::*;

verus! {

/// An error of an HTTP connection.
#[verifier::external_type_specification]
#[verifier::external_body]
pub struct ExHyperError(hyper::Error);

/// An HTTP/2 error.
#[verifier::external_type_specification]
#[verifier::external_body]
pub struct ExH2Error(::h2::Error);

/// What is left of a request that could not be sent: an error, and the request
/// itself where it was not written to the connection.
#[verifier::external_type_specification]
#[verifier::external_body]
#[verifier::reject_recursive_types(T)]
pub struct ExTrySendError<T>(hyper::client::conn::TrySendError<T>);

/// The HTTP/2 error code of a stream that was refused before any processing.
pub const REFUSED_STREAM: u32 = 7;

/// Whether a request was canceled, as `hyper::Error::is_canceled` tells it.
pub uninterp spec fn hyper_is_canceled(error: hyper::Error) -> bool;

/// The error code of an HTTP/2 error, as `h2::Error::reason` gives it.
pub uninterp spec fn h2_reason(error: ::h2::Error) -> Option<u32>;

/// Whether an HTTP/2 error is from a GOAWAY frame, as `h2::Error::is_go_away`
/// tells it.
pub uninterp spec fn h2_is_go_away(error: ::h2::Error) -> bool;

/// Whether an HTTP/2 error was received in a frame from the peer, as
/// `h2::Error::is_remote` tells it.
pub uninterp spec fn h2_is_remote(error: ::h2::Error) -> bool;

/// `hyper::Error::is_canceled`: it depends on the error alone.
pub assume_specification[ hyper::Error::is_canceled ](error: &hyper::Error) -> (canceled: bool)
    ensures
        canceled == hyper_is_canceled(*error),
;

/// `TrySendError::message`: the request, where it was not written to the
/// connection. It is nothing that a clause could name for a request of any type,
/// so [`failed_with`] speaks of it as what the call returned.
pub assume_specification<T>[ TrySendError::<T>::message ](failure: &TrySendError<T>) -> (message:
    Option<&T>);

/// `TrySendError::into_error`: the error. [`failed_with`] speaks of it as what
/// the call returned.
pub assume_specification<T>[ TrySendError::<T>::into_error ](failure: TrySendError<T>) -> (error:
    hyper::Error);

/// `h2::Error::from`, given an error code by its number: an error that has that
/// code and that no frame brought.
#[verifier::external_body]
fn h2_error_from(code: u32) -> (error: ::h2::Error)
    ensures
        h2_reason(error) == Some(code),
        !h2_is_go_away(error),
        !h2_is_remote(error),
{
    ::h2::Error::from(::h2::Reason::from(code))
}

/// `h2::Error::is_go_away`: it depends on the error alone.
#[verifier::external_body]
pub(crate) fn is_go_away(error: &::h2::Error) -> (go_away: bool)
    ensures
        go_away == h2_is_go_away(*error),
{
    error.is_go_away()
}

/// `h2::Error::is_remote`: it depends on the error alone.
#[verifier::external_body]
pub(crate) fn is_remote(error: &::h2::Error) -> (remote: bool)
    ensures
        remote == h2_is_remote(*error),
{
    error.is_remote()
}

/// Why a request was not answered.
#[derive(Debug)]
pub enum RequestError {
    /// The request was refused: it was never written to the connection.
    H2(::h2::Error),
    /// The error of the connection, as it came.
    Hyper(hyper::Error),
    /// The request was canceled because the peer's GOAWAY shut the connection
    /// down.
    GoAwayCanceled(GoAwayCanceled),
}

impl RequestError {
    /// This is a refusal: an HTTP/2 error with the code REFUSED_STREAM, which no
    /// frame brought.
    pub open spec fn is_refusal(self) -> bool {
        self matches RequestError::H2(error) && {
            &&& h2_reason(error) == Some(REFUSED_STREAM)
            &&& !h2_is_go_away(error)
            &&& !h2_is_remote(error)
        }
    }

    /// This is the answer to a request that failed with `error`: a refusal where
    /// `refuse` holds, and the error itself where it does not.
    pub open spec fn refuses_or_preserves(self, refuse: bool, error: hyper::Error) -> bool {
        if refuse {
            self.is_refusal()
        } else {
            self == RequestError::Hyper(error)
        }
    }

    /// A refusal.
    pub fn refusal() -> (refusal: Self)
        ensures
            refusal.is_refusal(),
    {
        RequestError::H2(h2_error_from(REFUSED_STREAM))
    }

    /// Answers a request that failed with `error`: with a refusal where `refuse`
    /// holds, and with the error itself where it does not.
    pub fn refuse_or_preserve(refuse: bool, error: hyper::Error) -> (answer: Self)
        ensures
            answer.refuses_or_preserves(refuse, error),
    {
        if refuse {
            RequestError::refusal()
        } else {
            RequestError::Hyper(error)
        }
    }
}

/// Asked for its message, `failure` gave one if and only if `recovered` holds,
/// and asked for its error, it gave `error`.
pub open spec fn failed_with<T>(failure: TrySendError<T>, recovered: bool, error: hyper::Error) -> bool {
    &&& exists|message: Option<&T>| #[trigger]
        call_ensures(TrySendError::<T>::message, (&failure,), message) && recovered == (message is Some)
    &&& call_ensures(TrySendError::<T>::into_error, (failure,), error)
}

/// Takes a failure apart: whether the request was recovered, because it was not
/// written to the connection, and the error.
pub fn split_failure<T>(failure: TrySendError<T>) -> (split: (bool, hyper::Error))
    ensures
        failed_with(failure, split.0, split.1),
{
    let message = failure.message();
    let recovered = message.is_some();
    let error = failure.into_error();
    (recovered, error)
}

/// A request is refused if and only if it is to be refused; otherwise its error
/// reaches the caller unchanged.
pub proof fn law_refused_or_preserved(answer: RequestError, refuse: bool, error: hyper::Error)
    requires
        answer.refuses_or_preserves(refuse, error),
    ensures
        answer.is_refusal() <==> refuse,
        answer == RequestError::Hyper(error) <==> !refuse,
{
}

/// A refusal is an HTTP/2 error with the code 7 that no frame brought; nothing
/// else is one.
pub proof fn law_refusal(answer: RequestError, error: hyper::Error)
    ensures
        answer.is_refusal() <==> (answer matches RequestError::H2(h2) && h2_reason(h2) == Some(7u32)
            && !h2_is_go_away(h2) && !h2_is_remote(h2)),
        answer.refuses_or_preserves(true, error) <==> (answer matches RequestError::H2(h2)
            && h2_reason(h2) == Some(7u32) && !h2_is_go_away(h2) && !h2_is_remote(h2)),
        answer.refuses_or_preserves(false, error) <==> answer == RequestError::Hyper(error),
{
}

/// A request counts as recovered if and only if asking its failure for the
/// message gave one, and its error is the one that the failure gave.
pub proof fn law_recovered<T>(failure: TrySendError<T>, recovered: bool, error: hyper::Error)
    requires
        failed_with(failure, recovered, error),
    ensures
        call_ensures(TrySendError::<T>::into_error, (failure,), error),
        recovered ==> exists|request: &T| #[trigger]
            call_ensures(TrySendError::<T>::message, (&failure,), Some(request)),
        !recovered ==> call_ensures(TrySendError::<T>::message, (&failure,), None::<&T>),
{
    let message = choose|message: Option<&T>| #[trigger]
        call_ensures(TrySendError::<T>::message, (&failure,), message) && recovered == (
        message is Some);
    if let Some(request) = message {
        assert(call_ensures(TrySendError::<T>::message, (&failure,), Some(request)));
    }
}

} // verus!
