//! The shared cancellation flag a listener is stopped through, carried
//! opaquely from the cancellation crate.

use vstd::prelude::*;
use std::sync::Arc;

verus! {

/// The source half of the cancellation flag, held by the listener.
#[verifier::external_type_specification]
#[verifier::external_body]
pub struct ExCancellationTokenSource(cancellation::CancellationTokenSource);

/// The token half of the cancellation flag, polled by the background
/// task.
#[verifier::external_type_specification]
#[verifier::external_body]
pub struct ExCancellationToken(cancellation::CancellationToken);

/// Relies on `CancellationTokenSource::new`: a fresh source whose token
/// is not yet canceled.
pub assume_specification[ cancellation::CancellationTokenSource::new ]() -> (
    r: cancellation::CancellationTokenSource
);

/// Relies on `CancellationTokenSource::cancel`: marks the token as
/// canceled; canceling an already-canceled token has no effect. It does
/// not panic here: its callback list is filled only by the token's `run`,
/// which nothing in this library calls, so the list stays empty, the
/// status assertion cannot be reached twice under the mutex, and the
/// mutex is never poisoned.
pub assume_specification[ cancellation::CancellationTokenSource::cancel ](
    s: &cancellation::CancellationTokenSource,
);

/// Relies on `CancellationToken::is_canceled`: whether the token has been
/// canceled; once it returns true it keeps returning true, but another
/// thread may cancel at any moment, so nothing is promised of the result.
pub assume_specification[ cancellation::CancellationToken::is_canceled ](
    t: &cancellation::CancellationToken,
) -> (r: bool);

/// Relies on `CancellationTokenSource::token`: hands out the shared token
/// so a detached task can poll it after the source moved elsewhere.
#[verifier::external_body]
pub(crate) fn token_of(src: &cancellation::CancellationTokenSource) -> (t: Arc<
    cancellation::CancellationToken,
>) {
    src.token().clone()
}

} // verus!
