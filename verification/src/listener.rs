//! The asynchronous line listener: a one-shot builder, the listener's
//! lifecycle, and the line-reading loop its background task runs.
//!
//! A listener holds the shared read stream for its entire run, so direct
//! reads through the facade block until it stops. Stopping is
//! cooperative: the cancellation token is polled once per loop iteration,
//! so the task ends after at most one more in-flight line read, itself
//! bounded by the device's configured timeout.

use vstd::prelude::*;
use std::sync::Arc;

use crate::cancel::token_of;
use crate::errors::{BuildError, ReadResult, SerialError};
use crate::linebuf::{is_stream_lock, stream_inv, SharedDevice, SharedStream};

verus! {

/// A consumer of lines the listener reads. The caller supplies an
/// implementation; any state it needs travels inside it.
pub trait LineSink {
    /// Called once per line; `line` is the content with the terminator
    /// stripped.
    fn on_line(&mut self, line: &[u8]);
}

/// Where a listener stands in its lifecycle. There is no way back: a new
/// listener must be built for further listening.
#[derive(Clone, Copy, Debug, PartialEq, Eq, Structural)]
pub enum ListenerPhase {
    /// Constructed; the background task was not started yet.
    Idle,
    /// The background task was started and holds the read stream.
    Running,
    /// The cancellation token was set; the task exits at the top of its
    /// next iteration.
    Stopped,
}

/// A one-shot builder for a listener: it captures a shared handle to the
/// facade's read stream at creation, takes a callback, and materializes a
/// listener exactly once.
pub struct SerialListenerBuilder<C> {
    reader: Option<SharedStream>,
    callback: Option<C>,
}

impl<C> SerialListenerBuilder<C> {
    /// The captured read stream; consumed by the first successful build.
    pub closed spec fn reader_of(self) -> Option<SharedStream> {
        self.reader
    }

    /// The attached callback, if one was set.
    pub closed spec fn callback_of(self) -> Option<C> {
        self.callback
    }

    /// Well-formedness: a captured stream stores well-formed readers
    /// over one shared device handle.
    pub closed spec fn wf(self) -> bool {
        self.reader matches Some(s) ==> is_stream_lock(s)
    }

    /// A fresh builder over the given shared stream, with no callback.
    pub(crate) fn from_stream(stream: SharedStream) -> (r: SerialListenerBuilder<C>)
        requires
            is_stream_lock(stream),
        ensures
            r.wf(),
            r.reader_of() == Some(stream),
            r.callback_of() is None,
    {
        SerialListenerBuilder { reader: Some(stream), callback: None }
    }

    /// Builds the listener. Fails with `CallbackMissing` if no callback
    /// was attached, and with `BuilderSpent` if an earlier build already
    /// consumed the reader; on success the reader moves into the listener
    /// and the builder is permanently spent.
    pub fn build(&mut self) -> (r: Result<SerialListener<C>, BuildError>) where C: Clone
        requires
            old(self).wf(),
        ensures
            final(self).wf(),
            final(self).callback_of() == old(self).callback_of(),
            old(self).callback_of() is None ==> (r matches Err(e) && e
                == BuildError::CallbackMissing && final(self).reader_of() == old(
                self,
            ).reader_of()),
            old(self).callback_of() is Some && old(self).reader_of() is None ==> (r matches Err(e)
                && e == BuildError::BuilderSpent && final(self).reader_of() is None),
            old(self).callback_of() is Some && old(self).reader_of() is Some ==> (r matches Ok(l)
                && final(self).reader_of() is None && l.wf() && l.phase() == ListenerPhase::Idle
                && Some(l.reader_of()) == old(self).reader_of() && cloned::<C>(
                old(self).callback_of()->0,
                l.callback_of(),
            )),
    {
        if self.callback.is_none() {
            Err(BuildError::CallbackMissing)
        } else if self.reader.is_none() {
            Err(BuildError::BuilderSpent)
        } else {
            let callback = match &self.callback {
                Some(cb) => cb.clone(),
                None => unreached(),
            };
            let reader = match self.reader.take() {
                Some(s) => s,
                None => unreached(),
            };
            Ok(
                SerialListener {
                    reader,
                    callback,
                    cancel: cancellation::CancellationTokenSource::new(),
                    phase: ListenerPhase::Idle,
                },
            )
        }
    }
}

/// Attaches the callback to a listener builder. Kept as a free function,
/// as the binding layer expects it; it cannot fail when the builder
/// reference is valid, which safe callers always guarantee.
pub fn add_read_callback<C>(builder: &mut SerialListenerBuilder<C>, callback: C) -> (r: bool)
    requires
        old(builder).wf(),
    ensures
        r == true,
        final(builder).wf(),
        final(builder).callback_of() == Some(callback),
        final(builder).reader_of() == old(builder).reader_of(),
{
    builder.callback = Some(callback);
    true
}

/// A background listener over the shared read stream. Its task reads
/// lines in a loop and hands each line's content to the callback, until
/// the cancellation token is observed set.
///
/// Discarding a listener does not set the token by itself: an owner must
/// call [`SerialListener::stop`] before letting it go, or hold it in a
/// guard that does so on destruction, as the binding layer does —
/// otherwise a running task keeps the read stream until its iteration
/// budget runs out.
pub struct SerialListener<C> {
    reader: SharedStream,
    callback: C,
    cancel: cancellation::CancellationTokenSource,
    phase: ListenerPhase,
}

impl<C> SerialListener<C> {
    /// Where this listener stands in its lifecycle.
    pub closed spec fn phase(self) -> ListenerPhase {
        self.phase
    }

    /// The shared read stream this listener holds.
    pub closed spec fn reader_of(self) -> SharedStream {
        self.reader
    }

    /// The captured callback.
    pub closed spec fn callback_of(self) -> C {
        self.callback
    }

    /// Well-formedness: the shared stream stores well-formed readers
    /// over one shared device handle.
    pub closed spec fn wf(self) -> bool {
        is_stream_lock(self.reader)
    }

    /// Where this listener stands in its lifecycle, for callers that must
    /// check before starting it.
    pub fn current_phase(&self) -> (p: ListenerPhase)
        ensures
            p == self.phase(),
    {
        self.phase
    }

    /// Starts listening: transitions to `Running` and hands back the task
    /// the caller's scheduler runs. Valid only from `Idle`.
    pub fn listen(&mut self) -> (t: ListenerTask<C>) where C: Clone
        requires
            old(self).wf(),
            old(self).phase() == ListenerPhase::Idle,
        ensures
            final(self).wf(),
            final(self).phase() == ListenerPhase::Running,
            final(self).reader_of() == old(self).reader_of(),
            final(self).callback_of() == old(self).callback_of(),
            t.wf(),
            t.reader_of() == old(self).reader_of(),
            cloned::<C>(old(self).callback_of(), t.callback_of()),
    {
        self.phase = ListenerPhase::Running;
        ListenerTask {
            reader: self.reader.clone(),
            token: token_of(&self.cancel),
            callback: self.callback.clone(),
        }
    }

    /// Stops the listener: sets the cancellation token, which the task
    /// observes at the top of its next iteration. Idempotent; stopping an
    /// already stopped listener has no effect.
    pub fn stop(&mut self)
        requires
            old(self).wf(),
        ensures
            final(self).wf(),
            final(self).phase() == ListenerPhase::Stopped,
            final(self).reader_of() == old(self).reader_of(),
            final(self).callback_of() == old(self).callback_of(),
    {
        self.cancel.cancel();
        self.phase = ListenerPhase::Stopped;
    }
}

/// Whether one loop iteration's read outcome is handed to the callback:
/// only a successful read that consumed at least one byte is; errors are
/// tolerated and the loop simply retries.
pub fn should_invoke(rr: ReadResult) -> (r: bool)
    ensures
        r <==> (rr.error is NoErr && rr.bytes_read > 0),
{
    rr.error == SerialError::NoErr && rr.bytes_read > 0
}

/// What a listener's background task runs: a clone of the shared read
/// stream, the shared cancellation token, and the callback.
pub struct ListenerTask<C> {
    reader: SharedStream,
    token: Arc<cancellation::CancellationToken>,
    callback: C,
}

impl<C> ListenerTask<C> {
    /// The shared read stream the task will hold.
    pub closed spec fn reader_of(self) -> SharedStream {
        self.reader
    }

    /// The callback the task delivers lines to.
    pub closed spec fn callback_of(self) -> C {
        self.callback
    }

    /// Well-formedness: the shared stream stores well-formed readers
    /// over one shared device handle.
    pub closed spec fn wf(self) -> bool {
        is_stream_lock(self.reader)
    }

    /// The listener loop. Acquires the read stream once and holds it for
    /// the whole run, so competing readers block for the task's entire
    /// lifetime, not just during individual reads. Each iteration first
    /// polls the cancellation token, then reads one line and hands its
    /// content to the callback; a failed read is tolerated and the next
    /// iteration retries. Runs until the token is observed set, or until
    /// `max_lines` iterations have passed; returns the callback so its
    /// final state stays observable.
    pub fn run(self, max_lines: u64) -> (sink: C) where C: LineSink
        requires
            self.wf(),
    {
        let ListenerTask { reader, token, callback } = self;
        let ghost dev = choose|dev: SharedDevice| (*reader).pred() == #[trigger] stream_inv(dev);
        let mut sink = callback;
        let (mut lb, handle) = reader.acquire_write();
        let mut budget = max_lines;
        while budget > 0
            invariant
                lb.wf(),
                lb.device() == dev,
                (*reader).pred() == stream_inv(dev),
                handle.rwlock() == (*reader),
            decreases budget,
        {
            if token.is_canceled() {
                break ;
            }
            budget = budget - 1;
            let mut line: Vec<u8> = Vec::new();
            let rr = lb.read_line(&mut line);
            if should_invoke(rr) {
                sink.on_line(line.as_slice());
            }
        }
        handle.release_write(lb);
        sink
    }
}

} // verus!
