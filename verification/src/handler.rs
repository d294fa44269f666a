//! The content-handler capability: caller-supplied logic invoked once per
//! eligible file per poll cycle with that file's full text content.

use vstd::prelude::*;

verus! {

/// A content-specific failure reported by a [`ContentHandler`].
#[derive(Debug, PartialEq, Eq)]
pub struct HandlerError {
    pub message: String,
}

/// A capability supplied by the caller: given file content as text, produce
/// success or a content-specific failure.
///
/// The two spec functions describe each implementation exactly: `respond`
/// gives the result of the next invocation and `after` gives the handler's
/// state after it, so that a poll run's whole effect on its handler can be
/// stated in advance.
pub trait ContentHandler: Sized {
    /// The result the handler returns when invoked on `content` in its
    /// current state.
    spec fn respond(self, content: Seq<char>) -> Result<(), HandlerError>;

    /// The handler's state after an invocation on `content`.
    spec fn after(self, content: Seq<char>) -> Self;

    /// Handle one file's full text content.
    fn on_content(&mut self, content: &str) -> (r: Result<(), HandlerError>)
        ensures
            *final(self) == old(self).after(content@),
            r == old(self).respond(content@),
    ;
}

/// The default handler: a no-op that always succeeds.
#[derive(Debug, PartialEq, Eq)]
pub struct NoOpHandler {}

impl ContentHandler for NoOpHandler {
    open spec fn respond(self, content: Seq<char>) -> Result<(), HandlerError> {
        Ok(())
    }

    open spec fn after(self, content: Seq<char>) -> Self {
        self
    }

    fn on_content(&mut self, content: &str) -> (r: Result<(), HandlerError>) {
        Ok(())
    }
}

/// A handler that always succeeds and counts its invocations, saturating at
/// `u64::MAX`.
#[derive(Debug, PartialEq, Eq)]
pub struct CountingHandler {
    pub calls: u64,
}

impl ContentHandler for CountingHandler {
    open spec fn respond(self, content: Seq<char>) -> Result<(), HandlerError> {
        Ok(())
    }

    open spec fn after(self, content: Seq<char>) -> Self {
        CountingHandler { calls: if self.calls == u64::MAX { u64::MAX } else { (self.calls + 1) as u64 } }
    }

    fn on_content(&mut self, content: &str) -> (r: Result<(), HandlerError>) {
        if self.calls < u64::MAX {
            self.calls = self.calls + 1;
        }
        Ok(())
    }
}

/// A handler that succeeds exactly when the content equals `expected`, and
/// counts its invocations (saturating at `u64::MAX`). On a mismatch it fails
/// and reports the expected text.
#[derive(Debug, PartialEq, Eq)]
pub struct ExpectingHandler {
    pub expected: String,
    pub calls: u64,
}

impl ContentHandler for ExpectingHandler {
    open spec fn respond(self, content: Seq<char>) -> Result<(), HandlerError> {
        if content == self.expected@ {
            Ok(())
        } else {
            Err(HandlerError { message: self.expected })
        }
    }

    open spec fn after(self, content: Seq<char>) -> Self {
        ExpectingHandler {
            expected: self.expected,
            calls: if self.calls == u64::MAX { u64::MAX } else { (self.calls + 1) as u64 },
        }
    }

    fn on_content(&mut self, content: &str) -> (r: Result<(), HandlerError>) {
        if self.calls < u64::MAX {
            self.calls = self.calls + 1;
        }
        let owned: String = content.to_owned();
        if owned == self.expected {
            Ok(())
        } else {
            Err(HandlerError { message: self.expected.clone() })
        }
    }
}

/// A handler that always fails with the configured message, and counts its
/// invocations (saturating at `u64::MAX`).
#[derive(Debug, PartialEq, Eq)]
pub struct FailingHandler {
    pub message: String,
    pub calls: u64,
}

impl ContentHandler for FailingHandler {
    open spec fn respond(self, content: Seq<char>) -> Result<(), HandlerError> {
        Err(HandlerError { message: self.message })
    }

    open spec fn after(self, content: Seq<char>) -> Self {
        FailingHandler {
            message: self.message,
            calls: if self.calls == u64::MAX { u64::MAX } else { (self.calls + 1) as u64 },
        }
    }

    fn on_content(&mut self, content: &str) -> (r: Result<(), HandlerError>) {
        if self.calls < u64::MAX {
            self.calls = self.calls + 1;
        }
        Err(HandlerError { message: self.message.clone() })
    }
}

} // verus!
