use crate::messages::{call_error, call_error_text};
use vstd::prelude::*;

verus! {

/// The single aggregate answer to a streamed upload.
pub struct UploadResponse {
    pub file_id: String,
    pub success: bool,
    pub message: String,
}

/// The consuming side of a streamed upload: it remembers the first failed
/// chunk write, so that the upload ends either with the remote answer or
/// with one error, never with both.
pub struct UploadConsumer {
    failure: Option<String>,
}

impl UploadConsumer {
    /// The first write failure, if any.
    pub closed spec fn failure(&self) -> Option<Seq<char>> {
        match self.failure {
            Some(f) => Some(f@),
            None => None,
        }
    }

    pub fn new() -> (r: Self)
        ensures
            r.failure() is None,
    {
        UploadConsumer { failure: None }
    }

    /// Records the result of writing one chunk. After a failure the upload is
    /// over: later results change nothing.
    pub fn record_write(&mut self, result: Result<(), String>)
        ensures
            old(self).failure() is Some ==> final(self).failure() == old(self).failure(),
            old(self).failure() is None ==> match result {
                Ok(()) => final(self).failure() is None,
                Err(d) => final(self).failure() == Some(d@),
            },
    {
        if self.failure.is_some() {
            return;
        }
        if let Err(d) = result {
            self.failure = Some(d);
        }
    }

    /// Whether a write has failed, so that no further chunk should be sent.
    pub fn has_failed(&self) -> (r: bool)
        ensures
            r == self.failure() is Some,
    {
        self.failure.is_some()
    }

    /// The outcome of the whole upload, once the remote answer (or its
    /// failure) is known: the answer only if every write and the answer
    /// itself succeeded, and otherwise a single error naming the first
    /// failure.
    pub fn finish(self, response: Result<UploadResponse, String>) -> (r: Result<
        UploadResponse,
        String,
    >)
        ensures
            r is Ok <==> self.failure() is None && response is Ok,
            r is Ok ==> r == response,
            self.failure() is Some ==> r is Err && r->Err_0@ == call_error_text(
                self.failure()->Some_0,
            ),
            self.failure() is None && response is Err ==> r is Err && r->Err_0@
                == call_error_text(response->Err_0@),
    {
        match self.failure {
            Some(d) => Err(call_error(d.as_str())),
            None => match response {
                Ok(v) => Ok(v),
                Err(d) => Err(call_error(d.as_str())),
            },
        }
    }
}

} // verus!
