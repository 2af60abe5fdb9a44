use vstd::prelude::*;

verus! {

/// The outcome of one call: a completion flag, whether the task failed, and
/// the result text (the failure's message for a failed task), written by the
/// executing side and read by the waiting caller.
pub struct FuncResult {
    completed: bool,
    failed: bool,
    result: String,
}

impl FuncResult {
    pub closed spec fn completed(&self) -> bool {
        self.completed
    }

    pub closed spec fn failed(&self) -> bool {
        self.failed
    }

    pub closed spec fn result(&self) -> Seq<char> {
        self.result@
    }

    /// Not completed, not failed, empty result.
    pub fn new() -> (r: FuncResult)
        ensures
            !r.completed(),
            !r.failed(),
            r.result().len() == 0,
    {
        FuncResult { completed: false, failed: false, result: String::new() }
    }

    pub fn set_result(&mut self, result: &str)
        ensures
            final(self).result() == result@,
            final(self).completed() == old(self).completed(),
            final(self).failed() == old(self).failed(),
    {
        self.result = result.to_owned();
    }

    pub fn set_completed(&mut self)
        ensures
            final(self).completed(),
            final(self).result() == old(self).result(),
            final(self).failed() == old(self).failed(),
    {
        self.completed = true;
    }

    /// Records that the task terminated abnormally with `message`, and
    /// completes the result.
    pub fn set_failure(&mut self, message: &str)
        ensures
            final(self).completed(),
            final(self).failed(),
            final(self).result() == message@,
    {
        self.result = message.to_owned();
        self.failed = true;
        self.completed = true;
    }

    pub fn is_completed(&self) -> (r: bool)
        ensures
            r == self.completed(),
    {
        self.completed
    }

    /// One poll of the waiting caller: `None` (not yet ready) before
    /// completion; then the result, or the failure's message as `Err`.
    /// Reading does not consume it.
    pub fn poll(&self) -> (r: Option<Result<String, String>>)
        ensures
            !self.completed() ==> r is None,
            self.completed() && !self.failed() ==> (r matches Some(Ok(s)) && s@ == self.result()),
            self.completed() && self.failed() ==> (r matches Some(Err(s)) && s@ == self.result()),
    {
        if !self.completed {
            None
        } else if self.failed {
            Some(Err(self.result.clone()))
        } else {
            Some(Ok(self.result.clone()))
        }
    }
}

} // verus!
