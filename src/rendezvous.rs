use vstd::prelude::*;

verus! {

/// The single slot through which a registration call waits for the next
/// scanned code. The flag says whether a caller waits; the delivery channel
/// beside it is owned by the caller of this type.
pub struct Rendezvous {
    waiting: bool,
}

/// A registration call that saw no code within its time limit.
#[derive(Clone, Copy, Debug, PartialEq, Eq, Structural)]
pub struct TimeoutError;

impl Rendezvous {
    /// Whether a registration call waits for the next code.
    pub closed spec fn is_waiting(&self) -> bool {
        self.waiting
    }

    /// A slot with nobody waiting.
    pub fn new() -> (r: Rendezvous)
        ensures
            !r.is_waiting(),
    {
        Rendezvous { waiting: false }
    }

    /// Whether a registration call waits for the next code.
    pub fn waiting(&self) -> (r: bool)
        ensures
            r == self.is_waiting(),
    {
        self.waiting
    }

    /// Marks that a registration call waits for the next code.
    pub fn register_wait(&mut self)
        ensures
            final(self).is_waiting(),
    {
        self.waiting = true;
    }

    /// Withdraws a waiting registration call.
    pub fn cancel_wait(&mut self)
        ensures
            !final(self).is_waiting(),
    {
        self.waiting = false;
    }

    /// Claims the waiting caller for a scanned code: returns whether one was
    /// waiting, and leaves nobody waiting, in one step.
    pub fn try_claim(&mut self) -> (r: bool)
        ensures
            r == old(self).is_waiting(),
            !final(self).is_waiting(),
    {
        let r = self.waiting;
        self.waiting = false;
        r
    }

    /// Ends a registration call: the delivered code if one came, else a
    /// timeout, after which nobody waits.
    pub fn finish_wait(&mut self, delivered: Option<String>) -> (r: Result<String, TimeoutError>)
        ensures
            r == (match delivered {
                Some(code) => Ok(code),
                None => Err(TimeoutError),
            }),
            !final(self).is_waiting(),
    {
        self.waiting = false;
        match delivered {
            Some(code) => Ok(code),
            None => Err(TimeoutError),
        }
    }
}

/// HTTP status of a registration call that received a code.
pub const STATUS_CODE_RECEIVED: u16 = 200;

/// HTTP status of a registration call that timed out.
pub const STATUS_NO_CODE: u16 = 404;

/// The body of a registration call that timed out.
pub const TIMED_OUT_TEXT: &'static str = "timed out";

/// The answer to a registration call: the code with success, or a "no code
/// yet" status on a timeout.
pub fn registration_response(outcome: Result<String, TimeoutError>) -> (r: (u16, String))
    ensures
        match outcome {
            Ok(code) => r.0 == STATUS_CODE_RECEIVED && r.1 == code,
            Err(_) => r.0 == STATUS_NO_CODE && r.1@ == TIMED_OUT_TEXT@,
        },
{
    match outcome {
        Ok(code) => (STATUS_CODE_RECEIVED, code),
        Err(_) => (STATUS_NO_CODE, String::from_str(TIMED_OUT_TEXT)),
    }
}

} // verus!
