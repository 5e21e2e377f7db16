use vstd::prelude::*;

verus! {

/// The host runtime's fatal-error value, modeled by its plain kinds. A
/// critical error terminates the whole call; any other handler error is
/// encoded into the response buffer like a success value.
#[derive(Debug, Clone, Copy, PartialEq, Eq, Structural)]
pub enum CriticalError {
    BadOrigin,
    CannotLookup,
    Other,
}

/// The capability of splitting an error value into the host's fatal error
/// or the value itself. The classification impl emitted for an error enum
/// with a critical variant matches that variant's payload out; an error
/// type without the capability is classified by the fallback, which treats
/// every value as ordinary.
pub trait SupportCriticalError: Sized {
    /// The fatal error this value wraps, if any. An implementation that
    /// leaves this default in place declares every value ordinary.
    open spec fn critical_spec(&self) -> Option<CriticalError> {
        None
    }

    /// Splits this value: the wrapped fatal error, or the value unchanged.
    fn try_to_critical(self) -> (r: Result<CriticalError, Self>)
        ensures
            match self.critical_spec() {
                Some(c) => r == Ok::<CriticalError, Self>(c),
                None => r == Err::<CriticalError, Self>(self),
            },
    ;
}

/// Wraps a handler result for critical-error classification.
pub struct ToCriticalErr<T>(pub T);

impl<T, E: SupportCriticalError> ToCriticalErr<Result<T, E>> {
    /// Classifies a handler result: a critical error aborts the call and
    /// comes back in the outer error; a success or an ordinary error
    /// passes through unchanged.
    pub fn try_to_critical_error(self) -> (r: Result<Result<T, E>, CriticalError>)
        ensures
            match self.0 {
                Ok(v) => r == Ok::<Result<T, E>, CriticalError>(Ok::<T, E>(v)),
                Err(e) => match e.critical_spec() {
                    Some(c) => r == Err::<Result<T, E>, CriticalError>(c),
                    None => r == Ok::<Result<T, E>, CriticalError>(Err::<T, E>(e)),
                },
            },
    {
        match self.0 {
            Ok(result) => Ok(Ok(result)),
            Err(error) => match error.try_to_critical() {
                Ok(critical_error) => Err(critical_error),
                Err(not_critical) => Ok(Err(not_critical)),
            },
        }
    }
}

/// The fallback classification for a wrapped value whose type has no
/// splitting capability: everything passes through as ordinary.
pub trait ToCriticalErrFallback<T> {
    fn try_to_critical_error(self) -> Result<T, CriticalError>;
}

impl<T> ToCriticalErrFallback<T> for ToCriticalErr<T> {
    /// Passes the wrapped value through unchanged.
    fn try_to_critical_error(self) -> (r: Result<T, CriticalError>)
        ensures
            r == Ok::<T, CriticalError>(self.0),
    {
        Ok(self.0)
    }
}

} // verus!
