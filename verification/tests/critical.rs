use obce::substrate::{CriticalError, SupportCriticalError, ToCriticalErr, ToCriticalErrFallback};

#[derive(PartialEq, Eq, Debug)]
enum SupportedError {
    NonCritical,
    Critical(CriticalError),
}

impl SupportCriticalError for SupportedError {
    fn try_to_critical(self) -> Result<CriticalError, Self> {
        match self {
            SupportedError::Critical(critical) => Ok(critical),
            _ => Err(self),
        }
    }
}

#[derive(PartialEq, Eq, Debug)]
enum UnsupportedError {
    NonCritical,
    Critical(CriticalError),
}

#[test]
fn to_critical_error_works_if_trait_implemented() {
    let error: Result<(), _> = Err(SupportedError::Critical(CriticalError::BadOrigin));
    assert_eq!(
        ToCriticalErr(error).try_to_critical_error(),
        Err(CriticalError::BadOrigin)
    );

    let error: Result<(), _> = Err(SupportedError::NonCritical);
    assert_eq!(
        ToCriticalErr(error).try_to_critical_error(),
        Ok(Err(SupportedError::NonCritical))
    );
}

#[test]
fn to_critical_error_works_if_trait_is_not_implemented() {
    let error: Result<(), _> = Err(UnsupportedError::Critical(CriticalError::BadOrigin));
    assert_eq!(
        ToCriticalErr(error).try_to_critical_error(),
        Ok(Err(UnsupportedError::Critical(CriticalError::BadOrigin)))
    );

    let error: Result<(), _> = Err(UnsupportedError::NonCritical);
    assert_eq!(
        ToCriticalErr(error).try_to_critical_error(),
        Ok(Err(UnsupportedError::NonCritical))
    );
}

#[test]
fn to_critical_error_works_with_without_result() {
    let result = ();
    assert_eq!(ToCriticalErr(result).try_to_critical_error(), Ok(()));
}
