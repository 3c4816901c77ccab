use vstd::prelude::*;
use crate::failure::{
    failed, failed_with, Failure, OPTION_UNWRAP_MSG, OPTION_UNWRAP_NONE_MSG, RESULT_UNWRAP_ERR_MSG,
    RESULT_UNWRAP_MSG,
};

verus! {

/// Unwrapping a `Result` where the wrong variant is fatal.
///
/// Each method consumes the result. It yields the wanted payload as `Ok`, or,
/// on the other variant, the `Failure` whose critical record must be logged
/// before the thread terminates.
pub trait ResultExt<T, E>: Sized {
    /// The payload of an `Ok`; on an `Err`, a failure with the default message
    /// and the `Err`'s debug text.
    fn unwrap_or_log(self) -> Result<T, Failure>
        where E: std::fmt::Debug;

    /// The payload of an `Ok`; on an `Err`, a failure with `msg` and the `Err`'s
    /// debug text.
    fn expect_or_log(self, msg: &str) -> Result<T, Failure>
        where E: std::fmt::Debug;

    /// The payload of an `Err`; on an `Ok`, a failure with the default message
    /// and the `Ok`'s debug text.
    fn unwrap_err_or_log(self) -> Result<E, Failure>
        where T: std::fmt::Debug;

    /// The payload of an `Err`; on an `Ok`, a failure with `msg` and the `Ok`'s
    /// debug text.
    fn expect_err_or_log(self, msg: &str) -> Result<E, Failure>
        where T: std::fmt::Debug;
}

impl<T, E> ResultExt<T, E> for Result<T, E> {
    fn unwrap_or_log(self) -> (r: Result<T, Failure>)
        where E: std::fmt::Debug
        ensures
            self is Ok <==> r is Ok,
            self is Ok ==> r->Ok_0 == self->Ok_0,
            self is Err ==> r->Err_0.message@ == RESULT_UNWRAP_MSG@ && r->Err_0.value is Some,
    {
        match self {
            Ok(t) => Ok(t),
            Err(e) => Err(failed_with(RESULT_UNWRAP_MSG, &e)),
        }
    }

    fn expect_or_log(self, msg: &str) -> (r: Result<T, Failure>)
        where E: std::fmt::Debug
        ensures
            self is Ok <==> r is Ok,
            self is Ok ==> r->Ok_0 == self->Ok_0,
            self is Err ==> r->Err_0.message@ == msg@ && r->Err_0.value is Some,
    {
        match self {
            Ok(t) => Ok(t),
            Err(e) => Err(failed_with(msg, &e)),
        }
    }

    fn unwrap_err_or_log(self) -> (r: Result<E, Failure>)
        where T: std::fmt::Debug
        ensures
            self is Err <==> r is Ok,
            self is Err ==> r->Ok_0 == self->Err_0,
            self is Ok ==> r->Err_0.message@ == RESULT_UNWRAP_ERR_MSG@ && r->Err_0.value is Some,
    {
        match self {
            Ok(t) => Err(failed_with(RESULT_UNWRAP_ERR_MSG, &t)),
            Err(e) => Ok(e),
        }
    }

    fn expect_err_or_log(self, msg: &str) -> (r: Result<E, Failure>)
        where T: std::fmt::Debug
        ensures
            self is Err <==> r is Ok,
            self is Err ==> r->Ok_0 == self->Err_0,
            self is Ok ==> r->Err_0.message@ == msg@ && r->Err_0.value is Some,
    {
        match self {
            Ok(t) => Err(failed_with(msg, &t)),
            Err(e) => Ok(e),
        }
    }
}

/// Unwrapping an `Option` where the wrong variant is fatal.
///
/// Each method consumes the option. It yields what was wanted (the payload of a
/// `Some`, or nothing for a `None`) as `Ok`, or, on the other variant, the
/// `Failure` whose critical record must be logged before the thread terminates.
pub trait OptionExt<T>: Sized {
    /// The payload of a `Some`; on a `None`, a failure with the default message
    /// alone.
    fn unwrap_or_log(self) -> Result<T, Failure>;

    /// The payload of a `Some`; on a `None`, a failure with `msg` alone.
    fn expect_or_log(self, msg: &str) -> Result<T, Failure>;

    /// Nothing for a `None`; on a `Some`, a failure with the default message and
    /// the payload's debug text.
    fn unwrap_none_or_log(self) -> Result<(), Failure>
        where T: std::fmt::Debug;

    /// Nothing for a `None`; on a `Some`, a failure with `msg` and the payload's
    /// debug text.
    fn expect_none_or_log(self, msg: &str) -> Result<(), Failure>
        where T: std::fmt::Debug;
}

impl<T> OptionExt<T> for Option<T> {
    fn unwrap_or_log(self) -> (r: Result<T, Failure>)
        ensures
            self is Some <==> r is Ok,
            self is Some ==> r->Ok_0 == self->Some_0,
            self is None ==> r->Err_0.message@ == OPTION_UNWRAP_MSG@ && r->Err_0.value is None,
    {
        match self {
            Some(val) => Ok(val),
            None => Err(failed(OPTION_UNWRAP_MSG)),
        }
    }

    fn expect_or_log(self, msg: &str) -> (r: Result<T, Failure>)
        ensures
            self is Some <==> r is Ok,
            self is Some ==> r->Ok_0 == self->Some_0,
            self is None ==> r->Err_0.message@ == msg@ && r->Err_0.value is None,
    {
        match self {
            Some(val) => Ok(val),
            None => Err(failed(msg)),
        }
    }

    fn unwrap_none_or_log(self) -> (r: Result<(), Failure>)
        where T: std::fmt::Debug
        ensures
            self is None <==> r is Ok,
            self is Some ==> r->Err_0.message@ == OPTION_UNWRAP_NONE_MSG@ && r->Err_0.value is Some,
    {
        match self {
            Some(val) => Err(failed_with(OPTION_UNWRAP_NONE_MSG, &val)),
            None => Ok(()),
        }
    }

    fn expect_none_or_log(self, msg: &str) -> (r: Result<(), Failure>)
        where T: std::fmt::Debug
        ensures
            self is None <==> r is Ok,
            self is Some ==> r->Err_0.message@ == msg@ && r->Err_0.value is Some,
    {
        match self {
            Some(val) => Err(failed_with(msg, &val)),
            None => Ok(()),
        }
    }
}

} // verus!
