use vstd::prelude::*;
use vstd::std_specs::cmp::PartialEqSpec;

use crate::outcome::classify;

verus! {

/// Forgets the value of a success, keeping an error as it is.
fn without_value<E>(outcome: Result<Option<()>, E>) -> (r: Result<(), E>)
    ensures
        match outcome {
            Ok(_) => r == Ok::<(), E>(()),
            Err(e) => r == Err::<(), E>(e),
        },
{
    match outcome {
        Ok(_) => Ok(()),
        Err(e) => Err(e),
    }
}

/// Turns the errors that a predicate accepts into a plain success. The
/// predicate must be callable on any error.
pub trait ResultToolsA<E>: Sized {
    fn to_ok_if<P: FnOnce(&E) -> bool>(self, predicate: P) -> Self
        requires
            forall|e: &E| #[trigger] call_requires(predicate, (e,)),
    ;
}

impl<E> ResultToolsA<E> for Result<(), E> {
    /// A success is returned as it is, without calling `predicate`. An error
    /// is handed to `predicate` once: if it is accepted the result is
    /// `Ok(())`, otherwise the error itself is returned.
    fn to_ok_if<P: FnOnce(&E) -> bool>(self, predicate: P) -> (r: Self)
        ensures
            match self {
                Ok(_) => r == Ok::<(), E>(()),
                Err(e) => exists|accepted: bool|
                    #[trigger] call_ensures(predicate, (&e,), accepted) && r == (if accepted {
                        Ok::<(), E>(())
                    } else {
                        Err::<(), E>(e)
                    }),
            },
    {
        without_value(classify(self, predicate))
    }
}

/// Turns the errors that a predicate accepts into a success that holds no
/// value, and a success into one that holds its value. The predicate must be
/// callable on any error.
pub trait ResultToolsC<T, E> {
    fn to_none_if<F: FnOnce(&E) -> bool>(self, f: F) -> Result<Option<T>, E>
        requires
            forall|e: &E| #[trigger] call_requires(f, (e,)),
    ;
}

impl<T, E> ResultToolsC<T, E> for Result<T, E> {
    /// A success `Ok(v)` becomes `Ok(Some(v))`, without calling `f`. An error
    /// is handed to `f` once: if it is accepted the result is `Ok(None)`,
    /// otherwise the error itself is returned.
    fn to_none_if<F: FnOnce(&E) -> bool>(self, f: F) -> (r: Result<Option<T>, E>)
        ensures
            match self {
                Ok(v) => r == Ok::<Option<T>, E>(Some(v)),
                Err(e) => exists|accepted: bool|
                    #[trigger] call_ensures(f, (&e,), accepted) && r == (if accepted {
                        Ok::<Option<T>, E>(None)
                    } else {
                        Err::<Option<T>, E>(e)
                    }),
            },
    {
        classify(self, f)
    }
}

/// Turns an error equal to a given acceptable value into a plain success.
pub trait ResultToolsB<E>: Sized {
    fn to_ok_on_match<U>(self, acceptable: U) -> Self where E: PartialEq<U>;
}

impl<E> ResultToolsB<E> for Result<(), E> {
    /// A success is returned as it is, without comparing. An error is compared
    /// once with `acceptable`: if they are equal the result is `Ok(())`,
    /// otherwise the error itself is returned. Where the meaning of `==`
    /// between `E` and `U` is specified, the outcome follows it exactly.
    fn to_ok_on_match<U>(self, acceptable: U) -> (r: Self) where E: PartialEq<U>
        ensures
            match self {
                Ok(_) => r == Ok::<(), E>(()),
                Err(e) => r == Ok::<(), E>(()) || r == Err::<(), E>(e),
            },
            self is Err && <E as PartialEqSpec<U>>::obeys_eq_spec() ==> (r is Ok <==> self->Err_0.eq_spec(
                &acceptable,
            )),
    {
        let is_acceptable = move |e: &E| -> (m: bool)
            ensures
                <E as PartialEqSpec<U>>::obeys_eq_spec() ==> m == e.eq_spec(&acceptable),
        {
            *e == acceptable
        };
        without_value(classify(self, is_acceptable))
    }
}

/// Turns an error equal to a given acceptable value into a success that holds
/// no value, and a success into one that holds its value.
pub trait ResultToolsD<T, E> {
    fn to_none_on_match<U>(self, acceptable: U) -> Result<Option<T>, E> where
        E: PartialEq<U>,
    ;
}

impl<T, E> ResultToolsD<T, E> for Result<T, E> {
    /// A success `Ok(v)` becomes `Ok(Some(v))`, without comparing. An error is
    /// compared once with `acceptable`: if they are equal the result is
    /// `Ok(None)`, otherwise the error itself is returned. Where the meaning
    /// of `==` between `E` and `U` is specified, the outcome follows it
    /// exactly.
    fn to_none_on_match<U>(self, acceptable: U) -> (r: Result<Option<T>, E>) where
        E: PartialEq<U>,
        ensures
            match self {
                Ok(v) => r == Ok::<Option<T>, E>(Some(v)),
                Err(e) => r == Ok::<Option<T>, E>(None) || r == Err::<Option<T>, E>(e),
            },
            self is Err && <E as PartialEqSpec<U>>::obeys_eq_spec() ==> (r is Ok <==> self->Err_0.eq_spec(
                &acceptable,
            )),
    {
        let is_acceptable = move |e: &E| -> (m: bool)
            ensures
                <E as PartialEqSpec<U>>::obeys_eq_spec() ==> m == e.eq_spec(&acceptable),
        {
            *e == acceptable
        };
        classify(self, is_acceptable)
    }
}

} // verus!
