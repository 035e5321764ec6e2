use vstd::prelude::*;

verus! {

/// What classifying `outcome` yields once its error, if it has one, has been
/// judged: a success keeps its value, an accepted error becomes a success with
/// no value, and any other error is kept as it was.
pub open spec fn settled<T, E>(outcome: Result<T, E>, accepted: bool) -> Result<Option<T>, E> {
    match outcome {
        Ok(v) => Ok(Some(v)),
        Err(e) => if accepted {
            Ok(None)
        } else {
            Err(e)
        },
    }
}

/// Classifies `outcome`. A success becomes `Ok(Some(v))` and `accept` is not
/// called. An error is handed to `accept` once, by reference: if it is
/// accepted the result is `Ok(None)`, otherwise the error itself is returned.
pub fn classify<T, E, F: FnOnce(&E) -> bool>(outcome: Result<T, E>, accept: F) -> (r: Result<
    Option<T>,
    E,
>)
    requires
        forall|e: &E| #[trigger] call_requires(accept, (e,)),
    ensures
        match outcome {
            Ok(v) => r == Ok::<Option<T>, E>(Some(v)),
            Err(e) => exists|accepted: bool|
                #[trigger] call_ensures(accept, (&e,), accepted) && r == settled(outcome, accepted),
        },
{
    match outcome {
        Ok(v) => Ok(Some(v)),
        Err(e) => {
            let accepted = accept(&e);
            if accepted {
                Ok(None)
            } else {
                Err(e)
            }
        },
    }
}

} // verus!
