use vstd::prelude::*;

verus! {

/// The model of a `Result`: the model of the value, or the model of the
/// error.
pub open spec fn result_view<T: DeepView, E: DeepView>(result: Result<T, E>) -> Result<T::V, E::V> {
    match result {
        Ok(value) => Ok(value.deep_view()),
        Err(error) => Err(error.deep_view()),
    }
}

/// The model of a `Result` whose value needs no model of its own: the value
/// as it is, or the model of the error.
pub open spec fn error_view<T, E: DeepView>(result: Result<T, E>) -> Result<T, E::V> {
    match result {
        Ok(value) => Ok(value),
        Err(error) => Err(error.deep_view()),
    }
}

/// The model of a `Result` whose error needs no model of its own: the model
/// of the value, or the error as it is.
pub open spec fn value_view<T: DeepView, E>(result: Result<T, E>) -> Result<T::V, E> {
    match result {
        Ok(value) => Ok(value.deep_view()),
        Err(error) => Err(error),
    }
}

} // verus!
