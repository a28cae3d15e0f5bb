//! The tunable values of the detectors.

use vstd::prelude::*;
use crate::util::text::same_text;

verus! {

/// A tunable value. A `Float` is held in fixed point.
#[derive(Debug, Clone, Copy, PartialEq, Eq, Structural)]
pub enum Parameter {
    Float(i64),
    Int(i32),
    Bool(bool),
}

/// Why a parameter could not be read.
#[derive(Debug, Clone, Copy, PartialEq, Eq, Structural)]
pub enum ParameterError {
    /// The parameter holds a value of another kind than the one asked for.
    TypeMismatch,
}

impl Parameter {
    /// The value as a float, if it is one.
    pub fn as_float(&self) -> (value: Result<i64, ParameterError>)
        ensures
            value == (match *self {
                Parameter::Float(f) => Ok::<i64, ParameterError>(f),
                _ => Err(ParameterError::TypeMismatch),
            }),
    {
        match self {
            Parameter::Float(f) => Ok(*f),
            _ => Err(ParameterError::TypeMismatch),
        }
    }

    /// The value as an integer, if it is one.
    pub fn as_int(&self) -> (value: Result<i32, ParameterError>)
        ensures
            value == (match *self {
                Parameter::Int(i) => Ok::<i32, ParameterError>(i),
                _ => Err(ParameterError::TypeMismatch),
            }),
    {
        match self {
            Parameter::Int(i) => Ok(*i),
            _ => Err(ParameterError::TypeMismatch),
        }
    }

    /// The value as a truth value, if it is one.
    pub fn as_bool(&self) -> (value: Result<bool, ParameterError>)
        ensures
            value == (match *self {
                Parameter::Bool(b) => Ok::<bool, ParameterError>(b),
                _ => Err(ParameterError::TypeMismatch),
            }),
    {
        match self {
            Parameter::Bool(b) => Ok(*b),
            _ => Err(ParameterError::TypeMismatch),
        }
    }
}

/// The parameters of one detector, by name.
pub type Parameters = Vec<(String, Parameter)>;

/// The views of a list of parameters.
pub open spec fn params_view(params: Seq<(String, Parameter)>) -> Seq<(Seq<char>, Parameter)> {
    Seq::new(params.len(), |i: int| (params[i].0@, params[i].1))
}

/// The value of the first of the first `n` entries that carries the given
/// name.
pub open spec fn parameter_among(params: Seq<(String, Parameter)>, name: Seq<char>, n: int)
    -> Option<Parameter>
    decreases n,
{
    if n <= 0 {
        None
    } else {
        match parameter_among(params, name, n - 1) {
            Some(p) => Some(p),
            None => if params[n - 1].0@ == name {
                Some(params[n - 1].1)
            } else {
                None
            },
        }
    }
}

/// The value listed under the given name, if any.
pub open spec fn parameter_named(params: Seq<(String, Parameter)>, name: Seq<char>) -> Option<
    Parameter,
> {
    parameter_among(params, name, params.len() as int)
}

proof fn lemma_parameter_among_stays(
    params: Seq<(String, Parameter)>,
    name: Seq<char>,
    n: int,
    m: int,
)
    requires
        0 <= n <= m,
        parameter_among(params, name, n) is Some,
    ensures
        parameter_among(params, name, m) == parameter_among(params, name, n),
    decreases m - n,
{
    if n < m {
        lemma_parameter_among_stays(params, name, n, m - 1);
    }
}

/// Looks a parameter up by name.
pub fn get_parameter_value(params: &Parameters, param_name: &str) -> (value: Option<Parameter>)
    ensures
        value == parameter_named(params@, param_name@),
{
    let mut i: usize = 0;
    while i < params.len()
        invariant
            i <= params.len(),
            parameter_among(params@, param_name@, i as int) is None,
        decreases params.len() - i,
    {
        if same_text(params[i].0.as_str(), param_name) {
            proof {
                lemma_parameter_among_stays(
                    params@,
                    param_name@,
                    i as int + 1,
                    params@.len() as int,
                );
            }
            return Some(params[i].1);
        }
        i += 1;
    }
    None
}

} // verus!
