//! Choosing the detectors of a run and tuning them.

use vstd::prelude::*;
use crate::algorithm::CheatAlgorithm;
use crate::base::cheat_analyser_base::models_of;
use crate::parameters::{Parameter, Parameters};
use crate::util::text::same_text;

verus! {

/// Why a selection of detectors cannot be run.
#[derive(Debug, Clone, PartialEq, Eq)]
pub enum SelectionError {
    /// These names were asked for and belong to no detector.
    Unknown(Vec<String>),
    /// No detector is left to run.
    Empty,
}

/// The views of a list of names.
pub open spec fn names_view(names: Seq<String>) -> Seq<Seq<char>> {
    Seq::new(names.len(), |i: int| names[i]@)
}

/// Whether one of the first `n` detectors carries the given name.
pub open spec fn name_among<A: CheatAlgorithm>(models: Seq<A::Model>, name: Seq<char>, n: int)
    -> bool
    decreases n,
{
    if n <= 0 {
        false
    } else {
        name_among::<A>(models, name, n - 1) || A::name_model(models[n - 1]) == name
    }
}

/// Whether a detector is wanted: by default if no name is asked for, by name
/// otherwise.
pub open spec fn is_wanted<A: CheatAlgorithm>(m: A::Model, names: Seq<Seq<char>>) -> bool {
    if names.len() == 0 {
        A::default_model(m)
    } else {
        names.contains(A::name_model(m))
    }
}

/// Those of the first `n` detectors that are wanted, in their order.
pub open spec fn wanted<A: CheatAlgorithm>(models: Seq<A::Model>, names: Seq<Seq<char>>, n: int)
    -> Seq<A::Model>
    decreases n,
{
    if n <= 0 {
        Seq::empty()
    } else if is_wanted::<A>(models[n - 1], names) {
        wanted::<A>(models, names, n - 1).push(models[n - 1])
    } else {
        wanted::<A>(models, names, n - 1)
    }
}

/// Those of the first `n` names that belong to no detector, in their order.
pub open spec fn unknown_names<A: CheatAlgorithm>(
    models: Seq<A::Model>,
    names: Seq<Seq<char>>,
    n: int,
) -> Seq<Seq<char>>
    decreases n,
{
    if n <= 0 {
        Seq::empty()
    } else if name_among::<A>(models, names[n - 1], models.len() as int) {
        unknown_names::<A>(models, names, n - 1)
    } else {
        unknown_names::<A>(models, names, n - 1).push(names[n - 1])
    }
}

/// What a selection comes to: the wanted detectors, unless a name that was
/// asked for belongs to none, or nothing is left to run.
pub open spec fn selection<A: CheatAlgorithm>(models: Seq<A::Model>, names: Seq<Seq<char>>)
    -> Result<Seq<A::Model>, Option<Seq<Seq<char>>>> {
    let unknown = unknown_names::<A>(models, names, names.len() as int);
    let chosen = wanted::<A>(models, names, models.len() as int);
    if unknown.len() > 0 {
        Err(Some(unknown))
    } else if chosen.len() == 0 {
        Err(None)
    } else {
        Ok(chosen)
    }
}

/// The view of what `select_algorithms` returns.
pub open spec fn selection_view<A: CheatAlgorithm>(selected: Result<Vec<A>, SelectionError>)
    -> Result<Seq<A::Model>, Option<Seq<Seq<char>>>> {
    match selected {
        Ok(list) => Ok(models_of(list@)),
        Err(SelectionError::Unknown(names)) => Err(Some(names_view(names@))),
        Err(SelectionError::Empty) => Err(None),
    }
}

/// Tells whether a list of names holds the given name.
fn names_contain(names: &Vec<String>, name: &str) -> (found: bool)
    ensures
        found == names_view(names@).contains(name@),
{
    let mut i: usize = 0;
    while i < names.len()
        invariant
            i <= names.len(),
            forall|j: int| 0 <= j < i ==> names_view(names@)[j] != name@,
        decreases names.len() - i,
    {
        if same_text(names[i].as_str(), name) {
            assert(names_view(names@)[i as int] == name@);
            return true;
        }
        i += 1;
    }
    false
}

/// Tells whether a detector of the list carries the given name.
fn has_algorithm<A: CheatAlgorithm>(algorithms: &Vec<A>, name: &str) -> (found: bool)
    ensures
        found == name_among::<A>(models_of(algorithms@), name@, algorithms@.len() as int),
{
    let mut i: usize = 0;
    while i < algorithms.len()
        invariant
            i <= algorithms.len(),
            !name_among::<A>(models_of(algorithms@), name@, i as int),
        decreases algorithms.len() - i,
    {
        if same_text(algorithms[i].algorithm_name(), name) {
            proof {
                lemma_name_among_stays::<A>(
                    models_of(algorithms@),
                    name@,
                    i as int + 1,
                    algorithms@.len() as int,
                );
            }
            return true;
        }
        i += 1;
    }
    false
}

proof fn lemma_name_among_stays<A: CheatAlgorithm>(
    models: Seq<A::Model>,
    name: Seq<char>,
    n: int,
    m: int,
)
    requires
        0 <= n <= m,
        name_among::<A>(models, name, n),
    ensures
        name_among::<A>(models, name, m),
    decreases m - n,
{
    if n < m {
        lemma_name_among_stays::<A>(models, name, n, m - 1);
    }
}

/// Chooses the detectors of a run.
///
/// With no names, the detectors that run by default are chosen; with names,
/// the detectors that carry one of them. The chosen detectors keep their
/// order. A name that belongs to no detector is an error, and so is a choice
/// that leaves no detector.
pub fn select_algorithms<A: CheatAlgorithm>(algorithms: Vec<A>, names: &Vec<String>) -> (selected:
    Result<Vec<A>, SelectionError>)
    ensures
        selection_view(selected) == selection::<A>(models_of(algorithms@), names_view(names@)),
{
    let ghost models = models_of(algorithms@);
    let ghost asked = names_view(names@);
    let mut unknown: Vec<String> = Vec::new();
    assert(names_view(unknown@) =~= Seq::empty());
    let mut i: usize = 0;
    while i < names.len()
        invariant
            i <= names.len(),
            models == models_of(algorithms@),
            asked == names_view(names@),
            names_view(unknown@) == unknown_names::<A>(models, asked, i as int),
        decreases names.len() - i,
    {
        if !has_algorithm(&algorithms, names[i].as_str()) {
            let ghost earlier = names_view(unknown@);
            unknown.push(names[i].clone());
            assert(names_view(unknown@) =~= earlier.push(asked[i as int]));
        }
        i += 1;
    }
    if unknown.len() > 0 {
        return Err(SelectionError::Unknown(unknown));
    }
    let by_default: bool = names.len() == 0;
    let mut chosen: Vec<A> = Vec::new();
    assert(models_of(chosen@) =~= Seq::empty());
    for algorithm in it: algorithms
        invariant
            models == models_of(it.seq()),
            asked == names_view(names@),
            by_default == (asked.len() == 0),
            models_of(chosen@) == wanted::<A>(models, asked, it.index() as int),
    {
        assert(algorithm.model() == models[it.index() as int]);
        let take = if by_default {
            algorithm.default()
        } else {
            names_contain(names, algorithm.algorithm_name())
        };
        if take {
            let ghost earlier = models_of(chosen@);
            chosen.push(algorithm);
            assert(models_of(chosen@) =~= earlier.push(models[it.index() as int]));
        }
    }
    if chosen.len() == 0 {
        return Err(SelectionError::Empty);
    }
    Ok(chosen)
}

/// The parameters that are given for the detector of the given name: those
/// of the first of the first `n` entries under that name.
pub open spec fn given_for(config: Seq<(String, Parameters)>, name: Seq<char>, n: int) -> Option<
    Seq<(String, Parameter)>,
>
    decreases n,
{
    if n <= 0 {
        None
    } else {
        match given_for(config, name, n - 1) {
            Some(p) => Some(p),
            None => if config[n - 1].0@ == name {
                Some(config[n - 1].1@)
            } else {
                None
            },
        }
    }
}

/// A detector after the first `n` given parameters were set, in order.
pub open spec fn tuned<A: CheatAlgorithm>(m: A::Model, given: Seq<(String, Parameter)>, n: int)
    -> A::Model
    decreases n,
{
    if n <= 0 {
        m
    } else {
        A::param_model(tuned::<A>(m, given, n - 1), given[n - 1].0@, given[n - 1].1)
    }
}

/// A detector after the parameters given for its name were laid over its
/// own; a detector for which none are given stays as it is.
pub open spec fn configured<A: CheatAlgorithm>(m: A::Model, config: Seq<(String, Parameters)>)
    -> A::Model {
    match given_for(config, A::name_model(m), config.len() as int) {
        Some(given) => tuned::<A>(m, given, given.len() as int),
        None => m,
    }
}

proof fn lemma_given_for_stays(config: Seq<(String, Parameters)>, name: Seq<char>, n: int, m: int)
    requires
        0 <= n <= m,
        given_for(config, name, n) is Some,
    ensures
        given_for(config, name, m) == given_for(config, name, n),
    decreases m - n,
{
    if n < m {
        lemma_given_for_stays(config, name, n, m - 1);
    }
}

/// Lays the parameters given for a detector's name over the detector's own.
pub fn configure<A: CheatAlgorithm>(algorithm: &mut A, config: &Vec<(String, Parameters)>)
    ensures
        final(algorithm).model() == configured::<A>(old(algorithm).model(), config@),
{
    let mut i: usize = 0;
    while i < config.len()
        invariant
            i <= config.len(),
            *algorithm == *old(algorithm),
            given_for(config@, A::name_model(algorithm.model()), i as int) is None,
        decreases config.len() - i,
    {
        if same_text(config[i].0.as_str(), algorithm.algorithm_name()) {
            proof {
                lemma_given_for_stays(
                    config@,
                    A::name_model(algorithm.model()),
                    i as int + 1,
                    config@.len() as int,
                );
            }
            let given = &config[i].1;
            let mut j: usize = 0;
            while j < given.len()
                invariant
                    j <= given.len(),
                    algorithm.model() == tuned::<A>(old(algorithm).model(), given@, j as int),
                decreases given.len() - j,
            {
                algorithm.set_param(given[j].0.as_str(), given[j].1);
                j += 1;
            }
            return ;
        }
        i += 1;
    }
}

/// Lays the given parameters over those of every detector of a list, each
/// by the detector's name. Names of detectors and of parameters that are not
/// known are passed over.
pub fn configure_all<A: CheatAlgorithm>(algorithms: &mut Vec<A>, config: &Vec<(String, Parameters)>)
    ensures
        final(algorithms)@.len() == old(algorithms)@.len(),
        forall|i: int|
            0 <= i < old(algorithms)@.len() ==> (#[trigger] final(algorithms)@[i]).model()
                == configured::<A>(old(algorithms)@[i].model(), config@),
{
    let n: usize = algorithms.len();
    let mut i: usize = 0;
    while i < n
        invariant
            i <= n,
            n == algorithms@.len(),
            n == old(algorithms)@.len(),
            forall|k: int|
                0 <= k < i ==> (#[trigger] algorithms@[k]).model() == configured::<A>(
                    old(algorithms)@[k].model(),
                    config@,
                ),
            forall|k: int| i <= k < n ==> algorithms@[k] == old(algorithms)@[k],
        decreases n - i,
    {
        configure(&mut algorithms[i], config);
        i += 1;
    }
}

} // verus!
