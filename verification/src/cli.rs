//! Reading the parameters of the command line.

use vstd::prelude::*;

use crate::cli_params::{Param, Parser};
use crate::table::Table;

verus! {

/// The text that is parsed for a parameter: the value that was given under
/// its name, or its default where none was given.
pub open spec fn text_for<P>(given: Map<Seq<char>, String>, param: Param<P>) -> Seq<char> {
    if given.contains_key(param.name@) {
        given[param.name@]@
    } else {
        param.default_value@
    }
}

/// Whether each of the first `count` parameters parses to the value in its place.
pub open spec fn all_parse<P: Parser>(
    given: Map<Seq<char>, String>,
    params: Seq<Param<P>>,
    values: Seq<P::Executor>,
    count: int,
) -> bool {
    forall|i: int|
        0 <= i < count ==> (#[trigger] params[i]).parser.parses(
            text_for(given, params[i]),
            Ok::<P::Executor, String>(values[i]),
        )
}

/// Whether the parser of a parameter gives some value for its text.
pub open spec fn parses_to_a_value<P: Parser>(given: Map<Seq<char>, String>, param: Param<P>) -> bool {
    exists|value: P::Executor|
        #[trigger] param.parser.parses(text_for(given, param), Ok::<P::Executor, String>(value))
}

/// Whether the parameter at `failed` is the first that does not parse, and
/// fails with the given error.
pub open spec fn fails_at<P: Parser>(
    given: Map<Seq<char>, String>,
    params: Seq<Param<P>>,
    failed: int,
    error: String,
) -> bool {
    &&& 0 <= failed < params.len()
    &&& forall|i: int| 0 <= i < failed ==> parses_to_a_value(given, #[trigger] params[i])
    &&& params[failed].parser.parses(
        text_for(given, params[failed]),
        Err::<P::Executor, String>(error),
    )
}

/// Parses the value of each parameter from the values that were given on
/// the command line under the names of the parameters. The parameters are
/// parsed in their order, and the first value that does not parse ends the
/// parsing with its error.
pub fn parse_matches<P: Parser>(given: &Table<String, String>, params: &Vec<Param<P>>) -> (r: Result<
    Vec<P::Executor>,
    String,
>)
    requires
        given.wf(),
    ensures
        match r {
            Ok(values) => values@.len() == params@.len() && all_parse(
                given@,
                params@,
                values@,
                params@.len() as int,
            ),
            Err(error) => exists|failed: int| #[trigger] fails_at(given@, params@, failed, error),
        },
{
    let mut values: Vec<P::Executor> = Vec::new();
    let mut i: usize = 0;
    while i < params.len()
        invariant
            i <= params.len(),
            given.wf(),
            values@.len() == i,
            all_parse(given@, params@, values@, i as int),
        decreases params.len() - i,
    {
        let value = match given.get(&params[i].name) {
            Some(text) => Some(text.clone()),
            None => None,
        };
        let ghost before = values@;
        match params[i].parse(value) {
            Ok(value) => {
                values.push(value);
                assert forall|j: int| 0 <= j < i + 1 implies (#[trigger] params@[j]).parser.parses(
                    text_for(given@, params@[j]),
                    Ok::<P::Executor, String>(values@[j]),
                ) by {
                    if j < i {
                        assert(values@[j] == before[j]);
                    }
                }
            },
            Err(error) => {
                assert forall|j: int| 0 <= j < i implies parses_to_a_value(
                    given@,
                    #[trigger] params@[j],
                ) by {
                    assert(params@[j].parser.parses(
                        text_for(given@, params@[j]),
                        Ok::<P::Executor, String>(before[j]),
                    ));
                }
                let failure: Result<Vec<P::Executor>, String> = Err(error);
                assert(fails_at(given@, params@, i as int, failure->Err_0));
                return failure;
            },
        }
        i += 1;
    }
    Ok(values)
}

} // verus!
