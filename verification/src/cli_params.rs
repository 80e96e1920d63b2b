//! A generic way to declare a parameter of the command line: its name, its
//! description, its default and how its value is parsed.

use vstd::prelude::*;

verus! {

/// A parser of a parameter's value.
pub trait Parser {
    /// A type that can apply parsed parameter.
    type Executor;

    /// Whether the parser may give `result` for `value`.
    spec fn parses(&self, value: Seq<char>, result: Result<Self::Executor, String>) -> bool;

    /// Parse parameter and return the Executor.
    fn parse(&self, value: String) -> (r: Result<Self::Executor, String>)
        ensures
            self.parses(value@, r),
    ;
}

/// A parameter of the command line.
pub struct Param<P> {
    /// Parameters category
    pub category: String,
    /// Parameter name
    pub name: String,
    /// Parameter description
    pub description: String,
    /// Parameter default value
    pub default_value: String,
    /// Parameter parser
    pub parser: P,
}

impl<P: Parser> Param<P> {
    /// Create new parameter definition.
    pub fn new(category: &str, name: &str, description: &str, default_value: &str, parser: P) -> (r:
        Self)
        ensures
            r.category@ == category@,
            r.name@ == name@,
            r.description@ == description@,
            r.default_value@ == default_value@,
            r.parser == parser,
    {
        Param {
            category: category.to_string(),
            name: name.to_string(),
            description: description.to_string(),
            default_value: default_value.to_string(),
            parser,
        }
    }

    /// Parse given value and return `Executor` for given param: the value
    /// is the default where none is given.
    pub fn parse(&self, value: Option<String>) -> (r: Result<P::Executor, String>)
        ensures
            self.parser.parses(
                match value {
                    Some(given) => given@,
                    None => self.default_value@,
                },
                r,
            ),
    {
        let text = match value {
            Some(given) => given,
            None => self.default_value.clone(),
        };
        self.parser.parse(text)
    }
}

} // verus!
