//! What a run is asked to do, and how that is read from the command line.

use vstd::prelude::*;

use crate::error::Argument;
use crate::error::Failure;
use crate::error::GrepError;
use crate::error::exit_status;
use crate::text::contains_text;
use crate::text::has_substring;
use crate::text::lowercase_of;
use crate::text::to_lowercase;

verus! {

/// What to look for, where, and how. It is made once, from the command line
/// and the environment, and never changed.
#[derive(Debug, Clone, PartialEq, Eq)]
pub struct Config {
    /// The text to look for. It may be empty: the empty text is found in
    /// every line.
    pub query: String,
    /// The path of the file to read. Whether it exists is not looked at here.
    pub path: String,
    /// Whether letter case is disregarded. The program sets it when the
    /// environment variable `INVERT` is present, whatever its value.
    pub ignore_case: bool,
}

/// The mathematical value of a [`Config`].
pub struct Settings {
    /// The text to look for.
    pub query: Seq<char>,
    /// The path of the file to read.
    pub path: Seq<char>,
    /// Whether letter case is disregarded.
    pub ignore_case: bool,
}

impl View for Config {
    type V = Settings;

    open spec fn view(&self) -> Settings {
        Settings { query: self.query@, path: self.path@, ignore_case: self.ignore_case }
    }
}

impl Settings {
    /// Whether `line` is to be reported. With letter case respected, the line
    /// must contain the query as it stands; with letter case disregarded, the
    /// lower-case form of the line must contain the lower-case form of the
    /// query.
    pub open spec fn matches(self, line: Seq<char>) -> bool {
        if self.ignore_case {
            has_substring(lowercase_of(line), lowercase_of(self.query))
        } else {
            has_substring(line, self.query)
        }
    }
}

/// What the arguments of the process resolve to. The first, the name the
/// program was called by, is passed over; the next two are the query and the
/// path, in this order; any further ones are disregarded.
pub open spec fn resolve(args: Seq<Seq<char>>, ignore_case: bool) -> Result<Settings, Failure> {
    if args.len() < 2 {
        Err(Failure::MissingArgument(Argument::Query))
    } else if args.len() < 3 {
        Err(Failure::MissingArgument(Argument::Path))
    } else {
        Ok(Settings { query: args[1], path: args[2], ignore_case })
    }
}

/// The mathematical value of what [`Config::build`] returns.
pub open spec fn resolution(built: Result<Config, GrepError>) -> Result<Settings, Failure> {
    match built {
        Ok(config) => Ok(config@),
        Err(error) => Err(error@),
    }
}

impl Config {
    /// Reads the configuration from the arguments of the process, the
    /// program's own name first, and from `ignore_case`, which tells whether
    /// the environment asks for letter case to be disregarded.
    pub fn build(args: &[String], ignore_case: bool) -> (built: Result<Config, GrepError>)
        ensures
            resolution(built) == resolve(args@.map_values(|arg: String| arg@), ignore_case),
    {
        if args.len() < 2 {
            return Err(GrepError::MissingArgument(Argument::Query));
        }
        if args.len() < 3 {
            return Err(GrepError::MissingArgument(Argument::Path));
        }
        let query = args[1].clone();
        let path = args[2].clone();
        Ok(Config { query, path, ignore_case })
    }

    /// Whether `line` is to be reported.
    pub fn is_match(&self, line: &str) -> (hit: bool)
        ensures
            hit == self@.matches(line@),
    {
        if self.ignore_case {
            let folded_line = to_lowercase(line);
            let folded_query = to_lowercase(self.query.as_str());
            contains_text(folded_line.as_str(), folded_query.as_str())
        } else {
            contains_text(line, self.query.as_str())
        }
    }
}

/// With fewer than two positional arguments nothing is resolved, whatever the
/// environment says: the failure is a missing argument, it is reported as a
/// problem with the arguments, and the exit status is 1.
pub proof fn lemma_too_few_arguments(args: Seq<Seq<char>>, ignore_case: bool)
    requires
        args.len() < 3,
    ensures
        resolve(args, ignore_case) matches Err(failure) && failure is MissingArgument
            && failure.report() == "Problem parsing arguments: "@ + failure.message(),
        exit_status(resolve(args, ignore_case)) == 1,
{
}

} // verus!
