//! The scanner: it takes the lines one at a time, or a whole source at once,
//! and tells what to print.

use vstd::prelude::*;

use crate::config::Config;
use crate::config::Settings;
use crate::error::Failure;
use crate::error::GrepError;
use crate::pass::emitted;
use crate::pass::lemma_emitted_push;
use crate::pass::scanned;
use crate::pass::verdict;
use crate::render::render;
use crate::render::rendered;

verus! {

/// The mathematical value of one attempt to read a line.
pub open spec fn read_view(read: Result<String, String>) -> Result<Seq<char>, Seq<char>> {
    match read {
        Ok(line) => Ok(line@),
        Err(cause) => Err(cause@),
    }
}

/// The mathematical value of a sequence of attempts to read a line.
pub open spec fn reads(source: Seq<Result<String, String>>) -> Seq<Result<Seq<char>, Seq<char>>> {
    source.map_values(|read: Result<String, String>| read_view(read))
}

/// A pass over lines that arrive one at a time. It counts every line it is
/// given and tells which of them are to be printed, and how.
pub struct Scanner<'a> {
    config: &'a Config,
    seen: usize,
}

impl<'a> Scanner<'a> {
    /// The settings that the pass was started with.
    pub closed spec fn settings(&self) -> Settings {
        self.config@
    }

    /// The number of lines read so far.
    pub closed spec fn seen(&self) -> nat {
        self.seen as nat
    }

    /// A pass that has read nothing yet.
    pub fn new(config: &'a Config) -> (scanner: Scanner<'a>)
        ensures
            scanner.settings() == config@,
            scanner.seen() == 0,
    {
        Scanner { config, seen: 0 }
    }

    /// The number of lines read so far.
    pub fn lines_seen(&self) -> (count: usize)
        ensures
            count == self.seen(),
    {
        self.seen
    }

    /// Takes one attempt to read the next line. A line is counted, and if it
    /// matches, what is to be printed for it is returned. A failed attempt
    /// is returned as the error that ends the pass; nothing is counted then.
    pub fn feed(&mut self, read: &Result<String, String>) -> (step: Result<Option<String>, GrepError>)
        requires
            *read is Ok ==> old(self).seen() < usize::MAX,
        ensures
            final(self).settings() == old(self).settings(),
            match *read {
                Ok(line) => {
                    &&& final(self).seen() == old(self).seen() + 1
                    &&& step matches Ok(print)
                    &&& print is Some <==> old(self).settings().matches(line@)
                    &&& print matches Some(text) ==> text@ == rendered(
                        old(self).seen() + 1,
                        line@,
                    )
                },
                Err(cause) => {
                    &&& final(self).seen() == old(self).seen()
                    &&& step matches Err(error)
                    &&& error@ == Failure::IoError(cause@)
                },
            },
    {
        match read {
            Ok(line) => {
                self.seen = self.seen + 1;
                if self.config.is_match(line.as_str()) {
                    Ok(Some(render(self.seen, line.as_str())))
                } else {
                    Ok(None)
                }
            },
            Err(cause) => Err(GrepError::IoError(cause.clone())),
        }
    }
}

/// What a pass over a whole source has to show: the lines to print, in
/// order, and how the pass ended.
#[derive(Debug, PartialEq, Eq)]
pub struct Outcome {
    /// The lines for standard output.
    pub output: Vec<String>,
    /// Whether every line was read, or which failure ended the pass.
    pub result: Result<(), GrepError>,
}

impl Outcome {
    /// The lines for standard output, as texts.
    pub open spec fn printed(&self) -> Seq<Seq<char>> {
        self.output@.map_values(|text: String| text@)
    }

    /// How the pass ended.
    pub open spec fn verdict(&self) -> Result<(), Failure> {
        match self.result {
            Ok(_) => Ok(()),
            Err(error) => Err(error@),
        }
    }
}

/// Scans `source`, the lines of a file in order, each as the attempt to read
/// it turned out. The pass stops at the first failed attempt: the lines
/// before it are scanned and the failure is the result. The output holds a
/// line for each scanned line that matches.
pub fn run(config: &Config, source: &Vec<Result<String, String>>) -> (outcome: Outcome)
    ensures
        outcome.printed() == emitted(config@, scanned(reads(source@))),
        outcome.verdict() == verdict(reads(source@)),
{
    let ghost attempts = reads(source@);
    let ghost mut lines: Seq<Seq<char>> = Seq::empty();
    let mut scanner = Scanner::new(config);
    let mut output: Vec<String> = Vec::new();
    let mut next: usize = 0;
    assert(attempts.skip(0) =~= attempts);
    while next < source.len()
        invariant
            next <= source.len(),
            attempts == reads(source@),
            scanner.settings() == config@,
            scanner.seen() == next,
            lines.len() == next,
            scanned(attempts) == lines + scanned(attempts.skip(next as int)),
            verdict(attempts) == verdict(attempts.skip(next as int)),
            output@.map_values(|text: String| text@) == emitted(config@, lines),
        decreases source.len() - next,
    {
        let ghost rest = attempts.skip(next as int);
        assert(rest.drop_first() =~= attempts.skip(next + 1));
        match scanner.feed(&source[next]) {
            Ok(print) => {
                let ghost line = rest[0]->Ok_0;
                proof {
                    lemma_emitted_push(config@, lines, line);
                    lines = lines.push(line);
                }
                if let Some(text) = print {
                    output.push(text);
                }
            },
            Err(error) => {
                return Outcome { output, result: Err(error) };
            },
        }
        next = next + 1;
    }
    Outcome { output, result: Ok(()) }
}

/// Two passes over the same source with the same configuration print the
/// same lines and end the same way.
pub proof fn lemma_run_repeatable(
    config: Config,
    source: Seq<Result<String, String>>,
    first: Outcome,
    second: Outcome,
)
    requires
        first.printed() == emitted(config@, scanned(reads(source))),
        first.verdict() == verdict(reads(source)),
        second.printed() == emitted(config@, scanned(reads(source))),
        second.verdict() == verdict(reads(source)),
    ensures
        first.printed() == second.printed(),
        first.verdict() == second.verdict(),
{
}

} // verus!
