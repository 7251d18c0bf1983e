//! What a pass over the lines of a file reports: which lines, under which
//! ordinals, in which order, and how the pass ends. This is the model that
//! the scanner is held to, with the laws that follow from it.

use vstd::prelude::*;

use crate::config::Settings;
use crate::error::Failure;
use crate::render::rendered;
use crate::text::has_substring;
use crate::text::lemma_empty_is_substring;
use crate::text::lowercase_of;

verus! {

/// The ordinals of the lines of `lines` that are reported, in the order of
/// the lines. The first line has the ordinal 1, and every line counts,
/// reported or not.
pub open spec fn ordinals(settings: Settings, lines: Seq<Seq<char>>) -> Seq<nat>
    decreases lines.len(),
{
    if lines.len() == 0 {
        Seq::empty()
    } else {
        let earlier = ordinals(settings, lines.drop_last());
        if settings.matches(lines.last()) {
            earlier.push(lines.len())
        } else {
            earlier
        }
    }
}

/// The output for `lines`: one line for each reported ordinal, in the same
/// order, made of the ordinal and of the line as it was read.
pub open spec fn emitted(settings: Settings, lines: Seq<Seq<char>>) -> Seq<Seq<char>> {
    ordinals(settings, lines).map_values(|k: nat| rendered(k, lines[k - 1]))
}

/// The lines that a pass over `source` scans: those read before the first
/// failure. Each entry of `source` is one attempt to read the next line:
/// the line without its terminator, or the description of what went wrong.
pub open spec fn scanned(source: Seq<Result<Seq<char>, Seq<char>>>) -> Seq<Seq<char>>
    decreases source.len(),
{
    if source.len() == 0 {
        Seq::empty()
    } else {
        match source[0] {
            Ok(line) => seq![line] + scanned(source.drop_first()),
            Err(_) => Seq::empty(),
        }
    }
}

/// How a pass over `source` ends: well when every line was read, else with
/// the first failure.
pub open spec fn verdict(source: Seq<Result<Seq<char>, Seq<char>>>) -> Result<(), Failure>
    decreases source.len(),
{
    if source.len() == 0 {
        Ok(())
    } else {
        match source[0] {
            Ok(_) => verdict(source.drop_first()),
            Err(cause) => Err(Failure::IoError(cause)),
        }
    }
}

/// The properties that define `ordinals`: each ordinal is the position of a
/// line, counted from 1; they increase strictly; and a position is among them
/// if and only if its line matches.
proof fn lemma_ordinals(settings: Settings, lines: Seq<Seq<char>>)
    ensures
        ordinals(settings, lines).len() <= lines.len(),
        forall|j: int|
            0 <= j < ordinals(settings, lines).len() ==> 1 <= #[trigger] ordinals(
                settings,
                lines,
            )[j] <= lines.len(),
        forall|i: int, j: int|
            0 <= i < j < ordinals(settings, lines).len() ==> ordinals(settings, lines)[i]
                < ordinals(settings, lines)[j],
        forall|k: nat|
            1 <= k <= lines.len() ==> (ordinals(settings, lines).contains(k) <==> settings.matches(
                #[trigger] lines[k - 1],
            )),
    decreases lines.len(),
{
    if lines.len() > 0 {
        let shorter = lines.drop_last();
        let earlier = ordinals(settings, shorter);
        let all = ordinals(settings, lines);
        lemma_ordinals(settings, shorter);
        assert forall|k: nat| 1 <= k <= lines.len() implies (all.contains(k) <==> settings.matches(
            #[trigger] lines[k - 1],
        )) by {
            if k < lines.len() {
                assert(shorter[k - 1] == lines[k - 1]);
                if earlier.contains(k) {
                    let j = choose|j: int| 0 <= j < earlier.len() && earlier[j] == k;
                    assert(all[j] == k);
                }
            } else if settings.matches(lines.last()) {
                assert(all[earlier.len() as int] == k);
            }
        }
    }
}

/// Ordinals count the lines from 1 and increase strictly.
pub proof fn lemma_ordinals_increase(settings: Settings, lines: Seq<Seq<char>>)
    ensures
        forall|j: int|
            0 <= j < ordinals(settings, lines).len() ==> 1 <= #[trigger] ordinals(
                settings,
                lines,
            )[j] <= lines.len(),
        forall|i: int, j: int|
            0 <= i < j < ordinals(settings, lines).len() ==> ordinals(settings, lines)[i]
                < ordinals(settings, lines)[j],
{
    lemma_ordinals(settings, lines);
}

/// A line is reported, under its position counted from 1, if and only if it
/// matches. A line that does not match, a blank one for instance, still takes
/// up its position.
pub proof fn lemma_reported_iff_matches(settings: Settings, lines: Seq<Seq<char>>, k: nat)
    requires
        1 <= k <= lines.len(),
    ensures
        ordinals(settings, lines).contains(k) <==> settings.matches(lines[k - 1]),
{
    lemma_ordinals(settings, lines);
}

/// With letter case respected, a line is reported if and only if it
/// contains the query exactly as it stands.
pub proof fn lemma_exact_case_report(settings: Settings, lines: Seq<Seq<char>>, k: nat)
    requires
        !settings.ignore_case,
        1 <= k <= lines.len(),
    ensures
        ordinals(settings, lines).contains(k) <==> has_substring(lines[k - 1], settings.query),
{
    lemma_reported_iff_matches(settings, lines, k);
}

/// With letter case disregarded, a line is reported if and only if its
/// lower-case form contains the lower-case form of the query.
pub proof fn lemma_any_case_report(settings: Settings, lines: Seq<Seq<char>>, k: nat)
    requires
        settings.ignore_case,
        1 <= k <= lines.len(),
    ensures
        ordinals(settings, lines).contains(k) <==> has_substring(
            lowercase_of(lines[k - 1]),
            lowercase_of(settings.query),
        ),
{
    lemma_reported_iff_matches(settings, lines, k);
}

/// The output has one line for each reported ordinal, in the same order, and
/// each holds the line at that position as it was read, whatever the
/// settings say of letter case.
pub proof fn lemma_emitted_entries(settings: Settings, lines: Seq<Seq<char>>, j: int)
    requires
        0 <= j < ordinals(settings, lines).len(),
    ensures
        emitted(settings, lines).len() == ordinals(settings, lines).len(),
        1 <= ordinals(settings, lines)[j] <= lines.len(),
        emitted(settings, lines)[j] == rendered(
            ordinals(settings, lines)[j],
            lines[ordinals(settings, lines)[j] - 1],
        ),
{
    lemma_ordinals(settings, lines);
}

/// A pass stops at the first failed attempt. When the attempt at position
/// `k` is the first that failed, the lines before it are scanned, none after
/// it is, and the pass ends with that failure. When no attempt failed, `k`
/// being the number of attempts, every line is scanned and the pass ends
/// well.
pub proof fn lemma_stops_at_first_failure(source: Seq<Result<Seq<char>, Seq<char>>>, k: int)
    requires
        0 <= k <= source.len(),
        forall|j: int| 0 <= j < k ==> (#[trigger] source[j]) is Ok,
        k < source.len() ==> source[k] is Err,
    ensures
        scanned(source) == Seq::new(k as nat, |j: int| source[j]->Ok_0),
        verdict(source) == if k < source.len() {
            Err::<(), Failure>(Failure::IoError(source[k]->Err_0))
        } else {
            Ok::<(), Failure>(())
        },
    decreases k,
{
    if k > 0 {
        lemma_stops_at_first_failure(source.drop_first(), k - 1);
    }
}

/// What one more line adds to the output: its rendering under the next
/// ordinal if it matches, and nothing if it does not. The output for the
/// lines before it stays as it was.
pub proof fn lemma_emitted_push(settings: Settings, lines: Seq<Seq<char>>, line: Seq<char>)
    ensures
        emitted(settings, lines.push(line)) == if settings.matches(line) {
            emitted(settings, lines).push(rendered(lines.len() + 1, line))
        } else {
            emitted(settings, lines)
        },
{
    let longer = lines.push(line);
    assert(longer.drop_last() =~= lines);
    lemma_ordinals(settings, lines);
}

/// With letter case respected and an empty query, every line is reported.
pub proof fn lemma_empty_query_reports_all(settings: Settings, lines: Seq<Seq<char>>)
    requires
        !settings.ignore_case,
        settings.query.len() == 0,
    ensures
        ordinals(settings, lines) == Seq::new(lines.len(), |i: int| (i + 1) as nat),
    decreases lines.len(),
{
    if lines.len() > 0 {
        lemma_empty_query_reports_all(settings, lines.drop_last());
        assert(settings.query =~= Seq::<char>::empty());
        lemma_empty_is_substring(lines.last());
    }
}

} // verus!
