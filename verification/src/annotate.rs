//! The annotator: turns the diff hunks that a version-control backend reports
//! for one file into a mapping from 1-based line number to a change
//! classification.
//!
//! Hunks are computed with zero lines of context, so each hunk describes only
//! changed lines. Per hunk, in backend order: a pure addition marks every line
//! of its new range as [`LineChange::Added`]; a pure deletion marks the
//! surviving line next to the removed block as [`LineChange::RemovedAbove`]
//! (when the block sat before line 1) or [`LineChange::RemovedBelow`]; a mixed
//! change marks every line of its new range as [`LineChange::Modified`]. When
//! two hunks mark the same line, the later-processed hunk wins.

use vstd::prelude::*;
use std::collections::HashMap;

verus! {

broadcast use vstd::std_specs::hash::group_hash_axioms;

/// How one line of the working copy relates to the checked-in baseline.
/// A line with no classification at all is unchanged.
#[derive(Copy, Clone, Debug, PartialEq, Eq, Structural)]
pub enum LineChange {
    /// The line does not exist in the baseline.
    Added,
    /// One or more baseline lines immediately above this line were removed.
    RemovedAbove,
    /// One or more baseline lines immediately below this line were removed.
    RemovedBelow,
    /// The line replaces baseline content.
    Modified,
}

/// One contiguous region of difference between the baseline and the working
/// copy, as a version-control backend reports it: a range of the old file
/// (`old_start`, `old_lines`) and a range of the new file (`new_start`,
/// `new_lines`), both 1-based; a start of 0 marks an empty range pinned
/// before the first line.
#[derive(Copy, Clone, Debug, PartialEq, Eq, Structural)]
pub struct Hunk {
    /// First line of the hunk in the baseline.
    pub old_start: u32,
    /// Number of baseline lines the hunk covers.
    pub old_lines: u32,
    /// First line of the hunk in the working copy.
    pub new_start: u32,
    /// Number of working-copy lines the hunk covers.
    pub new_lines: u32,
}

/// The per-file mapping from 1-based line number to its classification.
/// Absence of a key means the line is unchanged.
pub type LineChanges = HashMap<u32, LineChange>;

/// The classification a hunk assigns to the lines it marks.
pub open spec fn hunk_change(h: Hunk) -> LineChange {
    if h.old_lines == 0 && h.new_lines > 0 {
        LineChange::Added
    } else if h.new_lines == 0 && h.old_lines > 0 {
        if h.new_start == 0 {
            LineChange::RemovedAbove
        } else {
            LineChange::RemovedBelow
        }
    } else {
        LineChange::Modified
    }
}

/// Whether a hunk marks the given working-copy line: a pure deletion marks the
/// one surviving line beside the removed block (line 1 when the block sat
/// before the first line), every other hunk marks exactly its new range.
pub open spec fn hunk_marks(h: Hunk, line: u32) -> bool {
    if h.new_lines == 0 && h.old_lines > 0 {
        if h.new_start == 0 {
            line == 1
        } else {
            line == h.new_start
        }
    } else {
        h.new_start <= line < h.new_start + h.new_lines
    }
}

/// The classification a sequence of hunks leaves on a line: that of the last
/// hunk in the sequence that marks the line, or nothing when no hunk does.
pub open spec fn classification(hunks: Seq<Hunk>, line: u32) -> Option<LineChange>
    decreases hunks.len(),
{
    if hunks.len() == 0 {
        None
    } else if hunk_marks(hunks.last(), line) {
        Some(hunk_change(hunks.last()))
    } else {
        classification(hunks.drop_last(), line)
    }
}

/// Every line a hunk marks must be representable as a `u32` line number.
pub open spec fn hunk_in_bounds(h: Hunk) -> bool {
    h.new_start + h.new_lines <= u32::MAX + 1
}

/// Builds the per-line classification for one file from the hunks the backend
/// yielded, in order: the resulting map holds exactly the lines some hunk
/// marks, each with the classification of the last hunk that marks it.
pub fn compute_line_changes(hunks: &Vec<Hunk>) -> (changes: LineChanges)
    requires
        forall|i: int| 0 <= i < hunks@.len() ==> #[trigger] hunk_in_bounds(hunks@[i]),
    ensures
        forall|line: u32|
            #[trigger] changes@.contains_key(line) <==> classification(hunks@, line) is Some,
        forall|line: u32|
            changes@.contains_key(line) ==> Some(#[trigger] changes@[line]) == classification(
                hunks@,
                line,
            ),
{
    let mut changes: LineChanges = HashMap::new();
    let n = hunks.len();
    let mut i: usize = 0;
    while i < n
        invariant
            n == hunks@.len(),
            0 <= i <= n,
            forall|k: int| 0 <= k < hunks@.len() ==> #[trigger] hunk_in_bounds(hunks@[k]),
            forall|line: u32|
                #[trigger] changes@.contains_key(line) <==> classification(
                    hunks@.take(i as int),
                    line,
                ) is Some,
            forall|line: u32|
                changes@.contains_key(line) ==> Some(#[trigger] changes@[line])
                    == classification(hunks@.take(i as int), line),
        decreases n - i,
    {
        let h = hunks[i];
        assert(hunk_in_bounds(hunks@[i as int]));
        let ghost prior = changes@;
        if h.new_lines == 0 && h.old_lines > 0 {
            let target: u32 = if h.new_start == 0 {
                1
            } else {
                h.new_start
            };
            let kind = if h.new_start == 0 {
                LineChange::RemovedAbove
            } else {
                LineChange::RemovedBelow
            };
            changes.insert(target, kind);
            assert(kind == hunk_change(h));
            assert(forall|line: u32| hunk_marks(h, line) <==> line == target);
        } else {
            let kind = if h.old_lines == 0 && h.new_lines > 0 {
                LineChange::Added
            } else {
                LineChange::Modified
            };
            assert(kind == hunk_change(h));
            let mut line: u64 = h.new_start as u64;
            let end: u64 = h.new_start as u64 + h.new_lines as u64;
            while line < end
                invariant
                    end == h.new_start + h.new_lines,
                    end <= u32::MAX + 1,
                    h.new_start <= line <= end,
                    kind == hunk_change(h),
                    !(h.new_lines == 0 && h.old_lines > 0),
                    forall|l: u32|
                        #[trigger] changes@.contains_key(l) <==> (prior.contains_key(l) || (
                        h.new_start <= l < line)),
                    forall|l: u32|
                        changes@.contains_key(l) ==> #[trigger] changes@[l] == (if h.new_start
                            <= l < line {
                            kind
                        } else {
                            prior[l]
                        }),
                decreases end - line,
            {
                changes.insert(line as u32, kind);
                line = line + 1;
            }
        }
        proof {
            assert(hunks@.take(i + 1 as int).drop_last() =~= hunks@.take(i as int));
            assert(hunks@.take(i + 1 as int).last() == hunks@[i as int]);
        }
        i = i + 1;
    }
    proof {
        assert(hunks@.take(n as int) =~= hunks@);
    }
    changes
}

/// A pure-addition hunk, applied alone, classifies exactly the lines
/// `new_start ..= new_start + new_lines - 1` as `Added` and touches no other
/// line.
pub proof fn lemma_pure_addition(h: Hunk, line: u32)
    requires
        h.old_lines == 0,
        h.new_lines > 0,
    ensures
        classification(seq![h], line) == (if h.new_start <= line < h.new_start + h.new_lines {
            Some(LineChange::Added)
        } else {
            None::<LineChange>
        }),
{
    assert(seq![h].last() == h);
    assert(seq![h].drop_last() =~= Seq::<Hunk>::empty());
    assert(classification(Seq::<Hunk>::empty(), line) is None);
}

/// A pure deletion whose removed block sat before line 1 classifies exactly
/// line 1 as `RemovedAbove` and touches no other line.
pub proof fn lemma_pure_deletion_at_top(h: Hunk, line: u32)
    requires
        h.new_lines == 0,
        h.old_lines > 0,
        h.new_start == 0,
    ensures
        classification(seq![h], line) == (if line == 1 {
            Some(LineChange::RemovedAbove)
        } else {
            None::<LineChange>
        }),
{
    assert(seq![h].last() == h);
    assert(seq![h].drop_last() =~= Seq::<Hunk>::empty());
    assert(classification(Seq::<Hunk>::empty(), line) is None);
}

/// A pure deletion below a surviving line classifies exactly the line
/// `new_start` as `RemovedBelow` and touches no other line.
pub proof fn lemma_pure_deletion(h: Hunk, line: u32)
    requires
        h.new_lines == 0,
        h.old_lines > 0,
        h.new_start > 0,
    ensures
        classification(seq![h], line) == (if line == h.new_start {
            Some(LineChange::RemovedBelow)
        } else {
            None::<LineChange>
        }),
{
    assert(seq![h].last() == h);
    assert(seq![h].drop_last() =~= Seq::<Hunk>::empty());
    assert(classification(Seq::<Hunk>::empty(), line) is None);
}

/// A mixed-change hunk, applied alone, classifies exactly the lines
/// `new_start ..= new_start + new_lines - 1` as `Modified` and touches no
/// other line.
pub proof fn lemma_mixed_change(h: Hunk, line: u32)
    requires
        h.old_lines > 0,
        h.new_lines > 0,
    ensures
        classification(seq![h], line) == (if h.new_start <= line < h.new_start + h.new_lines {
            Some(LineChange::Modified)
        } else {
            None::<LineChange>
        }),
{
    assert(seq![h].last() == h);
    assert(seq![h].drop_last() =~= Seq::<Hunk>::empty());
    assert(classification(Seq::<Hunk>::empty(), line) is None);
}

/// Last write wins: when several hunks mark the same line, the line's
/// classification is that of the last such hunk in the sequence.
pub proof fn lemma_last_write_wins(hunks: Seq<Hunk>, i: int, line: u32)
    requires
        0 <= i < hunks.len(),
        hunk_marks(hunks[i], line),
        forall|j: int| i < j < hunks.len() ==> !hunk_marks(#[trigger] hunks[j], line),
    ensures
        classification(hunks, line) == Some(hunk_change(hunks[i])),
    decreases hunks.len(),
{
    if i == hunks.len() - 1 {
        assert(hunks.last() == hunks[i]);
    } else {
        assert(!hunk_marks(hunks.last(), line));
        assert(hunks.drop_last()[i] == hunks[i]);
        lemma_last_write_wins(hunks.drop_last(), i, line);
    }
}

/// A hunk whose new range is non-empty starts at line 1 or later, as every
/// hunk of a well-formed diff does.
pub open spec fn hunk_well_formed(h: Hunk) -> bool {
    h.new_lines > 0 ==> h.new_start >= 1
}

/// Line numbers are 1-based: well-formed hunks never classify line number 0,
/// so every key of the computed mapping is at least 1.
pub proof fn lemma_lines_start_at_one(hunks: Seq<Hunk>)
    requires
        forall|i: int| 0 <= i < hunks.len() ==> hunk_well_formed(#[trigger] hunks[i]),
    ensures
        classification(hunks, 0) is None,
    decreases hunks.len(),
{
    if hunks.len() > 0 {
        assert(hunk_well_formed(hunks.last()));
        assert(!hunk_marks(hunks.last(), 0));
        lemma_lines_start_at_one(hunks.drop_last());
    }
}

/// A line that no hunk marks is left unclassified.
pub proof fn lemma_unmarked_line(hunks: Seq<Hunk>, line: u32)
    requires
        forall|j: int| 0 <= j < hunks.len() ==> !hunk_marks(#[trigger] hunks[j], line),
    ensures
        classification(hunks, line) is None,
    decreases hunks.len(),
{
    if hunks.len() > 0 {
        assert(!hunk_marks(hunks.last(), line));
        lemma_unmarked_line(hunks.drop_last(), line);
    }
}

} // verus!
