//! Batch orchestration decisions and the result reducer.
//!
//! A batch applies one extraction configuration to an ordered sequence of
//! input paths, continues past per-file failures, and reduces the per-path
//! outcomes into one aggregate result. The filesystem work — classifying
//! each path as a regular file or not, and driving the engine — belongs to
//! the embedding layer: it hands [`select_batch_paths`] the entries with
//! their filesystem classification, invokes the engine once per selected
//! path, and hands the ordered outcomes to [`reduce_batch`].

use vstd::prelude::*;
use crate::error::{convert_xmodits, ClassifiedError, EngineFailure, ErrorKind};
use crate::error::{xmodits_kind, xmodits_msg};

verus! {

/// One path of a batch request, with the filesystem classification the
/// embedding layer found for it.
#[derive(Debug, Clone, PartialEq, Eq)]
pub struct BatchEntry {
    pub path: String,
    /// Whether the path names a regular file. Only regular files are handed
    /// to the engine; everything else is skipped.
    pub is_file: bool,
}

/// The engine's outcome for one selected path of a batch.
#[derive(Debug, PartialEq, Eq)]
pub struct PathOutcome {
    pub path: String,
    pub outcome: Result<(), EngineFailure>,
}

/// One classified failure of a batch, paired with the path that produced it.
#[derive(Debug, Clone, PartialEq, Eq)]
pub struct BatchFailure {
    pub path: String,
    pub error: ClassifiedError,
}

/// The aggregate failure of a batch: either exactly one path failed — the
/// single classified error alone, the same shape a single-path call reports
/// — or two or more did, and every classified failure is carried in input
/// order, each with its path.
#[derive(Debug, Clone, PartialEq, Eq)]
pub enum BatchError {
    Single(ClassifiedError),
    Multiple(Vec<BatchFailure>),
}

/// The paths of a batch that extraction is attempted on: those of the
/// regular-file entries, in input order.
pub open spec fn selected_paths(entries: Seq<BatchEntry>) -> Seq<Seq<char>>
    decreases entries.len(),
{
    if entries.len() == 0 {
        Seq::empty()
    } else {
        let rest = selected_paths(entries.drop_last());
        if entries.last().is_file {
            rest.push(entries.last().path@)
        } else {
            rest
        }
    }
}

/// Select the paths extraction will be attempted on: the regular files, in
/// input order. Everything else — non-existent paths, directories — is
/// silently skipped: a deliberate filter, not a failure, so a skipped entry
/// never reaches the engine and never contributes to the aggregate result.
pub fn select_batch_paths(entries: Vec<BatchEntry>) -> (r: Vec<String>)
    ensures
        r@.map_values(|p: String| p@) == selected_paths(entries@),
{
    let mut r: Vec<String> = Vec::new();
    let mut i: usize = 0;
    while i < entries.len()
        invariant
            i <= entries@.len(),
            r@.map_values(|p: String| p@) == selected_paths(entries@.subrange(0, i as int)),
        decreases entries@.len() - i,
    {
        let e = &entries[i];
        if e.is_file {
            r.push(e.path.clone());
        }
        i = i + 1;
        proof {
            let pre = entries@.subrange(0, i - 1);
            let cur = entries@.subrange(0, i as int);
            assert(cur.drop_last() =~= pre);
            if entries@[i - 1].is_file {
                assert(r@.map_values(|p: String| p@) =~= selected_paths(pre).push(
                    entries@[i - 1].path@,
                ));
            }
        }
    }
    proof {
        assert(entries@.subrange(0, entries@.len() as int) =~= entries@);
    }
    r
}

/// Every selected path comes from a regular-file entry: entries that are
/// not regular files are excluded from engine invocation.
pub proof fn lemma_selected_only_files(entries: Seq<BatchEntry>)
    ensures
        forall|k: int|
            0 <= k < selected_paths(entries).len() ==> exists|j: int|
                0 <= j < entries.len() && entries[j].is_file && entries[j].path@ == #[trigger] selected_paths(
                    entries,
                )[k],
    decreases entries.len(),
{
    if entries.len() > 0 {
        lemma_selected_only_files(entries.drop_last());
        let rest = selected_paths(entries.drop_last());
        assert forall|k: int| 0 <= k < selected_paths(entries).len() implies exists|j: int|
            0 <= j < entries.len() && entries[j].is_file && entries[j].path@ == #[trigger] selected_paths(
                entries,
            )[k] by {
            if k < rest.len() {
                let j = choose|j: int|
                    0 <= j < entries.drop_last().len() && entries.drop_last()[j].is_file
                        && entries.drop_last()[j].path@ == rest[k];
                assert(0 <= j < entries.len() && entries[j].is_file && entries[j].path@
                    == selected_paths(entries)[k]);
            } else {
                let j = entries.len() - 1;
                assert(0 <= j < entries.len() && entries[j].is_file && entries[j].path@
                    == selected_paths(entries)[k]);
            }
        }
    }
}

/// Exactly the regular-file entries are attempted: the selection's size is
/// the number of regular-file entries, by direct counting, so skipping is
/// all that skipping does.
pub proof fn lemma_selected_count(entries: Seq<BatchEntry>)
    ensures
        selected_paths(entries).len() == entries.filter(|e: BatchEntry| e.is_file).len(),
    decreases entries.len(),
{
    reveal(Seq::filter);
    if entries.len() > 0 {
        lemma_selected_count(entries.drop_last());
    }
}

/// A batch of regular files only is selected whole, in order.
pub proof fn lemma_all_files_selected(entries: Seq<BatchEntry>)
    requires
        forall|j: int| 0 <= j < entries.len() ==> entries[j].is_file,
    ensures
        selected_paths(entries) == entries.map_values(|e: BatchEntry| e.path@),
    decreases entries.len(),
{
    if entries.len() > 0 {
        lemma_all_files_selected(entries.drop_last());
        assert(selected_paths(entries) =~= entries.map_values(|e: BatchEntry| e.path@));
    } else {
        assert(selected_paths(entries) =~= entries.map_values(|e: BatchEntry| e.path@));
    }
}

/// The view of one collected batch failure: its path, and the stable
/// category and message of its classified error.
pub open spec fn failure_view(b: BatchFailure) -> (Seq<char>, ErrorKind, Seq<char>) {
    (b.path@, b.error.kind(), b.error.msg())
}

/// The classified failures an ordered sequence of per-path outcomes
/// reduces over: for every outcome that is a failure, in input order, the
/// path and the category and message its engine report classifies to.
/// Outcomes that are successes contribute nothing.
pub open spec fn classified_failures(outcomes: Seq<PathOutcome>) -> Seq<
    (Seq<char>, ErrorKind, Seq<char>),
>
    decreases outcomes.len(),
{
    if outcomes.len() == 0 {
        Seq::empty()
    } else {
        let rest = classified_failures(outcomes.drop_last());
        match outcomes.last().outcome {
            Result::Ok(_) => rest,
            Result::Err(f) => rest.push(
                (outcomes.last().path@, xmodits_kind(f), xmodits_msg(f)),
            ),
        }
    }
}

/// Reduce the collected failures of one batch: zero failures is success;
/// exactly one is that classified error alone; two or more are carried
/// whole, in input order.
pub fn reduce_failures(failures: Vec<BatchFailure>) -> (r: Result<(), BatchError>)
    ensures
        r is Ok <==> failures@.len() == 0,
        failures@.len() == 1 ==> r == Result::<(), BatchError>::Err(
            BatchError::Single(failures@[0].error),
        ),
        failures@.len() >= 2 ==> r == Result::<(), BatchError>::Err(
            BatchError::Multiple(failures),
        ),
{
    if failures.len() == 0 {
        Ok(())
    } else if failures.len() == 1 {
        let mut failures = failures;
        let f = failures.remove(0);
        Err(BatchError::Single(f.error))
    } else {
        Err(BatchError::Multiple(failures))
    }
}

/// Reduce the ordered per-path outcomes of one batch into the aggregate
/// result. Every failing path contributes exactly one classified failure,
/// by direct counting — one failing path never aborts the batch — and the
/// three-way reduction policy of [`reduce_failures`] is applied to them.
pub fn reduce_batch(outcomes: Vec<PathOutcome>) -> (r: Result<(), BatchError>)
    ensures
        ({
            let fs = classified_failures(outcomes@);
            &&& (r is Ok <==> fs.len() == 0)
            &&& fs.len() == 1 ==> (match r {
                Result::Err(BatchError::Single(e)) => e.kind() == fs[0].1 && e.msg() == fs[0].2,
                _ => false,
            })
            &&& fs.len() >= 2 ==> (match r {
                Result::Err(BatchError::Multiple(v)) => v@.map_values(
                    |b: BatchFailure| failure_view(b),
                ) == fs,
                _ => false,
            })
        }),
{
    let ghost all = outcomes@;
    let mut rem = outcomes;
    let mut failures: Vec<BatchFailure> = Vec::new();
    let ghost mut seen: Seq<PathOutcome> = Seq::empty();
    while rem.len() > 0
        invariant
            all =~= seen + rem@,
            failures@.map_values(|b: BatchFailure| failure_view(b)) == classified_failures(seen),
        decreases rem@.len(),
    {
        let o = rem.remove(0);
        let ghost prev_seen = seen;
        let ghost prev_failures = failures@;
        let ghost go = o;
        proof {
            seen = seen.push(go);
            assert(seen.drop_last() =~= prev_seen);
            assert(seen.last() == go);
            assert(all =~= seen + rem@);
        }
        match o.outcome {
            Ok(_) => {
                proof {
                    assert(classified_failures(seen) == classified_failures(prev_seen));
                }
            },
            Err(f) => {
                let ghost gf = f;
                let c = convert_xmodits(f);
                failures.push(BatchFailure { path: o.path, error: c });
                proof {
                    assert(classified_failures(seen) == classified_failures(prev_seen).push(
                        (go.path@, xmodits_kind(gf), xmodits_msg(gf)),
                    ));
                    assert(failure_view(failures@.last()) == (
                        go.path@,
                        xmodits_kind(gf),
                        xmodits_msg(gf),
                    ));
                    assert(failures@.map_values(|b: BatchFailure| failure_view(b))
                        =~= prev_failures.map_values(|b: BatchFailure| failure_view(b)).push(
                        failure_view(failures@.last()),
                    ));
                }
            },
        }
    }
    proof {
        assert(seen =~= all);
    }
    reduce_failures(failures)
}

/// A batch in which no path fails reduces to success, whatever its size —
/// the empty batch included.
pub proof fn lemma_all_ok_reduces_to_success(outcomes: Seq<PathOutcome>)
    requires
        forall|j: int| 0 <= j < outcomes.len() ==> outcomes[j].outcome is Ok,
    ensures
        classified_failures(outcomes).len() == 0,
    decreases outcomes.len(),
{
    if outcomes.len() > 0 {
        lemma_all_ok_reduces_to_success(outcomes.drop_last());
    }
}

/// A batch in which exactly one path fails reduces to exactly the
/// classification a single-path call reports for that same engine failure:
/// the one collected failure carries that path, and the category and
/// message of its report's classification.
pub proof fn lemma_single_failure_matches_single_call(
    outcomes: Seq<PathOutcome>,
    i: int,
    f: EngineFailure,
)
    requires
        0 <= i < outcomes.len(),
        outcomes[i].outcome == Result::<(), EngineFailure>::Err(f),
        forall|j: int| 0 <= j < outcomes.len() && j != i ==> outcomes[j].outcome is Ok,
    ensures
        classified_failures(outcomes) == seq![
            (outcomes[i].path@, xmodits_kind(f), xmodits_msg(f)),
        ],
    decreases outcomes.len(),
{
    if i == outcomes.len() - 1 {
        lemma_all_ok_reduces_to_success(outcomes.drop_last());
        assert(classified_failures(outcomes) =~= seq![
            (outcomes[i].path@, xmodits_kind(f), xmodits_msg(f)),
        ]);
    } else {
        lemma_single_failure_matches_single_call(outcomes.drop_last(), i, f);
    }
}

/// The aggregate's failure count equals the number of per-path outcomes
/// that are not success, by direct counting.
pub proof fn lemma_failure_count(outcomes: Seq<PathOutcome>)
    ensures
        classified_failures(outcomes).len() == outcomes.filter(
            |o: PathOutcome| o.outcome is Err,
        ).len(),
    decreases outcomes.len(),
{
    reveal(Seq::filter);
    if outcomes.len() > 0 {
        lemma_failure_count(outcomes.drop_last());
    }
}

} // verus!
