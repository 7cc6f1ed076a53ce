//! Outcomes of a batch of tool runs, one per target file, gathered into a
//! result that counts every file once and lists each failure with its path.

use vstd::prelude::*;
use crate::text::owned;

verus! {

/// How many runs of the external tool one batch keeps going at once.
pub const MAX_CONCURRENT_TOOL_RUNS: usize = 4;

/// The outcome of the run on the target at position `index`: no error, or
/// the error's text.
#[derive(Debug, Clone)]
pub struct FileOutcome {
    pub index: usize,
    pub error: Option<String>,
}

/// A target file whose run failed, with the error's text.
#[derive(Debug, Clone)]
pub struct FailedFile {
    pub path: String,
    pub error: String,
}

/// The result of a batch: how many runs succeeded and failed, and the
/// failures in the order of the targets.
#[derive(Debug, Clone)]
pub struct ExifWriteResult {
    pub success_count: usize,
    pub failed_count: usize,
    pub failed_files: Vec<FailedFile>,
}

/// The first outcome reported for the target at position `i`.
pub open spec fn first_report(outcomes: Seq<FileOutcome>, i: int) -> Option<FileOutcome>
    decreases outcomes.len(),
{
    if outcomes.len() == 0 {
        None
    } else if outcomes[0].index == i {
        Some(outcomes[0])
    } else {
        first_report(outcomes.drop_first(), i)
    }
}

/// The error of the target at position `i`: none when its run succeeded;
/// a target with no reported outcome counts as failed.
pub open spec fn file_error(outcomes: Seq<FileOutcome>, i: int) -> Option<Seq<char>> {
    match first_report(outcomes, i) {
        None => Some("no outcome was reported"@),
        Some(o) => match o.error {
            None => None,
            Some(e) => Some(e@),
        },
    }
}

/// How many of the first `n` targets succeeded.
pub open spec fn successes(outcomes: Seq<FileOutcome>, n: int) -> nat
    decreases n,
{
    if n <= 0 {
        0
    } else {
        successes(outcomes, n - 1) + if file_error(outcomes, n - 1) is None {
            1nat
        } else {
            0nat
        }
    }
}

/// The failures among the first `n` targets, in target order, as
/// (path, error) pairs.
pub open spec fn failures(paths: Seq<String>, outcomes: Seq<FileOutcome>, n: int) -> Seq<
    (Seq<char>, Seq<char>),
>
    decreases n,
{
    if n <= 0 {
        Seq::empty()
    } else {
        let prev = failures(paths, outcomes, n - 1);
        match file_error(outcomes, n - 1) {
            None => prev,
            Some(e) => prev.push((paths[n - 1]@, e)),
        }
    }
}

/// The (path, error) pairs of a list of failures.
pub open spec fn failed_pairs(f: Seq<FailedFile>) -> Seq<(Seq<char>, Seq<char>)> {
    f.map_values(|x: FailedFile| (x.path@, x.error@))
}

/// Finds the error of the target at position `i`.
fn error_of(outcomes: &Vec<FileOutcome>, i: usize) -> (r: Option<String>)
    ensures
        r matches Some(e) ==> file_error(outcomes@, i as int) == Some(e@),
        r is None ==> file_error(outcomes@, i as int) is None,
{
    let mut j: usize = 0;
    assert(outcomes@.skip(0) =~= outcomes@);
    while j < outcomes.len()
        invariant
            j <= outcomes.len(),
            first_report(outcomes@, i as int) == first_report(outcomes@.skip(j as int), i as int),
        decreases outcomes.len() - j,
    {
        assert(outcomes@.skip(j as int).drop_first() =~= outcomes@.skip(j as int + 1));
        if outcomes[j].index == i {
            return match &outcomes[j].error {
                None => None,
                Some(e) => Some(e.clone()),
            };
        }
        j = j + 1;
    }
    assert(outcomes@.skip(j as int).len() == 0);
    Some(owned("no outcome was reported"))
}

/// Gathers the outcomes of a batch over `paths`. Each target counts once,
/// by its first reported outcome, whatever order the outcomes came in;
/// failures are listed in target order.
pub fn aggregate_outcomes(paths: &Vec<String>, outcomes: &Vec<FileOutcome>) -> (r:
    ExifWriteResult)
    ensures
        r.success_count == successes(outcomes@, paths.len() as int),
        r.success_count + r.failed_count == paths.len(),
        failed_pairs(r.failed_files@) == failures(paths@, outcomes@, paths.len() as int),
        r.failed_count == r.failed_files.len(),
{
    let mut success: usize = 0;
    let mut failed: Vec<FailedFile> = Vec::new();
    let mut i: usize = 0;
    while i < paths.len()
        invariant
            i <= paths.len(),
            success == successes(outcomes@, i as int),
            success + failed.len() == i,
            failed_pairs(failed@) == failures(paths@, outcomes@, i as int),
        decreases paths.len() - i,
    {
        let ghost before = failed_pairs(failed@);
        match error_of(outcomes, i) {
            None => {
                success = success + 1;
            },
            Some(e) => {
                failed.push(FailedFile { path: paths[i].clone(), error: e });
                assert(failed_pairs(failed@) =~= before.push((paths@[i as int]@, failed@.last().error@)));
            },
        }
        i = i + 1;
    }
    let count = failed.len();
    ExifWriteResult { success_count: success, failed_count: count, failed_files: failed }
}

/// A batch accounts for every target exactly once: successes and failures
/// add up to the number of targets, every failed path is one of the
/// targets, and when the targets are distinct no path fails twice.
pub proof fn lemma_batch_accounts_for_every_target(
    paths: Seq<String>,
    outcomes: Seq<FileOutcome>,
    n: int,
)
    requires
        0 <= n <= paths.len(),
    ensures
        successes(outcomes, n) + failures(paths, outcomes, n).len() == n,
        forall|k: int|
            0 <= k < failures(paths, outcomes, n).len() ==> exists|i: int|
                0 <= i < n && #[trigger] failures(paths, outcomes, n)[k].0 == paths[i]@,
        (forall|i: int, j: int| 0 <= i < j < paths.len() ==> paths[i]@ != paths[j]@) ==> forall|
            k1: int,
            k2: int,
        |
            0 <= k1 < k2 < failures(paths, outcomes, n).len() ==> failures(paths, outcomes, n)[k1].0
                != failures(paths, outcomes, n)[k2].0,
    decreases n,
{
    if n > 0 {
        lemma_batch_accounts_for_every_target(paths, outcomes, n - 1);
        let prev = failures(paths, outcomes, n - 1);
        let cur = failures(paths, outcomes, n);
        match file_error(outcomes, n - 1) {
            None => {},
            Some(e) => {
                assert(cur == prev.push((paths[n - 1]@, e)));
                assert forall|k: int| 0 <= k < cur.len() implies exists|i: int|
                    0 <= i < n && #[trigger] cur[k].0 == paths[i]@ by {
                    if k < prev.len() {
                        assert(cur[k] == prev[k]);
                        let i = choose|i: int| 0 <= i < n - 1 && #[trigger] prev[k].0 == paths[i]@;
                        assert(0 <= i < n && cur[k].0 == paths[i]@);
                    } else {
                        assert(cur[k].0 == paths[n - 1]@);
                    }
                }
                if forall|i: int, j: int| 0 <= i < j < paths.len() ==> paths[i]@ != paths[j]@ {
                    assert forall|k1: int, k2: int|
                        0 <= k1 < k2 < cur.len() implies cur[k1].0 != cur[k2].0 by {
                        if k2 < prev.len() {
                            assert(cur[k1] == prev[k1] && cur[k2] == prev[k2]);
                        } else {
                            assert(cur[k1] == prev[k1]);
                            let i = choose|i: int| 0 <= i < n - 1 && #[trigger] prev[k1].0 == paths[i]@;
                            assert(paths[i]@ != paths[n - 1]@);
                        }
                    }
                }
            },
        }
    }
}

/// Whether no two outcomes are reported for the same target.
pub open spec fn one_report_each(o: Seq<FileOutcome>) -> bool {
    forall|a: int, b: int| 0 <= a < b < o.len() ==> o[a].index != o[b].index
}

/// With one report per target, the first report for a target is the one
/// report for it, if any.
pub proof fn lemma_first_report_is_the_report(o: Seq<FileOutcome>, i: int)
    requires
        one_report_each(o),
    ensures
        forall|k: int| 0 <= k < o.len() && o[k].index == i ==> first_report(o, i) == Some(#[trigger] o[k]),
        (forall|k: int| 0 <= k < o.len() ==> #[trigger] o[k].index != i) ==> first_report(o, i) is None,
    decreases o.len(),
{
    if o.len() > 0 {
        let rest = o.drop_first();
        assert(one_report_each(rest)) by {
            assert forall|a: int, b: int| 0 <= a < b < rest.len() implies rest[a].index != rest[b].index by {
                assert(rest[a] == o[a + 1] && rest[b] == o[b + 1]);
            }
        }
        lemma_first_report_is_the_report(rest, i);
        assert forall|k: int| 0 <= k < o.len() && o[k].index == i implies first_report(o, i) == Some(
            #[trigger] o[k],
        ) by {
            if k > 0 {
                assert(o[0].index != o[k].index);
                assert(rest[k - 1] == o[k]);
            }
        }
        if forall|k: int| 0 <= k < o.len() ==> #[trigger] o[k].index != i {
            assert forall|k: int| 0 <= k < rest.len() implies #[trigger] rest[k].index != i by {
                assert(rest[k] == o[k + 1]);
            }
        }
    }
}

/// The result of a batch does not depend on the order in which outcomes
/// arrive: two lists that hold the same outcomes, one per target, give the
/// same count of successes and the same failures in the same order.
pub proof fn lemma_batch_ignores_completion_order(
    paths: Seq<String>,
    a: Seq<FileOutcome>,
    b: Seq<FileOutcome>,
    n: int,
)
    requires
        one_report_each(a),
        one_report_each(b),
        forall|x: FileOutcome| a.contains(x) <==> b.contains(x),
    ensures
        successes(a, n) == successes(b, n),
        failures(paths, a, n) == failures(paths, b, n),
    decreases n,
{
    if n > 0 {
        lemma_batch_ignores_completion_order(paths, a, b, n - 1);
        let i = n - 1;
        lemma_first_report_is_the_report(a, i);
        lemma_first_report_is_the_report(b, i);
        if exists|k: int| 0 <= k < a.len() && #[trigger] a[k].index == i {
            let k = choose|k: int| 0 <= k < a.len() && #[trigger] a[k].index == i;
            assert(a.contains(a[k]));
            assert(b.contains(a[k]));
            let m = choose|m: int| 0 <= m < b.len() && b[m] == a[k];
            assert(first_report(b, i) == Some(b[m]));
        } else if exists|m: int| 0 <= m < b.len() && #[trigger] b[m].index == i {
            let m = choose|m: int| 0 <= m < b.len() && #[trigger] b[m].index == i;
            assert(b.contains(b[m]));
            assert(a.contains(b[m]));
            let k = choose|k: int| 0 <= k < a.len() && a[k] == b[m];
            assert(a[k].index == i);
        } else {
            assert(first_report(a, i) is None);
            assert(first_report(b, i) is None);
        }
        assert(file_error(a, i) == file_error(b, i));
    }
}

} // verus!
