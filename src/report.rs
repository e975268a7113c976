//! What a run reports: counts by status, one line per repository, and the
//! exit code.
use vstd::prelude::*;
use vstd::string::*;
use crate::text::{decimal, decimal_text};
use crate::workflow::{RepoResult, RepoStatus};

verus! {

/// How many repositories ended in each status.
#[derive(Debug, Clone, Copy, PartialEq, Eq, Structural)]
pub struct Summary {
    pub success: usize,
    pub no_op: usize,
    pub failed: usize,
}

/// How many of the results have status `s`.
pub open spec fn count_status(rs: Seq<RepoResult>, s: RepoStatus) -> nat
    decreases rs.len(),
{
    if rs.len() == 0 {
        0
    } else {
        count_status(rs.drop_last(), s) + if rs.last().status == s {
            1nat
        } else {
            0nat
        }
    }
}

proof fn lemma_count_bounded(rs: Seq<RepoResult>, s: RepoStatus)
    ensures
        count_status(rs, s) <= rs.len(),
    decreases rs.len(),
{
    if rs.len() > 0 {
        lemma_count_bounded(rs.drop_last(), s);
    }
}

/// The counts of successes, no-ops and failures.
pub fn summarize(results: &Vec<RepoResult>) -> (s: Summary)
    ensures
        s.success == count_status(results@, RepoStatus::Success),
        s.no_op == count_status(results@, RepoStatus::NoOp),
        s.failed == count_status(results@, RepoStatus::Failed),
{
    let mut summary = Summary { success: 0, no_op: 0, failed: 0 };
    let mut i: usize = 0;
    while i < results.len()
        invariant
            i <= results@.len(),
            summary.success == count_status(results@.take(i as int), RepoStatus::Success),
            summary.no_op == count_status(results@.take(i as int), RepoStatus::NoOp),
            summary.failed == count_status(results@.take(i as int), RepoStatus::Failed),
        decreases results@.len() - i,
    {
        proof {
            let t = results@.take(i + 1);
            assert(t.drop_last() =~= results@.take(i as int));
            lemma_count_bounded(results@.take(i as int), RepoStatus::Success);
            lemma_count_bounded(results@.take(i as int), RepoStatus::NoOp);
            lemma_count_bounded(results@.take(i as int), RepoStatus::Failed);
        }
        match results[i].status {
            RepoStatus::Success => summary.success = summary.success + 1,
            RepoStatus::NoOp => summary.no_op = summary.no_op + 1,
            RepoStatus::Failed => summary.failed = summary.failed + 1,
        }
        i = i + 1;
    }
    assert(results@.take(results@.len() as int) =~= results@);
    summary
}

/// 1 when some repository failed, else 0.
pub fn exit_code(results: &Vec<RepoResult>) -> (c: i32)
    ensures
        c == (if exists|i: int| 0 <= i < results@.len() && #[trigger] results@[i].status == RepoStatus::Failed {
            1i32
        } else {
            0i32
        }),
{
    let mut i: usize = 0;
    while i < results.len()
        invariant
            i <= results@.len(),
            forall|j: int| 0 <= j < i ==> #[trigger] results@[j].status != RepoStatus::Failed,
        decreases results@.len() - i,
    {
        if results[i].status == RepoStatus::Failed {
            return 1;
        }
        i = i + 1;
    }
    0
}

/// The tag of a status in a report line.
pub open spec fn label(s: RepoStatus) -> Seq<char> {
    match s {
        RepoStatus::Success => "OK"@,
        RepoStatus::NoOp => "NOOP"@,
        RepoStatus::Failed => "FAIL"@,
    }
}

/// The tag of a status in a report line.
pub fn status_label(s: RepoStatus) -> (r: &'static str)
    ensures
        r@ == label(s),
{
    match s {
        RepoStatus::Success => "OK",
        RepoStatus::NoOp => "NOOP",
        RepoStatus::Failed => "FAIL",
    }
}

/// `[<tag>] <path> :: <message>`.
pub fn result_line(r: &RepoResult) -> (line: String)
    ensures
        line@ == "["@ + label(r.status) + "] "@ + r.repo@ + " :: "@ + r.message@,
{
    let mut line = String::from_str("[");
    line.append(status_label(r.status));
    line.append("] ");
    line.append(r.repo.as_str());
    line.append(" :: ");
    line.append(r.message.as_str());
    line
}

/// `Processed <n> repos: <a> success, <b> no-op, <c> failed`.
pub fn summary_line(results: &Vec<RepoResult>) -> (line: String)
    ensures
        line@ == "Processed "@ + decimal(results@.len()) + " repos: "@ + decimal(
            count_status(results@, RepoStatus::Success),
        ) + " success, "@ + decimal(count_status(results@, RepoStatus::NoOp)) + " no-op, "@
            + decimal(count_status(results@, RepoStatus::Failed)) + " failed"@,
{
    let s = summarize(results);
    let mut line = String::from_str("Processed ");
    line.append(decimal_text(results.len()).as_str());
    line.append(" repos: ");
    line.append(decimal_text(s.success).as_str());
    line.append(" success, ");
    line.append(decimal_text(s.no_op).as_str());
    line.append(" no-op, ");
    line.append(decimal_text(s.failed).as_str());
    line.append(" failed");
    line
}

} // verus!
