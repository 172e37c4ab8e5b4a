//! The working-copy synchronizer: how one source is brought up to date and
//! how the outcome of each transfer is classified.
use vstd::prelude::*;
use crate::source::{SourceSpec, SyncError};

verus! {

/// The phrase a fast-forward update prints when nothing new arrived.
pub open spec fn up_to_date_marker() -> Seq<u8> {
    seq![
        65u8, 108u8, 114u8, 101u8, 97u8, 100u8, 121u8, 32u8, 117u8, 112u8, 32u8, 116u8, 111u8,
        32u8, 100u8, 97u8, 116u8, 101u8, 46u8,
    ]
}

/// `needle` occurs in `hay` as a contiguous run starting at `k`.
pub open spec fn occurs_at(hay: Seq<u8>, needle: Seq<u8>, k: int) -> bool {
    0 <= k && k + needle.len() <= hay.len() && hay.subrange(k, k + needle.len()) == needle
}

pub open spec fn occurs_in(hay: Seq<u8>, needle: Seq<u8>) -> bool {
    exists|k: int| occurs_at(hay, needle, k)
}

/// A successful update's output says that nothing new arrived.
pub open spec fn reports_up_to_date(stdout: Seq<u8>) -> bool {
    occurs_in(stdout, up_to_date_marker())
}

fn marker_bytes() -> (r: Vec<u8>)
    ensures
        r@ == up_to_date_marker(),
{
    let r: Vec<u8> = vec![
        65u8, 108u8, 114u8, 101u8, 97u8, 100u8, 121u8, 32u8, 117u8, 112u8, 32u8, 116u8, 111u8,
        32u8, 100u8, 97u8, 116u8, 101u8, 46u8,
    ];
    assert(r@ =~= up_to_date_marker());
    r
}

fn occurs_at_exec(hay: &Vec<u8>, needle: &Vec<u8>, k: usize) -> (r: bool)
    requires
        k + needle@.len() <= hay@.len(),
    ensures
        r == occurs_at(hay@, needle@, k as int),
{
    let n: usize = hay.len();
    let mut j: usize = 0;
    while j < needle.len()
        invariant
            n == hay@.len(),
            j <= needle@.len(),
            k + needle@.len() <= hay@.len(),
            forall|t: int| 0 <= t < j ==> hay@[k + t] == needle@[t],
        decreases needle@.len() - j,
    {
        if hay[k + j] != needle[j] {
            assert(hay@.subrange(k as int, k + needle@.len())[j as int] != needle@[j as int]);
            return false;
        }
        j = j + 1;
    }
    assert(hay@.subrange(k as int, k + needle@.len()) =~= needle@);
    true
}

/// Whether `stdout` of a successful update contains the "already up to date" phrase.
pub fn contains_up_to_date(stdout: &Vec<u8>) -> (r: bool)
    ensures
        r == reports_up_to_date(stdout@),
{
    let needle = marker_bytes();
    if stdout.len() < needle.len() {
        return false;
    }
    let n: usize = stdout.len();
    let last: usize = n - needle.len();
    let mut k: usize = 0;
    while k <= last
        invariant
            n == stdout@.len(),
            needle@.len() > 0,
            last + needle@.len() == stdout@.len(),
            needle@ == up_to_date_marker(),
            k <= last + 1,
            forall|t: int| 0 <= t < k ==> !occurs_at(stdout@, needle@, t),
        decreases last + 1 - k,
    {
        if occurs_at_exec(stdout, &needle, k) {
            return true;
        }
        k = k + 1;
    }
    false
}

/// How an existing or missing working copy is brought up to date.
#[derive(PartialEq, Eq, Structural, Clone, Copy, Debug)]
pub enum SyncOp {
    /// Obtain a full copy from the remote.
    Clone,
    /// Fast-forward the existing copy.
    Pull,
}

/// A missing working copy is cloned; an existing one is fast-forwarded.
pub fn plan_sync(exists: bool) -> (r: SyncOp)
    ensures
        r == (if exists { SyncOp::Pull } else { SyncOp::Clone }),
{
    if exists {
        SyncOp::Pull
    } else {
        SyncOp::Clone
    }
}

/// Whether a clone of `source` changed anything, or why it failed.
pub open spec fn clone_result(source: SourceSpec, success: bool, stderr: String) -> Result<
    bool,
    SyncError,
> {
    if success {
        Ok(true)
    } else {
        Err(SyncError::CloneFailed { source, detail: stderr })
    }
}

/// Whether a fast-forward of `source` brought new content, or why it failed.
pub open spec fn pull_result(
    source: SourceSpec,
    success: bool,
    stdout: Seq<u8>,
    stderr: String,
) -> Result<bool, SyncError> {
    if success {
        Ok(!reports_up_to_date(stdout))
    } else {
        Err(SyncError::UpdateFailed { source, detail: stderr })
    }
}

/// Classifies the end of a clone: a fresh copy always counts as a change.
pub fn clone_outcome(source: &SourceSpec, success: bool, stderr: String) -> (r: Result<
    bool,
    SyncError,
>)
    ensures
        r == clone_result(*source, success, stderr),
{
    if success {
        Ok(true)
    } else {
        Err(SyncError::CloneFailed { source: source.duplicate(), detail: stderr })
    }
}

/// Classifies the end of a fast-forward update: it changed something unless
/// its output says that the copy was already up to date.
pub fn pull_outcome(source: &SourceSpec, success: bool, stdout: &Vec<u8>, stderr: String) -> (r:
    Result<bool, SyncError>)
    ensures
        r == pull_result(*source, success, stdout@, stderr),
{
    if success {
        Ok(!contains_up_to_date(stdout))
    } else {
        Err(SyncError::UpdateFailed { source: source.duplicate(), detail: stderr })
    }
}

} // verus!
