//! The status lifecycle of a job and its stored text form.

use vstd::prelude::*;
use crate::text::text_eq;

verus! {

/// Where a job stands in its lifecycle: it starts as `Pending`, is worked
/// on as `Generating` or `Rendering`, and ends as `Done` or `Failed`.
#[derive(Debug, Clone, Copy, PartialEq, Eq, Structural)]
pub enum JobStatus {
    Pending,
    Generating,
    Rendering,
    Done,
    Failed,
}

impl JobStatus {
    /// The text under which a status is stored.
    pub open spec fn name(self) -> Seq<char> {
        match self {
            JobStatus::Pending => "pending"@,
            JobStatus::Generating => "generating"@,
            JobStatus::Rendering => "rendering"@,
            JobStatus::Done => "done"@,
            JobStatus::Failed => "failed"@,
        }
    }

    /// The status that a stored text names, if it names one.
    pub open spec fn named(s: Seq<char>) -> Option<JobStatus> {
        if s == "pending"@ {
            Some(JobStatus::Pending)
        } else if s == "generating"@ {
            Some(JobStatus::Generating)
        } else if s == "rendering"@ {
            Some(JobStatus::Rendering)
        } else if s == "done"@ {
            Some(JobStatus::Done)
        } else if s == "failed"@ {
            Some(JobStatus::Failed)
        } else {
            None
        }
    }

    /// Reading without failing: a text that names no status is taken as
    /// `Pending`, and the flag says that this default was applied.
    pub open spec fn lenient(s: Seq<char>) -> (JobStatus, bool) {
        match JobStatus::named(s) {
            Some(status) => (status, false),
            None => (JobStatus::Pending, true),
        }
    }

    /// A job that is being worked on.
    pub open spec fn in_progress(self) -> bool {
        self == JobStatus::Generating || self == JobStatus::Rendering
    }

    /// A job from which no further transition is expected.
    pub open spec fn terminal(self) -> bool {
        self == JobStatus::Done || self == JobStatus::Failed
    }

    pub fn as_str(&self) -> (r: &'static str)
        ensures
            r@ == self.name(),
    {
        match self {
            JobStatus::Pending => "pending",
            JobStatus::Generating => "generating",
            JobStatus::Rendering => "rendering",
            JobStatus::Done => "done",
            JobStatus::Failed => "failed",
        }
    }

    /// Reads a stored status; the flag tells whether the text named no
    /// status and `Pending` was taken in its place.
    pub fn decode_lenient(s: &str) -> (r: (JobStatus, bool))
        ensures
            r == JobStatus::lenient(s@),
    {
        if text_eq(s, "pending") {
            (JobStatus::Pending, false)
        } else if text_eq(s, "generating") {
            (JobStatus::Generating, false)
        } else if text_eq(s, "rendering") {
            (JobStatus::Rendering, false)
        } else if text_eq(s, "done") {
            (JobStatus::Done, false)
        } else if text_eq(s, "failed") {
            (JobStatus::Failed, false)
        } else {
            (JobStatus::Pending, true)
        }
    }

    /// Reads a stored status. A text that names no status reads as
    /// `Pending`.
    pub fn from_str(s: &str) -> (r: JobStatus)
        ensures
            r == JobStatus::lenient(s@).0,
    {
        JobStatus::decode_lenient(s).0
    }

    pub fn is_in_progress(&self) -> (b: bool)
        ensures
            b == self.in_progress(),
    {
        match self {
            JobStatus::Generating | JobStatus::Rendering => true,
            _ => false,
        }
    }

    pub fn is_terminal(&self) -> (b: bool)
        ensures
            b == self.terminal(),
    {
        match self {
            JobStatus::Done | JobStatus::Failed => true,
            _ => false,
        }
    }
}

/// The stored text of a status names that status and no other: reading
/// what was written gives the status back, without the default.
pub proof fn lemma_status_name_reads_back(status: JobStatus)
    ensures
        JobStatus::named(status.name()) == Some(status),
        JobStatus::lenient(status.name()) == (status, false),
{
    reveal_strlit("pending");
    reveal_strlit("generating");
    reveal_strlit("rendering");
    reveal_strlit("done");
    reveal_strlit("failed");
    assert("pending"@.len() == 7);
    assert("generating"@.len() == 10);
    assert("rendering"@.len() == 9);
    assert("done"@.len() == 4);
    assert("failed"@.len() == 6);
}

} // verus!
