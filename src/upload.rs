//! The decisions of uploading a file to B2: whether it goes up in one piece
//! or in parts, and when a failed attempt is tried again.
use vstd::prelude::*;

verus! {

/// Files of at least this many bytes may go up in parts.
pub const B2_LARGE_FILE_SIZE: usize = 1073741824;

/// How many times an upload is attempted.
pub const B2_UPLOAD_RETRIES: usize = 5;

/// Service Unavailable: B2 asks for another upload address.
pub const SERVICE_UNAVAILABLE: u16 = 503;

/// How many parts a file of `content_length` bytes is cut into: one for
/// each whole part, and one more.
pub open spec fn parts_of(content_length: usize, part_size: usize) -> int {
    content_length as int / part_size as int + 1
}

/// How many parts a file of `content_length` bytes is cut into.
pub fn part_count(content_length: usize, part_size: usize) -> (r: usize)
    requires
        part_size > 0,
        parts_of(content_length, part_size) <= usize::MAX,
    ensures
        r == parts_of(content_length, part_size),
{
    content_length / part_size + 1
}

/// Whether a file of `content_length` bytes goes up in parts: it is large,
/// and cut into more than one part.
pub fn goes_in_parts(content_length: usize, part_size: usize) -> (r: bool)
    requires
        part_size > 0,
        parts_of(content_length, part_size) <= usize::MAX,
    ensures
        r == (content_length >= B2_LARGE_FILE_SIZE && parts_of(content_length, part_size) > 1),
{
    content_length >= B2_LARGE_FILE_SIZE && part_count(content_length, part_size) > 1
}

/// How an attempt to upload ended.
#[derive(Debug, Clone, Copy, PartialEq, Eq, Structural)]
pub enum Attempt {
    /// The upload went through.
    Uploaded,
    /// B2 answered that the service is unavailable.
    Unavailable,
    /// Any other failure.
    Failed,
}

/// What an uploader does after an attempt.
#[derive(Debug, Clone, Copy, PartialEq, Eq, Structural)]
pub enum AfterAttempt {
    /// The upload is done.
    Done,
    /// Wait this many seconds, fetch a new upload address, then try again if
    /// attempts are left.
    Retry(u64),
    /// Give up with the attempt's error.
    Fail,
}

/// The attempts of one upload.
#[derive(Debug, Clone, Copy)]
pub struct UploadAttempts {
    made: usize,
    allowed: usize,
}

impl UploadAttempts {
    /// Attempts made so far.
    pub closed spec fn made_spec(&self) -> usize {
        self.made
    }

    /// Attempts allowed in all.
    pub closed spec fn allowed_spec(&self) -> usize {
        self.allowed
    }

    /// No attempt made yet, `allowed` allowed.
    pub fn new(allowed: usize) -> (r: Self)
        ensures
            r.made_spec() == 0,
            r.allowed_spec() == allowed,
    {
        UploadAttempts { made: 0, allowed }
    }

    /// Start the next attempt: its number, from 1, or `None` when none is left.
    pub fn begin(&mut self) -> (r: Option<usize>)
        ensures
            old(self).made_spec() < old(self).allowed_spec() ==> r == Some(
                (old(self).made_spec() + 1) as usize,
            ) && final(self).made_spec() == old(self).made_spec() + 1,
            old(self).made_spec() >= old(self).allowed_spec() ==> r is None && *final(self) == *old(
                self,
            ),
            final(self).allowed_spec() == old(self).allowed_spec(),
    {
        if self.made < self.allowed {
            self.made = self.made + 1;
            Some(self.made)
        } else {
            None
        }
    }

    /// What follows attempt number `attempt` that ended in `outcome`. A part
    /// waits one second more for each attempt made; a whole file always two.
    pub fn after(&self, attempt: usize, outcome: Attempt, whole_file: bool) -> (r: AfterAttempt)
        ensures
            outcome == Attempt::Uploaded ==> r == AfterAttempt::Done,
            outcome == Attempt::Failed ==> r == AfterAttempt::Fail,
            outcome == Attempt::Unavailable ==> r == AfterAttempt::Retry(
                if whole_file { 2 } else { attempt as u64 },
            ),
    {
        match outcome {
            Attempt::Uploaded => AfterAttempt::Done,
            Attempt::Failed => AfterAttempt::Fail,
            Attempt::Unavailable => AfterAttempt::Retry(if whole_file { 2 } else { attempt as u64 }),
        }
    }
}

impl Default for UploadAttempts {
    fn default() -> (r: Self)
        ensures
            r.made_spec() == 0,
            r.allowed_spec() == B2_UPLOAD_RETRIES,
    {
        UploadAttempts::new(B2_UPLOAD_RETRIES)
    }
}

} // verus!
