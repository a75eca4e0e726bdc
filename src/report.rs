use crate::identity::{fields_text, identity_fields, Identity};
use crate::source::Source;
use vstd::prelude::*;

verus! {

#[derive(Clone, PartialEq, Eq, PartialOrd, Ord, Hash, Debug, Default)]
pub struct Head {
    pub id: String,
    pub author_name: String,
    pub author_email: String,
    pub committer_name: String,
    pub committer_email: String,
    pub message: String,
}

#[derive(Clone, PartialEq, Eq, PartialOrd, Ord, Hash, Debug, Default)]
pub struct Remote {
    pub name: String,
    pub url: String,
}

#[derive(Clone, PartialEq, Eq, PartialOrd, Ord, Hash, Debug, Default)]
pub struct GitInfo {
    pub head: Head,
    pub branch: String,
    pub remotes: Vec<Remote>,
}

/// What a report says of the commit it covers: nothing, the commit's SHA, or
/// the detailed git information. The two are never given together.
#[derive(Clone, PartialEq, Eq, PartialOrd, Ord, Hash, Debug)]
pub enum CommitRef {
    Unset,
    Sha(String),
    Detailed(GitInfo),
}

/// The SHA a report gives, if it gives one.
pub open spec fn commit_sha_of(c: CommitRef) -> Option<Seq<char>> {
    match c {
        CommitRef::Sha(s) => Some(s@),
        _ => None,
    }
}

/// The git information a report gives, if it gives it.
pub open spec fn git_info_of(c: CommitRef) -> Option<GitInfo> {
    match c {
        CommitRef::Detailed(g) => Some(g),
        _ => None,
    }
}

/// A coverage report for coveralls.io: who sends it, the source files in
/// the order they were added, and what it says of the commit.
#[derive(Clone, PartialEq, Eq, PartialOrd, Ord, Hash, Debug)]
pub struct CoverallsReport {
    pub id: Identity,
    pub source_files: Vec<Source>,
    pub commit: CommitRef,
}

/// `after` is `before` with its commit set to the SHA `sha`.
pub open spec fn is_commit_set(before: CoverallsReport, after: CoverallsReport, sha: Seq<char>) -> bool {
    &&& after.id == before.id
    &&& after.source_files@ == before.source_files@
    &&& commit_sha_of(after.commit) == Some(sha)
    &&& git_info_of(after.commit) is None
}

/// `after` is `before` with its commit set to the git information `git`.
pub open spec fn is_git_info_set(before: CoverallsReport, after: CoverallsReport, git: GitInfo) -> bool {
    &&& after.id == before.id
    &&& after.source_files@ == before.source_files@
    &&& git_info_of(after.commit) == Some(git)
    &&& commit_sha_of(after.commit) is None
}

/// The report's string fields of the wire format, in order: the identity's,
/// then `commit_sha` when the report gives a SHA.
pub open spec fn header_fields_of(r: CoverallsReport) -> Seq<(Seq<char>, Seq<char>)> {
    identity_fields(r.id) + match commit_sha_of(r.commit) {
        Some(s) => seq![("commit_sha"@, s)],
        None => Seq::empty(),
    }
}

impl CoverallsReport {
    /// An empty report for the given identity.
    pub fn new(id: Identity) -> (r: CoverallsReport)
        ensures
            r.id == id,
            r.source_files@.len() == 0,
            r.commit is Unset,
    {
        CoverallsReport { id, source_files: Vec::new(), commit: CommitRef::Unset }
    }

    /// Adds a source file after those already in the report.
    pub fn add_source(&mut self, source: Source)
        ensures
            final(self).id == old(self).id,
            final(self).commit == old(self).commit,
            final(self).source_files@ == old(self).source_files@.push(source),
    {
        self.source_files.push(source);
    }

    /// Sets the commit's SHA, in place of any git information.
    pub fn set_commit(&mut self, commit: &str)
        ensures
            is_commit_set(*old(self), *final(self), commit@),
    {
        self.commit = CommitRef::Sha(commit.to_owned());
    }

    /// Sets the detailed git information, in place of any SHA.
    pub fn set_detailed_git_info(&mut self, git: GitInfo)
        ensures
            is_git_info_set(*old(self), *final(self), git),
    {
        self.commit = CommitRef::Detailed(git);
    }

    /// The report's string fields of the wire format, as key and value
    /// pairs in the order they are written. The `git` object and the
    /// `source_files` array follow them.
    pub fn header_fields(&self) -> (r: Vec<(String, String)>)
        ensures
            fields_text(r@) == header_fields_of(*self),
    {
        let mut out = self.id.wire_fields();
        let ghost before = out@;
        match &self.commit {
            CommitRef::Sha(s) => {
                out.push(("commit_sha".to_owned(), s.clone()));
                assert(fields_text(out@) =~= fields_text(before) + seq![("commit_sha"@, s@)]);
            },
            _ => {},
        }
        assert(fields_text(out@) =~= header_fields_of(*self));
        out
    }
}

/// Setting the SHA and then the git information leaves no SHA; setting the
/// git information and then the SHA leaves no git information.
pub proof fn commit_and_git_info_exclude_each_other(
    r0: CoverallsReport,
    r1: CoverallsReport,
    r2: CoverallsReport,
    sha: Seq<char>,
    git: GitInfo,
)
    ensures
        is_commit_set(r0, r1, sha) && is_git_info_set(r1, r2, git) ==> commit_sha_of(r2.commit)
            is None && git_info_of(r2.commit) == Some(git),
        is_git_info_set(r0, r1, git) && is_commit_set(r1, r2, sha) ==> git_info_of(r2.commit)
            is None && commit_sha_of(r2.commit) == Some(sha),
{
}

/// How an upload went, as far as the transport's response code tells.
#[derive(Copy, Clone, PartialEq, Eq, PartialOrd, Ord, Hash, Debug)]
pub enum UploadStatus {
    /// The upload failed, with this HTTP code.
    Failed(u32),
    Succeeded,
    /// No response yet.
    Pending,
    /// The transport could not give a response code.
    Unknown,
}

impl UploadStatus {
    /// Classifies a response code: 200 succeeded, 0 is still pending, any
    /// other code failed; a transport error leaves the outcome unknown.
    pub fn classify<E>(code: Result<u32, E>) -> (r: UploadStatus)
        ensures
            r == match code {
                Ok(200) => UploadStatus::Succeeded,
                Ok(0) => UploadStatus::Pending,
                Ok(c) => UploadStatus::Failed(c),
                Err(_) => UploadStatus::Unknown,
            },
    {
        match code {
            Ok(200) => UploadStatus::Succeeded,
            Ok(0) => UploadStatus::Pending,
            Ok(x) => UploadStatus::Failed(x),
            Err(_) => UploadStatus::Unknown,
        }
    }
}

} // verus!
