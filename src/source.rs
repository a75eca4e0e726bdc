use crate::coverage::{expand_branches, expand_lines, expanded_lines, flattened_branches, BranchData};
use crate::text::opt_text;
use std::collections::HashMap;
use vstd::prelude::*;
use vstd::string::StringSliceAdditionalSpecFns;

verus! {

/// What md5 gives for these bytes, written as 32 lower-case hex digits.
pub uninterp spec fn md5_hex_of(content: Seq<u8>) -> Seq<char>;

/// Relies on md5::compute and the `LowerHex` form of its digest: two hex
/// digits for each of the 16 digest bytes, a function of the bytes alone.
#[verifier::external_body]
fn md5_hex(content: &str) -> (r: String)
    ensures
        r@ == md5_hex_of(content.spec_bytes()),
        r@.len() == 32,
{
    format!("{:x}", md5::compute(content))
}

/// How many `\n` bytes there are.
pub open spec fn newline_count(b: Seq<u8>) -> nat
    decreases b.len(),
{
    if b.len() == 0 {
        0
    } else {
        newline_count(b.drop_last()) + if b.last() == 10u8 {
            1nat
        } else {
            0nat
        }
    }
}

/// How many lines a text has: one per line ending, and one more for a last
/// line that has none. An empty text has no lines.
pub open spec fn line_count(b: Seq<u8>) -> nat {
    if b.len() > 0 && b.last() != 10u8 {
        newline_count(b) + 1
    } else {
        newline_count(b)
    }
}

/// Counts the lines of a text as `str::lines` splits them.
pub fn count_lines(content: &str) -> (r: usize)
    ensures
        r == line_count(content.spec_bytes()),
{
    let bytes = content.as_bytes();
    let mut n: usize = 0;
    let mut i: usize = 0;
    while i < bytes.len()
        invariant
            bytes@ == content.spec_bytes(),
            i <= bytes@.len(),
            n == newline_count(bytes@.take(i as int)),
            n <= i,
            i > 0 && bytes@[i - 1] != 10u8 ==> n < i,
        decreases bytes@.len() - i,
    {
        assert(bytes@.take(i + 1).drop_last() =~= bytes@.take(i as int));
        if bytes[i] == 10u8 {
            n = n + 1;
        }
        i = i + 1;
    }
    assert(bytes@.take(i as int) =~= bytes@);
    if i > 0 && bytes[i - 1] != 10u8 {
        n = n + 1;
    }
    n
}

/// A source file and its coverage, as coveralls receives it.
#[derive(Clone, PartialEq, Eq, PartialOrd, Ord, Hash, Debug, Default)]
pub struct Source {
    /// Path of the file relative to the root of the repository.
    pub name: String,
    /// md5 of the file's content, in hex.
    pub source_digest: String,
    /// One entry per line: `None` when the line is not relevant, else how
    /// often it ran (0 when never).
    pub coverage: Vec<Option<usize>>,
    /// The flat branch array, present only when branch data was supplied.
    pub branches: Option<Vec<usize>>,
    /// The file's content, present only when it was asked for.
    pub source: Option<String>,
}

/// The branch array that a source holds for the records it was given.
pub open spec fn branches_of(records: Option<Vec<BranchData>>) -> Option<Seq<usize>> {
    match records {
        Some(b) => Some(flattened_branches(b@)),
        None => None,
    }
}

/// Branch records whose flat array fits in memory.
pub open spec fn branches_fit(records: Option<Vec<BranchData>>) -> bool {
    match records {
        Some(b) => 4 * b@.len() <= usize::MAX,
        None => true,
    }
}

pub open spec fn opt_vec_view(v: Option<Vec<usize>>) -> Option<Seq<usize>> {
    match v {
        Some(t) => Some(t@),
        None => None,
    }
}

/// The optional parts of a source are those it was built with: the flat
/// branch array for the records given, and the content when it was asked for.
pub open spec fn has_parts_as_given(
    r: Source,
    branches: Option<Vec<BranchData>>,
    include_source: bool,
    content: Seq<char>,
) -> bool {
    &&& opt_vec_view(r.branches) == branches_of(branches)
    &&& opt_text(r.source) == if include_source {
        Some(content)
    } else {
        None
    }
}

/// The keys of a source's wire object: `branches` and `source` only for
/// the parts that are present.
pub open spec fn source_wire_keys(s: Source) -> Seq<Seq<char>> {
    seq!["name"@, "source_digest"@, "coverage"@] + (if s.branches is Some {
        seq!["branches"@]
    } else {
        Seq::empty()
    }) + (if s.source is Some {
        seq!["source"@]
    } else {
        Seq::empty()
    })
}

impl Source {
    /// The keys of this source's wire object, in the order they are written.
    pub fn wire_keys(&self) -> (r: Vec<&'static str>)
        ensures
            r@.map_values(|k: &'static str| k@) == source_wire_keys(*self),
    {
        let mut keys: Vec<&'static str> = Vec::new();
        keys.push("name");
        keys.push("source_digest");
        keys.push("coverage");
        if self.branches.is_some() {
            keys.push("branches");
        }
        if self.source.is_some() {
            keys.push("source");
        }
        assert(keys@.map_values(|k: &'static str| k@) =~= source_wire_keys(*self));
        keys
    }


    /// Builds the description of a file whose content and digest are known.
    pub fn with_digest(
        repo_path: &str,
        source_digest: String,
        content: &str,
        lines: &HashMap<usize, usize>,
        branches: &Option<Vec<BranchData>>,
        include_source: bool,
    ) -> (r: Source)
        requires
            branches_fit(*branches),
        ensures
            r.name@ == repo_path@,
            r.source_digest@ == source_digest@,
            r.coverage@ == expanded_lines(lines@, line_count(content.spec_bytes())),
            has_parts_as_given(r, *branches, include_source, content@),
    {
        let source = if include_source {
            Some(content.to_owned())
        } else {
            None
        };
        let expanded = match branches {
            Some(b) => Some(expand_branches(b)),
            None => None,
        };
        let line_count = count_lines(content);
        Source {
            name: repo_path.to_owned(),
            source_digest,
            coverage: expand_lines(lines, line_count),
            branches: expanded,
            source,
        }
    }

    /// Builds the description of a file from its path in the repository, its
    /// content, its line hits and, optionally, its branch records. The
    /// content itself is kept only when `include_source` is set.
    pub fn new(
        repo_path: &str,
        content: &str,
        lines: &HashMap<usize, usize>,
        branches: &Option<Vec<BranchData>>,
        include_source: bool,
    ) -> (r: Source)
        requires
            branches_fit(*branches),
        ensures
            r.name@ == repo_path@,
            r.source_digest@ == md5_hex_of(content.spec_bytes()),
            r.coverage@ == expanded_lines(lines@, line_count(content.spec_bytes())),
            has_parts_as_given(r, *branches, include_source, content@),
    {
        let digest = md5_hex(content);
        Source::with_digest(repo_path, digest, content, lines, branches, include_source)
    }
}

/// A source built without branch records and without its content has, in
/// `Source::wire_keys`, neither a `branches` nor a `source` key.
pub proof fn plain_source_has_no_optional_keys(r: Source, content: Seq<char>)
    requires
        has_parts_as_given(r, None, false, content),
    ensures
        source_wire_keys(r) == seq!["name"@, "source_digest"@, "coverage"@],
{
    assert(source_wire_keys(r) =~= seq!["name"@, "source_digest"@, "coverage"@]);
}

} // verus!
