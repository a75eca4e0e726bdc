use std::collections::HashMap;
use vstd::prelude::*;

verus! {

broadcast use vstd::std_specs::hash::group_hash_axioms;

/// One instrumented branch: where it is, which block and branch it is, and
/// how often it was taken.
#[derive(Copy, Clone, PartialEq, Eq, PartialOrd, Ord, Hash, Debug, Default)]
pub struct BranchData {
    pub line_number: usize,
    pub block_name: usize,
    pub branch_number: usize,
    pub hits: usize,
}

/// The dense line array: entry `i` is the hit count of line `i + 1` when the
/// map has that line, and `None` when it does not.
pub open spec fn expanded_lines(hits: Map<usize, usize>, line_count: nat) -> Seq<Option<usize>> {
    Seq::new(
        line_count,
        |i: int|
            if hits.contains_key((i + 1) as usize) {
                Some(hits[(i + 1) as usize])
            } else {
                None
            },
    )
}

/// Field `k` (0 to 3) of a branch record, in the order the wire format lists them.
pub open spec fn branch_field(b: BranchData, k: int) -> usize {
    if k == 0 {
        b.line_number
    } else if k == 1 {
        b.block_name
    } else if k == 2 {
        b.branch_number
    } else {
        b.hits
    }
}

/// The four fields of each record one after another, records in their order.
pub open spec fn flattened_branches(records: Seq<BranchData>) -> Seq<usize> {
    Seq::new(4 * records.len(), |k: int| branch_field(records[k / 4], k % 4))
}

/// Expands a sparse map of line number to hits into the dense array that
/// coveralls expects, with `None` for lines that carry no coverage.
pub fn expand_lines(lines: &HashMap<usize, usize>, line_count: usize) -> (r: Vec<Option<usize>>)
    ensures
        r@ == expanded_lines(lines@, line_count as nat),
{
    let mut out: Vec<Option<usize>> = Vec::new();
    let mut i: usize = 0;
    while i < line_count
        invariant
            i <= line_count,
            out@ == expanded_lines(lines@, i as nat),
        decreases line_count - i,
    {
        let key: usize = i + 1;
        let entry = match lines.get(&key) {
            Some(h) => Some(*h),
            None => None,
        };
        out.push(entry);
        i = i + 1;
        assert(out@ =~= expanded_lines(lines@, i as nat));
    }
    out
}

/// Expands branch records into the flat array coveralls expects: the four
/// fields of each record repeated one after another.
pub fn expand_branches(branches: &Vec<BranchData>) -> (r: Vec<usize>)
    requires
        4 * branches@.len() <= usize::MAX,
    ensures
        r@ == flattened_branches(branches@),
{
    let mut out: Vec<usize> = Vec::new();
    let mut i: usize = 0;
    while i < branches.len()
        invariant
            i <= branches@.len(),
            4 * branches@.len() <= usize::MAX,
            out@ == flattened_branches(branches@.take(i as int)),
        decreases branches@.len() - i,
    {
        let b = branches[i];
        out.push(b.line_number);
        out.push(b.block_name);
        out.push(b.branch_number);
        out.push(b.hits);
        i = i + 1;
        assert(out@ =~= flattened_branches(branches@.take(i as int)));
    }
    assert(branches@.take(i as int) =~= branches@);
    out
}

} // verus!
