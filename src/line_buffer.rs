//! Loading a log into the lines that the pager scrolls over.
use vstd::prelude::*;

verus! {

/// A line is kept unless it names a directory (ends with `/`) or continues the
/// previous entry (starts with a space).
pub open spec fn keep_line_spec(line: Seq<char>) -> bool {
    &&& !(line.len() > 0 && line.last() == '/')
    &&& !(line.len() > 0 && line[0] == ' ')
}

/// The kept lines of `lines`, in their order.
pub open spec fn kept_lines(lines: Seq<String>) -> Seq<String>
    decreases lines.len(),
{
    if lines.len() == 0 {
        Seq::empty()
    } else {
        let rest = kept_lines(lines.drop_last());
        if keep_line_spec(lines.last()@) {
            rest.push(lines.last())
        } else {
            rest
        }
    }
}

pub fn keep_line(line: &str) -> (r: bool)
    ensures
        r == keep_line_spec(line@),
{
    let n = line.unicode_len();
    if n == 0 {
        true
    } else {
        line.get_char(n - 1) != '/' && line.get_char(0) != ' '
    }
}

/// The lines of a log as the pager shows them: directory and continuation
/// lines are dropped, every other line (empty ones too) is kept verbatim.
pub fn filter_lines(lines: &Vec<String>) -> (r: Vec<String>)
    ensures
        r@ == kept_lines(lines@),
        forall|i: int| 0 <= i < r@.len() ==> keep_line_spec(#[trigger] r@[i]@),
{
    let mut r: Vec<String> = Vec::new();
    let mut i: usize = 0;
    while i < lines.len()
        invariant
            i <= lines.len(),
            r@ == kept_lines(lines@.subrange(0, i as int)),
            forall|j: int| 0 <= j < r@.len() ==> keep_line_spec(#[trigger] r@[j]@),
        decreases lines.len() - i,
    {
        assert(lines@.subrange(0, i as int + 1).drop_last() =~= lines@.subrange(0, i as int));
        if keep_line(lines[i].as_str()) {
            r.push(lines[i].clone());
        }
        i = i + 1;
    }
    assert(lines@.subrange(0, lines.len() as int) =~= lines@);
    r
}

} // verus!
