//! Summary extraction: the counters that a transfer log reports, collected
//! into one line per log.
use vstd::prelude::*;

use crate::text::{chars_of, pad_left, pad_right, push_padded_left, push_range, push_char, push_spaces};

verus! {

// ---------------------------------------------------------------------------
// Character classes and searching
/// Unicode `White_Space`, the characters that `str::trim_start` and
/// `str::trim_end` remove.
pub open spec fn is_white_space(c: char) -> bool {
    let u = c as u32;
    ||| 0x09 <= u <= 0x0D
    ||| u == 0x20
    ||| u == 0x85
    ||| u == 0xA0
    ||| u == 0x1680
    ||| 0x2000 <= u <= 0x200A
    ||| u == 0x2028
    ||| u == 0x2029
    ||| u == 0x202F
    ||| u == 0x205F
    ||| u == 0x3000
}

pub fn white_space(c: char) -> (r: bool)
    ensures
        r == is_white_space(c),
{
    let u = c as u32;
    (0x09 <= u && u <= 0x0D) || u == 0x20 || u == 0x85 || u == 0xA0 || u == 0x1680 || (0x2000
        <= u && u <= 0x200A) || u == 0x2028 || u == 0x2029 || u == 0x202F || u == 0x205F || u
        == 0x3000
}

/// `p` occurs in `s` at index `i`.
pub open spec fn occurs_at(s: Seq<char>, p: Seq<char>, i: int) -> bool {
    &&& 0 <= i
    &&& i + p.len() <= s.len()
    &&& s.subrange(i, i + p.len()) == p
}

/// The first index at or after `i` where `p` occurs in `s`, or -1.
pub open spec fn find_from(s: Seq<char>, p: Seq<char>, i: int) -> int
    decreases s.len() + 1 - i,
{
    if i < 0 || i + p.len() > s.len() {
        -1
    } else if occurs_at(s, p, i) {
        i
    } else {
        find_from(s, p, i + 1)
    }
}

pub open spec fn contains(s: Seq<char>, p: Seq<char>) -> bool {
    find_from(s, p, 0) >= 0
}

/// What follows the first occurrence of `p` in `s`, up to its next occurrence
/// or the end: the second piece of `s` split at `p`.
pub open spec fn segment_after(s: Seq<char>, p: Seq<char>) -> Seq<char> {
    let start = find_from(s, p, 0) + p.len();
    let next = find_from(s, p, start);
    s.subrange(start, if next >= 0 { next } else { s.len() as int })
}

/// `s` without its leading white space.
pub open spec fn trim_start(s: Seq<char>) -> Seq<char>
    decreases s.len(),
{
    if s.len() > 0 && is_white_space(s[0]) {
        trim_start(s.drop_first())
    } else {
        s
    }
}

/// `s` without its trailing white space.
pub open spec fn trim_end(s: Seq<char>) -> Seq<char>
    decreases s.len(),
{
    if s.len() > 0 && is_white_space(s.last()) {
        trim_end(s.drop_last())
    } else {
        s
    }
}

/// `s` without its trailing commas and closing parentheses.
pub open spec fn trim_end_punct(s: Seq<char>) -> Seq<char>
    decreases s.len(),
{
    if s.len() > 0 && (s.last() == ',' || s.last() == ')') {
        trim_end_punct(s.drop_last())
    } else {
        s
    }
}

/// `s` up to its first space.
pub open spec fn first_token(s: Seq<char>) -> Seq<char>
    decreases s.len(),
{
    if s.len() == 0 || s[0] == ' ' {
        Seq::empty()
    } else {
        seq![s[0]] + first_token(s.drop_first())
    }
}

fn occurs_at_exec(s: &Vec<char>, p: &Vec<char>, i: usize) -> (r: bool)
    requires
        i <= s.len(),
        p.len() <= s.len() - i,
    ensures
        r == occurs_at(s@, p@, i as int),
{
    let mut k: usize = 0;
    while k < p.len()
        invariant
            k <= p.len(),
            p.len() <= s.len() - i,
            forall|j: int| 0 <= j < k ==> s@[i + j] == p@[j],
        decreases p.len() - k,
    {
        if s[i + k] != p[k] {
            assert(s@.subrange(i as int, i + p.len())[k as int] != p@[k as int]);
            return false;
        }
        k = k + 1;
    }
    assert(s@.subrange(i as int, i + p.len()) =~= p@);
    true
}

/// The first index at or after `start` where `p` occurs in `s`.
pub fn find_from_exec(s: &Vec<char>, p: &Vec<char>, start: usize) -> (r: Option<usize>)
    requires
        start <= s.len(),
    ensures
        match r {
            Some(i) => i == find_from(s@, p@, start as int) && start <= i && i + p.len()
                <= s.len(),
            None => find_from(s@, p@, start as int) == -1,
        },
{
    let mut i: usize = start;
    while i <= s.len() && p.len() <= s.len() - i
        invariant
            start <= i <= s.len(),
            find_from(s@, p@, start as int) == find_from(s@, p@, i as int),
        decreases s.len() - i,
    {
        if occurs_at_exec(s, p, i) {
            return Some(i);
        }
        if i == s.len() {
            assert(find_from(s@, p@, i + 1) == -1);
            return None;
        }
        i = i + 1;
    }
    None
}

/// `s[a..b]` with leading white space dropped, as a range.
fn trim_start_range(s: &Vec<char>, a: usize, b: usize) -> (r: usize)
    requires
        a <= b <= s.len(),
    ensures
        a <= r <= b,
        s@.subrange(r as int, b as int) == trim_start(s@.subrange(a as int, b as int)),
{
    let mut i: usize = a;
    while i < b && white_space(s[i])
        invariant
            a <= i <= b <= s.len(),
            trim_start(s@.subrange(a as int, b as int)) == trim_start(
                s@.subrange(i as int, b as int),
            ),
        decreases b - i,
    {
        assert(s@.subrange(i as int, b as int).drop_first() =~= s@.subrange(i + 1, b as int));
        i = i + 1;
    }
    i
}

/// `s[a..b]` up to its first space, as a range.
fn first_token_range(s: &Vec<char>, a: usize, b: usize) -> (r: usize)
    requires
        a <= b <= s.len(),
    ensures
        a <= r <= b,
        s@.subrange(a as int, r as int) == first_token(s@.subrange(a as int, b as int)),
{
    let mut e: usize = a;
    while e < b && s[e] != ' '
        invariant
            a <= e <= b <= s.len(),
            first_token(s@.subrange(a as int, b as int)) == s@.subrange(a as int, e as int)
                + first_token(s@.subrange(e as int, b as int)),
        decreases b - e,
    {
        assert(s@.subrange(e as int, b as int).drop_first() =~= s@.subrange(e + 1, b as int));
        assert(s@.subrange(a as int, e + 1) =~= s@.subrange(a as int, e as int) + seq![s@[e as int]]);
        e = e + 1;
    }
    assert(first_token(s@.subrange(e as int, b as int)) =~= Seq::<char>::empty());
    assert(s@.subrange(a as int, e as int) + Seq::<char>::empty() =~= s@.subrange(a as int, e as int));
    e
}

fn trailing_trimmed(c: char, punct: bool) -> (r: bool)
    ensures
        r == if punct {
            c == ',' || c == ')'
        } else {
            is_white_space(c)
        },
{
    if punct {
        c == ',' || c == ')'
    } else {
        white_space(c)
    }
}

/// `s[a..b]` with trailing white space dropped, as a range; with `punct`,
/// trailing commas and closing parentheses are dropped instead.
fn trim_end_range(s: &Vec<char>, a: usize, b: usize, punct: bool) -> (r: usize)
    requires
        a <= b <= s.len(),
    ensures
        a <= r <= b,
        !punct ==> s@.subrange(a as int, r as int) == trim_end(s@.subrange(a as int, b as int)),
        punct ==> s@.subrange(a as int, r as int) == trim_end_punct(
            s@.subrange(a as int, b as int),
        ),
{
    let mut e: usize = b;
    while e > a && trailing_trimmed(s[e - 1], punct)
        invariant
            a <= e <= b <= s.len(),
            !punct ==> trim_end(s@.subrange(a as int, b as int)) == trim_end(
                s@.subrange(a as int, e as int),
            ),
            punct ==> trim_end_punct(s@.subrange(a as int, b as int)) == trim_end_punct(
                s@.subrange(a as int, e as int),
            ),
        decreases e,
    {
        assert(s@.subrange(a as int, e as int).drop_last() =~= s@.subrange(a as int, e - 1));
        e = e - 1;
    }
    e
}


// ---------------------------------------------------------------------------
// Fields of a log line
/// The number that follows `p` in `s`: the first word after the first
/// occurrence, without surrounding white space.
pub open spec fn field_value(s: Seq<char>, p: Seq<char>) -> Seq<char> {
    trim_end(first_token(trim_start(segment_after(s, p))))
}

/// A field value inside the parenthesised breakdown of the file count, without
/// its trailing punctuation.
pub open spec fn sub_value(s: Seq<char>, p: Seq<char>) -> Seq<char> {
    trim_end_punct(field_value(s, p))
}

/// The counters looked for in each line, in order.
pub open spec fn field_pattern(k: int) -> Seq<char> {
    if k == 0 {
        "of files:"@
    } else if k == 1 {
        "created files:"@
    } else if k == 2 {
        "deleted files:"@
    } else {
        "regular files transferred:"@
    }
}

pub open spec fn field_tag(k: int) -> char {
    if k == 0 {
        'f'
    } else if k == 1 {
        'c'
    } else if k == 2 {
        'd'
    } else {
        'x'
    }
}

/// The parts of the file count, looked for in a line that holds it.
pub open spec fn sub_pattern(k: int) -> Seq<char> {
    if k == 0 {
        "reg:"@
    } else if k == 1 {
        "dir:"@
    } else {
        "link:"@
    }
}

pub open spec fn sub_tag(k: int) -> char {
    if k == 0 {
        'r'
    } else if k == 1 {
        'd'
    } else {
        'l'
    }
}

/// One entry of a summary line: the tag, then the value right-aligned in seven
/// columns.
pub open spec fn entry(tag: char, v: Seq<char>) -> Seq<char> {
    seq![tag] + ": "@ + pad_left(v, 7) + " | "@
}

/// The entries for the first `k` parts of the file count found in `line`.
pub open spec fn sub_entries(line: Seq<char>, k: nat) -> Seq<char>
    decreases k,
{
    if k == 0 {
        Seq::empty()
    } else {
        let prev = sub_entries(line, (k - 1) as nat);
        let p = sub_pattern(k - 1);
        if contains(line, p) {
            prev + entry(sub_tag(k - 1), sub_value(line, p))
        } else {
            prev
        }
    }
}

/// The entries for the first `k` counters found in `line`; the file count is
/// followed by its parts.
pub open spec fn field_entries(line: Seq<char>, k: nat) -> Seq<char>
    decreases k,
{
    if k == 0 {
        Seq::empty()
    } else {
        let prev = field_entries(line, (k - 1) as nat);
        let p = field_pattern(k - 1);
        if contains(line, p) {
            prev + entry(field_tag(k - 1), field_value(line, p)) + if k == 1 {
                sub_entries(line, 3)
            } else {
                Seq::empty()
            }
        } else {
            prev
        }
    }
}

/// The entries of all lines, in order.
pub open spec fn line_entries(lines: Seq<String>) -> Seq<char>
    decreases lines.len(),
{
    if lines.len() == 0 {
        Seq::empty()
    } else {
        line_entries(lines.drop_last()) + field_entries(lines.last()@, 4)
    }
}

/// The summary line of a log named `name` with the lines `lines`.
pub open spec fn summary_line(name: Seq<char>, lines: Seq<String>) -> Seq<char> {
    name + " | "@ + line_entries(lines)
}

fn field_patterns() -> (r: Vec<Vec<char>>)
    ensures
        r.len() == 4,
        forall|k: int| 0 <= k < 4 ==> #[trigger] r@[k]@ == field_pattern(k),
{
    let mut r: Vec<Vec<char>> = Vec::new();
    r.push(chars_of("of files:"));
    r.push(chars_of("created files:"));
    r.push(chars_of("deleted files:"));
    r.push(chars_of("regular files transferred:"));
    r
}

fn sub_patterns() -> (r: Vec<Vec<char>>)
    ensures
        r.len() == 3,
        forall|k: int| 0 <= k < 3 ==> #[trigger] r@[k]@ == sub_pattern(k),
{
    let mut r: Vec<Vec<char>> = Vec::new();
    r.push(chars_of("reg:"));
    r.push(chars_of("dir:"));
    r.push(chars_of("link:"));
    r
}

fn field_tag_exec(k: usize) -> (r: char)
    ensures
        r == field_tag(k as int),
{
    if k == 0 {
        'f'
    } else if k == 1 {
        'c'
    } else if k == 2 {
        'd'
    } else {
        'x'
    }
}

fn sub_tag_exec(k: usize) -> (r: char)
    ensures
        r == sub_tag(k as int),
{
    if k == 0 {
        'r'
    } else if k == 1 {
        'd'
    } else {
        'l'
    }
}

/// The range of `s` that holds `field_value(s, p)`, where `p` first occurs at `at`.
fn value_range(s: &Vec<char>, p: &Vec<char>, at: usize) -> (r: (usize, usize))
    requires
        at == find_from(s@, p@, 0),
        at + p.len() <= s.len(),
    ensures
        r.0 <= r.1 <= s.len(),
        s@.subrange(r.0 as int, r.1 as int) == field_value(s@, p@),
{
    let start = at + p.len();
    let end = match find_from_exec(s, p, start) {
        Some(n) => n,
        None => s.len(),
    };
    let a = trim_start_range(s, start, end);
    let e = first_token_range(s, a, end);
    let b = trim_end_range(s, a, e, false);
    (a, b)
}

fn push_entry(out: &mut String, tag: char, s: &Vec<char>, a: usize, b: usize)
    requires
        a <= b <= s.len(),
    ensures
        final(out)@ == old(out)@ + entry(tag, s@.subrange(a as int, b as int)),
{
    let ghost start = out@;
    push_char(out, tag);
    out.append(": ");
    push_padded_left(out, s, a, b, 7);
    out.append(" | ");
    assert(out@ =~= start + entry(tag, s@.subrange(a as int, b as int)));
}

fn push_sub_entries(out: &mut String, line: &Vec<char>, subs: &Vec<Vec<char>>)
    requires
        subs.len() == 3,
        forall|k: int| 0 <= k < 3 ==> #[trigger] subs@[k]@ == sub_pattern(k),
    ensures
        final(out)@ == old(out)@ + sub_entries(line@, 3),
{
    let ghost start = out@;
    let mut k: usize = 0;
    while k < 3
        invariant
            k <= 3,
            subs.len() == 3,
            forall|j: int| 0 <= j < 3 ==> #[trigger] subs@[j]@ == sub_pattern(j),
            out@ == start + sub_entries(line@, k as nat),
        decreases 3 - k,
    {
        let p = &subs[k];
        assert(p@ == sub_pattern(k as int));
        match find_from_exec(line, p, 0) {
            Some(at) => {
                let (a, b) = value_range(line, p, at);
                let b2 = trim_end_range(line, a, b, true);
                push_entry(out, sub_tag_exec(k), line, a, b2);
            },
            None => {},
        }
        k = k + 1;
        assert(out@ =~= start + sub_entries(line@, k as nat));
    }
}

fn push_field_entries(
    out: &mut String,
    line: &Vec<char>,
    fields: &Vec<Vec<char>>,
    subs: &Vec<Vec<char>>,
)
    requires
        fields.len() == 4,
        forall|k: int| 0 <= k < 4 ==> #[trigger] fields@[k]@ == field_pattern(k),
        subs.len() == 3,
        forall|k: int| 0 <= k < 3 ==> #[trigger] subs@[k]@ == sub_pattern(k),
    ensures
        final(out)@ == old(out)@ + field_entries(line@, 4),
{
    let ghost start = out@;
    let mut k: usize = 0;
    while k < 4
        invariant
            k <= 4,
            fields.len() == 4,
            forall|j: int| 0 <= j < 4 ==> #[trigger] fields@[j]@ == field_pattern(j),
            subs.len() == 3,
            forall|j: int| 0 <= j < 3 ==> #[trigger] subs@[j]@ == sub_pattern(j),
            out@ == start + field_entries(line@, k as nat),
        decreases 4 - k,
    {
        let p = &fields[k];
        assert(p@ == field_pattern(k as int));
        match find_from_exec(line, p, 0) {
            Some(at) => {
                let (a, b) = value_range(line, p, at);
                push_entry(out, field_tag_exec(k), line, a, b);
                if k == 0 {
                    push_sub_entries(out, line, subs);
                }
            },
            None => {},
        }
        k = k + 1;
        assert(out@ =~= start + field_entries(line@, k as nat));
    }
}

/// The summary line of one log: its name, then an entry for each counter found
/// in its lines, in the order found.
pub fn process_log_file(name: &str, lines: &Vec<String>) -> (r: String)
    ensures
        r@ == summary_line(name@, lines@),
{
    let fields = field_patterns();
    let subs = sub_patterns();
    let mut r = String::from_str(name);
    r.append(" | ");
    let ghost head = r@;
    let mut i: usize = 0;
    while i < lines.len()
        invariant
            i <= lines.len(),
            fields.len() == 4,
            forall|j: int| 0 <= j < 4 ==> #[trigger] fields@[j]@ == field_pattern(j),
            subs.len() == 3,
            forall|j: int| 0 <= j < 3 ==> #[trigger] subs@[j]@ == sub_pattern(j),
            head == name@ + " | "@,
            r@ == head + line_entries(lines@.subrange(0, i as int)),
        decreases lines.len() - i,
    {
        let line = chars_of(lines[i].as_str());
        push_field_entries(&mut r, &line, &fields, &subs);
        proof {
            let pre = lines@.subrange(0, i + 1);
            assert(pre.drop_last() =~= lines@.subrange(0, i as int));
            assert(pre.last() == lines@[i as int]);
        }
        i = i + 1;
        assert(r@ =~= head + line_entries(lines@.subrange(0, i as int)));
    }
    assert(lines@.subrange(0, lines.len() as int) =~= lines@);
    r
}


// ---------------------------------------------------------------------------
// The report
/// The name of the report, which sits among the logs it summarises.
pub const SUMMARY_FILE: &'static str = "summary.log";

/// The column legend that follows the label on the report's first line.
pub const SUMMARY_LEGEND: &'static str = "| f:   files | r:     reg | d:     dir | l:    link | c: created | d: deleted | x:reg.xfer |";

/// The report's header line for logs whose names are `name_len` bytes long:
/// the label `legend:` left-aligned one column wider than a name, then the legend.
pub open spec fn summary_header(name_len: int) -> Seq<char> {
    pad_right("legend:"@, name_len + 1) + SUMMARY_LEGEND@
}

/// Appends the header line to `report`, sized to the name `file_name`.
pub fn write_summary_log_header(report: &mut Vec<String>, file_name: &str)
    ensures
        final(report)@.len() == old(report)@.len() + 1,
        final(report)@.subrange(0, old(report)@.len() as int) == old(report)@,
        final(report)@.last()@ == summary_header(file_name.len() as int),
{
    let label = chars_of("legend:");
    let width = file_name.len();
    let mut line = String::new();
    push_range(&mut line, &label, 0, label.len());
    if label.len() <= width {
        push_spaces(&mut line, width - label.len());
        push_char(&mut line, ' ');
    }
    line.append(SUMMARY_LEGEND);
    proof {
        assert(label@.subrange(0, label@.len() as int) =~= label@);
        assert(line@ =~= summary_header(file_name.len() as int));
    }
    let ghost before = report@;
    report.push(line);
    assert(report@.subrange(0, before.len() as int) =~= before);
}

/// The logs that the report covers, most recent first: the sorted names of
/// the logs, less the report itself when it sorts last.
pub open spec fn summary_inputs_spec(sorted: Seq<String>) -> Seq<String> {
    if sorted.len() > 0 && sorted.last()@ == SUMMARY_FILE@ {
        sorted.drop_last().reverse()
    } else {
        sorted.reverse()
    }
}

pub fn summary_inputs(sorted: &Vec<String>) -> (r: Vec<String>)
    ensures
        r@ == summary_inputs_spec(sorted@),
{
    let mut end: usize = sorted.len();
    if end > 0 {
        let report_name = String::from_str(SUMMARY_FILE);
        if sorted[end - 1] == report_name {
            end = end - 1;
        }
    }
    let mut r: Vec<String> = Vec::new();
    let mut i: usize = end;
    while i > 0
        invariant
            i <= end <= sorted.len(),
            r@ == sorted@.subrange(i as int, end as int).reverse(),
        decreases i,
    {
        i = i - 1;
        r.push(sorted[i].clone());
        assert(sorted@.subrange(i as int, end as int).reverse() =~= sorted@.subrange(
            (i + 1) as int,
            end as int,
        ).reverse().push(sorted@[i as int]));
    }
    assert(sorted@.subrange(0, end as int) =~= if end < sorted.len() {
        sorted@.drop_last()
    } else {
        sorted@
    });
    r
}

} // verus!
