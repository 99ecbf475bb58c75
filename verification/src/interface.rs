//! Support for generated RPC interfaces: naming of the generated items and
//! the checks on an interface definition.

use vstd::prelude::*;
use crate::text::string_push;

verus! {

/// The upper case of an ASCII letter; other characters are unchanged.
pub open spec fn spec_ascii_upper(c: char) -> char {
    if 'a' <= c && c <= 'z' {
        ((c as u32) - 32) as char
    } else {
        c
    }
}

/// A `snake_case` name in `UpperCamelCase`: underscores are dropped and the character after
/// an underscore, like the first character, is made upper case.
pub open spec fn spec_upper_camel_case(input: Seq<char>, capitalize: bool) -> Seq<char>
    decreases input.len(),
{
    if input.len() == 0 {
        Seq::<char>::empty()
    } else if input[0] == '_' {
        spec_upper_camel_case(input.drop_first(), true)
    } else if capitalize {
        seq![spec_ascii_upper(input[0])] + spec_upper_camel_case(input.drop_first(), false)
    } else {
        seq![input[0]] + spec_upper_camel_case(input.drop_first(), false)
    }
}

/// Convert an ASCII character to upper case, as `char::to_ascii_uppercase` does.
fn ascii_upper(c: char) -> (r: char)
    ensures
        r == spec_ascii_upper(c),
{
    if 'a' <= c && c <= 'z' {
        let code = c as u32;
        ((code - 32) as u8) as char
    } else {
        c
    }
}

/// Convert a `snake_case` name into `UpperCamelCase`.
pub fn to_upper_camel_case(input: &str) -> (r: String)
    ensures
        r@ == spec_upper_camel_case(input@, true),
{
    let mut output = String::new();
    let mut capitalize = true;
    let n = input.unicode_len();
    let mut i: usize = 0;
    assert(input@.skip(0) =~= input@);
    assert(output@ + spec_upper_camel_case(input@, true) =~= spec_upper_camel_case(input@, true));
    while i < n
        invariant
            n == input@.len(),
            i <= n,
            output@ + spec_upper_camel_case(input@.skip(i as int), capitalize)
                == spec_upper_camel_case(input@, true),
        decreases n - i,
    {
        let c = input.get_char(i);
        let ghost rest = input@.skip(i as int);
        assert(rest[0] == c);
        assert(rest.drop_first() =~= input@.skip(i + 1));
        if c == '_' {
            capitalize = true;
        } else if capitalize {
            string_push(&mut output, ascii_upper(c));
            capitalize = false;
        } else {
            string_push(&mut output, c);
        }
        i += 1;
    }
    assert(input@.skip(n as int) =~= Seq::<char>::empty());
    output
}

/// The number of spaces that a line starts with.
pub open spec fn spec_leading_spaces(line: Seq<char>) -> nat
    decreases line.len(),
{
    if line.len() > 0 && line[0] == ' ' {
        1 + spec_leading_spaces(line.drop_first())
    } else {
        0
    }
}

/// A line holds nothing but spaces.
pub open spec fn spec_is_blank(line: Seq<char>) -> bool {
    spec_leading_spaces(line) == line.len()
}

/// The smallest number of leading spaces among the lines below `n` that are not blank;
/// `None` when all of them are blank.
pub open spec fn spec_common_indent(lines: Seq<Seq<char>>, n: nat) -> Option<nat>
    decreases n,
{
    if n == 0 {
        None
    } else {
        let rest = spec_common_indent(lines, (n - 1) as nat);
        let line = lines[n - 1];
        if spec_is_blank(line) {
            rest
        } else {
            match rest {
                None => Some(spec_leading_spaces(line)),
                Some(m) => Some(if m <= spec_leading_spaces(line) { m } else { spec_leading_spaces(line) }),
            }
        }
    }
}

/// The lines below `n` with `indent` characters cut off the front of each line that is not blank,
/// blank lines made empty, and each line ended by a newline.
pub open spec fn spec_doc_lines(lines: Seq<Seq<char>>, indent: nat, n: nat) -> Seq<char>
    decreases n,
{
    if n == 0 {
        Seq::<char>::empty()
    } else {
        let line = lines[n - 1];
        let text = if spec_is_blank(line) { Seq::<char>::empty() } else { line.skip(indent as int) };
        spec_doc_lines(lines, indent, (n - 1) as nat) + text + seq!['\n']
    }
}

/// The documentation text of a list of doc comment lines:
/// the indentation that all lines with text share is removed.
pub open spec fn spec_doc_string(lines: Seq<Seq<char>>) -> Seq<char> {
    let indent = match spec_common_indent(lines, lines.len()) {
        Some(m) => m,
        None => 0,
    };
    spec_doc_lines(lines, indent, lines.len())
}

/// The number of leading spaces is at most the length of the line, and is the position of the
/// first character that is not a space.
proof fn lemma_leading_spaces(line: Seq<char>, k: nat)
    requires
        k <= line.len(),
        forall|j: int| 0 <= j < k ==> line[j] == ' ',
        k == line.len() || line[k as int] != ' ',
    ensures
        spec_leading_spaces(line) == k,
    decreases k,
{
    if k > 0 {
        let rest = line.drop_first();
        assert forall|j: int| 0 <= j < k - 1 implies rest[j] == ' ' by {
            assert(rest[j] == line[j + 1]);
        }
        if k < line.len() {
            assert(rest[k - 1] == line[k as int]);
        }
        lemma_leading_spaces(rest, (k - 1) as nat);
    }
}

/// The common indentation is at most the leading spaces of every line that is not blank.
proof fn lemma_common_indent_fits(lines: Seq<Seq<char>>, n: nat, i: int)
    requires
        0 <= i < n <= lines.len(),
        !spec_is_blank(lines[i]),
    ensures
        spec_common_indent(lines, n) matches Some(m) && m <= spec_leading_spaces(lines[i]),
    decreases n,
{
    if i < n - 1 {
        lemma_common_indent_fits(lines, (n - 1) as nat, i);
    }
}

/// Count the spaces at the start of a line.
fn leading_spaces(line: &str) -> (r: usize)
    ensures
        r == spec_leading_spaces(line@),
        r <= line@.len(),
{
    let n = line.unicode_len();
    let mut k: usize = 0;
    while k < n && line.get_char(k) == ' '
        invariant
            n == line@.len(),
            k <= n,
            forall|j: int| 0 <= j < k ==> line@[j] == ' ',
        decreases n - k,
    {
        k += 1;
    }
    proof {
        lemma_leading_spaces(line@, k as nat);
    }
    k
}

/// Join the lines of a doc comment into one documentation text.
///
/// The indentation that all lines with text share is removed, lines of only spaces become
/// empty, and every line ends with a newline.
pub fn to_doc_string(lines: &Vec<String>) -> (r: String)
    ensures
        r@ == spec_doc_string(lines@.map_values(|line: String| line@)),
{
    let ghost text = lines@.map_values(|line: String| line@);
    let n = lines.len();

    // Find the indentation that all lines with text share.
    let mut common: Option<usize> = None;
    let mut i: usize = 0;
    while i < n
        invariant
            n == lines@.len(),
            text == lines@.map_values(|line: String| line@),
            i <= n,
            match spec_common_indent(text, i as nat) {
                Some(m) => common matches Some(c) && c == m,
                None => common is None,
            },
        decreases n - i,
    {
        let line = lines[i].as_str();
        assert(line@ == text[i as int]);
        let lead = leading_spaces(line);
        if lead < line.unicode_len() {
            common = match common {
                None => Some(lead),
                Some(m) => Some(if m <= lead { m } else { lead }),
            };
        }
        i += 1;
    }
    let indent: usize = match common {
        Some(m) => m,
        None => 0,
    };

    // Cut the indentation off every line with text.
    let mut out = String::new();
    let mut i: usize = 0;
    assert(out@ =~= spec_doc_lines(text, indent as nat, 0));
    while i < n
        invariant
            n == lines@.len(),
            text == lines@.map_values(|line: String| line@),
            i <= n,
            indent == match spec_common_indent(text, n as nat) { Some(m) => m, None => 0 },
            out@ == spec_doc_lines(text, indent as nat, i as nat),
        decreases n - i,
    {
        let line = lines[i].as_str();
        assert(line@ == text[i as int]);
        let lead = leading_spaces(line);
        let len = line.unicode_len();
        if lead < len {
            proof {
                lemma_common_indent_fits(text, n as nat, i as int);
            }
            let rest = line.substring_char(indent, len);
            assert(rest@ =~= text[i as int].skip(indent as int));
            out.append(rest);
        }
        string_push(&mut out, '\n');
        assert(out@ =~= spec_doc_lines(text, indent as nat, (i + 1) as nat));
        i += 1;
    }
    out
}

/// The positions `k` in `i < k < end` where `ids` repeats the ID at position `i`, in order.
pub open spec fn spec_repeats_of(ids: Seq<i32>, i: int, end: int) -> Seq<usize>
    decreases end - i,
{
    if end <= i + 1 {
        Seq::<usize>::empty()
    } else if ids[end - 1] == ids[i] {
        spec_repeats_of(ids, i, end - 1).push((end - 1) as usize)
    } else {
        spec_repeats_of(ids, i, end - 1)
    }
}

/// One entry for every pair of positions `i < k` below `n` with equal IDs:
/// the later position `k`, ordered by `i` and then by `k`.
pub open spec fn spec_duplicate_ids(ids: Seq<i32>, n: int) -> Seq<usize>
    decreases n,
{
    if n <= 0 {
        Seq::<usize>::empty()
    } else {
        spec_duplicate_ids(ids, n - 1) + spec_repeats_of(ids, n - 1, ids.len() as int)
    }
}

/// Find the duplicate service IDs among the updates of one kind of a service.
///
/// Every pair of updates with the same service ID is a "duplicate service ID" error,
/// reported at the later of the two. The result holds the position of that later
/// update for each such pair, in the order in which the errors are reported.
pub fn duplicate_service_ids(ids: &Vec<i32>) -> (r: Vec<usize>)
    ensures
        r@ == spec_duplicate_ids(ids@, ids@.len() as int),
{
    let n = ids.len();
    let mut r: Vec<usize> = Vec::new();
    let mut i: usize = 0;
    while i < n
        invariant
            n == ids@.len(),
            i <= n,
            r@ == spec_duplicate_ids(ids@, i as int),
        decreases n - i,
    {
        let ghost before = r@;
        let mut k: usize = i + 1;
        assert(spec_repeats_of(ids@, i as int, k as int) =~= Seq::<usize>::empty());
        while k < n
            invariant
                n == ids@.len(),
                i < n,
                i + 1 <= k <= n,
                r@ == before + spec_repeats_of(ids@, i as int, k as int),
            decreases n - k,
        {
            if ids[k] == ids[i] {
                r.push(k);
                assert(spec_repeats_of(ids@, i as int, k + 1) == spec_repeats_of(ids@, i as int, k as int).push(k));
            }
            k += 1;
        }
        i += 1;
    }
    r
}

/// Every reported position has an earlier update with the same service ID.
pub proof fn lemma_duplicate_ids_have_earlier_twin(ids: Seq<i32>, n: int, j: int)
    requires
        0 <= n <= ids.len() <= usize::MAX,
        0 <= j < spec_duplicate_ids(ids, n).len(),
    ensures
        exists|i: int| #![trigger ids[i]]
            0 <= i < n && i < spec_duplicate_ids(ids, n)[j] < ids.len()
            && ids[i] == ids[spec_duplicate_ids(ids, n)[j] as int],
    decreases n,
{
    let prev = spec_duplicate_ids(ids, n - 1);
    if j < prev.len() {
        lemma_duplicate_ids_have_earlier_twin(ids, n - 1, j);
        assert(spec_duplicate_ids(ids, n)[j] == prev[j]);
    } else {
        lemma_repeats_are_twins(ids, n - 1, ids.len() as int, j - prev.len());
        assert(spec_duplicate_ids(ids, n)[j] == spec_repeats_of(ids, n - 1, ids.len() as int)[j - prev.len()]);
    }
}

proof fn lemma_repeats_are_twins(ids: Seq<i32>, i: int, end: int, j: int)
    requires
        0 <= i,
        end <= ids.len() <= usize::MAX,
        0 <= j < spec_repeats_of(ids, i, end).len(),
    ensures
        i < spec_repeats_of(ids, i, end)[j] < end,
        ids[spec_repeats_of(ids, i, end)[j] as int] == ids[i],
    decreases end - i,
{
    if end > i + 1 {
        let prev = spec_repeats_of(ids, i, end - 1);
        if j < prev.len() {
            lemma_repeats_are_twins(ids, i, end - 1, j);
            if ids[end - 1] == ids[i] {
                assert(spec_repeats_of(ids, i, end)[j] == prev[j]);
            }
        }
    }
}

/// Every pair of updates with the same service ID is reported.
pub proof fn lemma_every_duplicate_is_reported(ids: Seq<i32>, i: int, k: int)
    requires
        0 <= i < k < ids.len() <= usize::MAX,
        ids[i] == ids[k],
    ensures
        spec_duplicate_ids(ids, ids.len() as int).contains(k as usize),
{
    lemma_repeats_contain(ids, i, ids.len() as int, k);
    lemma_duplicates_keep_repeats(ids, i, ids.len() as int, k);
}

proof fn lemma_repeats_contain(ids: Seq<i32>, i: int, end: int, k: int)
    requires
        0 <= i < k < end <= ids.len() <= usize::MAX,
        ids[i] == ids[k],
    ensures
        spec_repeats_of(ids, i, end).contains(k as usize),
    decreases end - i,
{
    let r = spec_repeats_of(ids, i, end);
    if k == end - 1 {
        assert(r[r.len() - 1] == k as usize);
    } else {
        lemma_repeats_contain(ids, i, end - 1, k);
        let prev = spec_repeats_of(ids, i, end - 1);
        let w = choose|w: int| 0 <= w < prev.len() && prev[w] == k as usize;
        if ids[end - 1] == ids[i] {
            assert(r[w] == k as usize);
        } else {
            assert(r[w] == k as usize);
        }
    }
}

proof fn lemma_duplicates_keep_repeats(ids: Seq<i32>, i: int, n: int, k: int)
    requires
        0 <= i < n <= ids.len(),
        spec_repeats_of(ids, i, ids.len() as int).contains(k as usize),
    ensures
        spec_duplicate_ids(ids, n).contains(k as usize),
    decreases n,
{
    let prev = spec_duplicate_ids(ids, n - 1);
    let last = spec_repeats_of(ids, n - 1, ids.len() as int);
    let all = spec_duplicate_ids(ids, n);
    if i == n - 1 {
        let w = choose|w: int| 0 <= w < last.len() && last[w] == k as usize;
        assert(all[prev.len() + w] == k as usize);
    } else {
        lemma_duplicates_keep_repeats(ids, i, n - 1, k);
        let w = choose|w: int| 0 <= w < prev.len() && prev[w] == k as usize;
        assert(all[w] == k as usize);
    }
}

/// The kind of an update message of a service.
#[derive(Debug, Clone, Copy, PartialEq, Eq, Structural)]
pub enum UpdateKind {
    /// An update sent by the peer that made the request.
    RequestUpdate,

    /// An update sent by the peer that received the request.
    ResponseUpdate,
}

} // verus!
