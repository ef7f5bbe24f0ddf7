//! Telling a statement that reads from one that writes, by its first word.
//!
//! The rule looks at the text only. A statement is taken to produce rows
//! when, with the white space around it removed and its letters in upper
//! case, it begins with `SELECT`. Nothing is parsed: a statement that yields
//! rows but begins with another word (`WITH`, `EXPLAIN`, `PRAGMA`) counts as
//! one that writes, and a comment before `SELECT` hides it.

use crate::text::starts_with;
use vstd::prelude::*;
use vstd::std_specs::iter::IteratorSpec;
use vstd::string::*;

verus! {

/// Whether `c` is white space: one of the twenty-five characters with the
/// Unicode property `White_Space`. These are the controls from tab to
/// carriage return, the space, next line, the no-break space, the Ogham
/// space mark, the spaces from en quad to hair space, the line and
/// paragraph separators, the narrow no-break space, the medium mathematical
/// space and the ideographic space.
pub open spec fn is_white_space(c: char) -> bool {
    let code = c as u32;
    ||| 0x09 <= code <= 0x0d
    ||| code == 0x20
    ||| code == 0x85
    ||| code == 0xa0
    ||| code == 0x1680
    ||| 0x2000 <= code <= 0x200a
    ||| code == 0x2028
    ||| code == 0x2029
    ||| code == 0x202f
    ||| code == 0x205f
    ||| code == 0x3000
}

/// What std's `str::to_uppercase` makes of `text`.
pub uninterp spec fn upper_case(text: Seq<char>) -> Seq<char>;

/// Whether `c` is white space.
pub fn white_space(c: char) -> (space: bool)
    ensures
        space == is_white_space(c),
{
    let code = c as u32;
    if code < 0x80 {
        (0x09 <= code && code <= 0x0d) || code == 0x20
    } else if code < 0x2000 {
        code == 0x85 || code == 0xa0 || code == 0x1680
    } else {
        code <= 0x200a || code == 0x2028 || code == 0x2029 || code == 0x202f || code == 0x205f
            || code == 0x3000
    }
}

/// `str::to_uppercase` of std. The contract only gives its result the name
/// [`upper_case`].
#[verifier::external_body]
fn to_upper(text: &str) -> (upper: String)
    ensures
        upper@ == upper_case(text@),
{
    text.to_uppercase()
}

/// `text` without the white space it begins with.
pub open spec fn trimmed_start(text: Seq<char>) -> Seq<char>
    decreases text.len(),
{
    if text.len() > 0 && is_white_space(text[0]) {
        trimmed_start(text.drop_first())
    } else {
        text
    }
}

/// `text` without the white space it ends with.
pub open spec fn trimmed_end(text: Seq<char>) -> Seq<char>
    decreases text.len(),
{
    if text.len() > 0 && is_white_space(text.last()) {
        trimmed_end(text.drop_last())
    } else {
        text
    }
}

/// `text` without the white space around it.
pub open spec fn trimmed(text: Seq<char>) -> Seq<char> {
    trimmed_end(trimmed_start(text))
}

/// The word that marks a statement as one that reads.
pub const SELECT: &'static str = "SELECT";

/// Whether a statement counts as one that produces rows.
pub open spec fn is_read(sql: Seq<char>) -> bool {
    SELECT@.is_prefix_of(upper_case(trimmed(sql)))
}

/// The two ways a statement is run.
#[derive(Debug, Clone, Copy, PartialEq, Eq, Structural)]
pub enum QueryKind {
    /// Prepared and queried; its rows are decoded as students.
    Read,
    /// Run as a batch; nothing is read back.
    Write,
}

/// The way a statement with the text `sql` is run.
pub open spec fn kind_of(sql: Seq<char>) -> QueryKind {
    if is_read(sql) {
        QueryKind::Read
    } else {
        QueryKind::Write
    }
}

/// Dropping `skip` leading white-space characters, where the next one is
/// none, is what `trimmed_start` does.
proof fn trimmed_start_drops(text: Seq<char>, skip: int)
    requires
        0 <= skip <= text.len(),
        forall|i: int| 0 <= i < skip ==> is_white_space(#[trigger] text[i]),
        skip < text.len() ==> !is_white_space(text[skip]),
    ensures
        trimmed_start(text) == text.subrange(skip, text.len() as int),
    decreases skip,
{
    if skip > 0 {
        trimmed_start_drops(text.drop_first(), skip - 1);
    }
}

/// Keeping the first `keep` characters, where all after them are white space
/// and the last one kept is none, is what `trimmed_end` does.
proof fn trimmed_end_keeps(text: Seq<char>, keep: int)
    requires
        0 <= keep <= text.len(),
        forall|i: int| keep <= i < text.len() ==> is_white_space(#[trigger] text[i]),
        0 < keep ==> !is_white_space(text[keep - 1]),
    ensures
        trimmed_end(text) == text.subrange(0, keep),
    decreases text.len() - keep,
{
    if keep < text.len() {
        trimmed_end_keeps(text.drop_last(), keep);
    }
}

/// Where the characters before `from` and from `to` on are white space and
/// the ones at both ends of the range between are not, that range is the
/// trimmed text.
pub proof fn trimmed_is_range(text: Seq<char>, from: int, to: int)
    requires
        0 <= from <= to <= text.len(),
        forall|i: int| 0 <= i < from ==> is_white_space(#[trigger] text[i]),
        forall|i: int| to <= i < text.len() ==> is_white_space(#[trigger] text[i]),
        from < to ==> !is_white_space(text[from]) && !is_white_space(text[to - 1]),
        from == to ==> from == text.len(),
    ensures
        trimmed(text) == text.subrange(from, to),
{
    trimmed_start_drops(text, from);
    trimmed_end_keeps(text.subrange(from, text.len() as int), to - from);
}

/// Whether every character of `text` is white space.
pub open spec fn is_blank(text: Seq<char>) -> bool {
    forall|i: int| 0 <= i < text.len() ==> is_white_space(#[trigger] text[i])
}

/// How many white-space characters `text` begins with.
pub open spec fn leading_space(text: Seq<char>) -> nat
    decreases text.len(),
{
    if text.len() > 0 && is_white_space(text[0]) {
        1 + leading_space(text.drop_first())
    } else {
        0
    }
}

/// How many white-space characters `text` ends with.
pub open spec fn trailing_space(text: Seq<char>) -> nat
    decreases text.len(),
{
    if text.len() > 0 && is_white_space(text.last()) {
        1 + trailing_space(text.drop_last())
    } else {
        0
    }
}

proof fn leading_space_ends_at_text(text: Seq<char>)
    ensures
        leading_space(text) <= text.len(),
        forall|i: int| 0 <= i < leading_space(text) ==> is_white_space(#[trigger] text[i]),
        leading_space(text) < text.len() ==> !is_white_space(text[leading_space(text) as int]),
    decreases text.len(),
{
    if text.len() > 0 && is_white_space(text[0]) {
        let rest = text.drop_first();
        leading_space_ends_at_text(rest);
        assert forall|i: int| 0 <= i < leading_space(text) implies is_white_space(
            #[trigger] text[i],
        ) by {
            if i > 0 {
                assert(text[i] == rest[i - 1]);
            }
        }
    }
}

proof fn trailing_space_begins_after_text(text: Seq<char>)
    ensures
        trailing_space(text) <= text.len(),
        forall|i: int|
            text.len() - trailing_space(text) <= i < text.len() ==> is_white_space(#[trigger] text[i]),
        trailing_space(text) < text.len() ==> !is_white_space(
            text[text.len() - trailing_space(text) - 1],
        ),
    decreases text.len(),
{
    if text.len() > 0 && is_white_space(text.last()) {
        let rest = text.drop_last();
        trailing_space_begins_after_text(rest);
        assert forall|i: int| text.len() - trailing_space(text) <= i < text.len() implies is_white_space(
            #[trigger] text[i],
        ) by {
            if i < text.len() - 1 {
                assert(text[i] == rest[i]);
            }
        }
    }
}

/// Trimming cuts the text out from between the white space it begins with
/// and the white space it ends with, and changes nothing inside: what is
/// left is empty, or begins and ends with a character that is no white
/// space.
pub proof fn trimmed_is_the_inside(text: Seq<char>)
    ensures
        is_blank(text) ==> trimmed(text) == Seq::<char>::empty(),
        !is_blank(text) ==> leading_space(text) + trailing_space(text) < text.len(),
        !is_blank(text) ==> trimmed(text) == text.subrange(
            leading_space(text) as int,
            text.len() - trailing_space(text),
        ),
        !is_blank(text) ==> !is_white_space(trimmed(text).first()),
        !is_blank(text) ==> !is_white_space(trimmed(text).last()),
{
    leading_space_ends_at_text(text);
    trailing_space_begins_after_text(text);
    let from = leading_space(text) as int;
    let to = text.len() - trailing_space(text);
    if is_blank(text) {
        trimmed_is_range(text, text.len() as int, text.len() as int);
    } else {
        trimmed_is_range(text, from, to);
    }
}

/// White space before and after a statement changes neither what trimming
/// leaves of it nor how it is run.
pub proof fn space_around_is_ignored(before: Seq<char>, sql: Seq<char>, after: Seq<char>)
    requires
        is_blank(before),
        is_blank(after),
    ensures
        trimmed(before + sql + after) == trimmed(sql),
        is_read(before + sql + after) == is_read(sql),
        kind_of(before + sql + after) == kind_of(sql),
{
    let whole = before + sql + after;
    trimmed_is_the_inside(sql);
    leading_space_ends_at_text(sql);
    trailing_space_begins_after_text(sql);
    if is_blank(sql) {
        trimmed_is_the_inside(whole);
    } else {
        let from = leading_space(sql) as int;
        let to = sql.len() - trailing_space(sql);
        let shift = before.len() as int;
        trimmed_is_range(whole, shift + from, shift + to);
    }
}

/// Removes the white space around `text`.
pub fn trim(text: &str) -> (inner: &str)
    ensures
        inner@ == trimmed(text@),
{
    let total = text.unicode_len();
    let mut from: usize = 0;
    let mut to: usize = 0;
    let mut seen = false;
    let mut at: usize = 0;
    for c in it: text.chars()
        invariant
            it.seq() == text@,
            total == text@.len(),
            at == it.index(),
            !seen ==> from == 0 && to == 0,
            !seen ==> forall|i: int| 0 <= i < at ==> is_white_space(#[trigger] text@[i]),
            seen ==> from < to <= at,
            seen ==> forall|i: int| 0 <= i < from ==> is_white_space(#[trigger] text@[i]),
            seen ==> forall|i: int| to <= i < at ==> is_white_space(#[trigger] text@[i]),
            seen ==> !is_white_space(text@[from as int]) && !is_white_space(text@[to - 1]),
    {
        if !white_space(c) {
            if !seen {
                from = at;
                seen = true;
            }
            to = at + 1;
        }
        at = at + 1;
    }
    if !seen {
        from = total;
        to = total;
    }
    proof {
        trimmed_is_range(text@, from as int, to as int);
    }
    text.substring_char(from, to)
}

/// Whether `text` begins with the word `SELECT`, in upper case as written.
pub fn begins_with_select(text: &str) -> (found: bool)
    ensures
        found == SELECT@.is_prefix_of(text@),
{
    starts_with(text, SELECT)
}

/// Decides how a statement is run. The statement itself is left as it is:
/// trimming and upper case serve the decision only.
pub fn classify(sql: &str) -> (kind: QueryKind)
    ensures
        kind == kind_of(sql@),
        kind == QueryKind::Read <==> is_read(sql@),
{
    let upper = to_upper(trim(sql));
    if begins_with_select(upper.as_str()) {
        QueryKind::Read
    } else {
        QueryKind::Write
    }
}

} // verus!
