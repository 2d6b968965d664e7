//! Plain text: trimming, splitting, joining, decimal numbers and lossy decoding.

use vstd::prelude::*;
use vstd::string::StrSliceExecFns;
use vstd::string::StringExecFns;
use vstd::utf8::*;

verus! {

/// The characters with the Unicode property `White_Space`.
pub open spec fn white_space(c: char) -> bool {
    ||| '\u{9}' <= c <= '\u{d}'
    ||| c == '\u{20}'
    ||| c == '\u{85}'
    ||| c == '\u{a0}'
    ||| c == '\u{1680}'
    ||| '\u{2000}' <= c <= '\u{200a}'
    ||| c == '\u{2028}'
    ||| c == '\u{2029}'
    ||| c == '\u{202f}'
    ||| c == '\u{205f}'
    ||| c == '\u{3000}'
}

/// Whether `c` has the Unicode property `White_Space`.
pub fn is_white_space(c: char) -> (res: bool)
    ensures
        res == white_space(c),
{
    ('\u{9}' <= c && c <= '\u{d}') || c == '\u{20}' || c == '\u{85}' || c == '\u{a0}' || c
        == '\u{1680}' || ('\u{2000}' <= c && c <= '\u{200a}') || c == '\u{2028}' || c == '\u{2029}'
        || c == '\u{202f}' || c == '\u{205f}' || c == '\u{3000}'
}

/// `s` without the white space at its end.
pub open spec fn trimmed_end(s: Seq<char>) -> Seq<char>
    decreases s.len(),
{
    if s.len() > 0 && white_space(s.last()) {
        trimmed_end(s.drop_last())
    } else {
        s
    }
}

/// `s` without the white space at its start.
pub open spec fn trimmed_start(s: Seq<char>) -> Seq<char>
    decreases s.len(),
{
    if s.len() > 0 && white_space(s.first()) {
        trimmed_start(s.drop_first())
    } else {
        s
    }
}

/// `s` without the white space at either end.
pub open spec fn trimmed(s: Seq<char>) -> Seq<char> {
    trimmed_start(trimmed_end(s))
}

/// `s` without the slashes at its end.
pub open spec fn without_trailing_slashes(s: Seq<char>) -> Seq<char>
    decreases s.len(),
{
    if s.len() > 0 && s.last() == '/' {
        without_trailing_slashes(s.drop_last())
    } else {
        s
    }
}

/// `n` slashes.
pub open spec fn slashes(n: nat) -> Seq<char> {
    Seq::new(n, |i: int| '/')
}

/// What stands in `s` before the first `c`; all of it where there is none.
pub open spec fn before(s: Seq<char>, c: char) -> Seq<char>
    decreases s.len(),
{
    if s.len() == 0 || s.first() == c {
        Seq::empty()
    } else {
        seq![s.first()] + before(s.drop_first(), c)
    }
}

/// What stands in `s` behind the first `c`; nothing where there is none.
pub open spec fn behind(s: Seq<char>, c: char) -> Seq<char>
    decreases s.len(),
{
    if s.len() == 0 {
        s
    } else if s.first() == c {
        s.drop_first()
    } else {
        behind(s.drop_first(), c)
    }
}

/// What stands in `s` behind the last `c`; all of it where there is none.
pub open spec fn behind_last(s: Seq<char>, c: char) -> Seq<char>
    decreases s.len(),
{
    if s.len() == 0 || s.last() == c {
        Seq::empty()
    } else {
        behind_last(s.drop_last(), c).push(s.last())
    }
}

/// Removes the white space at the end of `s`.
pub fn trim_end(s: &str) -> (res: &str)
    ensures
        res@ == trimmed_end(s@),
{
    let mut end: usize = s.unicode_len();
    assert(s@.subrange(0, end as int) =~= s@);
    while end > 0 && is_white_space(s.get_char(end - 1))
        invariant
            end <= s@.len(),
            trimmed_end(s@) == trimmed_end(s@.subrange(0, end as int)),
        decreases end,
    {
        assert(s@.subrange(0, end as int).drop_last() =~= s@.subrange(0, end - 1));
        end = end - 1;
    }
    s.substring_char(0, end)
}

/// Removes the white space at both ends of `s`.
pub fn trim(s: &str) -> (res: &str)
    ensures
        res@ == trimmed(s@),
{
    let body = trim_end(s);
    let len: usize = body.unicode_len();
    let mut start: usize = 0;
    assert(body@.subrange(0, len as int) =~= body@);
    while start < len && is_white_space(body.get_char(start))
        invariant
            start <= len,
            len == body@.len(),
            trimmed_start(body@) == trimmed_start(body@.subrange(start as int, len as int)),
        decreases len - start,
    {
        assert(body@.subrange(start as int, len as int).drop_first() =~= body@.subrange(
            start + 1,
            len as int,
        ));
        start = start + 1;
    }
    body.substring_char(start, len)
}

/// Removes the slashes at the end of `s`.
pub fn trim_end_slashes(s: &str) -> (res: &str)
    ensures
        res@ == without_trailing_slashes(s@),
{
    let mut end: usize = s.unicode_len();
    assert(s@.subrange(0, end as int) =~= s@);
    while end > 0 && s.get_char(end - 1) == '/'
        invariant
            end <= s@.len(),
            without_trailing_slashes(s@) == without_trailing_slashes(s@.subrange(0, end as int)),
        decreases end,
    {
        assert(s@.subrange(0, end as int).drop_last() =~= s@.subrange(0, end - 1));
        end = end - 1;
    }
    s.substring_char(0, end)
}

/// The pieces of `s` between its newlines, in order.
pub open spec fn lines_of(s: Seq<char>) -> Seq<Seq<char>>
    decreases s.len(),
{
    if s.len() == 0 {
        seq![Seq::<char>::empty()]
    } else {
        let before = lines_of(s.drop_last());
        if s.last() == '\n' {
            before.push(Seq::empty())
        } else {
            before.drop_last().push(before.last().push(s.last()))
        }
    }
}

/// What is left of `lines` when each is trimmed and the blank ones are dropped.
pub open spec fn trimmed_nonblank(lines: Seq<Seq<char>>) -> Seq<Seq<char>> {
    lines.map_values(|line: Seq<char>| trimmed(line)).filter(|line: Seq<char>| line.len() > 0)
}

proof fn lemma_trimmed_nonblank_push(lines: Seq<Seq<char>>, line: Seq<char>)
    ensures
        trimmed_nonblank(lines.push(line)) == if trimmed(line).len() > 0 {
            trimmed_nonblank(lines).push(trimmed(line))
        } else {
            trimmed_nonblank(lines)
        },
{
    let trim_all = |l: Seq<char>| trimmed(l);
    let nonblank = |l: Seq<char>| l.len() > 0;
    let all = lines.push(line).map_values(trim_all);
    assert(all =~= lines.map_values(trim_all).push(trimmed(line)));
    assert(all.drop_last() =~= lines.map_values(trim_all));
    reveal(Seq::filter);
}

/// Splits `s` at its newlines, trims each line and keeps those that are not blank.
///
/// A carriage return in front of a newline is white space, so both line endings are covered.
pub fn nonblank_lines(s: &str) -> (res: Vec<String>)
    ensures
        res.deep_view() == trimmed_nonblank(lines_of(s@)),
{
    let len: usize = s.unicode_len();
    let mut res: Vec<String> = Vec::new();
    let mut start: usize = 0;
    let mut at: usize = 0;
    let ghost mut done: Seq<Seq<char>> = Seq::empty();
    proof {
        assert(s@.subrange(0, 0) =~= Seq::<char>::empty());
        assert(lines_of(s@.subrange(0, 0)) =~= done.push(s@.subrange(0, 0)));
        reveal(Seq::filter);
        assert(res.deep_view() =~= trimmed_nonblank(done));
    }
    while at < len
        invariant
            start <= at <= len,
            len == s@.len(),
            lines_of(s@.subrange(0, at as int)) == done.push(s@.subrange(start as int, at as int)),
            res.deep_view() == trimmed_nonblank(done),
        decreases len - at,
    {
        let ghost read = s@.subrange(0, at as int);
        let ghost line = s@.subrange(start as int, at as int);
        assert(s@.subrange(0, at + 1).drop_last() =~= read);
        if s.get_char(at) == '\n' {
            push_nonblank(&mut res, s.substring_char(start, at));
            proof {
                lemma_trimmed_nonblank_push(done, line);
                done = done.push(line);
                assert(s@.subrange(at + 1, at + 1) =~= Seq::<char>::empty());
            }
            start = at + 1;
        } else {
            assert(done.push(line).drop_last() =~= done);
            assert(s@.subrange(start as int, at + 1) =~= line.push(s@[at as int]));
        }
        at = at + 1;
    }
    push_nonblank(&mut res, s.substring_char(start, len));
    proof {
        lemma_trimmed_nonblank_push(done, s@.subrange(start as int, len as int));
        assert(s@.subrange(0, len as int) =~= s@);
    }
    res
}

fn push_nonblank(lines: &mut Vec<String>, line: &str)
    ensures
        final(lines).deep_view() == if trimmed(line@).len() > 0 {
            old(lines).deep_view().push(trimmed(line@))
        } else {
            old(lines).deep_view()
        },
{
    let line = trim(line);
    if !line.is_empty() {
        push_str(lines, line);
    }
}

/// Appends a copy of `item` to `items`.
pub fn push_str(items: &mut Vec<String>, item: &str)
    ensures
        final(items).deep_view() == old(items).deep_view().push(item@),
{
    items.push(item.to_owned());
    assert(items.deep_view() =~= old(items).deep_view().push(item@));
}

/// Appends copies of `more` to `items`, in order.
pub fn push_all(items: &mut Vec<String>, more: &[String])
    ensures
        final(items).deep_view() == old(items).deep_view() + more.deep_view(),
{
    let mut i: usize = 0;
    assert(items.deep_view() =~= old(items).deep_view() + more.deep_view().take(0));
    while i < more.len()
        invariant
            i <= more.len(),
            items.deep_view() == old(items).deep_view() + more.deep_view().take(i as int),
        decreases more.len() - i,
    {
        push_str(items, more[i].as_str());
        i = i + 1;
        assert(items.deep_view() =~= old(items).deep_view() + more.deep_view().take(i as int));
    }
    assert(more.deep_view().take(i as int) =~= more.deep_view());
}

/// Whether `a` and `b` are the same text.
pub fn same_text(a: &str, b: &str) -> (res: bool)
    ensures
        res == (a@ == b@),
{
    a.to_owned() == b.to_owned()
}

/// `items` in order, with `separator` between neighbours.
pub open spec fn joined(items: Seq<Seq<char>>, separator: Seq<char>) -> Seq<char>
    decreases items.len(),
{
    if items.len() == 0 {
        Seq::empty()
    } else if items.len() == 1 {
        items[0]
    } else {
        joined(items.drop_last(), separator) + separator + items.last()
    }
}

/// Joins `items` with `separator` between neighbours.
pub fn join_text(items: &[String], separator: &str) -> (res: String)
    ensures
        res@ == joined(items.deep_view(), separator@),
{
    let mut res = String::new();
    let mut i: usize = 0;
    while i < items.len()
        invariant
            i <= items.len(),
            res@ == joined(items.deep_view().take(i as int), separator@),
        decreases items.len() - i,
    {
        if i > 0 {
            res.append(separator);
        }
        res.append(items[i].as_str());
        i = i + 1;
        proof {
            let read = items.deep_view().take(i as int);
            assert(read.drop_last() =~= items.deep_view().take(i - 1));
            assert(res@ =~= joined(read, separator@));
        }
    }
    assert(items.deep_view().take(i as int) =~= items.deep_view());
    res
}

/// The decimal digit for `n`, which is below ten.
pub open spec fn digit(n: nat) -> char {
    "0123456789"@[n as int]
}

/// `n` in decimal notation, without leading zeros.
pub open spec fn decimal(n: nat) -> Seq<char>
    decreases n,
{
    if n < 10 {
        seq![digit(n)]
    } else {
        decimal(n / 10).push(digit(n % 10))
    }
}

/// Writes `n` in decimal notation.
pub fn decimal_text(n: u64) -> (res: String)
    ensures
        res@ == decimal(n as nat),
    decreases n,
{
    proof {
        reveal_strlit("0123456789");
    }
    let last: usize = (n % 10) as usize;
    let glyph = "0123456789".substring_char(last, last + 1);
    if n < 10 {
        assert(glyph@ =~= decimal(n as nat));
        glyph.to_owned()
    } else {
        let mut res = decimal_text(n / 10);
        let ghost higher = res@;
        res.append(glyph);
        assert(res@ =~= higher.push(digit((n % 10) as nat)));
        res
    }
}

/// What `String::from_utf8_lossy` makes of `bytes`.
pub uninterp spec fn lossy_text(bytes: Seq<u8>) -> Seq<char>;

/// Calls `String::from_utf8_lossy`.
///
/// Valid UTF-8 is decoded as it stands. What stands in the place of invalid bytes is left to the
/// name `lossy_text`: a function of the bytes alone.
#[verifier::external_body]
pub(crate) fn from_utf8_lossy(bytes: &[u8]) -> (res: String)
    ensures
        res@ == lossy_text(bytes@),
        valid_utf8(bytes@) ==> res@ == decode_utf8(bytes@),
{
    String::from_utf8_lossy(bytes).into_owned()
}

/// What a tool wrote, as text without white space at its end.
pub open spec fn output_text_view(bytes: Seq<u8>) -> Seq<char> {
    trimmed_end(lossy_text(bytes))
}

/// Reads what a tool wrote as text, without white space at its end.
pub fn output_text(bytes: &[u8]) -> (res: String)
    ensures
        res@ == output_text_view(bytes@),
{
    trim_end(from_utf8_lossy(bytes).as_str()).to_owned()
}

/// What stands before the first `c` is a piece of `s`.
pub proof fn lemma_before(s: Seq<char>, c: char)
    ensures
        before(s, c).len() <= s.len(),
        before(s, c) == s.take(before(s, c).len() as int),
    decreases s.len(),
{
    if s.len() > 0 && s.first() != c {
        lemma_before(s.drop_first(), c);
        assert(before(s, c) =~= s.take(before(s, c).len() as int));
    }
}

/// What stands behind the first `c` is a piece of `s`.
pub proof fn lemma_behind(s: Seq<char>, c: char)
    ensures
        behind(s, c).len() <= s.len(),
        behind(s, c) == s.skip(s.len() - behind(s, c).len()),
    decreases s.len(),
{
    if s.len() > 0 && s.first() != c {
        lemma_behind(s.drop_first(), c);
    }
    assert(behind(s, c) =~= s.skip(s.len() - behind(s, c).len()));
}

/// What stands behind the last `c` is a piece of `s`.
pub proof fn lemma_behind_last(s: Seq<char>, c: char)
    ensures
        behind_last(s, c).len() <= s.len(),
        behind_last(s, c) == s.skip(s.len() - behind_last(s, c).len()),
    decreases s.len(),
{
    if s.len() > 0 && s.last() != c {
        lemma_behind_last(s.drop_last(), c);
    }
    assert(behind_last(s, c) =~= s.skip(s.len() - behind_last(s, c).len()));
}

/// A number in decimal notation has at least one digit, and digits only.
pub proof fn lemma_decimal(n: nat)
    ensures
        decimal(n).len() > 0,
        forall|i: int| 0 <= i < decimal(n).len() ==> '0' <= #[trigger] decimal(n)[i] <= '9',
    decreases n,
{
    reveal_strlit("0123456789");
    if n >= 10 {
        lemma_decimal(n / 10);
    }
}

proof fn lemma_trimmed_end(s: Seq<char>) -> (end: int)
    ensures
        0 <= end <= s.len(),
        trimmed_end(s) == s.subrange(0, end),
        end > 0 ==> !white_space(s[end - 1]),
        forall|k: int| end <= k < s.len() ==> white_space(#[trigger] s[k]),
    decreases s.len(),
{
    if s.len() > 0 && white_space(s.last()) {
        let end = lemma_trimmed_end(s.drop_last());
        assert(s.drop_last().subrange(0, end) =~= s.subrange(0, end));
        assert forall|k: int| end <= k < s.len() implies white_space(#[trigger] s[k]) by {
            if k < s.len() - 1 {
                assert(s[k] == s.drop_last()[k]);
            }
        }
        end
    } else {
        assert(s.subrange(0, s.len() as int) =~= s);
        s.len() as int
    }
}

proof fn lemma_trimmed_start(s: Seq<char>) -> (start: int)
    ensures
        0 <= start <= s.len(),
        trimmed_start(s) == s.subrange(start, s.len() as int),
        start < s.len() ==> !white_space(s[start]),
        forall|k: int| 0 <= k < start ==> white_space(#[trigger] s[k]),
    decreases s.len(),
{
    if s.len() > 0 && white_space(s.first()) {
        let rest = s.drop_first();
        let start = lemma_trimmed_start(rest);
        assert(rest.subrange(start, rest.len() as int) =~= s.subrange(start + 1, s.len() as int));
        assert forall|k: int| 0 <= k < start + 1 implies white_space(#[trigger] s[k]) by {
            if k > 0 {
                assert(s[k] == rest[k - 1]);
            }
        }
        start + 1
    } else {
        assert(s.subrange(0, s.len() as int) =~= s);
        0
    }
}

/// Trimming takes away white space at the ends and nothing else, and all of it: what is left
/// neither begins nor ends with white space.
pub proof fn law_trimming_drops_outer_white_space(s: Seq<char>)
    ensures
        exists|start: int, end: int|
            0 <= start <= end <= s.len() && trimmed(s) == #[trigger] s.subrange(start, end) && (
            forall|k: int| 0 <= k < start || end <= k < s.len() ==> white_space(#[trigger] s[k])),
        trimmed(s).len() > 0 ==> !white_space(trimmed(s).first()) && !white_space(
            trimmed(s).last(),
        ),
{
    let end = lemma_trimmed_end(s);
    let body = s.subrange(0, end);
    let start = lemma_trimmed_start(body);
    assert(body.subrange(start, end) =~= s.subrange(start, end));
    assert forall|k: int| 0 <= k < start || end <= k < s.len() implies white_space(
        #[trigger] s[k],
    ) by {
        if k < start {
            assert(s[k] == body[k]);
        }
    }
}

/// Dropping slashes takes away slashes at the end and nothing else, and all of them.
pub proof fn law_trailing_slashes_are_dropped(s: Seq<char>)
    ensures
        without_trailing_slashes(s).is_prefix_of(s),
        without_trailing_slashes(s).len() > 0 ==> without_trailing_slashes(s).last() != '/',
        forall|k: int|
            without_trailing_slashes(s).len() <= k < s.len() ==> #[trigger] s[k] == '/',
    decreases s.len(),
{
    if s.len() > 0 && s.last() == '/' {
        let rest = s.drop_last();
        law_trailing_slashes_are_dropped(rest);
        assert forall|k: int|
            without_trailing_slashes(s).len() <= k < s.len() implies #[trigger] s[k] == '/' by {
            if k < rest.len() {
                assert(s[k] == rest[k]);
            }
        }
    }
}

/// Each line that is kept is trimmed and not blank.
pub proof fn law_kept_lines_are_trimmed(lines: Seq<Seq<char>>, i: int)
    requires
        0 <= i < trimmed_nonblank(lines).len(),
    ensures
        trimmed_nonblank(lines)[i].len() > 0,
        exists|j: int| 0 <= j < lines.len() && trimmed_nonblank(lines)[i] == trimmed(
            #[trigger] lines[j],
        ),
    decreases lines.len(),
{
    reveal(Seq::filter);
    if lines.len() > 0 {
        let before = lines.drop_last();
        assert(lines =~= before.push(lines.last()));
        lemma_trimmed_nonblank_push(before, lines.last());
        if i < trimmed_nonblank(before).len() {
            law_kept_lines_are_trimmed(before, i);
            let j = choose|j: int|
                0 <= j < before.len() && trimmed_nonblank(before)[i] == trimmed(
                    #[trigger] before[j],
                );
            assert(lines[j] == before[j]);
        } else {
            assert(trimmed_nonblank(lines)[i] == trimmed(lines[lines.len() - 1]));
        }
    }
}

/// Trimming the end takes away white space there and nothing else, and all of it.
pub proof fn law_trimming_the_end_drops_white_space(s: Seq<char>)
    ensures
        trimmed_end(s).is_prefix_of(s),
        trimmed_end(s).len() > 0 ==> !white_space(trimmed_end(s).last()),
        forall|k: int| trimmed_end(s).len() <= k < s.len() ==> white_space(#[trigger] s[k]),
{
    let end = lemma_trimmed_end(s);
    assert(trimmed_end(s).len() == end);
    if end > 0 {
        assert(trimmed_end(s).last() == s[end - 1]);
    }
}

/// What a tool wrote is its decoded text, but for white space at the end.
pub proof fn law_output_is_decoded_text(bytes: Seq<u8>)
    ensures
        output_text_view(bytes).is_prefix_of(lossy_text(bytes)),
        output_text_view(bytes).len() > 0 ==> !white_space(output_text_view(bytes).last()),
        forall|k: int|
            output_text_view(bytes).len() <= k < lossy_text(bytes).len() ==> white_space(
                #[trigger] lossy_text(bytes)[k],
            ),
{
    law_trimming_the_end_drops_white_space(lossy_text(bytes));
}

/// Joining two lists one behind the other is joining each, with the separator between them.
pub proof fn law_joined_lists(a: Seq<Seq<char>>, b: Seq<Seq<char>>, separator: Seq<char>)
    ensures
        a.len() == 0 ==> joined(a + b, separator) == joined(b, separator),
        b.len() == 0 ==> joined(a + b, separator) == joined(a, separator),
        a.len() > 0 && b.len() > 0 ==> joined(a + b, separator) == joined(a, separator) + separator
            + joined(b, separator),
        a.len() == 0 ==> joined(a, separator).len() == 0,
        a.len() == 1 ==> joined(a, separator) == a[0],
    decreases b.len(),
{
    if b.len() == 0 {
        assert(a + b =~= a);
    } else {
        let rest = b.drop_last();
        assert((a + b).drop_last() =~= a + rest);
        law_joined_lists(a, rest, separator);
        if a.len() == 0 {
            assert(a + b =~= b);
        } else {
            assert(joined(a + b, separator) =~= joined(a, separator) + separator + joined(
                b,
                separator,
            ));
        }
    }
}

/// Lines are the pieces between newlines: they hold none, and joined by newlines they are the text
/// again.
pub proof fn law_lines_join_back(s: Seq<char>)
    ensures
        lines_of(s).len() > 0,
        joined(lines_of(s), seq!['\n']) == s,
        forall|i: int, k: int|
            0 <= i < lines_of(s).len() && 0 <= k < lines_of(s)[i].len() ==> #[trigger] lines_of(
                s,
            )[i][k] != '\n',
    decreases s.len(),
{
    let newline = seq!['\n'];
    if s.len() > 0 {
        let before = lines_of(s.drop_last());
        law_lines_join_back(s.drop_last());
        let lines = lines_of(s);
        assert(s =~= s.drop_last().push(s.last()));
        if s.last() == '\n' {
            assert(lines.drop_last() =~= before);
            assert(lines.last() =~= Seq::<char>::empty());
            assert(joined(lines, newline) == joined(before, newline) + newline + lines.last());
            assert(joined(lines, newline) =~= s);
        } else {
            assert(lines.drop_last() =~= before.drop_last());
            assert(lines.last() == before.last().push(s.last()));
            if before.len() == 1 {
                assert(joined(lines, newline) == lines[0]);
                assert(joined(before, newline) == before[0]);
            } else {
                assert(joined(lines, newline) == joined(before.drop_last(), newline) + newline
                    + lines.last());
                assert(joined(before, newline) == joined(before.drop_last(), newline) + newline
                    + before.last());
            }
            assert(joined(lines, newline) =~= s);
        }
    } else {
        assert(joined(lines_of(s), newline) =~= s);
    }
}

/// Lines are kept one by one and in order: of two lists one behind the other it is what is kept of
/// each, and a single line is kept, trimmed, where it is not blank.
pub proof fn law_lines_are_kept_one_by_one(a: Seq<Seq<char>>, b: Seq<Seq<char>>, line: Seq<char>)
    ensures
        trimmed_nonblank(a + b) == trimmed_nonblank(a) + trimmed_nonblank(b),
        trimmed(line).len() > 0 ==> trimmed_nonblank(seq![line]) == seq![trimmed(line)],
        trimmed(line).len() == 0 ==> trimmed_nonblank(seq![line]).len() == 0,
        trimmed_nonblank(Seq::empty()).len() == 0,
    decreases b.len(),
{
    let none = Seq::<Seq<char>>::empty();
    assert(trimmed_nonblank(none) =~= none) by {
        reveal(Seq::filter);
    }
    lemma_trimmed_nonblank_push(none, line);
    assert(none.push(line) =~= seq![line]);
    if b.len() == 0 {
        assert(a + b =~= a);
        assert(b =~= none);
        assert(trimmed_nonblank(a) + none =~= trimmed_nonblank(a));
    } else {
        let rest = b.drop_last();
        law_lines_are_kept_one_by_one(a, rest, line);
        lemma_trimmed_nonblank_push(rest, b.last());
        lemma_trimmed_nonblank_push(a + rest, b.last());
        assert(rest.push(b.last()) =~= b);
        assert((a + rest).push(b.last()) =~= a + b);
        assert(trimmed_nonblank(a + b) =~= trimmed_nonblank(a) + trimmed_nonblank(b));
    }
}

proof fn lemma_lines_of_added_line(s: Seq<char>, line: Seq<char>)
    requires
        forall|k: int| 0 <= k < line.len() ==> #[trigger] line[k] != '\n',
    ensures
        lines_of(s.push('\n') + line) == lines_of(s).push(line),
    decreases line.len(),
{
    let whole = s.push('\n') + line;
    law_lines_join_back(s);
    if line.len() == 0 {
        assert(whole =~= s.push('\n'));
        assert(whole.drop_last() =~= s);
        assert(line =~= Seq::<char>::empty());
    } else {
        let rest = line.drop_last();
        assert(whole.drop_last() =~= s.push('\n') + rest);
        lemma_lines_of_added_line(s, rest);
        assert(lines_of(s).push(rest).drop_last() =~= lines_of(s));
        assert(rest.push(line.last()) =~= line);
    }
}

/// Words that are printed one on a line, each with a newline behind it, are what is kept of the
/// lines.
pub proof fn law_printed_words_are_kept(words: Seq<Seq<char>>)
    requires
        forall|i: int| 0 <= i < words.len() ==> (#[trigger] words[i]).len() > 0,
        forall|i: int, k: int|
            0 <= i < words.len() && 0 <= k < words[i].len() ==> !white_space(
                #[trigger] words[i][k],
            ),
    ensures
        words.len() > 0 ==> trimmed_nonblank(lines_of(joined(words, seq!['\n']).push('\n')))
            == words,
    decreases words.len(),
{
    let newline = seq!['\n'];
    if words.len() > 0 {
        let rest = words.drop_last();
        let word = words.last();
        assert forall|i: int, k: int|
            0 <= i < rest.len() && 0 <= k < rest[i].len() implies !white_space(
            #[trigger] rest[i][k],
        ) by {
            assert(!white_space(words[i][k]));
        }
        assert forall|k: int| 0 <= k < word.len() implies #[trigger] word[k] != '\n' by {
            assert(!white_space(words[words.len() - 1][k]));
        }
        assert(!white_space(words[words.len() - 1][0]));
        assert(!white_space(words[words.len() - 1][word.len() - 1]));
        assert(trimmed(word) == word);
        law_printed_words_are_kept(rest);
        let text = joined(words, newline);
        let none = Seq::<char>::empty();
        lemma_lines_of_added_line(text, none);
        assert(text.push('\n') + none =~= text.push('\n'));
        lemma_trimmed_nonblank_push(lines_of(text), none);
        assert(trimmed(none).len() == 0);
        if rest.len() == 0 {
            assert(text =~= word);
            lemma_lines_of_word(word);
            law_lines_are_kept_one_by_one(Seq::empty(), Seq::empty(), word);
            assert(words =~= seq![word]);
        } else {
            let before = joined(rest, newline);
            lemma_lines_of_added_line(before, word);
            assert(text =~= before.push('\n') + word);
            lemma_lines_of_added_line(before, none);
            assert(before.push('\n') + none =~= before.push('\n'));
            lemma_trimmed_nonblank_push(lines_of(before), none);
            lemma_trimmed_nonblank_push(lines_of(before), word);
            assert(rest.push(word) =~= words);
        }
    }
}

proof fn lemma_lines_of_word(word: Seq<char>)
    requires
        forall|k: int| 0 <= k < word.len() ==> #[trigger] word[k] != '\n',
    ensures
        lines_of(word) == seq![word],
    decreases word.len(),
{
    if word.len() > 0 {
        lemma_lines_of_word(word.drop_last());
        assert(word.drop_last().push(word.last()) =~= word);
        assert(lines_of(word) =~= seq![word]);
    } else {
        assert(word =~= Seq::<char>::empty());
    }
}

/// The number that a row of decimal digits stands for.
pub open spec fn number(digits: Seq<char>) -> int
    decreases digits.len(),
{
    if digits.len() == 0 {
        0
    } else {
        10 * number(digits.drop_last()) + (digits.last() as int - '0' as int)
    }
}

/// Decimal notation stands for the number that was written, in digits, without leading zeros.
pub proof fn law_decimal_stands_for_the_number(n: nat)
    ensures
        number(decimal(n)) == n,
        decimal(n).len() > 0,
        forall|i: int| 0 <= i < decimal(n).len() ==> '0' <= #[trigger] decimal(n)[i] <= '9',
        decimal(n).len() > 1 ==> decimal(n)[0] != '0',
        n > 0 ==> decimal(n)[0] != '0',
    decreases n,
{
    reveal_strlit("0123456789");
    lemma_decimal(n);
    if n >= 10 {
        law_decimal_stands_for_the_number(n / 10);
        assert(decimal(n).drop_last() =~= decimal(n / 10));
        assert(decimal(n)[0] == decimal(n / 10)[0]);
    } else {
        assert(decimal(n).drop_last() =~= Seq::<char>::empty());
        assert(number(Seq::<char>::empty()) == 0);
    }
}

/// A text with `c` in it is what stands before the first one, that one, and what stands behind it.
pub proof fn law_text_splits_at_the_first(s: Seq<char>, c: char)
    ensures
        !before(s, c).contains(c),
        s.contains(c) ==> s == before(s, c).push(c) + behind(s, c),
        !s.contains(c) ==> before(s, c) == s && behind(s, c).len() == 0,
    decreases s.len(),
{
    if s.len() > 0 {
        let rest = s.drop_first();
        law_text_splits_at_the_first(rest, c);
        assert(s =~= seq![s.first()] + rest);
        if s.first() == c {
            assert(s[0] == c);
            assert(s =~= before(s, c).push(c) + behind(s, c));
        } else {
            let b = before(s, c);
            assert(b == seq![s.first()] + before(rest, c));
            assert forall|k: int| 0 <= k < b.len() implies b[k] != c by {
                if k > 0 {
                    assert(b[k] == before(rest, c)[k - 1]);
                    assert(before(rest, c).contains(before(rest, c)[k - 1]));
                }
            }
            if s.contains(c) {
                let k = choose|k: int| 0 <= k < s.len() && s[k] == c;
                assert(rest[k - 1] == c);
                assert(s =~= before(s, c).push(c) + behind(s, c));
            } else {
                assert forall|k: int| 0 <= k < rest.len() implies rest[k] != c by {
                    assert(rest[k] == s[k + 1]);
                }
                assert(before(s, c) =~= s);
            }
        }
    }
}

/// What stands behind the last `c` is the end of the text and holds none; in front of it there is
/// one, unless it is all of the text.
pub proof fn law_text_behind_the_last(s: Seq<char>, c: char)
    ensures
        !behind_last(s, c).contains(c),
        behind_last(s, c).is_suffix_of(s),
        behind_last(s, c).len() < s.len() ==> s[s.len() - behind_last(s, c).len() - 1] == c,
    decreases s.len(),
{
    lemma_behind_last(s, c);
    if s.len() > 0 && s.last() != c {
        let rest = s.drop_last();
        law_text_behind_the_last(rest, c);
        let b = behind_last(s, c);
        assert forall|k: int| 0 <= k < b.len() implies b[k] != c by {
            if k < b.len() - 1 {
                assert(behind_last(rest, c).contains(behind_last(rest, c)[k]));
            }
        }
    }
    assert(behind_last(s, c) =~= s.subrange(s.len() - behind_last(s, c).len(), s.len() as int));
}

/// A row of slashes has the length that was asked for, and nothing but slashes.
pub proof fn law_slashes(n: nat)
    ensures
        slashes(n).len() == n,
        forall|i: int| 0 <= i < n ==> #[trigger] slashes(n)[i] == '/',
{
}

} // verus!
