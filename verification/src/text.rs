//! Text as sequences of characters: searching, cutting into lines, and
//! writing numbers in decimal.

use vstd::prelude::*;
use vstd::string::*;

verus! {

/// Whether `needle` stands in `hay` from position `at` on.
pub open spec fn occurs_at(hay: Seq<char>, needle: Seq<char>, at: int) -> bool {
    &&& 0 <= at
    &&& at + needle.len() <= hay.len()
    &&& hay.subrange(at, at + needle.len()) == needle
}

/// Whether `needle` stands somewhere in `hay`, as a run of consecutive characters.
pub open spec fn contains_text(hay: Seq<char>, needle: Seq<char>) -> bool {
    exists|at: int| occurs_at(hay, needle, at)
}

/// The number of characters of `text` that stand before its first line
/// feed; the length of `text` if it has none.
pub open spec fn line_len(text: Seq<char>) -> nat
    decreases text.len(),
{
    if text.len() == 0 || text[0] == '\n' {
        0
    } else {
        1 + line_len(text.drop_first())
    }
}

/// The pieces into which the line feeds cut `text`. There is one piece more
/// than there are line feeds, so a text that ends in a line feed has an
/// empty last piece, and the empty text has one empty piece.
pub open spec fn split_lines(text: Seq<char>) -> Seq<Seq<char>>
    decreases text.len(),
{
    let n = line_len(text) as int;
    if n >= text.len() {
        seq![text]
    } else {
        seq![text.take(n)] + split_lines(text.skip(n + 1))
    }
}

/// `pieces` put together again, with a line feed between one piece and the next.
pub open spec fn join_lines(pieces: Seq<Seq<char>>) -> Seq<char>
    decreases pieces.len(),
{
    if pieces.len() == 0 {
        Seq::empty()
    } else if pieces.len() == 1 {
        pieces[0]
    } else {
        pieces[0] + seq!['\n'] + join_lines(pieces.drop_first())
    }
}

/// What stands before each continuation line of a block in the log.
pub open spec fn indent() -> Seq<char> {
    "    "@
}

/// The lines by which a text that may run over several lines is entered in
/// the log: its first piece as it is, then each further piece that is not
/// empty, indented.
pub open spec fn block_lines(text: Seq<char>) -> Seq<Seq<char>> {
    let pieces = split_lines(text);
    seq![pieces[0]] + pieces.skip(1).filter(|piece: Seq<char>| piece.len() > 0).map_values(
        |piece: Seq<char>| indent() + piece,
    )
}

/// The decimal digit for `d`.
pub open spec fn digit(d: nat) -> char
    recommends
        d < 10,
{
    seq!['0', '1', '2', '3', '4', '5', '6', '7', '8', '9'][d as int]
}

/// `n` written in decimal, without leading zeros.
pub open spec fn decimal(n: nat) -> Seq<char>
    decreases n,
{
    if n < 10 {
        seq![digit(n)]
    } else {
        decimal(n / 10).push(digit(n % 10))
    }
}

/// `n` written in decimal, with a minus sign before a negative number.
pub open spec fn signed_decimal(n: int) -> Seq<char> {
    if n < 0 {
        seq!['-'] + decimal((-n) as nat)
    } else {
        decimal(n as nat)
    }
}

/// A piece of `text` that starts after a line feed, or at the start, and
/// runs up to a line feed or the end is the first piece of what is left.
proof fn lemma_line_len_found(text: Seq<char>, len: int)
    requires
        0 <= len <= text.len(),
        forall|k: int| 0 <= k < len ==> text[k] != '\n',
        len == text.len() || text[len] == '\n',
    ensures
        line_len(text) == len,
    decreases len,
{
    if len > 0 {
        lemma_line_len_found(text.drop_first(), len - 1);
    }
}

/// No piece holds a line feed, and the pieces joined give the text back:
/// cutting into lines loses nothing but the line feeds it cuts at.
pub proof fn lemma_split_lines_joins_back(text: Seq<char>)
    ensures
        split_lines(text).len() >= 1,
        forall|i: int|
            0 <= i < split_lines(text).len() ==> !(#[trigger] split_lines(text)[i]).contains('\n'),
        join_lines(split_lines(text)) == text,
    decreases text.len(),
{
    let n = line_len(text) as int;
    lemma_line_len_bounds(text);
    if n >= text.len() {
        assert(text.take(n) == text);
    } else {
        let rest = text.skip(n + 1);
        lemma_split_lines_joins_back(rest);
        let pieces = split_lines(text);
        assert(pieces.drop_first() == split_lines(rest));
        assert(pieces[0] == text.take(n));
        assert(text == text.take(n) + seq!['\n'] + rest);
        assert forall|i: int| 0 <= i < pieces.len() implies !(#[trigger] pieces[i]).contains(
            '\n',
        ) by {
            if i > 0 {
                assert(pieces[i] == split_lines(rest)[i - 1]);
            }
        }
    }
}

/// Up to `line_len` there is no line feed, and at `line_len` there is one or
/// the text ends.
pub proof fn lemma_line_len_bounds(text: Seq<char>)
    ensures
        line_len(text) <= text.len(),
        !text.take(line_len(text) as int).contains('\n'),
        line_len(text) < text.len() ==> text[line_len(text) as int] == '\n',
    decreases text.len(),
{
    if text.len() == 0 || text[0] == '\n' {
    } else {
        let rest = text.drop_first();
        lemma_line_len_bounds(rest);
        let n = line_len(text) as int;
        let head = text.take(n);
        assert forall|k: int| 0 <= k < head.len() implies head[k] != '\n' by {
            if k > 0 {
                assert(head[k] == rest.take(n - 1)[k - 1]);
            }
        }
    }
}

/// The characters of `s`, in order.
pub fn chars_of(s: &str) -> (chars: Vec<char>)
    ensures
        chars@ == s@,
{
    let mut chars: Vec<char> = Vec::new();
    for c in it: s.chars()
        invariant
            chars@ == it.seq().take(it.index()),
            it.seq() == s@,
    {
        chars.push(c);
    }
    chars
}

/// Whether `needle` stands in `hay` from `at` on.
fn matches_at(hay: &Vec<char>, needle: &Vec<char>, at: usize) -> (found: bool)
    requires
        at + needle.len() <= hay.len(),
    ensures
        found == occurs_at(hay@, needle@, at as int),
{
    let mut j: usize = 0;
    while j < needle.len()
        invariant
            j <= needle.len(),
            at + needle.len() <= hay.len(),
            forall|k: int| 0 <= k < j ==> hay@[at + k] == needle@[k],
        decreases needle.len() - j,
    {
        if hay[at + j] != needle[j] {
            assert(hay@.subrange(at as int, at + needle.len())[j as int] != needle@[j as int]);
            return false;
        }
        j += 1;
    }
    assert(hay@.subrange(at as int, at + needle.len()) =~= needle@);
    true
}

/// Whether `needle` stands somewhere in `hay`.
pub fn contains(hay: &str, needle: &str) -> (found: bool)
    ensures
        found == contains_text(hay@, needle@),
{
    let text = chars_of(hay);
    let sought = chars_of(needle);
    if sought.len() > text.len() {
        return false;
    }
    let last: usize = text.len() - sought.len();
    let mut at: usize = 0;
    while at < last
        invariant
            text@ == hay@,
            sought@ == needle@,
            last == text.len() - sought.len(),
            at <= last,
            forall|k: int| 0 <= k < at ==> !occurs_at(hay@, needle@, k),
        decreases last - at,
    {
        if matches_at(&text, &sought, at) {
            return true;
        }
        at += 1;
    }
    matches_at(&text, &sought, last)
}

/// The pieces into which the line feeds cut `text`.
pub fn lines_of(text: &str) -> (pieces: Vec<String>)
    ensures
        pieces.deep_view() == split_lines(text@),
{
    let chars = chars_of(text);
    let mut pieces: Vec<String> = Vec::new();
    let mut start: usize = 0;
    let mut at: usize = 0;
    assert(text@.skip(0) == text@);
    assert(pieces.deep_view() == Seq::<Seq<char>>::empty());
    while at < chars.len()
        invariant
            chars@ == text@,
            start <= at <= chars.len(),
            forall|k: int| start <= k < at ==> chars@[k] != '\n',
            split_lines(text@) == pieces.deep_view() + split_lines(text@.skip(start as int)),
        decreases chars.len() - at,
    {
        if chars[at] == '\n' {
            let piece = text.substring_char(start, at).to_owned();
            proof {
                let rest = text@.skip(start as int);
                lemma_line_len_found(rest, at - start);
                assert(rest.take(at - start) == piece@);
                assert(rest.skip(at - start + 1) == text@.skip(at + 1));
                assert(pieces.deep_view().push(piece@) + split_lines(text@.skip(at + 1))
                    == pieces.deep_view() + split_lines(rest));
            }
            let ghost before = pieces.deep_view();
            pieces.push(piece);
            assert(pieces.deep_view() == before.push(piece@));
            start = at + 1;
        }
        at += 1;
    }
    let piece = text.substring_char(start, at).to_owned();
    proof {
        let rest = text@.skip(start as int);
        lemma_line_len_found(rest, at - start);
        assert(rest == piece@);
    }
    let ghost before = pieces.deep_view();
    pieces.push(piece);
    assert(pieces.deep_view() == before.push(piece@));
    pieces
}

/// `head` followed by `tail`.
pub fn glue(head: &str, tail: &str) -> (joined: String)
    ensures
        joined@ == head@ + tail@,
{
    let mut joined = head.to_owned();
    joined.append(tail);
    joined
}

/// The lines by which `input` is entered in the log: its first piece as it
/// is, then each further piece that is not empty, behind four spaces.
pub fn write_lines(input: &str) -> (lines: Vec<String>)
    ensures
        lines.deep_view() == block_lines(input@),
{
    let pieces = lines_of(input);
    proof {
        lemma_split_lines_joins_back(input@);
    }
    let ghost all = split_lines(input@);
    let ghost kept = |piece: Seq<char>| piece.len() > 0;
    let ghost inset = |piece: Seq<char>| indent() + piece;
    let mut lines: Vec<String> = Vec::new();
    lines.push(pieces[0].clone());
    assert(lines.deep_view() == seq![all[0]]);
    assert(all.skip(1).take(0).filter(kept) == Seq::<Seq<char>>::empty()) by {
        reveal(Seq::filter);
    }
    let mut i: usize = 1;
    while i < pieces.len()
        invariant
            1 <= i <= pieces.len(),
            pieces.deep_view() == all,
            kept == |piece: Seq<char>| piece.len() > 0,
            inset == |piece: Seq<char>| indent() + piece,
            lines.deep_view() == seq![all[0]] + all.skip(1).take(i - 1).filter(kept).map_values(
                inset,
            ),
        decreases pieces.len() - i,
    {
        let ghost seen = all.skip(1).take(i - 1);
        let ghost before = lines.deep_view();
        proof {
            assert(all.skip(1).take(i as int) == seen.push(all[i as int]));
            seen.lemma_filter_push(all[i as int], kept);
            assert(pieces@[i as int]@ == all[i as int]);
        }
        if !pieces[i].as_str().is_empty() {
            let line = glue("    ", pieces[i].as_str());
            lines.push(line);
            assert(lines.deep_view() == before.push(inset(all[i as int])));
            assert(seen.filter(kept).push(all[i as int]).map_values(inset) == seen.filter(
                kept,
            ).map_values(inset).push(inset(all[i as int])));
        }
        i += 1;
    }
    assert(all.skip(1).take(pieces.len() - 1) == all.skip(1));
    lines
}

/// The text of the decimal digit `d`.
fn digit_text(d: u64) -> (text: &'static str)
    requires
        d < 10,
    ensures
        text@ == seq![digit(d as nat)],
{
    proof {
        reveal_strlit("0");
        reveal_strlit("1");
        reveal_strlit("2");
        reveal_strlit("3");
        reveal_strlit("4");
        reveal_strlit("5");
        reveal_strlit("6");
        reveal_strlit("7");
        reveal_strlit("8");
        reveal_strlit("9");
    }
    let text = if d == 0 {
        "0"
    } else if d == 1 {
        "1"
    } else if d == 2 {
        "2"
    } else if d == 3 {
        "3"
    } else if d == 4 {
        "4"
    } else if d == 5 {
        "5"
    } else if d == 6 {
        "6"
    } else if d == 7 {
        "7"
    } else if d == 8 {
        "8"
    } else {
        "9"
    };
    assert(text@ =~= seq![digit(d as nat)]);
    text
}

/// `n` written in decimal.
pub fn decimal_u64(n: u64) -> (text: String)
    ensures
        text@ == decimal(n as nat),
    decreases n,
{
    if n < 10 {
        digit_text(n).to_owned()
    } else {
        let mut text = decimal_u64(n / 10);
        text.append(digit_text(n % 10));
        text
    }
}

/// `n` written in decimal, with a minus sign if it is negative.
pub fn decimal_i32(n: i32) -> (text: String)
    ensures
        text@ == signed_decimal(n as int),
{
    if n < 0 {
        let magnitude: u64 = (-(n as i64)) as u64;
        let digits = decimal_u64(magnitude);
        proof {
            reveal_strlit("-");
        }
        let text = glue("-", digits.as_str());
        assert(text@ =~= seq!['-'] + decimal((-n) as nat));
        text
    } else {
        decimal_u64(n as u64)
    }
}

} // verus!
