//! Taking texts apart and putting them together.

use vstd::prelude::*;
use vstd::string::StrSliceExecFns;
use vstd::string::StringExecFns;

verus! {

/// The characters of `text`, in order.
pub fn characters(text: &str) -> (all: Vec<char>)
    ensures
        all@ == text@,
{
    let mut all: Vec<char> = Vec::new();
    for c in it: text.chars()
        invariant
            it.seq() == text@,
            all@ == it.seq().take(it.index() as int),
    {
        all.push(c);
        assert(it.seq().take(it.index() + 1) =~= it.seq().take(it.index() as int).push(c));
    }
    assert(all@ =~= text@);
    all
}

/// The index of the first `sep` of `s` at or after `start`, or the length of
/// `s` where there is none.
pub open spec fn piece_end(s: Seq<char>, sep: char, start: int) -> int
    decreases s.len() - start,
{
    if start < 0 || start >= s.len() {
        s.len() as int
    } else if s[start] == sep {
        start
    } else {
        piece_end(s, sep, start + 1)
    }
}

/// `piece_end` lies between `start` and the end of the text, and no `sep`
/// stands before it.
pub proof fn lemma_piece_end(s: Seq<char>, sep: char, start: int)
    requires
        0 <= start <= s.len(),
    ensures
        start <= piece_end(s, sep, start) <= s.len(),
        piece_end(s, sep, start) < s.len() ==> s[piece_end(s, sep, start)] == sep,
        forall|i: int| start <= i < piece_end(s, sep, start) ==> s[i] != sep,
    decreases s.len() - start,
{
    if start < s.len() && s[start] != sep {
        lemma_piece_end(s, sep, start + 1);
    }
}

/// The pieces of `s` from position `start` on: what stands between one `sep`
/// and the next, the `sep`s themselves left out. A text that ends in `sep`
/// has an empty last piece.
pub open spec fn pieces_from(s: Seq<char>, sep: char, start: int) -> Seq<Seq<char>>
    decreases s.len() - start,
    when 0 <= start <= s.len()
    via pieces_from_decreases
{
    let end = piece_end(s, sep, start);
    if end < s.len() {
        seq![s.subrange(start, end)] + pieces_from(s, sep, end + 1)
    } else {
        seq![s.subrange(start, end)]
    }
}

#[via_fn]
proof fn pieces_from_decreases(s: Seq<char>, sep: char, start: int) {
    lemma_piece_end(s, sep, start);
}

/// The pieces of `s`, split at each `sep`.
pub open spec fn pieces(s: Seq<char>, sep: char) -> Seq<Seq<char>> {
    pieces_from(s, sep, 0)
}

/// The lines of `s`, split at each newline.
pub open spec fn lines(s: Seq<char>) -> Seq<Seq<char>> {
    pieces(s, '\n')
}

/// The pieces put together again, with `sep` between each two.
pub open spec fn join(parts: Seq<Seq<char>>, sep: char) -> Seq<char>
    decreases parts.len(),
{
    if parts.len() == 0 {
        Seq::empty()
    } else if parts.len() == 1 {
        parts[0]
    } else {
        parts[0] + seq![sep] + join(parts.drop_first(), sep)
    }
}

/// Splitting loses nothing: there is at least one piece, no piece holds
/// `sep`, and the pieces joined by `sep` are the text again.
pub proof fn law_split_join(s: Seq<char>, sep: char)
    ensures
        pieces(s, sep).len() >= 1,
        forall|k: int, i: int|
            0 <= k < pieces(s, sep).len() && 0 <= i < pieces(s, sep)[k].len() ==> pieces(
                s,
                sep,
            )[k][i] != sep,
        join(pieces(s, sep), sep) == s,
{
    lemma_pieces_from(s, sep, 0);
    assert(s.subrange(0, s.len() as int) =~= s);
}

proof fn lemma_pieces_from(s: Seq<char>, sep: char, start: int)
    requires
        0 <= start <= s.len(),
    ensures
        pieces_from(s, sep, start).len() >= 1,
        forall|k: int, i: int|
            0 <= k < pieces_from(s, sep, start).len() && 0 <= i < pieces_from(
                s,
                sep,
                start,
            )[k].len() ==> pieces_from(s, sep, start)[k][i] != sep,
        join(pieces_from(s, sep, start), sep) == s.subrange(start, s.len() as int),
    decreases s.len() - start,
{
    lemma_piece_end(s, sep, start);
    let end = piece_end(s, sep, start);
    let head = s.subrange(start, end);
    if end < s.len() {
        lemma_pieces_from(s, sep, end + 1);
        let rest = pieces_from(s, sep, end + 1);
        let all = pieces_from(s, sep, start);
        assert(all == seq![head] + rest);
        assert(all.drop_first() =~= rest);
        assert(all[0] == head);
        assert(head + seq![sep] + s.subrange(end + 1, s.len() as int) =~= s.subrange(
            start,
            s.len() as int,
        ));
        assert forall|k: int, i: int|
            0 <= k < all.len() && 0 <= i < all[k].len() implies all[k][i] != sep by {
            if k > 0 {
                assert(all[k] == rest[k - 1]);
            }
        }
    } else {
        assert(pieces_from(s, sep, start) == seq![head]);
    }
}

/// Splits `text` at each `sep`. The `sep`s are left out, and a text that
/// ends in `sep` has an empty last piece, so there is always one piece more
/// than there are `sep`s.
pub fn split(text: &str, sep: char) -> (parts: Vec<&str>)
    ensures
        parts.len() == pieces(text@, sep).len(),
        forall|k: int| 0 <= k < parts.len() ==> (#[trigger] parts[k])@ == pieces(text@, sep)[k],
{
    let all = characters(text);
    let n = all.len();
    let mut parts: Vec<&str> = Vec::new();
    let ghost mut taken: Seq<Seq<char>> = Seq::empty();
    let mut start: usize = 0;
    let mut i: usize = 0;
    loop
        invariant
            n == text@.len(),
            all@ == text@,
            start <= i <= n,
            piece_end(text@, sep, start as int) == piece_end(text@, sep, i as int),
            pieces(text@, sep) == taken + pieces_from(text@, sep, start as int),
            parts.len() == taken.len(),
            forall|k: int| 0 <= k < parts.len() ==> (#[trigger] parts[k])@ == taken[k],
        decreases n - i,
    {
        if i == n {
            let part = text.substring_char(start, n);
            parts.push(part);
            assert(pieces_from(text@, sep, start as int) == seq![part@]);
            return parts;
        }
        if all[i] == sep {
            let part = text.substring_char(start, i);
            parts.push(part);
            proof {
                let rest = pieces_from(text@, sep, i + 1);
                assert(pieces_from(text@, sep, start as int) == seq![part@] + rest);
                assert(taken + (seq![part@] + rest) =~= taken.push(part@) + rest);
                taken = taken.push(part@);
            }
            start = i + 1;
        }
        i += 1;
    }
}

/// Splits `text` at each newline.
pub fn split_lines(text: &str) -> (parts: Vec<&str>)
    ensures
        parts.len() == lines(text@).len(),
        forall|k: int| 0 <= k < parts.len() ==> (#[trigger] parts[k])@ == lines(text@)[k],
{
    split(text, '\n')
}

/// Whether `c` is white space, as the Unicode property `White_Space` has it.
pub uninterp spec fn white_space(c: char) -> bool;

/// Asks `char::is_whitespace` whether `c` is white space. The answer
/// depends on `c` alone; the contract gives it its name and claims nothing
/// else of it.
#[verifier::external_body]
fn is_whitespace(c: char) -> (b: bool)
    ensures
        b == white_space(c),
{
    c.is_whitespace()
}

/// For each character of `s`, whether it is white space.
pub open spec fn blank_flags(s: Seq<char>) -> Seq<bool> {
    Seq::new(s.len(), |i: int| white_space(s[i]))
}

/// The first index at or after `from` at which `blank` is false, or the
/// length of `blank` where there is none.
pub open spec fn first_clear(blank: Seq<bool>, from: int) -> int
    decreases blank.len() - from,
{
    if from < 0 || from >= blank.len() {
        blank.len() as int
    } else if !blank[from] {
        from
    } else {
        first_clear(blank, from + 1)
    }
}

/// The index after the last one before `to` at which `blank` is false, or 0
/// where there is none.
pub open spec fn last_clear(blank: Seq<bool>, to: int) -> int
    decreases to,
{
    if to <= 0 || to > blank.len() {
        0
    } else if !blank[to - 1] {
        to
    } else {
        last_clear(blank, to - 1)
    }
}

/// `s` without the white space at its start and at its end.
pub open spec fn trimmed(s: Seq<char>) -> Seq<char> {
    let start = first_clear(blank_flags(s), 0);
    let end = last_clear(blank_flags(s), s.len() as int);
    if start < end {
        s.subrange(start, end)
    } else {
        Seq::empty()
    }
}

/// `first_clear` and `last_clear` bound what is not blank: nothing before
/// the one or from the other on is clear, and where anything is clear, so
/// are the index that the one gives and the index before the other.
pub proof fn law_clear_range(blank: Seq<bool>)
    ensures
        0 <= first_clear(blank, 0) <= blank.len(),
        0 <= last_clear(blank, blank.len() as int) <= blank.len(),
        forall|i: int| 0 <= i < first_clear(blank, 0) ==> blank[i],
        forall|i: int| last_clear(blank, blank.len() as int) <= i < blank.len() ==> blank[i],
        first_clear(blank, 0) < blank.len() ==> !blank[first_clear(blank, 0)],
        last_clear(blank, blank.len() as int) > 0 ==> !blank[last_clear(blank, blank.len() as int)
            - 1],
{
    lemma_first_clear(blank, 0);
    lemma_last_clear(blank, blank.len() as int);
}

/// What `trimmed` keeps starts and ends with a character that is not white
/// space.
pub proof fn law_trimmed(s: Seq<char>)
    ensures
        trimmed(s).len() > 0 ==> !white_space(trimmed(s).first()) && !white_space(
            trimmed(s).last(),
        ),
{
    law_clear_range(blank_flags(s));
}

proof fn lemma_first_clear(blank: Seq<bool>, from: int)
    requires
        0 <= from <= blank.len(),
    ensures
        from <= first_clear(blank, from) <= blank.len(),
        first_clear(blank, from) < blank.len() ==> !blank[first_clear(blank, from)],
        forall|i: int| from <= i < first_clear(blank, from) ==> blank[i],
    decreases blank.len() - from,
{
    if from < blank.len() && blank[from] {
        lemma_first_clear(blank, from + 1);
    }
}

proof fn lemma_last_clear(blank: Seq<bool>, to: int)
    requires
        0 <= to <= blank.len(),
    ensures
        0 <= last_clear(blank, to) <= to,
        last_clear(blank, to) > 0 ==> !blank[last_clear(blank, to) - 1],
        forall|i: int| last_clear(blank, to) <= i < to ==> blank[i],
    decreases to,
{
    if to > 0 && blank[to - 1] {
        lemma_last_clear(blank, to - 1);
    }
}

/// Given for each character of a text whether it is blank, the range of the
/// text that is left when the blanks at its start and at its end are
/// dropped: from the first character that is not blank up to, and not
/// including, the index after the last one.
pub fn clear_range(blank: &Vec<bool>) -> (range: (usize, usize))
    ensures
        range.0 == first_clear(blank@, 0),
        range.1 == last_clear(blank@, blank.len() as int),
{
    let n = blank.len();
    let mut start: usize = 0;
    while start < n && blank[start]
        invariant
            n == blank.len(),
            start <= n,
            first_clear(blank@, 0) == first_clear(blank@, start as int),
        decreases n - start,
    {
        start += 1;
    }
    let mut end: usize = n;
    while end > 0 && blank[end - 1]
        invariant
            n == blank.len(),
            end <= n,
            last_clear(blank@, n as int) == last_clear(blank@, end as int),
        decreases end,
    {
        end -= 1;
    }
    (start, end)
}

/// For each character of `text`, whether it is white space.
fn blanks(text: &str) -> (blank: Vec<bool>)
    ensures
        blank@ == blank_flags(text@),
{
    let all = characters(text);
    let n = all.len();
    let mut blank: Vec<bool> = Vec::new();
    let mut i: usize = 0;
    while i < n
        invariant
            n == text@.len(),
            all@ == text@,
            i <= n,
            blank.len() == i,
            forall|j: int| 0 <= j < i ==> blank[j] == white_space(text@[j]),
        decreases n - i,
    {
        blank.push(is_whitespace(all[i]));
        i += 1;
    }
    assert(blank@ =~= blank_flags(text@));
    blank
}

/// `text` without the white space at its start and at its end.
pub fn trim(text: &str) -> (kept: &str)
    ensures
        kept@ == trimmed(text@),
{
    let blank = blanks(text);
    let (start, end) = clear_range(&blank);
    proof {
        law_clear_range(blank@);
    }
    if start < end {
        text.substring_char(start, end)
    } else {
        let kept = text.substring_char(0, 0);
        assert(kept@ =~= Seq::<char>::empty());
        kept
    }
}

/// The texts of `parts` one after the other.
pub open spec fn concat(parts: Seq<String>) -> Seq<char>
    decreases parts.len(),
{
    if parts.len() == 0 {
        Seq::empty()
    } else {
        concat(parts.drop_last()) + parts.last()@
    }
}

/// The texts of `parts` one after the other, as one text.
pub fn concatenate(parts: &Vec<String>) -> (whole: String)
    ensures
        whole@ == concat(parts@),
{
    let mut whole = String::new();
    let mut i: usize = 0;
    while i < parts.len()
        invariant
            i <= parts.len(),
            whole@ == concat(parts@.take(i as int)),
        decreases parts.len() - i,
    {
        assert(parts@.take(i + 1).drop_last() =~= parts@.take(i as int));
        whole.append(parts[i].as_str());
        i += 1;
    }
    assert(parts@.take(i as int) =~= parts@);
    whole
}

} // verus!
