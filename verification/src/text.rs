//! Text helpers: case conversion, whitespace splitting and the sequences of
//! characters that the contracts of the other modules speak of.

use vstd::prelude::*;
use vstd::string::*;

verus! {

/// The result of `str::to_uppercase` on a string with the characters `s`.
pub uninterp spec fn uppercase(s: Seq<char>) -> Seq<char>;

/// Whether `c` is whitespace: whether it has the Unicode property
/// `White_Space`. These are the tab, line feed, vertical tab, form feed,
/// carriage return and space, the next-line character, the no-break space,
/// the ogham space mark, the spaces from the en quad to the hair space, the
/// line and paragraph separators, the narrow no-break space, the medium
/// mathematical space and the ideographic space.
pub open spec fn is_white_space(c: char) -> bool {
    let code = c as u32;
    ||| 0x0009 <= code <= 0x000D
    ||| code == 0x0020
    ||| code == 0x0085
    ||| code == 0x00A0
    ||| code == 0x1680
    ||| 0x2000 <= code <= 0x200A
    ||| code == 0x2028
    ||| code == 0x2029
    ||| code == 0x202F
    ||| code == 0x205F
    ||| code == 0x3000
}

/// `str::to_uppercase` is a function of the characters of its argument alone;
/// its result is named [`uppercase`]. Nothing more is claimed of it.
pub assume_specification[ str::to_uppercase ](s: &str) -> (r: String)
    ensures
        r@ == uppercase(s@),
;

/// `char::is_whitespace` tells whether the character has the Unicode property
/// `White_Space`, which is what [`is_white_space`] lists.
pub assume_specification[ char::is_whitespace ](c: char) -> (r: bool)
    ensures
        r == is_white_space(c),
;

/// The characters of each string of `v`, in order.
pub open spec fn texts(v: Seq<String>) -> Seq<Seq<char>> {
    Seq::new(v.len(), |i: int| v[i]@)
}

/// The words of `s`: its maximal runs of characters that are not whitespace,
/// from left to right.
///
/// Read from the right: a trailing whitespace character adds nothing, a
/// character that follows another word character extends the last word, and
/// any other character starts a new word.
pub open spec fn words(s: Seq<char>) -> Seq<Seq<char>>
    decreases s.len(),
{
    if s.len() == 0 {
        Seq::empty()
    } else {
        let before = words(s.drop_last());
        if is_white_space(s.last()) {
            before
        } else if s.len() >= 2 && !is_white_space(s[s.len() - 2]) {
            before.drop_last().push(before.last().push(s.last()))
        } else {
            before.push(seq![s.last()])
        }
    }
}

/// The parts of `parts` written one after another, with nothing in between.
pub open spec fn concat(parts: Seq<Seq<char>>) -> Seq<char>
    decreases parts.len(),
{
    if parts.len() == 0 {
        Seq::empty()
    } else {
        concat(parts.drop_last()) + parts.last()
    }
}

/// The characters of `s` that are not whitespace, in order.
pub open spec fn without_whitespace(s: Seq<char>) -> Seq<char>
    decreases s.len(),
{
    if s.len() == 0 {
        Seq::empty()
    } else if is_white_space(s.last()) {
        without_whitespace(s.drop_last())
    } else {
        without_whitespace(s.drop_last()).push(s.last())
    }
}

/// A string that ends in a word character has at least one word.
pub proof fn lemma_words_nonempty(s: Seq<char>)
    requires
        s.len() > 0,
        !is_white_space(s.last()),
    ensures
        words(s).len() > 0,
{
}

/// No word is empty and no word holds a whitespace character.
pub proof fn law_words_hold_no_whitespace(s: Seq<char>)
    ensures
        forall|i: int, j: int|
            0 <= i < words(s).len() && 0 <= j < words(s)[i].len() ==> !is_white_space(
                #[trigger] words(s)[i][j],
            ),
        forall|i: int| 0 <= i < words(s).len() ==> (#[trigger] words(s)[i]).len() > 0,
    decreases s.len(),
{
    if s.len() > 0 {
        law_words_hold_no_whitespace(s.drop_last());
        if !is_white_space(s.last()) && s.len() >= 2 && !is_white_space(s[s.len() - 2]) {
            lemma_words_nonempty(s.drop_last());
        }
    }
}

/// Splitting into words loses the whitespace and nothing else: the words of
/// `s`, written one after another, are the characters of `s` that are not
/// whitespace.
pub proof fn lemma_words_concat(s: Seq<char>)
    ensures
        concat(words(s)) == without_whitespace(s),
    decreases s.len(),
{
    if s.len() > 0 {
        let before = words(s.drop_last());
        lemma_words_concat(s.drop_last());
        if !is_white_space(s.last()) {
            if s.len() >= 2 && !is_white_space(s[s.len() - 2]) {
                lemma_words_nonempty(s.drop_last());
                let grown = before.drop_last().push(before.last().push(s.last()));
                assert(grown.drop_last() == before.drop_last());
                assert(concat(grown) == concat(before.drop_last()) + before.last().push(s.last()));
                assert(concat(before) == concat(before.drop_last()) + before.last());
                assert(concat(grown) == concat(before).push(s.last()));
            } else {
                let grown = before.push(seq![s.last()]);
                assert(grown.drop_last() == before);
                assert(concat(grown) == concat(before) + seq![s.last()]);
                assert(concat(grown) == concat(before).push(s.last()));
            }
        }
    }
}

/// A string without whitespace is one word, unless it is empty.
pub proof fn law_unbroken_text_is_one_word(s: Seq<char>)
    requires
        s.len() > 0,
        forall|i: int| 0 <= i < s.len() ==> !is_white_space(#[trigger] s[i]),
    ensures
        words(s) == seq![s],
    decreases s.len(),
{
    assert(!is_white_space(s[s.len() - 1]));
    if s.len() == 1 {
        assert(words(s.drop_last()) == Seq::<Seq<char>>::empty());
        assert(seq![s.last()] == s);
        assert(Seq::<Seq<char>>::empty().push(s) == seq![s]);
    } else {
        let front = s.drop_last();
        assert(!is_white_space(s[s.len() - 2]));
        assert forall|i: int| 0 <= i < front.len() implies !is_white_space(#[trigger] front[i]) by {
            assert(front[i] == s[i]);
        }
        law_unbroken_text_is_one_word(front);
        assert(seq![front].drop_last() == Seq::<Seq<char>>::empty());
        assert(seq![front].last().push(s.last()) == s);
        assert(Seq::<Seq<char>>::empty().push(s) == seq![s]);
    }
}

/// A whitespace character separates: the words of a text with a whitespace
/// character in it are the words before that character, then the words after
/// it.
pub proof fn law_whitespace_separates(before: Seq<char>, gap: char, after: Seq<char>)
    requires
        is_white_space(gap),
    ensures
        words(before.push(gap) + after) == words(before) + words(after),
    decreases after.len(),
{
    let whole = before.push(gap) + after;
    if after.len() == 0 {
        assert(whole == before.push(gap));
        assert(whole.drop_last() == before);
        assert(words(before) + words(after) == words(before));
    } else {
        let front = after.drop_last();
        assert(whole.drop_last() == before.push(gap) + front);
        assert(whole.last() == after.last());
        law_whitespace_separates(before, gap, front);
        let left = words(before);
        let right = words(front);
        if is_white_space(after.last()) {
        } else if after.len() >= 2 && !is_white_space(after[after.len() - 2]) {
            assert(whole[whole.len() - 2] == after[after.len() - 2]);
            lemma_words_nonempty(front);
            assert((left + right).drop_last() == left + right.drop_last());
            assert((left + right).last() == right.last());
            assert((left + right.drop_last()).push(right.last().push(after.last())) == left
                + right.drop_last().push(right.last().push(after.last())));
        } else {
            if after.len() >= 2 {
                assert(whole[whole.len() - 2] == after[after.len() - 2]);
            } else {
                assert(whole[whole.len() - 2] == gap);
            }
            assert((left + right).push(seq![after.last()]) == left + right.push(
                seq![after.last()],
            ));
        }
    }
}

/// Whether position `i` of a text is marked as a gap by `gaps`. A position
/// that the marks do not reach is no gap.
pub open spec fn is_gap(gaps: Seq<bool>, i: int) -> bool {
    0 <= i < gaps.len() && gaps[i]
}

/// The runs of `s` between the gaps that `gaps` marks: the maximal stretches
/// of characters at positions that are no gaps, from left to right.
pub open spec fn runs(s: Seq<char>, gaps: Seq<bool>) -> Seq<Seq<char>>
    decreases s.len(),
{
    if s.len() == 0 {
        Seq::empty()
    } else {
        let before = runs(s.drop_last(), gaps);
        let at = s.len() - 1;
        if is_gap(gaps, at) {
            before
        } else if at >= 1 && !is_gap(gaps, at - 1) {
            before.drop_last().push(before.last().push(s.last()))
        } else {
            before.push(seq![s.last()])
        }
    }
}

/// For each character of `s`, whether it is whitespace.
pub open spec fn whitespace_marks(s: Seq<char>) -> Seq<bool> {
    Seq::new(s.len(), |i: int| is_white_space(s[i]))
}

/// The runs of a text depend on the marks of its own positions only.
proof fn lemma_runs_ignore_later_marks(s: Seq<char>, gaps: Seq<bool>, other: Seq<bool>)
    requires
        forall|i: int| 0 <= i < s.len() ==> is_gap(gaps, i) == is_gap(other, i),
    ensures
        runs(s, gaps) == runs(s, other),
    decreases s.len(),
{
    if s.len() > 0 {
        lemma_runs_ignore_later_marks(s.drop_last(), gaps, other);
    }
}

/// The words of a text are its runs between whitespace characters.
pub proof fn lemma_words_are_runs(s: Seq<char>)
    ensures
        words(s) == runs(s, whitespace_marks(s)),
    decreases s.len(),
{
    if s.len() > 0 {
        lemma_words_are_runs(s.drop_last());
        lemma_runs_ignore_later_marks(
            s.drop_last(),
            whitespace_marks(s),
            whitespace_marks(s.drop_last()),
        );
    }
}

/// Marks the whitespace characters of `s`.
pub fn whitespace_of(s: &str) -> (marks: Vec<bool>)
    ensures
        marks@ == whitespace_marks(s@),
{
    let mut marks: Vec<bool> = Vec::new();
    for c in it: s.chars()
        invariant
            it.seq() == s@,
            marks@.len() == it.index(),
            forall|k: int| 0 <= k < marks@.len() ==> marks@[k] == is_white_space(s@[k]),
    {
        marks.push(c.is_whitespace());
    }
    marks
}

/// Splits `s` at the gaps that `gaps` marks, one mark for each character: the
/// result holds the runs between the gaps in order, and no empty string.
pub fn split_runs(s: &str, gaps: &Vec<bool>) -> (out: Vec<String>)
    ensures
        texts(out@) == runs(s@, gaps@),
{
    let mut out: Vec<String> = Vec::new();
    let total = s.unicode_len();
    let mut start: usize = 0;
    let mut in_run = false;
    let mut pos: usize = 0;
    while pos < total
        invariant
            total == s@.len(),
            pos <= total,
            in_run ==> start < pos,
            in_run ==> !is_gap(gaps@, pos - 1),
            in_run ==> texts(out@).push(s@.subrange(start as int, pos as int)) == runs(
                s@.take(pos as int),
                gaps@,
            ),
            !in_run ==> pos == 0 || is_gap(gaps@, pos - 1),
            !in_run ==> texts(out@) == runs(s@.take(pos as int), gaps@),
        decreases total - pos,
    {
        let ghost seen = s@.take(pos as int);
        let ghost next = s@.take(pos + 1);
        assert(next.drop_last() == seen);
        assert(next.last() == s@[pos as int]);
        if pos < gaps.len() && gaps[pos] {
            if in_run {
                let run = String::from_str(s.substring_char(start, pos));
                let ghost prior = texts(out@);
                out.push(run);
                assert(texts(out@) == prior.push(s@.subrange(start as int, pos as int)));
                in_run = false;
            }
        } else if in_run {
            let ghost open = texts(out@).push(s@.subrange(start as int, pos as int));
            assert(open.drop_last() == texts(out@));
            assert(open.last().push(s@[pos as int]) == s@.subrange(start as int, pos + 1));
        } else {
            assert(seq![s@[pos as int]] == s@.subrange(pos as int, pos + 1));
            start = pos;
            in_run = true;
        }
        pos = pos + 1;
    }
    assert(s@.take(total as int) == s@);
    if in_run {
        let run = String::from_str(s.substring_char(start, total));
        let ghost prior = texts(out@);
        out.push(run);
        assert(texts(out@) == prior.push(s@.subrange(start as int, total as int)));
    }
    out
}

/// Splits `s` at whitespace, as `str::split_whitespace` does: the result holds
/// the words of `s` in order, and no empty string.
pub fn split_words(s: &str) -> (out: Vec<String>)
    ensures
        texts(out@) == words(s@),
{
    proof {
        lemma_words_are_runs(s@);
    }
    let marks = whitespace_of(s);
    split_runs(s, &marks)
}

} // verus!
