//! Text helpers shared by the router, the command table and the extractors.

use vstd::prelude::*;

verus! {

/// Whether `c` is white space, as the standard library's
/// `char::is_whitespace` decides it.
pub uninterp spec fn is_whitespace(c: char) -> bool;

/// The lowercase form of `s`, as the standard library's `str::to_lowercase`
/// computes it.
pub uninterp spec fn lowercase(s: Seq<char>) -> Seq<char>;

/// `String::push` of the standard library: appends one character to the
/// end of the string, which is what the contract claims.
#[verifier::external_body]
pub(crate) fn push_char(s: &mut String, c: char)
    ensures
        final(s)@ == old(s)@.push(c),
{
    s.push(c)
}

/// `char::is_whitespace` of the standard library. The Unicode property
/// White_Space decides the answer, so it depends on the character alone;
/// the contract gives the answer its name and claims no more.
#[verifier::external_body]
pub(crate) fn char_is_whitespace(c: char) -> (b: bool)
    ensures
        b == is_whitespace(c),
{
    c.is_whitespace()
}

/// `str::to_lowercase` of the standard library. The Unicode lowercase
/// mapping decides the result, so it depends on the text alone; the contract
/// gives the result its name and claims no more.
#[verifier::external_body]
pub(crate) fn to_lowercase(s: &str) -> (lower: String)
    ensures
        lower@ == lowercase(s@),
{
    s.to_lowercase()
}

/// Whether two texts are the same, character by character.
pub fn same_text(a: &str, b: &str) -> (same: bool)
    ensures
        same == (a@ == b@),
{
    a.to_owned() == b.to_owned()
}

/// The character that writes the decimal digit `d`.
pub open spec fn digit_char(d: nat) -> char {
    if d == 0 {
        '0'
    } else if d == 1 {
        '1'
    } else if d == 2 {
        '2'
    } else if d == 3 {
        '3'
    } else if d == 4 {
        '4'
    } else if d == 5 {
        '5'
    } else if d == 6 {
        '6'
    } else if d == 7 {
        '7'
    } else if d == 8 {
        '8'
    } else {
        '9'
    }
}

/// The decimal numeral of `n`, most significant digit first, without
/// leading zeros.
pub open spec fn decimal(n: nat) -> Seq<char>
    decreases n,
{
    if n < 10 {
        seq![digit_char(n)]
    } else {
        decimal(n / 10).push(digit_char(n % 10))
    }
}

fn digit_to_char(d: u64) -> (c: char)
    requires
        d < 10,
    ensures
        c == digit_char(d as nat),
{
    if d == 0 {
        '0'
    } else if d == 1 {
        '1'
    } else if d == 2 {
        '2'
    } else if d == 3 {
        '3'
    } else if d == 4 {
        '4'
    } else if d == 5 {
        '5'
    } else if d == 6 {
        '6'
    } else if d == 7 {
        '7'
    } else if d == 8 {
        '8'
    } else {
        '9'
    }
}

/// Writes `n` as a decimal numeral.
pub fn decimal_string(n: u64) -> (s: String)
    ensures
        s@ == decimal(n as nat),
    decreases n,
{
    if n < 10 {
        let mut s = String::new();
        push_char(&mut s, digit_to_char(n));
        s
    } else {
        let mut s = decimal_string(n / 10);
        push_char(&mut s, digit_to_char(n % 10));
        s
    }
}

/// Whether the character at position `i` is marked as a separator. Marks
/// stand for the characters by position; a position without a mark is not
/// marked.
pub open spec fn marked(marks: Seq<bool>, i: int) -> bool {
    0 <= i < marks.len() && marks[i]
}

/// The pieces of `s` between its marked characters, in order. A text with
/// `n` marked characters has `n + 1` pieces, some of which may be empty.
pub open spec fn pieces(s: Seq<char>, marks: Seq<bool>) -> Seq<Seq<char>>
    decreases s.len(),
{
    if s.len() == 0 {
        seq![Seq::<char>::empty()]
    } else {
        let init = pieces(s.drop_last(), marks);
        if marked(marks, s.len() - 1) {
            init.push(Seq::<char>::empty())
        } else {
            init.update(init.len() - 1, init.last().push(s.last()))
        }
    }
}

/// The maximal runs of unmarked characters of `s`, in order: its pieces
/// without the empty ones.
pub open spec fn runs(s: Seq<char>, marks: Seq<bool>) -> Seq<Seq<char>> {
    pieces(s, marks).filter(|piece: Seq<char>| piece.len() > 0)
}

/// A text always splits into at least one piece.
pub proof fn lemma_pieces_nonempty(s: Seq<char>, marks: Seq<bool>)
    ensures
        pieces(s, marks).len() >= 1,
    decreases s.len(),
{
    if s.len() > 0 {
        lemma_pieces_nonempty(s.drop_last(), marks);
    }
}

/// The views of the strings in `v`, in order.
pub open spec fn views(v: Seq<String>) -> Seq<Seq<char>> {
    v.map_values(|s: String| s@)
}

/// The marks of the underscores of a name.
pub open spec fn underscores(s: Seq<char>) -> Seq<bool> {
    s.map_values(|c: char| c == '_')
}

/// The marks of the white space of a text.
pub open spec fn white_space(s: Seq<char>) -> Seq<bool> {
    s.map_values(|c: char| is_whitespace(c))
}

/// The pieces of a name between its underscores.
pub open spec fn segments(s: Seq<char>) -> Seq<Seq<char>> {
    pieces(s, underscores(s))
}

/// The words of a text: its maximal runs of characters that are no white
/// space, in order.
pub open spec fn words(s: Seq<char>) -> Seq<Seq<char>> {
    runs(s, white_space(s))
}

/// Splits a text at its marked characters. The marks stand for the
/// characters by position; characters beyond the last mark are not marked.
pub fn split_at_marks(text: &str, marks: &Vec<bool>) -> (found: Vec<String>)
    ensures
        views(found@) == pieces(text@, marks@),
{
    let mut done: Vec<String> = Vec::new();
    let mut current = String::new();
    let mut i: usize = 0;
    for c in it: text.chars()
        invariant
            it.seq() == text@,
            i <= marks.len(),
            i == it.index() || (i == marks.len() && i < it.index()),
            views(done@).push(current@) == pieces(text@.take(it.index() as int), marks@),
    {
        proof {
            let upto = text@.take(it.index() + 1);
            assert(upto.drop_last() == text@.take(it.index() as int));
            assert(upto.last() == c);
            lemma_pieces_nonempty(text@.take(it.index() as int), marks@);
        }
        let is_marked = i < marks.len() && marks[i];
        if i < marks.len() {
            i += 1;
        }
        if is_marked {
            done.push(current);
            current = String::new();
        } else {
            push_char(&mut current, c);
        }
    }
    proof {
        assert(text@.take(text@.len() as int) == text@);
    }
    done.push(current);
    done
}

/// Marks the underscores of a name.
pub fn mark_underscores(name: &str) -> (marks: Vec<bool>)
    ensures
        marks@ == underscores(name@),
{
    let mut marks: Vec<bool> = Vec::new();
    for c in it: name.chars()
        invariant
            it.seq() == name@,
            marks@ == underscores(name@.take(it.index() as int)),
    {
        proof {
            let upto = name@.take(it.index() + 1);
            assert(upto.drop_last() == name@.take(it.index() as int));
            assert(upto.last() == c);
        }
        marks.push(c == '_');
    }
    proof {
        assert(name@.take(name@.len() as int) == name@);
    }
    marks
}

/// Marks the white space of a text.
pub fn mark_white_space(text: &str) -> (marks: Vec<bool>)
    ensures
        marks@ == white_space(text@),
{
    let mut marks: Vec<bool> = Vec::new();
    for c in it: text.chars()
        invariant
            it.seq() == text@,
            marks@ == white_space(text@.take(it.index() as int)),
    {
        proof {
            let upto = text@.take(it.index() + 1);
            assert(upto.drop_last() == text@.take(it.index() as int));
            assert(upto.last() == c);
        }
        marks.push(char_is_whitespace(c));
    }
    proof {
        assert(text@.take(text@.len() as int) == text@);
    }
    marks
}

/// Filtering a sequence with one more element at its end keeps that element
/// or not, and leaves the rest as it was.
pub proof fn lemma_filter_push<A>(s: Seq<A>, x: A, pred: spec_fn(A) -> bool)
    ensures
        s.push(x).filter(pred) == if pred(x) {
            s.filter(pred).push(x)
        } else {
            s.filter(pred)
        },
{
    reveal_with_fuel(Seq::filter, 2);
    assert(s.push(x).drop_last() == s);
}

/// Drops the empty texts from a list and keeps the others in order.
pub fn drop_empty(texts: Vec<String>) -> (kept: Vec<String>)
    ensures
        views(kept@) == views(texts@).filter(|piece: Seq<char>| piece.len() > 0),
{
    let ghost keep = |piece: Seq<char>| piece.len() > 0;
    let mut kept: Vec<String> = Vec::new();
    proof {
        reveal_with_fuel(Seq::filter, 1);
        assert(views(texts@).take(0) == Seq::<Seq<char>>::empty());
    }
    let ghost all = texts@;
    for text in it: texts
        invariant
            keep == (|piece: Seq<char>| piece.len() > 0),
            it.seq() == all,
            views(kept@) == views(all).take(it.index() as int).filter(keep),
    {
        proof {
            let done = views(all).take(it.index() as int);
            assert(views(all).take(it.index() + 1) == done.push(text@));
            lemma_filter_push(done, text@, keep);
        }
        if !text.as_str().is_empty() {
            kept.push(text);
        }
    }
    proof {
        assert(views(all).take(all.len() as int) == views(all));
    }
    kept
}

/// Splits a name at its underscores.
pub fn split_segments(name: &str) -> (found: Vec<String>)
    ensures
        views(found@) == segments(name@),
{
    let marks = mark_underscores(name);
    split_at_marks(name, &marks)
}

/// Splits a text into its words: the runs between white space.
pub fn split_words(text: &str) -> (found: Vec<String>)
    ensures
        views(found@) == words(text@),
{
    let marks = mark_white_space(text);
    drop_empty(split_at_marks(text, &marks))
}

} // verus!
