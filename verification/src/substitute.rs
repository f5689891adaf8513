//! Literal token substitution over text.

use vstd::prelude::*;
use vstd::std_specs::iter::IteratorSpec;

verus! {

broadcast use vstd::string::group_string_axioms;

/// The text obtained from `content` by replacing, from left to right, every
/// non-overlapping occurrence of `from` with `to`. An empty `from` occurs
/// before every character and at the end.
pub open spec fn replaced(content: Seq<char>, from: Seq<char>, to: Seq<char>) -> Seq<char>
    decreases content.len(),
{
    if from.len() == 0 {
        if content.len() == 0 {
            to
        } else {
            to + seq![content[0]] + replaced(content.skip(1), from, to)
        }
    } else if from.is_prefix_of(content) {
        to + replaced(content.skip(from.len() as int), from, to)
    } else if content.len() == 0 {
        content
    } else {
        seq![content[0]] + replaced(content.skip(1), from, to)
    }
}

/// Whether `from` stands in `content` at index `i`.
pub open spec fn occurs_at(content: Seq<char>, from: Seq<char>, i: int) -> bool {
    0 <= i <= content.len() && from.is_prefix_of(content.skip(i))
}

/// The pieces in order, with `sep` between each two neighbours.
pub open spec fn joined(pieces: Seq<Seq<char>>, sep: Seq<char>) -> Seq<char>
    decreases pieces.len(),
{
    if pieces.len() == 0 {
        Seq::empty()
    } else if pieces.len() == 1 {
        pieces[0]
    } else {
        pieces[0] + sep + joined(pieces.skip(1), sep)
    }
}

/// One more piece goes behind the others, after `sep` where it is not the
/// first.
pub proof fn lemma_joined_push(pieces: Seq<Seq<char>>, piece: Seq<char>, sep: Seq<char>)
    ensures
        joined(pieces.push(piece), sep) == if pieces.len() == 0 {
            piece
        } else {
            joined(pieces, sep) + sep + piece
        },
    decreases pieces.len(),
{
    let all = pieces.push(piece);
    if pieces.len() >= 1 {
        assert(all.skip(1) =~= pieces.skip(1).push(piece));
        lemma_joined_push(pieces.skip(1), piece, sep);
        assert(joined(all, sep) =~= joined(pieces, sep) + sep + piece);
    }
}

/// Up to the first occurrence of `from` the content is kept as it is.
pub proof fn lemma_kept_before_first(content: Seq<char>, from: Seq<char>, to: Seq<char>, k: int)
    requires
        0 <= k <= content.len(),
        forall|i: int| 0 <= i < k ==> !occurs_at(content, from, i),
    ensures
        replaced(content, from, to) == content.take(k) + replaced(content.skip(k), from, to),
    decreases k,
{
    if k == 0 {
        assert(content.skip(0) =~= content);
        assert(content.take(0) + replaced(content, from, to) =~= replaced(content, from, to));
    } else {
        assert(!occurs_at(content, from, 0));
        assert(content.skip(0) =~= content);
        assert(from.len() > 0) by {
            if from.len() == 0 {
                assert(from =~= content.subrange(0, 0));
            }
        }
        let rest = content.skip(1);
        assert forall|i: int| 0 <= i < k - 1 implies !occurs_at(rest, from, i) by {
            assert(rest.skip(i) =~= content.skip(i + 1));
            assert(!occurs_at(content, from, i + 1));
        }
        lemma_kept_before_first(rest, from, to, k - 1);
        assert(rest.skip(k - 1) =~= content.skip(k));
        assert(seq![content[0]] + rest.take(k - 1) =~= content.take(k));
        assert(replaced(content, from, to) =~= content.take(k) + replaced(
            content.skip(k),
            from,
            to,
        ));
    }
}

/// Content in which `from` does not occur comes back unchanged.
pub proof fn lemma_no_occurrence(content: Seq<char>, from: Seq<char>, to: Seq<char>)
    requires
        forall|i: int| 0 <= i <= content.len() ==> !occurs_at(content, from, i),
    ensures
        replaced(content, from, to) == content,
{
    let n = content.len() as int;
    lemma_kept_before_first(content, from, to, n);
    assert(!occurs_at(content, from, n));
    assert(from.len() > 0) by {
        if from.len() == 0 {
            assert(from =~= content.skip(n).subrange(0, 0));
        }
    }
    assert(content.skip(n).len() == 0);
    assert(content.take(n) + replaced(content.skip(n), from, to) =~= content);
}

/// Content that holds `from` exactly between its pieces, and nowhere else,
/// comes back with `to` between the same pieces: with `m + 1` pieces, `m`
/// replacements and no other change.
///
/// "Nowhere else" is: in a piece followed by `from`, the first occurrence is
/// the one that follows the piece; in the last piece there is none.
pub proof fn lemma_replaces_each_occurrence(
    pieces: Seq<Seq<char>>,
    from: Seq<char>,
    to: Seq<char>,
)
    requires
        pieces.len() >= 1,
        forall|k: int, i: int|
            0 <= k < pieces.len() - 1 && 0 <= i < pieces[k].len() ==> !#[trigger] occurs_at(
                pieces[k] + from,
                from,
                i,
            ),
        forall|i: int| 0 <= i <= pieces.last().len() ==> !occurs_at(pieces.last(), from, i),
    ensures
        replaced(joined(pieces, from), from, to) == joined(pieces, to),
    decreases pieces.len(),
{
    if pieces.len() == 1 {
        assert(pieces[0] == pieces.last());
        lemma_no_occurrence(pieces[0], from, to);
    } else {
        let head = pieces[0];
        let tail = pieces.skip(1);
        let rest = joined(tail, from);
        let content = head + from + rest;
        let n = head.len() as int;
        assert(from.len() > 0) by {
            if from.len() == 0 {
                let last = pieces.last();
                assert(from =~= last.skip(0).subrange(0, 0));
                assert(occurs_at(last, from, 0));
            }
        }
        assert forall|i: int| 0 <= i < n implies !occurs_at(content, from, i) by {
            if occurs_at(content, from, i) {
                assert(from =~= (head + from).skip(i).subrange(0, from.len() as int)) by {
                    assert forall|j: int| 0 <= j < from.len() implies from[j] == (head + from).skip(
                        i,
                    )[j] by {
                        assert(from[j] == content.skip(i).subrange(0, from.len() as int)[j]);
                    }
                }
                assert(occurs_at(head + from, from, i));
                assert(!occurs_at(pieces[0] + from, from, i));
            }
        }
        lemma_kept_before_first(content, from, to, n);
        assert(content.take(n) =~= head);
        assert(content.skip(n) =~= from + rest);
        assert(from =~= (from + rest).subrange(0, from.len() as int));
        assert((from + rest).skip(from.len() as int) =~= rest);
        assert(replaced(from + rest, from, to) == to + replaced(rest, from, to));
        assert forall|k: int, i: int|
            0 <= k < tail.len() - 1 && 0 <= i < tail[k].len() implies !#[trigger] occurs_at(
            tail[k] + from,
            from,
            i,
        ) by {
            assert(tail[k] == pieces[k + 1]);
            assert(!occurs_at(pieces[k + 1] + from, from, i));
        }
        assert(tail.last() == pieces.last());
        lemma_replaces_each_occurrence(tail, from, to);
        assert(replaced(content, from, to) =~= head + to + joined(tail, to));
    }
}

/// `String::push`: the character is appended at the end, nothing else changes.
#[verifier::external_body]
fn push_char(s: &mut String, c: char)
    ensures
        final(s)@ == old(s)@.push(c),
{
    s.push(c);
}

/// The characters of `s`, in order.
pub fn chars_of(s: &str) -> (v: Vec<char>)
    ensures
        v@ == s@,
{
    let mut it = s.chars();
    let mut v: Vec<char> = Vec::new();
    loop
        invariant
            it.obeys_prophetic_iter_laws(),
            it.decrease() is Some,
            v@ + it.remaining() == s@,
        decreases it.decrease()->0,
    {
        match it.next() {
            Some(c) => {
                v.push(c);
                assert(v@ + it.remaining() =~= s@);
            },
            None => {
                assert(v@ =~= s@);
                return v;
            },
        }
    }
}

/// The string made of the characters of `v`, in order.
pub fn string_of(v: &Vec<char>) -> (s: String)
    ensures
        s@ == v@,
{
    let mut s = String::new();
    let mut i: usize = 0;
    while i < v.len()
        invariant
            i <= v.len(),
            s@ == v@.take(i as int),
        decreases v.len() - i,
    {
        push_char(&mut s, v[i]);
        i += 1;
        assert(s@ =~= v@.take(i as int));
    }
    assert(v@.take(v.len() as int) =~= v@);
    s
}

/// Whether `pattern` stands in `content` at index `at`.
pub fn matches_at(content: &Vec<char>, at: usize, pattern: &Vec<char>) -> (b: bool)
    ensures
        b == occurs_at(content@, pattern@, at as int),
{
    if at > content.len() || pattern.len() > content.len() - at {
        return false;
    }
    let mut j: usize = 0;
    while j < pattern.len()
        invariant
            at <= content.len(),
            pattern.len() <= content.len() - at,
            j <= pattern.len(),
            forall|k: int| 0 <= k < j ==> pattern@[k] == content@[at + k],
        decreases pattern.len() - j,
    {
        if pattern[j] != content[at + j] {
            assert(content@.skip(at as int)[j as int] != pattern@[j as int]);
            return false;
        }
        j += 1;
    }
    assert(content@.skip(at as int).subrange(0, pattern@.len() as int) =~= pattern@);
    true
}

fn push_all(out: &mut Vec<char>, piece: &Vec<char>)
    ensures
        final(out)@ == old(out)@ + piece@,
{
    let mut j: usize = 0;
    while j < piece.len()
        invariant
            j <= piece.len(),
            out@ == old(out)@ + piece@.take(j as int),
        decreases piece.len() - j,
    {
        out.push(piece[j]);
        j += 1;
        assert(out@ =~= old(out)@ + piece@.take(j as int));
    }
    assert(piece@.take(piece.len() as int) =~= piece@);
}

/// Replaces every occurrence of `from` in `content` with `to`.
pub fn replace_chars(content: &Vec<char>, from: &Vec<char>, to: &Vec<char>) -> (out: Vec<char>)
    ensures
        out@ == replaced(content@, from@, to@),
{
    let mut out: Vec<char> = Vec::new();
    let mut i: usize = 0;
    assert(content@.skip(0) =~= content@);
    while i < content.len()
        invariant
            i <= content.len(),
            out@ + replaced(content@.skip(i as int), from@, to@) == replaced(
                content@,
                from@,
                to@,
            ),
        decreases content.len() - i,
    {
        let ghost rest = content@.skip(i as int);
        let ghost before = out@;
        if from.len() == 0 {
            push_all(&mut out, to);
            out.push(content[i]);
            i += 1;
            assert(rest.skip(1) =~= content@.skip(i as int));
            assert(out@ + replaced(content@.skip(i as int), from@, to@) =~= before + replaced(
                rest,
                from@,
                to@,
            ));
        } else if matches_at(content, i, from) {
            push_all(&mut out, to);
            i += from.len();
            assert(rest.skip(from@.len() as int) =~= content@.skip(i as int));
            assert(out@ + replaced(content@.skip(i as int), from@, to@) =~= before + replaced(
                rest,
                from@,
                to@,
            ));
        } else {
            out.push(content[i]);
            i += 1;
            assert(rest.skip(1) =~= content@.skip(i as int));
            assert(out@ + replaced(content@.skip(i as int), from@, to@) =~= before + replaced(
                rest,
                from@,
                to@,
            ));
        }
    }
    assert(content@.skip(i as int).len() == 0);
    if from.len() == 0 {
        let ghost before = out@;
        push_all(&mut out, to);
        assert(out@ =~= before + replaced(content@.skip(i as int), from@, to@));
    } else {
        assert(out@ =~= out@ + replaced(content@.skip(i as int), from@, to@));
    }
    out
}

/// Replaces every occurrence of `from` in `content` with `to`: the whole
/// content is rewritten, not line by line.
pub fn replace_token(content: &str, from: &str, to: &str) -> (r: String)
    ensures
        r@ == replaced(content@, from@, to@),
{
    let c = chars_of(content);
    let f = chars_of(from);
    let t = chars_of(to);
    let out = replace_chars(&c, &f, &t);
    string_of(&out)
}

} // verus!
