//! Small verified text utilities shared by the rest of the library:
//! string equality, case-insensitive substring matching, blank detection
//! and line joining.

use vstd::prelude::*;
use vstd::assert_seqs_equal;

verus! {

/// String-slice equality, specified over the character views.
pub fn str_eq(a: &str, b: &str) -> (r: bool)
    ensures
        r == (a@ == b@),
{
    let sa: String = a.to_owned();
    let sb: String = b.to_owned();
    sa == sb
}

/// The needle occurs in the haystack starting at position `i`.
pub open spec fn match_at(hay: Seq<u8>, needle: Seq<u8>, i: int) -> bool {
    0 <= i && i + needle.len() <= hay.len() && hay.subrange(i, i + needle.len() as int)
        == needle
}

/// The needle occurs somewhere in the haystack.
pub open spec fn contains_seq(hay: Seq<u8>, needle: Seq<u8>) -> bool {
    exists|i: int| match_at(hay, needle, i)
}

/// Byte-level substring search, specified by `contains_seq`.
pub fn contains_bytes(hay: &Vec<u8>, needle: &Vec<u8>) -> (r: bool)
    ensures
        r == contains_seq(hay@, needle@),
{
    let hn: usize = hay.len();
    let nn: usize = needle.len();
    if nn > hn {
        assert(forall|i: int| !match_at(hay@, needle@, i));
        return false;
    }
    let mut i: usize = 0;
    while i <= hn - nn
        invariant
            nn <= hn,
            hn == hay@.len(),
            nn == needle@.len(),
            i <= hn - nn + 1,
            forall|k: int| 0 <= k < i ==> !match_at(hay@, needle@, k),
        decreases hn - nn + 1 - i,
    {
        let mut j: usize = 0;
        while j < nn && hay[i + j] == needle[j]
            invariant
                nn <= hn,
                hn == hay@.len(),
                nn == needle@.len(),
                i + nn <= hn,
                j <= nn,
                forall|t: int| 0 <= t < j ==> hay@[i + t] == needle@[t],
            decreases nn - j,
        {
            j = j + 1;
        }
        if j == nn {
            proof {
                assert_seqs_equal!(hay@.subrange(i as int, i + nn as int) == needle@);
                assert(match_at(hay@, needle@, i as int));
            }
            return true;
        }
        proof {
            assert(hay@[i + j] != needle@[j as int]);
            if match_at(hay@, needle@, i as int) {
                assert(hay@.subrange(i as int, i + nn as int)[j as int] == hay@[i + j]);
            }
            assert(!match_at(hay@, needle@, i as int));
        }
        i = i + 1;
    }
    proof {
        assert forall|k: int| !match_at(hay@, needle@, k) by {
            if k >= i {
                assert(k + needle@.len() > hay@.len());
            }
        }
    }
    false
}

/// The lowercased form of a text, as a byte sequence.  Uninterpreted: it
/// stands for what `str::to_lowercase` returns, which depends on the
/// characters alone.
pub uninterp spec fn lower_of(s: Seq<char>) -> Seq<u8>;

/// Relies on `str::to_lowercase` (the lowercased text depends on the
/// characters of `s` alone) and `String::into_bytes`.
#[verifier::external_body]
pub fn lower_bytes(s: &str) -> (r: Vec<u8>)
    ensures
        r@ == lower_of(s@),
        s@.len() == 0 ==> r@.len() == 0,
{
    s.to_lowercase().into_bytes()
}

/// A name matches a query when the lowercased query occurs as a substring of
/// the lowercased name.
pub open spec fn name_matches_spec(name: Seq<char>, query: Seq<char>) -> bool {
    contains_seq(lower_of(name), lower_of(query))
}

/// Case-insensitive substring test used by the file-search engine.
pub fn name_matches(name: &str, query: &str) -> (r: bool)
    ensures
        r == name_matches_spec(name@, query@),
{
    let h = lower_bytes(name);
    let n = lower_bytes(query);
    contains_bytes(&h, &n)
}

/// Whether a text is empty or consists of whitespace alone.  Uninterpreted:
/// it stands for what `str::trim(..).is_empty()` returns, which depends on
/// the characters alone.
pub uninterp spec fn blank_of(s: Seq<char>) -> bool;

/// Relies on `str::trim` and `str::is_empty`: whether the text is empty or
/// all whitespace depends on the characters of `s` alone; an empty string
/// trims to an empty string.
#[verifier::external_body]
pub fn is_blank(s: &str) -> (r: bool)
    ensures
        r == blank_of(s@),
        s@.len() == 0 ==> r,
{
    s.trim().is_empty()
}

/// The given parts joined with a newline between consecutive parts.
pub open spec fn joined_lines(parts: Seq<Seq<char>>) -> Seq<char>
    decreases parts.len(),
{
    if parts.len() == 0 {
        Seq::empty()
    } else if parts.len() == 1 {
        parts[0]
    } else {
        parts[0] + seq!['\n'] + joined_lines(parts.drop_first())
    }
}

proof fn lemma_joined_lines_push(parts: Seq<Seq<char>>, x: Seq<char>)
    requires
        parts.len() > 0,
    ensures
        joined_lines(parts.push(x)) == joined_lines(parts) + seq!['\n'] + x,
    decreases parts.len(),
{
    reveal_with_fuel(joined_lines, 3);
    if parts.len() == 1 {
        assert(parts.push(x).drop_first() =~= seq![x]);
        assert(joined_lines(parts.push(x)) == parts[0] + seq!['\n'] + x);
    } else {
        assert(parts.push(x).drop_first() =~= parts.drop_first().push(x));
        lemma_joined_lines_push(parts.drop_first(), x);
    }
}

/// Joins the given strings with newlines, as `joined_lines` describes.
pub fn join_lines(parts: &Vec<String>) -> (r: String)
    ensures
        r@ == joined_lines(parts.deep_view()),
{
    let mut acc = String::new();
    if parts.len() == 0 {
        assert(parts.deep_view() =~= Seq::<Seq<char>>::empty());
        return acc;
    }
    acc.append(parts[0].as_str());
    let mut i: usize = 1;
    while i < parts.len()
        invariant
            1 <= i <= parts.len(),
            parts.deep_view().len() == parts.len(),
            acc@ == joined_lines(parts.deep_view().take(i as int)),
        decreases parts.len() - i,
    {
        acc.append("\n");
        acc.append(parts[i].as_str());
        proof {
            let pv = parts.deep_view();
            assert(pv.take(i as int).len() == i);
            lemma_joined_lines_push(pv.take(i as int), pv[i as int]);
            assert(pv.take(i as int).push(pv[i as int]) =~= pv.take(i + 1));
            lemma_newline_strlit();
        }
        i = i + 1;
    }
    proof {
        assert(parts.deep_view().take(parts.len() as int) =~= parts.deep_view());
    }
    acc
}

proof fn lemma_newline_strlit()
    ensures
        "\n"@ == seq!['\n'],
{
    reveal_strlit("\n");
    assert("\n"@ =~= seq!['\n']);
}

} // verus!
