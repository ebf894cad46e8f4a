//! Small helpers over byte slices and strings that the rest of the
//! library builds on: equality of string views, byte searches, and
//! copying a byte subrange into an owned vector.

use vstd::prelude::*;

verus! {

/// Whether two string slices hold the same characters.
pub fn str_eq(a: &str, b: &str) -> (r: bool)
    ensures
        r == (a@ == b@),
{
    let x: String = a.to_owned();
    let y: String = b.to_owned();
    x == y
}

/// The index of the first occurrence of `needle` in `s`, if any.
pub fn find_first(s: &[u8], needle: u8) -> (r: Option<usize>)
    ensures
        match r {
            Some(i) => i < s@.len() && s@[i as int] == needle && (forall|j: int|
                0 <= j < i ==> s@[j] != needle),
            None => forall|j: int| 0 <= j < s@.len() ==> s@[j] != needle,
        },
{
    let mut i: usize = 0;
    while i < s.len()
        invariant
            i <= s@.len(),
            forall|j: int| 0 <= j < i ==> s@[j] != needle,
        decreases s@.len() - i,
    {
        if s[i] == needle {
            return Some(i);
        }
        i = i + 1;
    }
    None
}

/// The index of the last occurrence of `needle` in `s`, if any.
pub fn find_last(s: &[u8], needle: u8) -> (r: Option<usize>)
    ensures
        match r {
            Some(i) => i < s@.len() && s@[i as int] == needle && (forall|j: int|
                i < j < s@.len() ==> s@[j] != needle),
            None => forall|j: int| 0 <= j < s@.len() ==> s@[j] != needle,
        },
{
    let mut i: usize = s.len();
    while i > 0
        invariant
            i <= s@.len(),
            forall|j: int| i <= j < s@.len() ==> s@[j] != needle,
        decreases i,
    {
        i = i - 1;
        if s[i] == needle {
            return Some(i);
        }
    }
    None
}

/// An owned copy of the bytes of `s` between `from` (inclusive) and
/// `to` (exclusive).
pub fn copy_range(s: &[u8], from: usize, to: usize) -> (r: Vec<u8>)
    requires
        from <= to <= s@.len(),
    ensures
        r@ == s@.subrange(from as int, to as int),
{
    let mut out: Vec<u8> = Vec::new();
    let mut i: usize = from;
    while i < to
        invariant
            from <= i <= to <= s@.len(),
            out@ == s@.subrange(from as int, i as int),
        decreases to - i,
    {
        out.push(s[i]);
        assert(s@.subrange(from as int, i + 1 as int)
            =~= s@.subrange(from as int, i as int).push(s@[i as int]));
        i = i + 1;
    }
    out
}

/// Ties a first-occurrence witness to `Seq::index_of_first`.
pub proof fn lemma_index_of_first_agrees(s: Seq<u8>, needle: u8, i: int)
    requires
        0 <= i < s.len(),
        s[i] == needle,
        forall|j: int| 0 <= j < i ==> s[j] != needle,
    ensures
        s.index_of_first(needle) == Some(i),
{
    s.index_of_first_ensures(needle);
}

/// A sequence without the needle has no first occurrence of it.
pub proof fn lemma_index_of_first_absent(s: Seq<u8>, needle: u8)
    requires
        forall|j: int| 0 <= j < s.len() ==> s[j] != needle,
    ensures
        s.index_of_first(needle) is None,
{
    s.index_of_first_ensures(needle);
}

/// Ties a last-occurrence witness to `Seq::index_of_last`.
pub proof fn lemma_index_of_last_agrees(s: Seq<u8>, needle: u8, i: int)
    requires
        0 <= i < s.len(),
        s[i] == needle,
        forall|j: int| i < j < s.len() ==> s[j] != needle,
    ensures
        s.index_of_last(needle) == Some(i),
{
    s.index_of_last_ensures(needle);
}

/// A sequence without the needle has no last occurrence of it.
pub proof fn lemma_index_of_last_absent(s: Seq<u8>, needle: u8)
    requires
        forall|j: int| 0 <= j < s.len() ==> s[j] != needle,
    ensures
        s.index_of_last(needle) is None,
{
    s.index_of_last_ensures(needle);
}

} // verus!
