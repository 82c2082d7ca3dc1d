//! Delimiter search and splitting over byte sequences. The extractor
//! splits a multi-artist tag value on the configured delimiter; the
//! thorough extraction pass reuses the search to locate a tag block
//! anywhere in the stream.

use vstd::prelude::*;

verus! {

/// The pattern `p` occurs in `s` starting at position `i`.
pub open spec fn match_at(s: Seq<u8>, p: Seq<u8>, i: int) -> bool {
    &&& 0 <= i
    &&& i + p.len() <= s.len()
    &&& forall|j: int| 0 <= j < p.len() ==> s[i + j] == p[j]
}

/// Position of the first occurrence of `p` in `s` at or after `from`.
pub open spec fn first_match_from(s: Seq<u8>, p: Seq<u8>, from: int) -> Option<int>
    decreases s.len() - from,
{
    if from < 0 || from + p.len() > s.len() {
        None
    } else if match_at(s, p, from) {
        Some(from)
    } else {
        first_match_from(s, p, from + 1)
    }
}

/// What a found position means: it is a match, it is the first one at or
/// after `from`, and `None` means there is none.
pub proof fn lemma_first_match_from(s: Seq<u8>, p: Seq<u8>, from: int)
    requires
        0 <= from,
    ensures
        first_match_from(s, p, from) matches Some(i) ==> {
            &&& from <= i
            &&& match_at(s, p, i)
            &&& forall|k: int| from <= k < i ==> !match_at(s, p, k)
        },
        first_match_from(s, p, from) is None ==> forall|k: int|
            from <= k ==> !match_at(s, p, k),
    decreases s.len() - from,
{
    if from + p.len() > s.len() {
        assert forall|k: int| from <= k implies !match_at(s, p, k) by {
            assert(k + p.len() > s.len());
        }
    } else if match_at(s, p, from) {
    } else {
        lemma_first_match_from(s, p, from + 1);
    }
}

/// Searching from further along gives the same result when nothing was
/// skipped over.
pub proof fn lemma_first_match_skip(s: Seq<u8>, p: Seq<u8>, from: int, upto: int)
    requires
        0 <= from <= upto,
        forall|k: int| from <= k < upto ==> !match_at(s, p, k),
    ensures
        first_match_from(s, p, from) == first_match_from(s, p, upto),
    decreases upto - from,
{
    if from < upto {
        lemma_first_match_skip(s, p, from + 1, upto);
    }
}

/// `s` split on `p`: the segments between the occurrences of `p`, in
/// order, scanning left to right. A sequence in which `p` does not occur
/// is a single segment, and so is every `s` when `p` is empty.
pub open spec fn split_bytes(s: Seq<u8>, p: Seq<u8>) -> Seq<Seq<u8>>
    decreases s.len(),
{
    if p.len() == 0 {
        seq![s]
    } else {
        match first_match_from(s, p, 0) {
            None => seq![s],
            Some(i) => {
                if 0 <= i && i + p.len() <= s.len() {
                    seq![s.subrange(0, i)] + split_bytes(
                        s.subrange(i + p.len(), s.len() as int),
                        p,
                    )
                } else {
                    seq![s]
                }
            },
        }
    }
}

/// The segments, re-joined with the delimiter between them.
pub open spec fn join_bytes(parts: Seq<Seq<u8>>, p: Seq<u8>) -> Seq<u8>
    decreases parts.len(),
{
    if parts.len() == 0 {
        Seq::empty()
    } else if parts.len() == 1 {
        parts[0]
    } else {
        parts[0] + p + join_bytes(parts.drop_first(), p)
    }
}

/// Splitting yields at least one segment.
pub proof fn lemma_split_nonempty(s: Seq<u8>, p: Seq<u8>)
    ensures
        split_bytes(s, p).len() >= 1,
{
}

/// Splitting never loses a byte: joining the segments with the same
/// delimiter restores the original sequence.
pub proof fn lemma_join_split(s: Seq<u8>, p: Seq<u8>)
    ensures
        join_bytes(split_bytes(s, p), p) == s,
    decreases s.len(),
{
    if p.len() == 0 {
        assert(join_bytes(seq![s], p) == s);
    } else {
        lemma_first_match_from(s, p, 0);
        match first_match_from(s, p, 0) {
            None => {
                assert(join_bytes(seq![s], p) == s);
            },
            Some(i) => {
                let tail = s.subrange(i + p.len(), s.len() as int);
                lemma_join_split(tail, p);
                lemma_split_nonempty(tail, p);
                let parts = seq![s.subrange(0, i)] + split_bytes(tail, p);
                assert(parts.drop_first() == split_bytes(tail, p));
                assert(parts.len() >= 2);
                assert(join_bytes(parts, p) == s.subrange(0, i) + p + tail);
                assert(s.subrange(0, i) + p + tail =~= s);
            },
        }
    }
}

/// A value in which the delimiter does not occur splits into exactly
/// one segment: the value itself.
pub proof fn lemma_split_single(s: Seq<u8>, p: Seq<u8>)
    requires
        forall|k: int| !match_at(s, p, k),
    ensures
        split_bytes(s, p) == seq![s],
{
    if p.len() == 0 {
    } else {
        lemma_first_match_from(s, p, 0);
    }
}

/// All bytes of `s` are ASCII.
pub open spec fn ascii_bytes(s: Seq<u8>) -> bool {
    forall|k: int| 0 <= k < s.len() ==> s[k] < 128
}

/// Every segment of an all-ASCII sequence is all-ASCII.
pub proof fn lemma_split_ascii(s: Seq<u8>, p: Seq<u8>)
    requires
        ascii_bytes(s),
    ensures
        forall|n: int|
            0 <= n < split_bytes(s, p).len() ==> ascii_bytes(#[trigger] split_bytes(s, p)[n]),
    decreases s.len(),
{
    if p.len() == 0 {
    } else {
        lemma_first_match_from(s, p, 0);
        match first_match_from(s, p, 0) {
            None => {},
            Some(i) => {
                let tail = s.subrange(i + p.len(), s.len() as int);
                lemma_split_ascii(tail, p);
                assert(split_bytes(s, p) == seq![s.subrange(0, i)] + split_bytes(tail, p));
            },
        }
    }
}

/// True when `p` occurs in `s` at position `i`.
pub fn matches_at(s: &Vec<u8>, p: &Vec<u8>, i: usize) -> (r: bool)
    requires
        i + p@.len() <= s@.len(),
    ensures
        r == match_at(s@, p@, i as int),
{
    let mut j: usize = 0;
    while j < p.len()
        invariant
            0 <= j <= p@.len(),
            i + p@.len() <= s@.len(),
            forall|k: int| 0 <= k < j ==> s@[i + k] == p@[k],
        decreases p@.len() - j,
    {
        assert(i + j < s.len());
        if s[i + j] != p[j] {
            return false;
        }
        j += 1;
    }
    true
}

/// Position of the first occurrence of `p` in `s` at or after `from`.
pub fn find_first(s: &Vec<u8>, p: &Vec<u8>, from: usize) -> (r: Option<usize>)
    requires
        p@.len() >= 1,
        from <= s@.len(),
    ensures
        match r {
            Some(i) => first_match_from(s@, p@, from as int) == Some(i as int),
            None => first_match_from(s@, p@, from as int) is None,
        },
{
    let mut i: usize = from;
    loop
        invariant
            from <= i <= s@.len(),
            p@.len() >= 1,
            forall|k: int| from <= k < i ==> !match_at(s@, p@, k),
        decreases s@.len() - i,
    {
        if s.len() - i < p.len() {
            proof {
                lemma_first_match_skip(s@, p@, from as int, i as int);
            }
            return None;
        }
        if matches_at(s, p, i) {
            proof {
                lemma_first_match_skip(s@, p@, from as int, i as int);
            }
            return Some(i);
        }
        i += 1;
    }
}

/// The bytes of `s` from `from` (inclusive) to `to` (exclusive).
pub fn copy_range(s: &Vec<u8>, from: usize, to: usize) -> (r: Vec<u8>)
    requires
        from <= to <= s@.len(),
    ensures
        r@ == s@.subrange(from as int, to as int),
{
    let mut r: Vec<u8> = Vec::new();
    let mut i: usize = from;
    while i < to
        invariant
            from <= i <= to <= s@.len(),
            r@ == s@.subrange(from as int, i as int),
        decreases to - i,
    {
        r.push(s[i]);
        proof {
            assert(r@ =~= s@.subrange(from as int, i + 1 as int));
        }
        i += 1;
    }
    r
}

/// `s` split on the delimiter `p`, scanning left to right.
pub fn split_by_delim(s: &Vec<u8>, p: &Vec<u8>) -> (r: Vec<Vec<u8>>)
    ensures
        r@.map_values(|v: Vec<u8>| v@) == split_bytes(s@, p@),
{
    let mut r: Vec<Vec<u8>> = Vec::new();
    if p.len() == 0 {
        r.push(copy_range(s, 0, s.len()));
        proof {
            assert(r@.map_values(|v: Vec<u8>| v@) =~~= split_bytes(s@, p@));
        }
        return r;
    }
    let mut rest: Vec<u8> = copy_range(s, 0, s.len());
    proof {
        assert(rest@ =~= s@);
    }
    loop
        invariant
            p@.len() >= 1,
            split_bytes(s@, p@) =~= r@.map_values(|v: Vec<u8>| v@) + split_bytes(rest@, p@),
        decreases rest@.len(),
    {
        let ghost r0 = r@;
        match find_first(&rest, p, 0) {
            None => {
                proof {
                    assert(split_bytes(rest@, p@) == seq![rest@]);
                }
                r.push(rest);
                proof {
                    assert(r@.map_values(|v: Vec<u8>| v@) =~= r0.map_values(
                        |v: Vec<u8>| v@,
                    ) + seq![rest@]);
                    assert(r@.map_values(|v: Vec<u8>| v@) =~= split_bytes(s@, p@));
                }
                return r;
            },
            Some(i) => {
                proof {
                    lemma_first_match_from(rest@, p@, 0);
                }
                let seg = copy_range(&rest, 0, i);
                let tail = copy_range(&rest, i + p.len(), rest.len());
                proof {
                    assert(split_bytes(rest@, p@) == seq![seg@] + split_bytes(tail@, p@));
                }
                r.push(seg);
                proof {
                    assert(r@.map_values(|v: Vec<u8>| v@) =~= r0.map_values(
                        |v: Vec<u8>| v@,
                    ) + seq![seg@]);
                    assert(r@.map_values(|v: Vec<u8>| v@) + split_bytes(tail@, p@)
                        =~= split_bytes(s@, p@));
                }
                rest = tail;
            },
        }
    }
}

} // verus!
