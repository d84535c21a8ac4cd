use vstd::prelude::*;
use vstd::string::StringSliceAdditionalSpecFns;
use vstd::utf8::encode_utf8;

verus! {

/// Whether `needle` occurs in `haystack` at byte position `at`.
pub open spec fn occurs_at(haystack: Seq<u8>, needle: Seq<u8>, at: int) -> bool {
    0 <= at && at + needle.len() <= haystack.len() && haystack.subrange(
        at,
        at + needle.len(),
    ) =~= needle
}

/// The byte position of the first occurrence of `needle` in `haystack` at or
/// after `start`, where there is one.
pub open spec fn find_from(haystack: Seq<u8>, needle: Seq<u8>, start: int) -> Option<int>
    decreases haystack.len() - start,
{
    if start < 0 || start + needle.len() > haystack.len() {
        None
    } else if occurs_at(haystack, needle, start) {
        Some(start)
    } else {
        find_from(haystack, needle, start + 1)
    }
}

/// How far a filter is from naming `source` exactly, where it occurs in it:
/// the position of its first occurrence plus the number of bytes by which
/// `source` is longer. A filter that does not occur has no distance.
pub open spec fn distance(source: Seq<u8>, filter: Seq<u8>) -> Option<int> {
    match find_from(source, filter, 0) {
        Some(at) => Some(source.len() - filter.len() + at),
        None => None,
    }
}

/// The index of the filter among the first `upto` that is closest to
/// `source`, where one of them occurs in it. Of two filters at the same
/// distance the earlier one wins.
pub open spec fn closest<L>(source: Seq<u8>, filters: Seq<(String, L)>, upto: int) -> Option<int>
    decreases upto,
{
    if upto <= 0 {
        None
    } else {
        let earlier = closest(source, filters, upto - 1);
        match distance(source, encode_utf8(filters[upto - 1].0@)) {
            None => earlier,
            Some(d) => match earlier {
                None => Some(upto - 1),
                Some(best) => if d < distance(
                    source,
                    encode_utf8(filters[best].0@),
                ).unwrap() {
                    Some(upto - 1)
                } else {
                    earlier
                },
            },
        }
    }
}

/// Whether `needle` occurs in `haystack` at byte position `at`.
fn occurs_here(haystack: &[u8], needle: &[u8], at: usize) -> (occurs: bool)
    requires
        at + needle@.len() <= haystack@.len(),
    ensures
        occurs == occurs_at(haystack@, needle@, at as int),
{
    let available = haystack.len();
    let mut i: usize = 0;
    while i < needle.len()
        invariant
            i <= needle@.len(),
            at + needle@.len() <= haystack@.len(),
            haystack@.len() == available,
            forall|j: int| 0 <= j < i ==> haystack@[at + j] == needle@[j],
        decreases needle@.len() - i,
    {
        if haystack[at + i] != needle[i] {
            assert(haystack@.subrange(at as int, at + needle@.len())[i as int] != needle@[i as int]);
            return false;
        }
        i += 1;
    }
    assert(haystack@.subrange(at as int, at + needle@.len()) =~= needle@);
    true
}

/// The byte position of the first occurrence of `needle` in `haystack`.
pub fn find_bytes(haystack: &[u8], needle: &[u8]) -> (found: Option<usize>)
    ensures
        match found {
            Some(at) => find_from(haystack@, needle@, 0) == Some(at as int),
            None => find_from(haystack@, needle@, 0) is None,
        },
{
    if needle.len() > haystack.len() {
        return None;
    }
    let last = haystack.len() - needle.len();
    let mut at: usize = 0;
    loop
        invariant
            at <= last,
            last == haystack@.len() - needle@.len(),
            find_from(haystack@, needle@, 0) == find_from(haystack@, needle@, at as int),
        decreases last - at,
    {
        if occurs_here(haystack, needle, at) {
            return Some(at);
        }
        if at == last {
            assert(find_from(haystack@, needle@, at + 1) is None);
            return None;
        }
        at += 1;
    }
}

/// Picks the level of the filter that names `source` most closely.
///
/// A filter applies where it occurs in `source`. Among the filters that
/// apply, the one at the smallest distance is chosen, and the first of them
/// where several are equally close. Where no filter applies there is no
/// level.
pub fn get_most_accurate_filter<L: Copy>(source: &str, filters: &[(String, L)]) -> (level: Option<
    L,
>)
    ensures
        match closest(encode_utf8(source@), filters@, filters@.len() as int) {
            Some(best) => 0 <= best < filters@.len() && level == Some(filters@[best].1),
            None => level is None,
        },
{
    let source_bytes = source.as_bytes();
    let mut best: Option<(usize, u128)> = None;
    let mut i: usize = 0;
    while i < filters.len()
        invariant
            i <= filters@.len(),
            source_bytes@ == encode_utf8(source@),
            match best {
                Some(pair) => {
                    &&& closest(source_bytes@, filters@, i as int) == Some(pair.0 as int)
                    &&& pair.0 < i
                    &&& distance(source_bytes@, encode_utf8(filters@[pair.0 as int].0@)) == Some(
                        pair.1 as int,
                    )
                },
                None => closest(source_bytes@, filters@, i as int) is None,
            },
        decreases filters@.len() - i,
    {
        let filter_bytes = filters[i].0.as_str().as_bytes();
        match find_bytes(source_bytes, filter_bytes) {
            Some(at) => {
                let d: u128 = (source_bytes.len() - filter_bytes.len()) as u128 + at as u128;
                match best {
                    Some(pair) => {
                        if d < pair.1 {
                            best = Some((i, d));
                        }
                    },
                    None => {
                        best = Some((i, d));
                    },
                }
            },
            None => {},
        }
        i += 1;
    }
    match best {
        Some(pair) => Some(filters[pair.0].1),
        None => None,
    }
}

} // verus!
