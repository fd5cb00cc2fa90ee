//! Matching a process or module image path against a bare file name.
//!
//! The host layer hands over the raw, NUL-padded byte buffer that a name
//! query filled. A candidate matches when, after the trailing NUL padding is
//! dropped, the final path component (everything after the last `'\\'`
//! separator) equals the requested name byte for byte.

use vstd::prelude::*;

verus! {

/// The path separator byte, `'\\'`.
pub const SEPARATOR: u8 = 92;

/// Length of `s` once every trailing NUL byte is dropped.
pub open spec fn trimmed_len(s: Seq<u8>) -> nat
    decreases s.len(),
{
    if s.len() == 0 {
        0
    } else if s.last() == 0 {
        trimmed_len(s.drop_last())
    } else {
        s.len()
    }
}

/// `s` with every trailing NUL byte removed.
pub open spec fn trim_nuls(s: Seq<u8>) -> Seq<u8> {
    s.take(trimmed_len(s) as int)
}

/// Index of the last separator byte in `s`, or `-1` when `s` has none.
pub open spec fn last_sep(s: Seq<u8>) -> int
    decreases s.len(),
{
    if s.len() == 0 {
        -1
    } else if s.last() == SEPARATOR {
        s.len() - 1
    } else {
        last_sep(s.drop_last())
    }
}

pub proof fn lemma_last_sep_range(s: Seq<u8>)
    ensures
        -1 <= last_sep(s) < s.len(),
    decreases s.len(),
{
    if s.len() > 0 && s.last() != SEPARATOR {
        lemma_last_sep_range(s.drop_last());
    }
}

/// The final path component of `s`: everything after the last separator, or
/// all of `s` when it has none.
pub open spec fn last_component(s: Seq<u8>) -> Seq<u8> {
    s.skip(last_sep(s) + 1)
}

/// Whether the NUL-padded path buffer `raw` resolves to `target`: its final
/// path component, after trimming, equals `target` exactly.
pub open spec fn matches_name(raw: Seq<u8>, target: Seq<u8>) -> bool {
    last_component(trim_nuls(raw)) == target
}

/// Number of bytes of `raw` that remain once the trailing NUL padding is
/// dropped.
pub fn trimmed_length(raw: &Vec<u8>) -> (n: usize)
    ensures
        n == trimmed_len(raw@),
        n <= raw.len(),
{
    let mut i: usize = raw.len();
    proof {
        assert(raw@.take(raw@.len() as int) =~= raw@);
    }
    while i > 0 && raw[i - 1] == 0
        invariant
            i <= raw.len(),
            trimmed_len(raw@) == trimmed_len(raw@.take(i as int)),
        decreases i,
    {
        proof {
            assert(raw@.take(i as int).last() == raw@[i - 1]);
            assert(raw@.take(i as int).drop_last() =~= raw@.take(i - 1));
        }
        i = i - 1;
    }
    proof {
        if i > 0 {
            assert(raw@.take(i as int).last() == raw@[i - 1]);
            assert(trimmed_len(raw@.take(i as int)) == i);
        }
    }
    i
}

/// Index at which the final path component of `raw`'s first `end` bytes
/// starts: one past the last separator, or zero when there is none.
pub fn component_start(raw: &Vec<u8>, end: usize) -> (start: usize)
    requires
        end <= raw.len(),
    ensures
        start == last_sep(raw@.take(end as int)) + 1,
        start <= end,
{
    let mut j: usize = end;
    proof {
        assert(raw@.take(end as int).take(end as int) =~= raw@.take(end as int));
    }
    while j > 0 && raw[j - 1] != SEPARATOR
        invariant
            j <= end <= raw.len(),
            last_sep(raw@.take(end as int)) == last_sep(raw@.take(j as int)),
        decreases j,
    {
        proof {
            assert(raw@.take(j as int).last() == raw@[j - 1]);
            assert(raw@.take(j as int).drop_last() =~= raw@.take(j - 1));
        }
        j = j - 1;
    }
    proof {
        if j > 0 {
            assert(raw@.take(j as int).last() == raw@[j - 1]);
            assert(last_sep(raw@.take(j as int)) == j - 1);
        }
        lemma_last_sep_range(raw@.take(j as int));
    }
    j
}

/// Whether the NUL-padded path buffer `raw` resolves to `target` as its
/// final path component.
pub fn name_matches(raw: &Vec<u8>, target: &Vec<u8>) -> (b: bool)
    ensures
        b == matches_name(raw@, target@),
{
    let end = trimmed_length(raw);
    let start = component_start(raw, end);
    proof {
        lemma_last_sep_range(raw@.take(end as int));
        assert(last_component(trim_nuls(raw@)) =~= raw@.subrange(start as int, end as int));
    }
    if end - start != target.len() {
        proof {
            assert(last_component(trim_nuls(raw@)).len() == end - start);
        }
        return false;
    }
    let mut k: usize = 0;
    while k < target.len()
        invariant
            start + target.len() == end,
            end <= raw.len(),
            k <= target.len(),
            last_component(trim_nuls(raw@)) =~= raw@.subrange(start as int, end as int),
            forall|t: int| 0 <= t < k ==> raw@[start + t] == target@[t],
        decreases target.len() - k,
    {
        if raw[start + k] != target[k] {
            proof {
                assert(last_component(trim_nuls(raw@))[k as int] != target@[k as int]);
            }
            return false;
        }
        k = k + 1;
    }
    proof {
        assert(raw@.subrange(start as int, end as int) =~= target@);
    }
    true
}

/// The last separator of `prefix ++ ['\\'] ++ name` is the one written
/// between the two parts, provided `name` itself holds no separator.
pub proof fn lemma_last_sep_of_concat(prefix: Seq<u8>, name: Seq<u8>)
    requires
        forall|i: int| 0 <= i < name.len() ==> name[i] != SEPARATOR,
    ensures
        last_sep(prefix.push(SEPARATOR) + name) == prefix.len(),
    decreases name.len(),
{
    let s = prefix.push(SEPARATOR) + name;
    if name.len() == 0 {
        assert(s =~= prefix.push(SEPARATOR));
        assert(s.last() == SEPARATOR);
    } else {
        assert(s.last() == name.last());
        assert(s.drop_last() =~= prefix.push(SEPARATOR) + name.drop_last());
        lemma_last_sep_of_concat(prefix, name.drop_last());
    }
}

/// A name that holds no separator is the final component of any path formed
/// by writing a directory prefix, a separator, and the name: the prefix
/// cannot influence the match. Two paths differing only in their directory
/// prefix therefore resolve to the same final component.
pub proof fn lemma_prefix_irrelevant(prefix: Seq<u8>, name: Seq<u8>)
    requires
        forall|i: int| 0 <= i < name.len() ==> name[i] != SEPARATOR,
    ensures
        last_component(prefix.push(SEPARATOR) + name) == name,
{
    let s = prefix.push(SEPARATOR) + name;
    lemma_last_sep_of_concat(prefix, name);
    assert(s.skip(prefix.len() as int + 1) =~= name);
}

} // verus!
