//! Derivation of the destination file name from the path of the resolved
//! response address: the last path segment when there is a nonempty one, a
//! fixed default name otherwise.

use vstd::prelude::*;
use vstd::string::StrSliceExecFns;
use vstd::string::StringSliceAdditionalSpecFns;

verus! {

/// The byte that separates path segments.
pub const SLASH: u8 = 47;

pub open spec fn default_file_name_spec() -> Seq<u8> {
    "dsr-setup.exe".spec_bytes()
}

/// Name used when the resolved path yields no usable final segment.
pub fn default_file_name() -> (name: Vec<u8>)
    ensures
        name@ == default_file_name_spec(),
{
    "dsr-setup.exe".as_bytes_vec()
}

/// Index of the last separator in `s`, or -1 when none occurs.
pub open spec fn last_slash(s: Seq<u8>) -> int
    decreases s.len(),
{
    if s.len() == 0 {
        -1
    } else if s[s.len() - 1] == SLASH {
        s.len() - 1
    } else {
        last_slash(s.drop_last())
    }
}

pub proof fn lemma_last_slash_bounds(s: Seq<u8>)
    ensures
        -1 <= last_slash(s) < s.len(),
        last_slash(s) >= 0 ==> s[last_slash(s)] == SLASH,
        last_slash(s) >= 0 ==> forall|k: int| last_slash(s) < k < s.len() ==> s[k] != SLASH,
        last_slash(s) < 0 ==> forall|k: int| 0 <= k < s.len() ==> s[k] != SLASH,
    decreases s.len(),
{
    if s.len() == 0 {
    } else if s[s.len() - 1] == SLASH {
    } else {
        let t = s.drop_last();
        lemma_last_slash_bounds(t);
        assert(last_slash(s) == last_slash(t));
        if last_slash(t) >= 0 {
            assert forall|k: int| last_slash(s) < k < s.len() implies s[k] != SLASH by {
                if k < s.len() - 1 {
                    assert(s[k] == t[k]);
                }
            }
        } else {
            assert forall|k: int| 0 <= k < s.len() implies s[k] != SLASH by {
                if k < s.len() - 1 {
                    assert(s[k] == t[k]);
                }
            }
        }
    }
}

/// The position of the last separator is pinned by a separator with none
/// after it.
pub proof fn lemma_last_slash_at(s: Seq<u8>, j: int)
    requires
        0 <= j < s.len(),
        s[j] == SLASH,
        forall|k: int| j < k < s.len() ==> s[k] != SLASH,
    ensures
        last_slash(s) == j,
    decreases s.len(),
{
    if j < s.len() - 1 {
        lemma_last_slash_at(s.drop_last(), j);
    }
}

/// Segments of `s`, split on the separator. Splitting keeps empty segments,
/// so the result always holds at least one (possibly empty) segment.
pub open spec fn split_on_slash(s: Seq<u8>) -> Seq<Seq<u8>>
    decreases s.len() via split_on_slash_decreases
{
    if last_slash(s) < 0 {
        seq![s]
    } else {
        split_on_slash(s.take(last_slash(s))) + seq![s.skip(last_slash(s) + 1)]
    }
}

#[via_fn]
proof fn split_on_slash_decreases(s: Seq<u8>) {
    lemma_last_slash_bounds(s);
}

/// The file name the download routine derives from the bytes of the resolved
/// path: the last path segment, when the path has segments and the last one
/// is nonempty; the default name otherwise. A path that does not begin with
/// the separator stands for an address whose path splits into no segments.
pub open spec fn derived_file_name(path: Seq<u8>) -> Seq<u8> {
    if path.len() == 0 || path[0] != SLASH {
        default_file_name_spec()
    } else {
        let seg = path.skip(last_slash(path) + 1);
        if seg.len() == 0 {
            default_file_name_spec()
        } else {
            seg
        }
    }
}

/// Derive the destination file name from the bytes of the resolved path.
pub fn derive_file_name(path: &Vec<u8>) -> (name: Vec<u8>)
    ensures
        name@ == derived_file_name(path@),
{
    if path.len() == 0 || path[0] != SLASH {
        return default_file_name();
    }
    let mut j: usize = path.len() - 1;
    while path[j] != SLASH
        invariant
            0 <= j < path@.len(),
            path@[0] == SLASH,
            forall|k: int| j < k < path@.len() ==> path@[k] != SLASH,
        decreases j,
    {
        j = j - 1;
    }
    proof {
        lemma_last_slash_at(path@, j as int);
    }
    let mut name: Vec<u8> = Vec::new();
    let mut k: usize = j + 1;
    while k < path.len()
        invariant
            j + 1 <= k <= path@.len(),
            name@ == path@.subrange(j + 1, k as int),
        decreases path@.len() - k,
    {
        name.push(path[k]);
        k = k + 1;
    }
    proof {
        assert(name@ =~= path@.skip(j + 1));
    }
    if name.len() == 0 {
        default_file_name()
    } else {
        name
    }
}

proof fn lemma_last_slash_skip_one(s: Seq<u8>)
    requires
        s.len() >= 1,
    ensures
        last_slash(s) >= 1 ==> last_slash(s.skip(1)) == last_slash(s) - 1,
        last_slash(s) <= 0 ==> last_slash(s.skip(1)) < 0,
    decreases s.len(),
{
    let r = s.skip(1);
    lemma_last_slash_bounds(s);
    if s.len() == 1 {
        assert(r.len() == 0);
        assert(last_slash(r) < 0);
    } else if s[s.len() - 1] == SLASH {
        assert(last_slash(s) == s.len() - 1);
        assert(r.len() == s.len() - 1);
        assert(r[r.len() - 1] == s[s.len() - 1]);
        assert(last_slash(r) == r.len() - 1);
    } else {
        let t = s.drop_last();
        lemma_last_slash_skip_one(t);
        assert(last_slash(s) == last_slash(t));
        assert(r.len() == s.len() - 1);
        assert(r[r.len() - 1] == s[s.len() - 1]);
        assert(last_slash(r) == last_slash(r.drop_last()));
        assert(r.drop_last() =~= t.skip(1));
    }
}

/// File-name derivation law, segment side: when the path has segments — it
/// begins with the separator — the derived name is the final segment when
/// that segment is nonempty, and the default name when it is empty.
pub proof fn lemma_derived_name_is_last_segment(path: Seq<u8>)
    requires
        path.len() > 0,
        path[0] == SLASH,
    ensures
        split_on_slash(path.skip(1)).len() >= 1,
        derived_file_name(path) == ({
            let seg = split_on_slash(path.skip(1)).last();
            if seg.len() == 0 {
                default_file_name_spec()
            } else {
                seg
            }
        }),
{
    let s = path.skip(1);
    let j = last_slash(path);
    lemma_last_slash_bounds(path);
    assert(j >= 0);
    lemma_last_slash_skip_one(path);
    if j == 0 {
        assert(last_slash(s) < 0);
        assert(split_on_slash(s) == seq![s]);
        assert(split_on_slash(s).last() == s);
        assert(s =~= path.skip(j + 1));
    } else {
        let js = last_slash(s);
        assert(js == j - 1);
        assert(split_on_slash(s) == split_on_slash(s.take(js)) + seq![s.skip(js + 1)]);
        assert(split_on_slash(s).last() == s.skip(js + 1));
        assert(s.skip(js + 1) =~= path.skip(j + 1));
    }
}

/// File-name derivation law, degenerate side: a path that yields no segments
/// derives the default name.
pub proof fn lemma_derived_name_without_segments(path: Seq<u8>)
    requires
        path.len() == 0 || path[0] != SLASH,
    ensures
        derived_file_name(path) == default_file_name_spec(),
{
}

} // verus!
