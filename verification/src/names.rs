//! Derivation of output filenames.
//!
//! An input path is split on `'.'`; the final segment (the extension) is
//! discarded and the remaining segments, rejoined with `'.'`, form the base
//! name.  The target format is then appended as the new extension.  A path
//! without any `'.'` consists of a single segment, and discarding it leaves
//! an empty base name, so the derived output name is `"." + format`; this
//! literal behaviour is kept deliberately.

use vstd::prelude::*;
use vstd::string::*;

verus! {

/// Whether the path contains a `'.'` separator.
pub open spec fn has_dot(s: Seq<char>) -> bool {
    s.contains('.')
}

/// Index of the last `'.'` in `s`.
pub open spec fn last_dot_index(s: Seq<char>) -> int
    recommends
        has_dot(s),
    decreases s.len(),
{
    if s.len() == 0 {
        0
    } else if s[s.len() - 1] == '.' {
        s.len() - 1
    } else {
        last_dot_index(s.drop_last())
    }
}

/// The base name: everything before the last `'.'`, or the empty
/// sequence when the path has no `'.'` at all.
pub open spec fn base_name_of(s: Seq<char>) -> Seq<char> {
    if has_dot(s) {
        s.subrange(0, last_dot_index(s))
    } else {
        Seq::empty()
    }
}

/// The final `'.'`-delimited segment: everything after the last `'.'`.
pub open spec fn final_segment_of(s: Seq<char>) -> Seq<char>
    recommends
        has_dot(s),
{
    s.subrange(last_dot_index(s) + 1, s.len() as int)
}

/// The derived output name: base name, `'.'`, then the target format.
pub open spec fn output_name_of(path: Seq<char>, format: Seq<char>) -> Seq<char> {
    base_name_of(path) + seq!['.'] + format
}

proof fn lemma_last_dot_props(s: Seq<char>)
    requires
        has_dot(s),
    ensures
        0 <= last_dot_index(s) < s.len(),
        s[last_dot_index(s)] == '.',
        forall|j: int| last_dot_index(s) < j < s.len() ==> s[j] != '.',
    decreases s.len(),
{
    if s.len() == 0 {
        assert(false);
    } else if s[s.len() - 1] == '.' {
    } else {
        let i = choose|i: int| 0 <= i < s.len() && s[i] == '.';
        assert(s.drop_last()[i] == '.');
        assert(has_dot(s.drop_last()));
        lemma_last_dot_props(s.drop_last());
        assert forall|j: int| last_dot_index(s) < j < s.len() implies s[j] != '.' by {
            if j < s.len() - 1 {
                assert(s[j] == s.drop_last()[j]);
            }
        }
    }
}

proof fn lemma_last_dot_at(s: Seq<char>, k: int)
    requires
        0 <= k < s.len(),
        s[k] == '.',
        forall|j: int| k < j < s.len() ==> s[j] != '.',
    ensures
        has_dot(s),
        last_dot_index(s) == k,
    decreases s.len(),
{
    assert(has_dot(s));
    if k == s.len() - 1 {
    } else {
        assert(s[s.len() - 1] != '.');
        assert(s.drop_last()[k] == '.');
        lemma_last_dot_at(s.drop_last(), k);
    }
}

/// For a path with at least one `'.'`, the base name is the path with its
/// final `'.'`-delimited segment removed: the path decomposes as
/// base name, a `'.'`, then a segment holding no further `'.'`.
pub proof fn lemma_base_name_strips_final_segment(s: Seq<char>)
    requires
        has_dot(s),
    ensures
        s =~= base_name_of(s) + seq!['.'] + final_segment_of(s),
        !final_segment_of(s).contains('.'),
{
    lemma_last_dot_props(s);
    assert forall|j: int| 0 <= j < final_segment_of(s).len() implies final_segment_of(s)[j]
        != '.' by {
        assert(final_segment_of(s)[j] == s[last_dot_index(s) + 1 + j]);
    }
    if final_segment_of(s).contains('.') {
        let j = choose|j: int|
            0 <= j < final_segment_of(s).len() && final_segment_of(s)[j] == '.';
        assert(false);
    }
}

/// The decomposition above is unique: whenever the path is some prefix,
/// a `'.'`, and a tail free of `'.'`, that prefix is the base name and
/// that tail is the final segment.
pub proof fn lemma_base_name_unique(s: Seq<char>, base: Seq<char>, tail: Seq<char>)
    requires
        s =~= base + seq!['.'] + tail,
        !tail.contains('.'),
    ensures
        has_dot(s),
        base_name_of(s) == base,
        final_segment_of(s) == tail,
{
    let d = base.len() as int;
    assert(s[d] == '.');
    assert forall|j: int| d < j < s.len() implies s[j] != '.' by {
        let t = j - d - 1;
        assert(s[j] == tail[t]);
        if tail[t] == '.' {
            assert(tail.contains('.'));
        }
    }
    lemma_last_dot_at(s, d);
    assert(base_name_of(s) =~= base);
    assert(final_segment_of(s) =~= tail);
}

/// A path without a `'.'` has an empty base name, so the derived output
/// name is just `'.'` followed by the target format.
pub proof fn lemma_extensionless_output(path: Seq<char>, format: Seq<char>)
    requires
        !has_dot(path),
    ensures
        base_name_of(path) == Seq::<char>::empty(),
        output_name_of(path, format) =~= seq!['.'] + format,
{
}

/// The `'.'`-delimited segments of a path, in order.  A path without a
/// `'.'` is a single segment; otherwise the segments are those of the
/// part before the last `'.'`, followed by the final segment.
pub open spec fn split_dots(s: Seq<char>) -> Seq<Seq<char>>
    decreases s.len(),
    via split_dots_decreases
{
    if has_dot(s) {
        split_dots(base_name_of(s)).push(final_segment_of(s))
    } else {
        seq![s]
    }
}

#[via_fn]
proof fn split_dots_decreases(s: Seq<char>) {
    if has_dot(s) {
        lemma_last_dot_props(s);
    }
}

/// The segments rejoined with `'.'` as the separator.
pub open spec fn join_dots(parts: Seq<Seq<char>>) -> Seq<char>
    decreases parts.len(),
{
    if parts.len() == 0 {
        Seq::empty()
    } else if parts.len() == 1 {
        parts[0]
    } else {
        parts[0] + seq!['.'] + join_dots(parts.drop_first())
    }
}

proof fn lemma_join_push(parts: Seq<Seq<char>>, tail: Seq<char>)
    requires
        parts.len() >= 1,
    ensures
        join_dots(parts.push(tail)) == join_dots(parts) + seq!['.'] + tail,
    decreases parts.len(),
{
    if parts.len() == 1 {
        reveal_with_fuel(join_dots, 2);
        assert(parts.push(tail).drop_first() =~= seq![tail]);
        assert(join_dots(parts.push(tail)) =~= join_dots(parts) + seq!['.'] + tail);
    } else {
        assert(parts.push(tail).drop_first() =~= parts.drop_first().push(tail));
        lemma_join_push(parts.drop_first(), tail);
        assert(parts.push(tail)[0] == parts[0]);
        assert(join_dots(parts.push(tail)) == parts[0] + seq!['.'] + join_dots(
            parts.drop_first().push(tail),
        ));
        assert(join_dots(parts.push(tail)) =~= join_dots(parts) + seq!['.'] + tail);
    }
}

/// Rejoining the segments of a path with `'.'` gives the path back.
pub proof fn lemma_join_split_identity(s: Seq<char>)
    ensures
        join_dots(split_dots(s)) == s,
    decreases s.len(),
{
    if has_dot(s) {
        lemma_last_dot_props(s);
        lemma_join_split_identity(base_name_of(s));
        lemma_join_push(split_dots(base_name_of(s)), final_segment_of(s));
        lemma_base_name_strips_final_segment(s);
    }
}

/// The base name is the path split on `'.'` with the last segment
/// discarded and the rest rejoined with `'.'`: for a path with no `'.'`
/// the single segment is discarded and nothing is left.
pub proof fn lemma_base_name_joins_leading_segments(s: Seq<char>)
    ensures
        split_dots(s).len() >= 1,
        base_name_of(s) == join_dots(split_dots(s).drop_last()),
    decreases s.len(),
{
    if has_dot(s) {
        lemma_last_dot_props(s);
        assert(split_dots(s).drop_last() =~= split_dots(base_name_of(s)));
        lemma_join_split_identity(base_name_of(s));
    } else {
        assert(split_dots(s).drop_last() =~= Seq::<Seq<char>>::empty());
    }
}

/// Strips the final `'.'`-delimited segment from a path: splitting on
/// `'.'`, discarding the last segment and rejoining leaves everything
/// before the last `'.'`, or nothing when the path has no `'.'`.
pub fn format_file_name(file_name: &String) -> (r: String)
    ensures
        r@ == base_name_of(file_name@),
{
    let s = file_name.as_str();
    let n = s.unicode_len();
    let mut i: usize = n;
    while i > 0
        invariant
            i <= n,
            n == s@.len(),
            s@ == file_name@,
            forall|j: int| i <= j < n ==> s@[j] != '.',
        decreases i,
    {
        let c = s.get_char(i - 1);
        if c == '.' {
            proof {
                lemma_last_dot_at(s@, i - 1);
            }
            let base = s.substring_char(0, i - 1);
            return String::from_str(base);
        }
        i = i - 1;
    }
    proof {
        if has_dot(s@) {
            let k = choose|k: int| 0 <= k < s@.len() && s@[k] == '.';
            assert(false);
        }
    }
    String::new()
}

/// Derives the output filename: the base name of `file`, a `'.'`, then
/// the target `format` appended verbatim as the new extension.
pub fn output_file_name(file: &String, format: &String) -> (r: String)
    ensures
        r@ == output_name_of(file@, format@),
{
    let mut r = format_file_name(file);
    r.append(".");
    r.append(format.as_str());
    proof {
        reveal_strlit(".");
        assert("."@ =~= seq!['.']);
        assert(r@ =~= output_name_of(file@, format@));
    }
    r
}

} // verus!
