//! Route labels: a raw URL path is turned into a label of bounded cardinality by replacing
//! every identifier segment with a placeholder.

use vstd::prelude::*;
use vstd::string::*;
use crate::identifier::{is_identifier, is_identifier_segment};
use crate::text::is_digit;

verus! {

/// The text that stands in for an identifier segment: `{id}`.
pub open spec fn placeholder() -> Seq<char> {
    seq!['{', 'i', 'd', '}']
}

/// The number of characters of `p` in front of its first `/`, or its length if it has none.
pub open spec fn slash_free_prefix(p: Seq<char>) -> nat
    decreases p.len(),
{
    if p.len() == 0 || p[0] == '/' {
        0
    } else {
        1 + slash_free_prefix(p.skip(1))
    }
}

/// The segments of a path: the maximal runs of characters other than `/`, in order. Repeated,
/// leading and trailing slashes yield no segment.
pub open spec fn segments(p: Seq<char>) -> Seq<Seq<char>>
    decreases p.len(),
{
    let n = slash_free_prefix(p) as int;
    let first = if n == 0 {
        Seq::<Seq<char>>::empty()
    } else {
        seq![p.take(n)]
    };
    if n >= p.len() {
        first
    } else {
        first + segments(p.skip(n + 1))
    }
}

/// What a segment contributes to the label: the placeholder for an identifier, else itself.
pub open spec fn segment_label(segment: Seq<char>) -> Seq<char> {
    if is_identifier(segment) {
        placeholder()
    } else {
        segment
    }
}

/// The labels of a sequence of segments.
pub open spec fn labels_of(segs: Seq<Seq<char>>) -> Seq<Seq<char>> {
    segs.map_values(|segment: Seq<char>| segment_label(segment))
}

/// The parts joined into one text, each behind a `/`.
pub open spec fn joined(parts: Seq<Seq<char>>) -> Seq<char>
    decreases parts.len(),
{
    if parts.len() == 0 {
        Seq::empty()
    } else {
        seq!['/'] + parts[0] + joined(parts.skip(1))
    }
}

/// The route label of a path: its segment labels joined by `/` behind a leading `/`, and `/`
/// alone for a path without segments.
pub open spec fn normalized(p: Seq<char>) -> Seq<char> {
    let labels = labels_of(segments(p));
    if labels.len() == 0 {
        seq!['/']
    } else {
        joined(labels)
    }
}

/// Where the first slash of `p` is: behind `k` characters that are no slashes.
pub proof fn lemma_slash_free_prefix(p: Seq<char>, k: int)
    requires
        0 <= k <= p.len(),
        forall|j: int| 0 <= j < k ==> p[j] != '/',
        k == p.len() || p[k] == '/',
    ensures
        slash_free_prefix(p) == k,
    decreases k,
{
    if k > 0 {
        lemma_slash_free_prefix(p.skip(1), k - 1);
    }
}

/// The segments of the part of `p` that starts at `start`, when its first segment ends at `end`.
proof fn lemma_segments_from(p: Seq<char>, start: int, end: int)
    requires
        0 <= start <= end <= p.len(),
        forall|j: int| start <= j < end ==> p[j] != '/',
        end == p.len() || p[end] == '/',
    ensures
        segments(p.skip(start)) == (if start == end {
            Seq::<Seq<char>>::empty()
        } else {
            seq![p.subrange(start, end)]
        }) + (if end == p.len() {
            Seq::<Seq<char>>::empty()
        } else {
            segments(p.skip(end + 1))
        }),
{
    let rest = p.skip(start);
    lemma_slash_free_prefix(rest, end - start);
    assert(rest.take(end - start) == p.subrange(start, end));
    if end < p.len() {
        assert(rest.skip(end - start + 1) == p.skip(end + 1));
    }
}

/// Joining a first part and the rest.
proof fn lemma_joined_first(part: Seq<char>, rest: Seq<Seq<char>>)
    ensures
        joined(seq![part] + rest) == seq!['/'] + part + joined(rest),
{
    let all = seq![part] + rest;
    assert(all.skip(1) == rest);
}

/// The first slash of `p` stands right behind its slash-free prefix.
pub proof fn lemma_first_slash(p: Seq<char>)
    ensures
        slash_free_prefix(p) <= p.len(),
        forall|j: int| 0 <= j < slash_free_prefix(p) ==> p[j] != '/',
        slash_free_prefix(p) == p.len() || p[slash_free_prefix(p) as int] == '/',
    decreases p.len(),
{
    if p.len() > 0 && p[0] != '/' {
        lemma_first_slash(p.skip(1));
        assert forall|j: int| 0 <= j < slash_free_prefix(p) implies p[j] != '/' by {
            if j > 0 {
                assert(p[j] == p.skip(1)[j - 1]);
            }
        }
    }
}

/// Whether every segment of `p` is kept as it is.
pub open spec fn has_plain_segments(p: Seq<char>) -> bool {
    forall|i: int| 0 <= i < segments(p).len() ==> !is_identifier(#[trigger] segments(p)[i])
}

/// A path in collapsed form: it starts with a slash, holds no two slashes in a row, and ends
/// with a slash only if it is `/` itself.
pub open spec fn is_collapsed(p: Seq<char>) -> bool {
    &&& p.len() > 0
    &&& p[0] == '/'
    &&& forall|i: int| 0 <= i < p.len() - 1 ==> !(#[trigger] p[i] == '/' && p[i + 1] == '/')
    &&& p.len() > 1 ==> p.last() != '/'
}

/// A text that neither starts nor ends with a slash and holds no two in a row comes back from
/// its segments, behind one more slash.
proof fn lemma_joined_segments(q: Seq<char>)
    requires
        q.len() > 0,
        q[0] != '/',
        q.last() != '/',
        forall|i: int| 0 <= i < q.len() - 1 ==> !(#[trigger] q[i] == '/' && q[i + 1] == '/'),
    ensures
        joined(segments(q)) == seq!['/'] + q,
    decreases q.len(),
{
    lemma_first_slash(q);
    let n = slash_free_prefix(q) as int;
    let none = Seq::<Seq<char>>::empty();
    if n >= q.len() {
        assert(q.take(n) == q);
        lemma_joined_first(q, none);
        assert(seq![q] + none == seq![q]);
    } else {
        let rest = q.skip(n + 1);
        assert(q[n] == '/');
        assert(rest[0] == q[n + 1]);
        assert(rest.last() == q.last());
        assert forall|i: int| 0 <= i < rest.len() - 1 implies !(#[trigger] rest[i] == '/' && rest[i
            + 1] == '/') by {
            assert(rest[i] == q[n + 1 + i]);
            assert(rest[i + 1] == q[n + 1 + i + 1]);
        }
        lemma_joined_segments(rest);
        lemma_joined_first(q.take(n), segments(rest));
        assert(q.take(n) + seq!['/'] + rest == q);
    }
}

/// A path whose segments are all kept loses nothing but superfluous slashes: its label is its
/// segments, each behind one slash.
pub proof fn lemma_plain_segments_are_kept(p: Seq<char>)
    requires
        has_plain_segments(p),
    ensures
        normalized(p) == (if segments(p).len() == 0 {
            seq!['/']
        } else {
            joined(segments(p))
        }),
{
    assert(labels_of(segments(p)) == segments(p));
}

/// A path in collapsed form whose segments are all kept is its own label.
pub proof fn lemma_collapsed_path_is_its_label(p: Seq<char>)
    requires
        is_collapsed(p),
        has_plain_segments(p),
    ensures
        normalized(p) == p,
{
    lemma_plain_segments_are_kept(p);
    assert(slash_free_prefix(p) == 0);
    if p.len() == 1 {
        assert(p.skip(1).len() == 0);
        assert(segments(p.skip(1)).len() == 0);
        assert(p == seq!['/']);
    } else {
        let q = p.skip(1);
        assert(q[0] == p[1]);
        assert(q.last() == p.last());
        assert forall|i: int| 0 <= i < q.len() - 1 implies !(#[trigger] q[i] == '/' && q[i + 1]
            == '/') by {
            assert(q[i] == p[i + 1]);
            assert(q[i + 1] == p[i + 2]);
        }
        lemma_joined_segments(q);
        assert(Seq::<Seq<char>>::empty() + segments(q) == segments(q));
        assert(seq!['/'] + q == p);
        lemma_first_slash(q);
    }
}

/// What a segment is: a text that is not empty and holds no slash.
pub open spec fn is_part(s: Seq<char>) -> bool {
    &&& s.len() > 0
    &&& forall|j: int| 0 <= j < s.len() ==> s[j] != '/'
}

/// Whether every text of `parts` can be a segment.
pub open spec fn are_parts(parts: Seq<Seq<char>>) -> bool {
    forall|i: int| 0 <= i < parts.len() ==> is_part(#[trigger] parts[i])
}

/// Every segment of a path is a part.
pub proof fn lemma_segments_are_parts(p: Seq<char>)
    ensures
        are_parts(segments(p)),
    decreases p.len(),
{
    lemma_first_slash(p);
    let n = slash_free_prefix(p) as int;
    if n < p.len() {
        lemma_segments_are_parts(p.skip(n + 1));
    }
}

/// What is joined of parts has those parts as its segments.
pub proof fn lemma_segments_of_joined(parts: Seq<Seq<char>>)
    requires
        are_parts(parts),
    ensures
        segments(joined(parts)) == parts,
    decreases parts.len(),
{
    let none = Seq::<Seq<char>>::empty();
    if parts.len() > 0 {
        let part = parts[0];
        let rest = parts.skip(1);
        let text = joined(parts);
        let tail = text.skip(1);
        assert(is_part(part));
        assert(are_parts(rest)) by {
            assert forall|i: int| 0 <= i < rest.len() implies is_part(#[trigger] rest[i]) by {
                assert(rest[i] == parts[i + 1]);
            }
        }
        lemma_segments_of_joined(rest);
        assert(tail == part + joined(rest));
        assert(none + segments(tail) == segments(tail));
        lemma_slash_free_prefix(tail, part.len() as int);
        assert(tail.take(part.len() as int) == part);
        if rest.len() > 0 {
            assert(tail.skip(part.len() as int) == joined(rest));
            assert(tail.skip(part.len() as int + 1) == joined(rest).skip(1));
            assert(none + segments(joined(rest).skip(1)) == segments(joined(rest).skip(1)));
            assert(seq![part] + rest == parts);
        } else {
            assert(seq![part] == parts);
        }
    }
}

/// The placeholder is no identifier, so a label is never replaced again.
pub proof fn lemma_placeholder_is_kept()
    ensures
        is_part(placeholder()),
        !is_identifier(placeholder()),
{
    assert(!is_digit(placeholder()[0]));
}

/// The labels of segments are parts, and none of them is an identifier.
pub proof fn lemma_labels_are_plain_parts(segs: Seq<Seq<char>>)
    requires
        are_parts(segs),
    ensures
        are_parts(labels_of(segs)),
        forall|i: int| 0 <= i < segs.len() ==> !is_identifier(#[trigger] labels_of(segs)[i]),
        labels_of(labels_of(segs)) == labels_of(segs),
{
    lemma_placeholder_is_kept();
    assert forall|i: int| 0 <= i < segs.len() implies is_part(#[trigger] labels_of(segs)[i]) by {
        assert(is_part(segs[i]));
    }
}

/// A route label holds no identifier: its segments are the labels of the path's segments, and
/// each of them is the placeholder or a segment that is none. This is what keeps the number of
/// route labels small.
pub proof fn lemma_label_holds_no_identifier(p: Seq<char>)
    ensures
        segments(normalized(p)) == labels_of(segments(p)),
        has_plain_segments(normalized(p)),
{
    lemma_segments_are_parts(p);
    let labels = labels_of(segments(p));
    lemma_labels_are_plain_parts(segments(p));
    if labels.len() == 0 {
        let root = seq!['/'];
        assert(slash_free_prefix(root) == 0);
        assert(root.skip(1).len() == 0);
        assert(segments(root.skip(1)).len() == 0);
        assert(segments(root) == labels);
    } else {
        lemma_segments_of_joined(labels);
    }
}

/// Normalizing a route label changes nothing.
pub proof fn lemma_normalized_is_idempotent(p: Seq<char>)
    ensures
        normalized(normalized(p)) == normalized(p),
{
    lemma_label_holds_no_identifier(p);
    lemma_segments_are_parts(p);
    lemma_labels_are_plain_parts(segments(p));
}

/// Appends the label of the segment `path[start..end]` to `out`, behind a `/`.
fn push_segment(out: &mut String, path: &str, start: usize, end: usize)
    requires
        start < end <= path@.len(),
    ensures
        final(out)@ == old(out)@ + seq!['/'] + segment_label(path@.subrange(start as int, end as int)),
{
    let segment = path.substring_char(start, end);
    proof {
        reveal_strlit("/");
        reveal_strlit("{id}");
    }
    out.append("/");
    if is_identifier_segment(segment) {
        out.append("{id}");
        assert("{id}"@ == placeholder());
    } else {
        out.append(segment);
    }
}

/// Turns a raw URL path into its route label: the path is split on `/`, empty segments are
/// dropped, every segment that is an unsigned integer or a canonical UUID becomes `{id}`, and
/// the rest is joined again behind a leading `/`. A path without segments gives `/`.
pub fn normalize_endpoint(path: &str) -> (label: String)
    ensures
        label@ == normalized(path@),
{
    let chars = crate::text::chars_of(path);
    let n = chars.len();
    let mut out = String::new();
    let mut start: usize = 0;
    let mut i: usize = 0;
    assert(path@.skip(0) == path@);
    assert(out@ + joined(labels_of(segments(path@))) == joined(labels_of(segments(path@))));
    while i < n
        invariant
            0 <= start <= i <= n,
            n == path@.len(),
            chars@ == path@,
            forall|j: int| start <= j < i ==> path@[j] != '/',
            out@ + joined(labels_of(segments(path@.skip(start as int)))) == joined(
                labels_of(segments(path@)),
            ),
        decreases n - i,
    {
        if chars[i] == '/' {
            proof {
                lemma_segments_from(path@, start as int, i as int);
                let seg = path@.subrange(start as int, i as int);
                let rest = segments(path@.skip(i + 1));
                if start < i {
                    assert(labels_of(seq![seg] + rest) == seq![segment_label(seg)] + labels_of(
                        rest,
                    ));
                    lemma_joined_first(segment_label(seg), labels_of(rest));
                } else {
                    assert(Seq::<Seq<char>>::empty() + rest == rest);
                }
            }
            if start < i {
                push_segment(&mut out, path, start, i);
            }
            start = i + 1;
        }
        i += 1;
    }
    proof {
        lemma_segments_from(path@, start as int, n as int);
        let seg = path@.subrange(start as int, n as int);
        let none = Seq::<Seq<char>>::empty();
        if start < n {
            assert(labels_of(seq![seg] + none) == seq![segment_label(seg)] + labels_of(none));
            lemma_joined_first(segment_label(seg), labels_of(none));
        } else {
            assert(none + none == none);
        }
        assert(labels_of(none) == none);
    }
    if start < n {
        push_segment(&mut out, path, start, n);
    }
    if out.as_str().is_empty() {
        proof {
            reveal_strlit("/");
        }
        "/".to_owned()
    } else {
        out
    }
}

} // verus!
