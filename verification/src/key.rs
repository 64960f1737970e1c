//! From a request path to an object key.
//!
//! A path is cut into segments at its slashes. A configured number of leading
//! segments is discarded, what is left loses its leading slashes, and the
//! configured prefix is put in front. No key is rejected: whether a key is
//! legal is left to the object store.

use vstd::prelude::*;
use vstd::std_specs::iter::IteratorSpec;
use vstd::string::*;

verus! {

/// The path without its first character, where that is a slash.
pub open spec fn without_leading_slash(path: Seq<char>) -> Seq<char> {
    if path.len() > 0 && path[0] == '/' {
        path.skip(1)
    } else {
        path
    }
}

/// The text without the slashes it starts with.
pub open spec fn trim_leading_slashes(text: Seq<char>) -> Seq<char>
    decreases text.len(),
{
    if text.len() > 0 && text[0] == '/' {
        trim_leading_slashes(text.skip(1))
    } else {
        text
    }
}

/// The pieces of `text` between its slashes, in order. A text with `n`
/// slashes has `n + 1` segments; the empty text has one, which is empty.
pub open spec fn segments(text: Seq<char>) -> Seq<Seq<char>>
    decreases text.len(),
{
    if text.len() == 0 {
        seq![Seq::<char>::empty()]
    } else {
        let rest = segments(text.skip(1));
        if text[0] == '/' {
            seq![Seq::<char>::empty()] + rest
        } else {
            seq![seq![text[0]] + rest[0]] + rest.skip(1)
        }
    }
}

/// The segments put together again, with one slash between neighbours.
pub open spec fn join(segs: Seq<Seq<char>>) -> Seq<char>
    decreases segs.len(),
{
    if segs.len() == 0 {
        Seq::<char>::empty()
    } else if segs.len() == 1 {
        segs[0]
    } else {
        segs[0] + seq!['/'] + join(segs.skip(1))
    }
}

/// The segments of a request path: those of the path after its one leading
/// slash, if any, is taken off.
pub open spec fn path_segments(path: Seq<char>) -> Seq<Seq<char>> {
    segments(without_leading_slash(path))
}

/// What is left of a request path once `count` leading segments are gone.
/// With a count of zero that is the path itself, less one leading slash; with
/// a count that reaches the number of segments, nothing.
pub open spec fn pruned(path: Seq<char>, count: nat) -> Seq<char> {
    let segs = path_segments(path);
    if count == 0 {
        without_leading_slash(path)
    } else if count >= segs.len() {
        Seq::<char>::empty()
    } else {
        join(segs.skip(count as int))
    }
}

/// The object key of a request path: the prefix, directly followed by what
/// is left of the path, less the slashes that this begins with.
pub open spec fn resolve(prefix: Seq<char>, path: Seq<char>, count: nat) -> Seq<char> {
    prefix + trim_leading_slashes(pruned(path, count))
}

/// The text behind its first `count` slashes, or nothing where it has fewer.
spec fn past_slashes(text: Seq<char>, count: nat) -> Seq<char>
    decreases text.len(),
{
    if count == 0 {
        text
    } else if text.len() == 0 {
        text
    } else if text[0] == '/' {
        past_slashes(text.skip(1), (count - 1) as nat)
    } else {
        past_slashes(text.skip(1), count)
    }
}

/// A text has at least one segment.
pub proof fn lemma_segments_nonempty(text: Seq<char>)
    ensures
        segments(text).len() >= 1,
    decreases text.len(),
{
    if text.len() > 0 {
        lemma_segments_nonempty(text.skip(1));
    }
}

/// Cutting a text at its slashes and joining the pieces gives the text back.
pub proof fn lemma_join_segments(text: Seq<char>)
    ensures
        join(segments(text)) == text,
    decreases text.len(),
{
    if text.len() > 0 {
        let tail = text.skip(1);
        let rest = segments(tail);
        lemma_segments_nonempty(tail);
        lemma_join_segments(tail);
        if text[0] == '/' {
            let all = seq![Seq::<char>::empty()] + rest;
            assert(all.skip(1) =~= rest);
            assert(join(all) =~= seq!['/'] + tail);
        } else {
            let head = seq![text[0]] + rest[0];
            let all = seq![head] + rest.skip(1);
            if rest.len() == 1 {
                assert(join(rest) == rest[0]);
                assert(join(all) =~= seq![text[0]] + tail);
            } else {
                assert(all.skip(1) =~= rest.skip(1));
                assert(join(rest) == rest[0] + seq!['/'] + join(rest.skip(1)));
                assert(join(all) =~= seq![text[0]] + tail);
            }
        }
        assert(seq![text[0]] + tail =~= text);
    }
}

/// Discarding `count` segments of a text leaves what stands behind its
/// `count`-th slash.
proof fn lemma_skip_segments(text: Seq<char>, count: nat)
    ensures
        count < segments(text).len() ==> join(segments(text).skip(count as int)) == past_slashes(
            text,
            count,
        ),
        count >= segments(text).len() ==> past_slashes(text, count).len() == 0,
    decreases text.len(),
{
    lemma_segments_nonempty(text);
    if count == 0 {
        assert(segments(text).skip(0) =~= segments(text));
        lemma_join_segments(text);
    } else if text.len() == 0 {
    } else {
        let tail = text.skip(1);
        let rest = segments(tail);
        lemma_segments_nonempty(tail);
        if text[0] == '/' {
            lemma_skip_segments(tail, (count - 1) as nat);
            let all = seq![Seq::<char>::empty()] + rest;
            if count < all.len() {
                assert(all.skip(count as int) =~= rest.skip(count - 1));
            }
        } else {
            lemma_skip_segments(tail, count);
            let all = seq![seq![text[0]] + rest[0]] + rest.skip(1);
            if count < all.len() {
                assert(all.skip(count as int) =~= rest.skip(count as int));
            }
        }
    }
}

/// Whether a text holds no slash.
pub open spec fn has_no_slash(text: Seq<char>) -> bool {
    forall|j: int| 0 <= j < text.len() ==> text[j] != '/'
}

/// No segment holds a slash.
pub proof fn lemma_segments_hold_no_slash(text: Seq<char>)
    ensures
        forall|i: int| 0 <= i < segments(text).len() ==> has_no_slash(#[trigger] segments(text)[i]),
    decreases text.len(),
{
    if text.len() > 0 {
        let rest = segments(text.skip(1));
        lemma_segments_nonempty(text.skip(1));
        lemma_segments_hold_no_slash(text.skip(1));
        if text[0] == '/' {
            let all = seq![Seq::<char>::empty()] + rest;
            assert forall|i: int| 0 <= i < all.len() implies has_no_slash(#[trigger] all[i]) by {
                if i > 0 {
                    assert(all[i] == rest[i - 1]);
                }
            }
        } else {
            let first = seq![text[0]] + rest[0];
            let all = seq![first] + rest.skip(1);
            assert(has_no_slash(rest[0]));
            assert forall|j: int| 0 <= j < first.len() implies first[j] != '/' by {
                if j > 0 {
                    assert(first[j] == rest[0][j - 1]);
                }
            }
            assert forall|i: int| 0 <= i < all.len() implies has_no_slash(#[trigger] all[i]) by {
                if i > 0 {
                    assert(all[i] == rest[i]);
                }
            }
        }
    }
}

/// Up to the number of segments that a path has, discarding `count` of them
/// leaves exactly the others: the key is the prefix followed by the segments
/// from the `count`-th on, joined by slashes. This is stated for the paths on
/// which no slash is taken off what is left: those where the first segment
/// kept is not an empty one with further segments behind it.
pub proof fn lemma_resolve_discards_segments(prefix: Seq<char>, path: Seq<char>, count: nat)
    requires
        count <= path_segments(path).len(),
        count + 1 < path_segments(path).len() ==> path_segments(path)[count as int].len() > 0,
    ensures
        resolve(prefix, path, count) == prefix + join(path_segments(path).skip(count as int)),
{
    let body = without_leading_slash(path);
    let segs = segments(body);
    let kept = segs.skip(count as int);
    lemma_segments_nonempty(body);
    lemma_segments_hold_no_slash(body);
    if count == 0 {
        assert(kept =~= segs);
        lemma_join_segments(body);
    }
    assert(pruned(path, count) == join(kept));
    if kept.len() >= 1 {
        assert(kept[0] == segs[count as int]);
        assert(has_no_slash(kept[0]));
        if kept[0].len() > 0 {
            assert(join(kept)[0] == kept[0][0]);
        }
    }
}

/// A count that reaches the number of segments leaves nothing of the path:
/// the key is the prefix alone.
pub proof fn lemma_resolve_prefix_alone(prefix: Seq<char>, path: Seq<char>, count: nat)
    requires
        count >= path_segments(path).len(),
    ensures
        resolve(prefix, path, count) == prefix,
{
    lemma_segments_nonempty(without_leading_slash(path));
    assert(prefix + Seq::<char>::empty() =~= prefix);
}

/// The object key for a request: `bucket_prefix`, directly followed by what
/// is left of `uri_path` once its first `prune_path` segments are discarded
/// and the slashes in front of the rest are taken off.
pub fn request_to_key(bucket_prefix: &str, uri_path: &str, prune_path: usize) -> (key: String)
    ensures
        key@ == resolve(bucket_prefix@, uri_path@, prune_path as nat),
{
    let total = uri_path.unicode_len();
    let ghost path = uri_path@;
    let ghost body = without_leading_slash(path);
    let mut chars = uri_path.chars();
    let mut at: usize = 0;
    let mut current = chars.next();
    if is_slash(current) {
        current = chars.next();
        at = 1;
    }
    let ghost lead = at as int;
    assert(path.skip(lead) =~= body);
    let mut seen: usize = 0;
    while seen < prune_path && current.is_some()
        invariant
            path == uri_path@,
            total == path.len(),
            chars.obeys_prophetic_iter_laws(),
            lead <= at <= total,
            at < total ==> current == Some(path[at as int]) && chars.remaining() == path.skip(
                at + 1,
            ),
            at == total ==> current.is_none() && chars.remaining().len() == 0,
            seen <= prune_path,
            past_slashes(body, prune_path as nat) == past_slashes(
                path.skip(at as int),
                (prune_path - seen) as nat,
            ),
        decreases total - at,
    {
        assert(path.skip(at as int).skip(1) =~= path.skip(at + 1));
        if is_slash(current) {
            seen = seen + 1;
        }
        current = chars.next();
        at = at + 1;
    }
    assert(past_slashes(body, prune_path as nat) == path.skip(at as int)) by {
        if at == total {
            assert(path.skip(at as int).len() == 0);
        }
    }
    let ghost kept = at as int;
    while is_slash(current)
        invariant
            path == uri_path@,
            total == path.len(),
            chars.obeys_prophetic_iter_laws(),
            kept <= at <= total,
            at < total ==> current == Some(path[at as int]) && chars.remaining() == path.skip(
                at + 1,
            ),
            at == total ==> current.is_none() && chars.remaining().len() == 0,
            trim_leading_slashes(path.skip(kept)) == trim_leading_slashes(path.skip(at as int)),
        decreases total - at,
    {
        assert(path.skip(at as int).skip(1) =~= path.skip(at + 1));
        current = chars.next();
        at = at + 1;
    }
    proof {
        lemma_skip_segments(body, prune_path as nat);
        assert(pruned(path, prune_path as nat) == path.skip(kept)) by {
            if prune_path == 0 {
            } else if prune_path as nat >= path_segments(path).len() {
                assert(path.skip(kept) =~= Seq::<char>::empty());
            }
        }
        assert(path.skip(at as int) =~= path.subrange(at as int, total as int));
    }
    let rest = uri_path.substring_char(at, total);
    let mut key = bucket_prefix.to_owned();
    key.append(rest);
    key
}

/// Whether a character read from a path is there and is a slash.
fn is_slash(current: Option<char>) -> (slash: bool)
    ensures
        slash == (current == Some('/')),
{
    match current {
        Some(c) => c == '/',
        None => false,
    }
}

} // verus!
