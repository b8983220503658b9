//! Facts about the path model: the shape of what splitting and normalising
//! give, and that the text of a normalised path reads back as what it was
//! rendered from.

use vstd::prelude::*;
use crate::path::{
    is_absolute, is_name, is_rooted, joined, joint, normalized, path_parts, plain, rendered,
    segment_part, segment_parts, segments, tidy, Part,
};

verus! {

/// A path always has at least one segment, and none of them holds a
/// separator.
pub proof fn lemma_segments_shape(path: Seq<char>)
    ensures
        segments(path).len() > 0,
        forall|i: int|
            0 <= i < segments(path).len() ==> !(#[trigger] segments(path)[i]).contains('/'),
    decreases path.len(),
{
    if path.len() > 0 {
        lemma_segments_shape(path.drop_last());
        if path.last() != '/' {
            let grown = segments(path.drop_last()).last().push(path.last());
            assert forall|k: int| 0 <= k < grown.len() implies grown[k] != '/' by {}
        }
    }
}

/// Text without a separator, put behind a path, lengthens its last segment.
pub proof fn lemma_segments_extend(path: Seq<char>, tail: Seq<char>)
    requires
        !tail.contains('/'),
    ensures
        segments(path).len() > 0,
        segments(path + tail) == segments(path).drop_last().push(segments(path).last() + tail),
    decreases tail.len(),
{
    lemma_segments_shape(path);
    if tail.len() > 0 {
        let shorter = tail.drop_last();
        assert forall|k: int| 0 <= k < shorter.len() implies shorter[k] != '/' by {}
        lemma_segments_extend(path, shorter);
        assert((path + tail).drop_last() =~= path + shorter);
        assert(segments(path + shorter).last().push(tail.last()) =~= segments(path).last()
            + tail);
    }
}

/// The parts of segments are plain, and none of them is the root marker.
pub proof fn lemma_segment_parts_shape(segs: Seq<Seq<char>>)
    requires
        forall|i: int| 0 <= i < segs.len() ==> !(#[trigger] segs[i]).contains('/'),
    ensures
        plain(segment_parts(segs)),
        forall|i: int|
            0 <= i < segment_parts(segs).len() ==> !(#[trigger] segment_parts(segs)[i] is Root),
    decreases segs.len(),
{
    if segs.len() > 0 {
        lemma_segment_parts_shape(segs.drop_last());
    }
}

/// The components of any path are plain.
pub proof fn lemma_path_parts_plain(path: Seq<char>)
    ensures
        plain(path_parts(path)),
        is_rooted(path_parts(path)) == is_absolute(path),
{
    lemma_segments_shape(path);
    lemma_segment_parts_shape(segments(path));
}

/// Normalising a plain sequence gives a tidy one, which is rooted only if
/// the sequence was.
pub proof fn lemma_normalized_tidy(comps: Seq<Part>)
    requires
        plain(comps),
    ensures
        tidy(normalized(comps)),
        is_rooted(normalized(comps)) ==> is_rooted(comps),
    decreases comps.len(),
{
    if comps.len() > 0 {
        let shorter = comps.drop_last();
        assert forall|i: int| 0 <= i < shorter.len() implies match #[trigger] shorter[i] {
            Part::Root => i == 0,
            Part::Parent => true,
            Part::Name(name) => is_name(name),
        } by {}
        lemma_normalized_tidy(shorter);
    }
}

/// A tidy sequence is already normalised.
pub proof fn lemma_normalized_of_tidy(comps: Seq<Part>)
    requires
        tidy(comps),
    ensures
        normalized(comps) == comps,
    decreases comps.len(),
{
    if comps.len() > 0 {
        lemma_tidy_drop_last(comps);
        lemma_normalized_of_tidy(comps.drop_last());
    }
}

/// Components without `..`, put behind a sequence, pass through
/// normalisation unchanged.
pub proof fn lemma_normalized_append(front: Seq<Part>, back: Seq<Part>)
    requires
        forall|i: int| 0 <= i < back.len() ==> !(#[trigger] back[i] is Parent),
    ensures
        normalized(front + back) == normalized(front) + back,
    decreases back.len(),
{
    if back.len() > 0 {
        let shorter = back.drop_last();
        assert forall|i: int| 0 <= i < shorter.len() implies !(#[trigger] shorter[i] is Parent)
        by {}
        lemma_normalized_append(front, shorter);
        assert((front + back).drop_last() =~= front + shorter);
    }
}

/// The parts of a single segment.
pub proof fn lemma_segment_parts_one(segment: Seq<char>)
    ensures
        segment_parts(seq![segment]) == match segment_part(segment) {
            Some(part) => seq![part],
            None => Seq::<Part>::empty(),
        },
{
    assert(segment_parts(seq![segment].drop_last()) =~= Seq::<Part>::empty());
}

/// The parts of segments with one more segment behind them.
pub proof fn lemma_segment_parts_push(segs: Seq<Seq<char>>, segment: Seq<char>)
    ensures
        segment_parts(segs.push(segment)) == match segment_part(segment) {
            Some(part) => segment_parts(segs).push(part),
            None => segment_parts(segs),
        },
{
    assert(segs.push(segment).drop_last() =~= segs);
}

/// A part of a tidy sequence is still tidy without its last component.
proof fn lemma_tidy_drop_last(comps: Seq<Part>)
    requires
        tidy(comps),
        comps.len() > 0,
    ensures
        tidy(comps.drop_last()),
{
    let shorter = comps.drop_last();
    assert forall|i: int| 0 <= i < shorter.len() implies match #[trigger] shorter[i] {
        Part::Root => i == 0,
        Part::Parent => true,
        Part::Name(name) => is_name(name),
    } && !(shorter[i] is Parent) by {}
}

/// The segments of the bare root: two empty ones, around the separator.
proof fn lemma_segments_of_root()
    ensures
        segments(seq!['/']) == seq![Seq::<char>::empty(), Seq::<char>::empty()],
        path_parts(seq!['/']) == seq![Part::Root],
{
    let nothing = Seq::<char>::empty();
    let slash = seq!['/'];
    assert(slash.drop_last() =~= nothing);
    assert(segments(nothing) =~= seq![nothing]);
    lemma_segment_parts_one(nothing);
    lemma_segment_parts_push(seq![nothing], nothing);
}

/// The text of a tidy sequence reads back as that sequence: it is empty only
/// for the empty sequence, it is absolute exactly when the sequence is
/// rooted, and it ends with a separator only when it is the bare root.
pub proof fn lemma_round_trip(comps: Seq<Part>)
    requires
        tidy(comps),
    ensures
        path_parts(rendered(comps)) == comps,
        rendered(comps).len() == 0 <==> comps.len() == 0,
        is_absolute(rendered(comps)) == is_rooted(comps),
        comps.len() > 0 && rendered(comps).last() == '/' ==> comps == seq![Part::Root],
    decreases comps.len(),
{
    let nothing = Seq::<char>::empty();
    if comps.len() == 0 {
        lemma_segment_parts_one(nothing);
    } else {
        let shorter = comps.drop_last();
        lemma_tidy_drop_last(comps);
        lemma_round_trip(shorter);
        let base = rendered(shorter);
        match comps.last() {
            Part::Parent => {},
            Part::Root => lemma_segments_of_root(),
            Part::Name(name) => {
                let text = joint(base) + name;
                lemma_segments_extend(joint(base), name);
                if base.len() == 0 {
                    assert(segments(text) =~= seq![name]);
                    lemma_segment_parts_one(name);
                } else if base.last() == '/' {
                    lemma_segments_of_root();
                    assert(segments(text) =~= seq![nothing].push(name));
                    lemma_segment_parts_one(nothing);
                    lemma_segment_parts_push(seq![nothing], name);
                } else {
                    let segs = segments(base);
                    assert(joint(base).drop_last() =~= base);
                    assert(segments(joint(base)).drop_last() =~= segs);
                    lemma_segment_parts_push(segs, name);
                    assert(path_parts(text) =~= path_parts(base).push(Part::Name(name)));
                }
            },
        }
    }
}

/// Text without a separator is a single segment.
pub proof fn lemma_segments_of_plain_text(text: Seq<char>)
    requires
        !text.contains('/'),
    ensures
        segments(text) == seq![text],
{
    lemma_segments_extend(Seq::<char>::empty(), text);
}

/// The segments of two paths joined by a separator are the segments of the
/// first followed by those of the second.
pub proof fn lemma_segments_join(front: Seq<char>, back: Seq<char>)
    ensures
        segments(front.push('/') + back) == segments(front) + segments(back),
    decreases back.len(),
{
    let head = front.push('/');
    lemma_segments_shape(front);
    if back.len() == 0 {
        assert(head.drop_last() =~= front);
    } else {
        let shorter = back.drop_last();
        lemma_segments_join(front, shorter);
        lemma_segments_shape(shorter);
        assert((head + back).drop_last() =~= head + shorter);
        if back.last() != '/' {
            let mid = segments(front) + segments(shorter);
            assert(mid.drop_last().push(mid.last().push(back.last())) =~= segments(front)
                + segments(shorter).drop_last().push(segments(shorter).last().push(back.last())));
        }
    }
}

/// The parts of two runs of segments are the parts of the first followed by
/// those of the second.
pub proof fn lemma_segment_parts_concat(front: Seq<Seq<char>>, back: Seq<Seq<char>>)
    ensures
        segment_parts(front + back) == segment_parts(front) + segment_parts(back),
    decreases back.len(),
{
    if back.len() > 0 {
        let shorter = back.drop_last();
        lemma_segment_parts_concat(front, shorter);
        assert((front + back).drop_last() =~= front + shorter);
        if let Some(part) = segment_part(back.last()) {
            assert((segment_parts(front) + segment_parts(shorter)).push(part) =~= segment_parts(
                front,
            ) + segment_parts(shorter).push(part));
        }
    }
}

/// Normalising a sequence with one more component behind it.
pub proof fn lemma_normalized_push(comps: Seq<Part>, part: Part)
    ensures
        normalized(comps.push(part)) == match part {
            Part::Parent => if normalized(comps).len() > 0 {
                normalized(comps).drop_last()
            } else {
                normalized(comps)
            },
            other => normalized(comps).push(other),
        },
{
    assert(comps.push(part).drop_last() =~= comps);
}

/// Normalisation reads its input from the front: two sequences that
/// normalise alike still do with the same components behind them.
pub proof fn lemma_normalized_concat(first: Seq<Part>, second: Seq<Part>, back: Seq<Part>)
    requires
        normalized(first) == normalized(second),
    ensures
        normalized(first + back) == normalized(second + back),
    decreases back.len(),
{
    if back.len() > 0 {
        lemma_normalized_concat(first, second, back.drop_last());
        assert((first + back).drop_last() =~= first + back.drop_last());
        assert((second + back).drop_last() =~= second + back.drop_last());
    }
}

/// A relative path whose components cancel out, put in front of another
/// relative path behind a separator, leaves no trace after normalisation.
pub proof fn lemma_cancelled_front(front: Seq<char>, rest: Seq<char>)
    requires
        !is_absolute(front),
        front.len() > 0,
        !is_absolute(rest),
        normalized(path_parts(front)).len() == 0,
    ensures
        normalized(path_parts(front.push('/') + rest)) == normalized(path_parts(rest)),
{
    lemma_segments_join(front, rest);
    lemma_segment_parts_concat(segments(front), segments(rest));
    let head = segment_parts(segments(front));
    let tail = segment_parts(segments(rest));
    let nothing = Seq::<Part>::empty();
    assert(normalized(head) =~= normalized(nothing));
    lemma_normalized_concat(head, nothing, tail);
}

/// The components of a name in a directory are the directory's components
/// and then what the name contributes: a separator between the two leaves
/// no trace, whether the directory brings its own or not.
pub proof fn lemma_joined_parts(dir: Seq<char>, name: Seq<char>)
    requires
        !name.contains('/'),
    ensures
        path_parts(joined(dir, name)) == match segment_part(name) {
            Some(part) => path_parts(dir).push(part),
            None => path_parts(dir),
        },
        is_absolute(joined(dir, name)) == is_absolute(dir),
{
    let nothing = Seq::<char>::empty();
    let text = joined(dir, name);
    lemma_segments_extend(joint(dir), name);
    lemma_segments_shape(dir);
    assert(nothing + name =~= name);
    if name.len() > 0 {
        assert(name.contains(name[0]));
    }
    if dir.len() == 0 {
        assert(segments(dir) =~= seq![nothing]);
        assert(segments(text) =~= seq![name]);
        lemma_segment_parts_one(nothing);
        lemma_segment_parts_one(name);
        assert(text =~= name);
        assert(path_parts(dir) =~= Seq::<Part>::empty());
        match segment_part(name) {
            Some(part) => {
                assert(path_parts(text) =~= path_parts(dir).push(part));
            },
            None => {
                assert(path_parts(text) =~= path_parts(dir));
            },
        }
    } else {
        assert(text[0] == dir[0]);
        let before = if dir.last() == '/' {
            segments(dir.drop_last())
        } else {
            segments(dir)
        };
        if dir.last() == '/' {
            assert(dir =~= dir.drop_last().push('/'));
            assert(segments(dir) == before.push(nothing));
            assert(segments(dir).drop_last() =~= before);
            lemma_segment_parts_push(before, nothing);
        } else {
            assert(joint(dir).drop_last() =~= dir);
            assert(segments(joint(dir)).drop_last() =~= before);
        }
        assert(segments(text) =~= before.push(name));
        lemma_segment_parts_push(before, name);
        match segment_part(name) {
            Some(part) => {
                assert(path_parts(text) =~= path_parts(dir).push(part));
            },
            None => {
                assert(path_parts(text) =~= path_parts(dir));
            },
        }
    }
}

/// Normalising a path a second time changes nothing: the text of a
/// normalised path is its own normal form.
pub proof fn law_normalization_is_idempotent(path: Seq<char>)
    ensures
        rendered(normalized(path_parts(rendered(normalized(path_parts(path)))))) == rendered(
            normalized(path_parts(path)),
        ),
        tidy(normalized(path_parts(path))),
{
    let once = normalized(path_parts(path));
    lemma_path_parts_plain(path);
    lemma_normalized_tidy(path_parts(path));
    lemma_round_trip(once);
    lemma_normalized_of_tidy(once);
}

} // verus!
