//! Path confinement: turning a requested path into an access decision
//! against a root boundary, without touching the file system.

use vstd::prelude::*;
use crate::text::same_chars;
use crate::path::{
    components, is_absolute, is_name, is_rooted, joined, normalize, normalized, parts, path_parts,
    render, rendered, segment_part, segment_parts, segments, tidy, Component, Part,
};
use crate::path_proofs::{
    lemma_cancelled_front, lemma_joined_parts, lemma_normalized_append, lemma_normalized_concat,
    lemma_normalized_of_tidy,
    lemma_normalized_push, lemma_normalized_tidy, lemma_path_parts_plain, lemma_round_trip,
    lemma_segment_parts_concat, lemma_segment_parts_one, lemma_segment_parts_shape,
    lemma_segments_join, lemma_segments_of_plain_text, lemma_segments_shape,
};

verus! {

/// The outcome of confining a requested path.
#[derive(Debug)]
pub enum AccessDecision {
    /// Access is allowed, at this resolved path.
    Permit(String),
    /// Access is refused, for this reason.
    Deny(String),
}

/// An access decision, as the contracts see it.
pub enum Decision {
    Permit(Seq<char>),
    Deny(Seq<char>),
}

impl View for AccessDecision {
    type V = Decision;

    open spec fn view(&self) -> Decision {
        match self {
            AccessDecision::Permit(path) => Decision::Permit(path@),
            AccessDecision::Deny(reason) => Decision::Deny(reason@),
        }
    }
}

/// The component sequence of the root boundary.
pub open spec fn boundary(root: Seq<char>) -> Seq<Part> {
    normalized(path_parts(root))
}

/// Where a request leads: the normalised request itself when it is rooted,
/// else the normalised request behind the boundary.
pub open spec fn resolved(root: Seq<char>, requested: Seq<char>) -> Seq<Part> {
    let target = normalized(path_parts(requested));
    if is_rooted(target) {
        target
    } else {
        boundary(root) + target
    }
}

/// A request stays within the boundary when the boundary's components are a
/// prefix of the components it resolves to.
pub open spec fn within(root: Seq<char>, requested: Seq<char>) -> bool {
    boundary(root).is_prefix_of(resolved(root, requested))
}

/// `target` anchored at `base`: a rooted target stands for itself, any other
/// is joined behind `base`; the result is normalised.
pub open spec fn anchored(target: Seq<Part>, base: Seq<Part>) -> Seq<Part> {
    if is_rooted(target) {
        normalized(target)
    } else {
        normalized(base + target)
    }
}

/// Whether `requested`, anchored at `root` as it stands and normalised
/// only then, stays under `root`. A request that climbs with `..` is
/// followed here, not cut short: it is within only if it ends up under the
/// root again.
pub open spec fn anchored_within(root: Seq<char>, requested: Seq<char>) -> bool {
    boundary(root).is_prefix_of(anchored(path_parts(requested), path_parts(root)))
}

/// The reason given with every refusal.
pub open spec fn deny_reason() -> Seq<char> {
    "path escapes boundary"@
}

/// The decision on `requested` under the boundary `root`: access is
/// permitted exactly when the request stays within the boundary, and then at
/// the text of the components it resolves to.
pub open spec fn decided(root: Seq<char>, requested: Seq<char>) -> Decision {
    if within(root, requested) {
        Decision::Permit(rendered(resolved(root, requested)))
    } else {
        Decision::Deny(deny_reason())
    }
}

/// Whether two components are the same part.
fn same_component(a: &Component, b: &Component) -> (same: bool)
    ensures
        same == (a@ == b@),
{
    match (a, b) {
        (Component::RootDir, Component::RootDir) => true,
        (Component::ParentDir, Component::ParentDir) => true,
        (Component::Normal(x), Component::Normal(y)) => same_chars(x, y),
        _ => false,
    }
}

/// Whether `path` begins with all the components of `base`, compared one
/// component at a time.
pub fn starts_with(path: &Vec<Component>, base: &Vec<Component>) -> (yes: bool)
    ensures
        yes == parts(base@).is_prefix_of(parts(path@)),
{
    if base.len() > path.len() {
        return false;
    }
    let n: usize = base.len();
    let mut i: usize = 0;
    while i < n
        invariant
            n == base.len(),
            n <= path.len(),
            i <= n,
            forall|k: int| 0 <= k < i ==> parts(base@)[k] == parts(path@)[k],
        decreases n - i,
    {
        if !same_component(&base[i], &path[i]) {
            assert(parts(base@)[i as int] != parts(path@).subrange(0, n as int)[i as int]);
            return false;
        }
        i = i + 1;
    }
    true
}

/// Whether a component sequence begins with the root marker.
fn rooted(comps: &Vec<Component>) -> (yes: bool)
    ensures
        yes == is_rooted(parts(comps@)),
{
    if comps.len() == 0 {
        return false;
    }
    match &comps[0] {
        Component::RootDir => true,
        _ => false,
    }
}

/// The components that `requested` resolves to under `root`.
pub fn resolve(root: &str, requested: &str) -> (out: Vec<Component>)
    ensures
        parts(out@) == resolved(root@, requested@),
{
    let mut target = normalize(components(requested));
    if rooted(&target) {
        target
    } else {
        let mut out = normalize(components(root));
        out.append(&mut target);
        out
    }
}

/// The components of `target_path` anchored at `context_path`: an absolute
/// target stands for itself, a relative one is joined behind the context
/// first; what comes of it is normalised.
pub fn anchor(target_path: &str, context_path: &str) -> (out: Vec<Component>)
    ensures
        parts(out@) == anchored(path_parts(target_path@), path_parts(context_path@)),
{
    let mut target = components(target_path);
    if rooted(&target) {
        normalize(target)
    } else {
        let mut joined = components(context_path);
        let ghost base = joined@;
        let ghost tail = target@;
        joined.append(&mut target);
        assert(parts(joined@) =~= parts(base) + parts(tail));
        normalize(joined)
    }
}

/// The normalised text of `target_path` anchored at `context_path`: an
/// absolute target stands for itself, a relative one is joined behind the
/// context first.
pub fn to_abs_pathbuf(target_path: &str, context_path: &str) -> (out: String)
    ensures
        out@ == rendered(anchored(path_parts(target_path@), path_parts(context_path@))),
{
    render(&anchor(target_path, context_path))
}

/// Whether `test_path` stays within `super_path`: whether the path that
/// `to_abs_pathbuf` gives for it under `super_path` begins with all the
/// components of `super_path`.
///
/// The test path is anchored as it stands, so a `..` in it climbs. To ask
/// of a request what `confine` decides of it, hand in its normal form.
pub fn security_path_within(test_path: &str, super_path: &str) -> (yes: bool)
    ensures
        yes == boundary(super_path@).is_prefix_of(
            anchored(path_parts(test_path@), path_parts(super_path@)),
        ),
        yes == boundary(super_path@).is_prefix_of(
            path_parts(rendered(anchored(path_parts(test_path@), path_parts(super_path@)))),
        ),
{
    let super_abs = normalize(components(super_path));
    let cur_abs = anchor(test_path, super_path);
    proof {
        lemma_anchored_tidy(test_path@, super_path@);
        lemma_round_trip(anchored(path_parts(test_path@), path_parts(super_path@)));
    }
    starts_with(&cur_abs, &super_abs)
}

/// Decides whether a script may reach `requested` under the boundary `root`.
///
/// Access is permitted exactly when the components that the request resolves
/// to begin with the components of the boundary; the permitted path is the
/// text of the resolved components. Every refusal carries the same reason.
pub fn confine(root: &str, requested: &str) -> (decision: AccessDecision)
    ensures
        decision@ == decided(root@, requested@),
        decision matches AccessDecision::Permit(path) ==> boundary(root@).is_prefix_of(
            path_parts(path@),
        ),
{
    let base = normalize(components(root));
    let target = resolve(root, requested);
    proof {
        lemma_resolved_tidy(root@, requested@);
        lemma_round_trip(resolved(root@, requested@));
    }
    if starts_with(&target, &base) {
        AccessDecision::Permit(render(&target))
    } else {
        AccessDecision::Deny(String::from_str("path escapes boundary"))
    }
}

/// The boundary and everything a request resolves to are tidy: no `..`
/// is left in them, and the root marker stands only in front.
pub proof fn lemma_resolved_tidy(root: Seq<char>, requested: Seq<char>)
    ensures
        tidy(boundary(root)),
        tidy(resolved(root, requested)),
{
    lemma_path_parts_plain(root);
    lemma_normalized_tidy(path_parts(root));
    lemma_path_parts_plain(requested);
    lemma_normalized_tidy(path_parts(requested));
    let base = boundary(root);
    let target = normalized(path_parts(requested));
    if !is_rooted(target) {
        let joined = base + target;
        assert forall|i: int| 0 <= i < joined.len() implies match #[trigger] joined[i] {
            Part::Root => i == 0,
            Part::Parent => false,
            Part::Name(name) => is_name(name),
        } by {
            if i >= base.len() {
                assert(joined[i] == target[i - base.len()]);
            }
        }
    }
}

/// Whatever is anchored is tidy afterwards: no `..` is left in it, and the
/// root marker stands only in front.
pub proof fn lemma_anchored_tidy(target: Seq<char>, context: Seq<char>)
    ensures
        tidy(anchored(path_parts(target), path_parts(context))),
{
    lemma_path_parts_plain(target);
    lemma_path_parts_plain(context);
    if is_rooted(path_parts(target)) {
        lemma_normalized_tidy(path_parts(target));
    } else {
        let base = path_parts(context);
        let tail = path_parts(target);
        let joined = base + tail;
        lemma_segments_shape(target);
        lemma_segment_parts_shape(segments(target));
        assert(tail =~= segment_parts(segments(target)));
        assert forall|i: int| 0 <= i < joined.len() implies match #[trigger] joined[i] {
            Part::Root => i == 0,
            Part::Parent => true,
            Part::Name(name) => is_name(name),
        } by {
            if i >= base.len() {
                assert(joined[i] == tail[i - base.len()]);
            }
        }
        lemma_normalized_tidy(joined);
    }
}

/// Whatever the root and the request: where access is permitted, the
/// permitted path, split into components again, begins with the components
/// of the root, or is the root itself, and no `..` is left in it.
pub proof fn law_permitted_path_is_under_root(root: Seq<char>, requested: Seq<char>)
    ensures
        decided(root, requested) matches Decision::Permit(path) ==> boundary(root).is_prefix_of(
            path_parts(path),
        ) && tidy(path_parts(path)),
        decided(root, requested) is Permit <==> boundary(root).is_prefix_of(
            resolved(root, requested),
        ),
{
    lemma_resolved_tidy(root, requested);
    lemma_round_trip(resolved(root, requested));
}

/// Under an absolute root, a permitted path is a fixed point: asked for
/// again, it is permitted again, at itself.
pub proof fn law_permitted_path_is_fixed(root: Seq<char>, requested: Seq<char>)
    requires
        is_rooted(boundary(root)),
    ensures
        decided(root, requested) matches Decision::Permit(path) ==> decided(root, path)
            == Decision::Permit(path),
{
    if within(root, requested) {
        let target = resolved(root, requested);
        lemma_resolved_tidy(root, requested);
        lemma_round_trip(target);
        lemma_normalized_of_tidy(target);
    }
}

/// A relative request is always permitted: it resolves to the root's
/// components followed by its own, so it cannot leave the root.
pub proof fn law_relative_request_is_permitted(root: Seq<char>, requested: Seq<char>)
    requires
        !is_absolute(requested),
    ensures
        within(root, requested),
        resolved(root, requested) == boundary(root) + normalized(path_parts(requested)),
        decided(root, requested) is Permit,
{
    lemma_path_parts_plain(requested);
    lemma_normalized_tidy(path_parts(requested));
}

/// A name as a directory entry bears it: it holds no separator and is not
/// `..`.
pub open spec fn is_entry_name(name: Seq<char>) -> bool {
    !name.contains('/') && !(name.len() == 2 && name[0] == '.' && name[1] == '.')
}

/// An entry of a directory that stays within the boundary stays within it
/// too: the entry's path is the directory's path and one name more.
pub proof fn law_entry_of_directory_within_is_within(
    root: Seq<char>,
    dir: Seq<char>,
    name: Seq<char>,
)
    requires
        within(root, dir),
        is_entry_name(name),
    ensures
        within(root, joined(dir, name)),
{
    let base = boundary(root);
    let target = normalized(path_parts(dir));
    lemma_joined_parts(dir, name);
    match segment_part(name) {
        None => {},
        Some(part) => {
            assert(part == Part::Name(name));
            lemma_normalized_push(path_parts(dir), part);
            let longer = target.push(part);
            assert(normalized(path_parts(joined(dir, name))) == longer);
            if is_rooted(target) {
                assert(longer[0] == target[0]);
                assert(longer.subrange(0, base.len() as int) =~= target.subrange(
                    0,
                    base.len() as int,
                ));
            } else {
                if target.len() > 0 {
                    assert(longer[0] == target[0]);
                }
                assert((base + longer).subrange(0, base.len() as int) =~= base);
            }
        },
    }
}

/// Resolving a request is anchoring its normal form at the root: the
/// request is normalised first, and what is left of it stands for itself
/// when it is absolute and is joined behind the root when it is not.
/// Normalising the joined path once more changes nothing.
pub proof fn law_resolution_is_anchoring(root: Seq<char>, requested: Seq<char>)
    ensures
        anchored(
            path_parts(rendered(normalized(path_parts(requested)))),
            path_parts(root),
        ) == resolved(root, requested),
{
    let target = normalized(path_parts(requested));
    lemma_path_parts_plain(requested);
    lemma_normalized_tidy(path_parts(requested));
    lemma_round_trip(target);
    if is_rooted(target) {
        lemma_normalized_of_tidy(target);
    } else {
        lemma_normalized_append(path_parts(root), target);
    }
}

/// What `confine` decides of a request is what anchoring decides of the
/// request's normal form: a request stays within the boundary exactly when
/// its normalised text, anchored at the root, stays under the root.
pub proof fn law_within_is_anchoring_the_normal_form(root: Seq<char>, requested: Seq<char>)
    ensures
        within(root, requested) == anchored_within(
            root,
            rendered(normalized(path_parts(requested))),
        ),
{
    law_resolution_is_anchoring(root, requested);
}

/// Two requests with the same normalised components get the same decision
/// under every root.
pub proof fn law_decision_follows_normal_form(root: Seq<char>, first: Seq<char>, second: Seq<char>)
    requires
        normalized(path_parts(first)) == normalized(path_parts(second)),
    ensures
        decided(root, first) == decided(root, second),
{
}

/// A relative prefix whose components cancel out does not change the
/// decision: under every root, `front/rest` is decided as `rest` is.
pub proof fn law_cancelled_front_is_ignored(root: Seq<char>, front: Seq<char>, rest: Seq<char>)
    requires
        front.len() > 0,
        !is_absolute(front),
        !is_absolute(rest),
        normalized(path_parts(front)).len() == 0,
    ensures
        decided(root, front.push('/') + rest) == decided(root, rest),
{
    lemma_cancelled_front(front, rest);
}

/// Under every root, `a/../b` is decided exactly as `b` is.
pub proof fn law_name_and_parent_cancel(root: Seq<char>)
    ensures
        decided(root, "a/../b"@) == decided(root, "b"@),
{
    reveal_strlit("a/../b");
    reveal_strlit("b");
    let a = seq!['a'];
    let up = seq!['.', '.'];
    let front = a.push('/') + up;
    let b = "b"@;
    assert("a/../b"@ =~= front.push('/') + b);
    lemma_segments_of_plain_text(a);
    lemma_segments_of_plain_text(up);
    lemma_segments_join(a, up);
    lemma_segment_parts_concat(seq![a], seq![up]);
    lemma_segment_parts_one(a);
    lemma_segment_parts_one(up);
    let both = seq![Part::Name(a), Part::Parent];
    assert(path_parts(front) =~= both);
    let nothing = Seq::<Part>::empty();
    lemma_normalized_push(nothing, Part::Name(a));
    lemma_normalized_push(nothing.push(Part::Name(a)), Part::Parent);
    assert(both =~= nothing.push(Part::Name(a)).push(Part::Parent));
    lemma_cancelled_front(front, b);
}

/// Leading `..` segments cannot climb above the root: under every root,
/// `../../etc/passwd` is decided exactly as `etc/passwd` is, which is
/// permitted at `etc/passwd` under the root.
pub proof fn law_leading_parents_cannot_climb(root: Seq<char>)
    ensures
        decided(root, "../../etc/passwd"@) == decided(root, "etc/passwd"@),
        decided(root, "../../etc/passwd"@) == Decision::Permit(
            rendered(boundary(root) + seq![Part::Name("etc"@), Part::Name("passwd"@)]),
        ),
        decided(root, "../../etc/passwd"@) matches Decision::Permit(path) && boundary(
            root,
        ).is_prefix_of(path_parts(path)),
{
    let etc = Part::Name("etc"@);
    let passwd = Part::Name("passwd"@);
    let nothing = Seq::<Part>::empty();
    lemma_climbing_parts();
    let one = nothing.push(Part::Parent);
    let two = one.push(Part::Parent);
    let three = two.push(etc);
    assert(path_parts("../../etc/passwd"@) =~= three.push(passwd));
    lemma_normalized_push(nothing, Part::Parent);
    lemma_normalized_push(one, Part::Parent);
    lemma_normalized_push(two, etc);
    lemma_normalized_push(three, passwd);
    let names = nothing.push(etc);
    assert(path_parts("etc/passwd"@) =~= names.push(passwd));
    lemma_normalized_push(nothing, etc);
    lemma_normalized_push(names, passwd);
    assert(normalized(path_parts("etc/passwd"@)) =~= seq![etc, passwd]);
    law_relative_request_is_permitted(root, "../../etc/passwd"@);
    law_permitted_path_is_under_root(root, "../../etc/passwd"@);
}

/// The components of `../../etc/passwd`: two steps up, then two names.
proof fn lemma_climbing_parts()
    ensures
        path_parts("../../etc/passwd"@) == seq![
            Part::Parent,
            Part::Parent,
            Part::Name("etc"@),
            Part::Name("passwd"@),
        ],
        !is_absolute("../../etc/passwd"@),
        path_parts("etc/passwd"@) == seq![Part::Name("etc"@), Part::Name("passwd"@)],
{
    reveal_strlit("../../etc/passwd");
    reveal_strlit("etc/passwd");
    reveal_strlit("etc");
    reveal_strlit("passwd");
    let up = seq!['.', '.'];
    let etc = "etc"@;
    let passwd = "passwd"@;
    let front = up.push('/') + up;
    let rest = etc.push('/') + passwd;
    let climb = "../../etc/passwd"@;
    assert(climb =~= front.push('/') + rest);
    lemma_segments_of_plain_text(up);
    lemma_segments_of_plain_text(etc);
    lemma_segments_of_plain_text(passwd);
    lemma_segments_join(up, up);
    lemma_segments_join(etc, passwd);
    lemma_segments_join(front, rest);
    lemma_segment_parts_one(up);
    lemma_segment_parts_one(etc);
    lemma_segment_parts_one(passwd);
    lemma_segment_parts_concat(seq![up], seq![up]);
    lemma_segment_parts_concat(seq![etc], seq![passwd]);
    lemma_segment_parts_concat(segments(front), segments(rest));
    assert(segment_parts(segments(climb)) =~= seq![
        Part::Parent,
        Part::Parent,
        Part::Name(etc),
        Part::Name(passwd),
    ]);
    assert(path_parts(climb) =~= segment_parts(segments(climb)));
    assert("etc/passwd"@ =~= rest);
    assert(path_parts(rest) =~= segment_parts(segments(rest)));
}

/// A request that climbs is followed when it is anchored as it stands:
/// under an absolute root, `../../etc/passwd` is outside the root, unless
/// the root itself ends in `etc/passwd` and the request leads back to it.
pub proof fn law_climbing_request_is_outside(root: Seq<char>)
    requires
        is_rooted(boundary(root)),
    ensures
        anchored_within(root, "../../etc/passwd"@) <==> {
            let base = boundary(root);
            &&& base.len() >= 2
            &&& base[base.len() - 2] == Part::Name("etc"@)
            &&& base[base.len() - 1] == Part::Name("passwd"@)
        },
{
    let base = boundary(root);
    let etc = Part::Name("etc"@);
    let passwd = Part::Name("passwd"@);
    let climb = seq![Part::Parent, Part::Parent, etc, passwd];
    lemma_climbing_parts();
    lemma_path_parts_plain(root);
    lemma_normalized_tidy(path_parts(root));
    lemma_normalized_of_tidy(base);
    lemma_normalized_concat(path_parts(root), base, climb);
    let one = base.push(Part::Parent);
    let two = one.push(Part::Parent);
    let three = two.push(etc);
    assert(base + climb =~= three.push(passwd));
    lemma_normalized_push(base, Part::Parent);
    lemma_normalized_push(one, Part::Parent);
    lemma_normalized_push(two, etc);
    lemma_normalized_push(three, passwd);
    let end = normalized(base + climb);
    assert(end == anchored(path_parts("../../etc/passwd"@), path_parts(root)));
    if base.len() >= 2 {
        let kept = base.subrange(0, base.len() - 2);
        assert(normalized(two) =~= kept);
        assert(end =~= kept.push(etc).push(passwd));
        if base.is_prefix_of(end) {
            assert(base[base.len() - 2] == end[base.len() - 2]);
            assert(base[base.len() - 1] == end[base.len() - 1]);
        } else if base[base.len() - 2] == etc && base[base.len() - 1] == passwd {
            assert(base =~= end.subrange(0, base.len() as int));
        }
    } else {
        assert(end =~= seq![etc, passwd]);
        assert(base[0] == Part::Root);
        if base.is_prefix_of(end) {
            assert(base[0] == end.subrange(0, base.len() as int)[0]);
        }
    }
}

} // verus!
