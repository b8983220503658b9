//! Lexical path model: splitting a path string into components, normalising
//! them, and rendering a component sequence back to text.
//!
//! Paths are read with `/` as the only separator. Nothing here touches the
//! file system: every function is a pure function of its arguments.

use vstd::prelude::*;
use crate::text::{chars_of, text_of};

verus! {

/// A component of a path, as the contracts see it.
pub enum Part {
    /// The leading separator of an absolute path.
    Root,
    /// The segment `..`.
    Parent,
    /// Any other non-empty segment.
    Name(Seq<char>),
}

/// A component of a path, as the executable code holds it.
#[derive(Debug)]
pub enum Component {
    RootDir,
    ParentDir,
    Normal(Vec<char>),
}

impl View for Component {
    type V = Part;

    open spec fn view(&self) -> Part {
        match self {
            Component::RootDir => Part::Root,
            Component::ParentDir => Part::Parent,
            Component::Normal(name) => Part::Name(name@),
        }
    }
}

/// The views of a sequence of components.
pub open spec fn parts(comps: Seq<Component>) -> Seq<Part> {
    comps.map_values(|c: Component| c@)
}

/// A path is absolute when it begins with the separator.
pub open spec fn is_absolute(path: Seq<char>) -> bool {
    path.len() > 0 && path[0] == '/'
}

/// The segments between the separators of `path`, empty ones included. A
/// path with `k` separators has `k + 1` segments.
pub open spec fn segments(path: Seq<char>) -> Seq<Seq<char>>
    decreases path.len(),
{
    if path.len() == 0 {
        seq![Seq::<char>::empty()]
    } else {
        let before = segments(path.drop_last());
        if path.last() == '/' {
            before.push(Seq::<char>::empty())
        } else {
            before.drop_last().push(before.last().push(path.last()))
        }
    }
}

/// What a segment contributes: nothing when it is empty or `.`, a step to
/// the parent when it is `..`, a name otherwise.
pub open spec fn segment_part(segment: Seq<char>) -> Option<Part> {
    if segment.len() == 0 {
        None
    } else if segment.len() == 1 && segment[0] == '.' {
        None
    } else if segment.len() == 2 && segment[0] == '.' && segment[1] == '.' {
        Some(Part::Parent)
    } else {
        Some(Part::Name(segment))
    }
}

/// The parts that a sequence of segments contributes, in order.
pub open spec fn segment_parts(segs: Seq<Seq<char>>) -> Seq<Part>
    decreases segs.len(),
{
    if segs.len() == 0 {
        Seq::<Part>::empty()
    } else {
        let before = segment_parts(segs.drop_last());
        match segment_part(segs.last()) {
            Some(part) => before.push(part),
            None => before,
        }
    }
}

/// The root marker of an absolute path, nothing for a relative one.
pub open spec fn root_parts(path: Seq<char>) -> Seq<Part> {
    if is_absolute(path) {
        seq![Part::Root]
    } else {
        Seq::<Part>::empty()
    }
}

/// The components of `path`: the root marker if it is absolute, then one
/// part for each segment that is neither empty nor `.`. Duplicate and
/// trailing separators therefore leave no trace.
pub open spec fn path_parts(path: Seq<char>) -> Seq<Part> {
    root_parts(path) + segment_parts(segments(path))
}

/// Lexical normalisation: `..` removes the component pushed before it, the
/// root marker included, and is dropped when there is none.
pub open spec fn normalized(comps: Seq<Part>) -> Seq<Part>
    decreases comps.len(),
{
    if comps.len() == 0 {
        Seq::<Part>::empty()
    } else {
        let before = normalized(comps.drop_last());
        match comps.last() {
            Part::Parent => if before.len() > 0 {
                before.drop_last()
            } else {
                before
            },
            part => before.push(part),
        }
    }
}

/// The text of one more component pushed onto the text `base`: a root
/// marker replaces what was there, anything else is appended behind a
/// separator unless `base` is empty or already ends with one.
pub open spec fn pushed(base: Seq<char>, part: Part) -> Seq<char> {
    match part {
        Part::Root => seq!['/'],
        Part::Parent => joint(base) + seq!['.', '.'],
        Part::Name(name) => joint(base) + name,
    }
}

/// `base`, followed by a separator where the next segment needs one.
pub open spec fn joint(base: Seq<char>) -> Seq<char> {
    if base.len() == 0 || base.last() == '/' {
        base
    } else {
        base.push('/')
    }
}

/// The path of `name` in the directory `dir`: the directory, a separator
/// where one is needed, and the name.
pub open spec fn joined(dir: Seq<char>, name: Seq<char>) -> Seq<char> {
    joint(dir) + name
}

/// The text of a component sequence.
pub open spec fn rendered(comps: Seq<Part>) -> Seq<char>
    decreases comps.len(),
{
    if comps.len() == 0 {
        Seq::<char>::empty()
    } else {
        pushed(rendered(comps.drop_last()), comps.last())
    }
}

/// A segment that stands for a name: it holds no separator and is neither
/// empty, `.` nor `..`.
pub open spec fn is_name(segment: Seq<char>) -> bool {
    !segment.contains('/') && segment_part(segment) == Some(Part::Name(segment))
}

/// A sequence in which the root marker stands only in front and every name
/// is a proper one.
pub open spec fn plain(comps: Seq<Part>) -> bool {
    forall|i: int|
        0 <= i < comps.len() ==> match #[trigger] comps[i] {
            Part::Root => i == 0,
            Part::Parent => true,
            Part::Name(name) => is_name(name),
        }
}

/// A plain sequence without any `..`: the shape of every normalised path.
pub open spec fn tidy(comps: Seq<Part>) -> bool {
    plain(comps) && forall|i: int| 0 <= i < comps.len() ==> !(#[trigger] comps[i] is Parent)
}

/// A sequence is rooted when it begins with the root marker.
pub open spec fn is_rooted(comps: Seq<Part>) -> bool {
    comps.len() > 0 && comps[0] == Part::Root
}

/// A copy of `chars[start..end]`.
fn slice_of(chars: &Vec<char>, start: usize, end: usize) -> (out: Vec<char>)
    requires
        start <= end <= chars.len(),
    ensures
        out@ == chars@.subrange(start as int, end as int),
{
    let mut out: Vec<char> = Vec::new();
    let mut i: usize = start;
    while i < end
        invariant
            start <= i <= end <= chars.len(),
            out@ == chars@.subrange(start as int, i as int),
        decreases end - i,
    {
        out.push(chars[i]);
        i = i + 1;
    }
    out
}

/// Appends to `out` what the segment `chars[start..end]` contributes.
fn push_segment(out: &mut Vec<Component>, chars: &Vec<char>, start: usize, end: usize)
    requires
        start <= end <= chars.len(),
    ensures
        parts(final(out)@) == match segment_part(chars@.subrange(start as int, end as int)) {
            Some(part) => parts(old(out)@).push(part),
            None => parts(old(out)@),
        },
{
    let len: usize = end - start;
    if len == 0 || (len == 1 && chars[start] == '.') {
        return ;
    }
    if len == 2 && chars[start] == '.' && chars[start + 1] == '.' {
        out.push(Component::ParentDir);
    } else {
        out.push(Component::Normal(slice_of(chars, start, end)));
    }
}

/// Splits `path` into its components.
pub fn components(path: &str) -> (out: Vec<Component>)
    ensures
        parts(out@) == path_parts(path@),
{
    let chars = chars_of(path);
    let n: usize = chars.len();
    let mut out: Vec<Component> = Vec::new();
    if n > 0 && chars[0] == '/' {
        out.push(Component::RootDir);
    }
    let mut start: usize = 0;
    let mut i: usize = 0;
    while i < n
        invariant
            chars@ == path@,
            n == chars.len(),
            start <= i <= n,
            segments(path@.subrange(0, i as int)).len() > 0,
            segments(path@.subrange(0, i as int)).last() == path@.subrange(start as int, i as int),
            parts(out@) == root_parts(path@) + segment_parts(
                segments(path@.subrange(0, i as int)).drop_last(),
            ),
        decreases n - i,
    {
        let ghost sofar = path@.subrange(0, i as int);
        let ghost next = path@.subrange(0, i + 1);
        assert(next.drop_last() =~= sofar);
        if chars[i] == '/' {
            push_segment(&mut out, &chars, start, i);
            start = i + 1;
            assert(segments(next).drop_last() =~= segments(sofar));
        } else {
            assert(segments(next).drop_last() =~= segments(sofar).drop_last());
        }
        i = i + 1;
    }
    assert(path@.subrange(0, n as int) =~= path@);
    push_segment(&mut out, &chars, start, n);
    out
}

/// Normalises a component sequence: each `..` removes the component before
/// it, or is dropped where there is none.
pub fn normalize(comps: Vec<Component>) -> (out: Vec<Component>)
    ensures
        parts(out@) == normalized(parts(comps@)),
{
    let mut out: Vec<Component> = Vec::new();
    let ghost all = comps@;
    for comp in it: comps
        invariant
            it.seq() == all,
            parts(out@) == normalized(parts(all.subrange(0, it.index() as int))),
    {
        assert(parts(all.subrange(0, it.index() + 1)).drop_last() =~= parts(
            all.subrange(0, it.index() as int),
        ));
        match comp {
            Component::ParentDir => {
                if out.len() > 0 {
                    out.pop();
                }
            },
            other => {
                out.push(other);
            },
        }
    }
    assert(all.subrange(0, all.len() as int) =~= all);
    out
}

/// Appends the text of `comp` to the text in `buf`.
fn push_part(buf: &mut Vec<char>, comp: &Component)
    ensures
        final(buf)@ == pushed(old(buf)@, comp@),
{
    match comp {
        Component::RootDir => {
            buf.clear();
            buf.push('/');
        },
        Component::ParentDir => {
            push_joint(buf);
            buf.push('.');
            buf.push('.');
        },
        Component::Normal(name) => {
            push_joint(buf);
            let ghost joined = buf@;
            let n: usize = name.len();
            let mut i: usize = 0;
            while i < n
                invariant
                    n == name.len(),
                    i <= n,
                    buf@ == joined + name@.subrange(0, i as int),
                decreases n - i,
            {
                buf.push(name[i]);
                i = i + 1;
            }
        },
    }
}

/// Appends a separator to `buf` where the next segment needs one.
fn push_joint(buf: &mut Vec<char>)
    ensures
        final(buf)@ == joint(old(buf)@),
{
    let n: usize = buf.len();
    if n > 0 && buf[n - 1] != '/' {
        buf.push('/');
    }
}

/// The text of a component sequence.
pub fn render(comps: &Vec<Component>) -> (out: String)
    ensures
        out@ == rendered(parts(comps@)),
{
    let mut buf: Vec<char> = Vec::new();
    let n: usize = comps.len();
    let mut i: usize = 0;
    while i < n
        invariant
            n == comps.len(),
            i <= n,
            buf@ == rendered(parts(comps@.subrange(0, i as int))),
        decreases n - i,
    {
        push_part(&mut buf, &comps[i]);
        assert(parts(comps@.subrange(0, i + 1)).drop_last() =~= parts(
            comps@.subrange(0, i as int),
        ));
        i = i + 1;
    }
    assert(comps@.subrange(0, n as int) =~= comps@);
    text_of(&buf)
}

/// Lexically normalises `path`: drops empty segments and `.`, and lets each
/// `..` remove the component before it.
pub fn normalize_path(path: &str) -> (out: String)
    ensures
        out@ == rendered(normalized(path_parts(path@))),
{
    let comps = normalize(components(path));
    render(&comps)
}

} // verus!
