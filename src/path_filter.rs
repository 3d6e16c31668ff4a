//! Which filesystem paths are eligible for synchronization.
//!
//! Paths are handled as text, with `/` as the separator. The base name of a
//! path is its last segment once trailing separators are ignored.
use vstd::prelude::*;

verus! {

/// `p` with every trailing `/` removed.
pub open spec fn trim_trailing_separators(p: Seq<char>) -> Seq<char>
    decreases p.len(),
{
    if p.len() > 0 && p.last() == '/' {
        trim_trailing_separators(p.drop_last())
    } else {
        p
    }
}

/// The index just past the last `/` of `p`, or 0 when `p` has none.
pub open spec fn segment_start(p: Seq<char>) -> int
    decreases p.len(),
{
    if p.len() == 0 {
        0
    } else if p.last() == '/' {
        p.len() as int
    } else {
        segment_start(p.drop_last())
    }
}

/// The last segment of a path, trailing separators ignored.
pub open spec fn base_name(p: Seq<char>) -> Seq<char> {
    let t = trim_trailing_separators(p);
    t.subrange(segment_start(t), t.len() as int)
}

/// A hidden file's name starts with a dot.
pub open spec fn is_hidden(name: Seq<char>) -> bool {
    name.len() > 0 && name[0] == '.'
}

/// The name ends with the model extension `.stl`, matched case-sensitively.
pub open spec fn has_model_extension(name: Seq<char>) -> bool {
    name.len() >= 4 && name.subrange(name.len() - 4, name.len() as int) == seq!['.', 's', 't', 'l']
}

/// A path takes part in synchronization when its base name is not hidden and
/// carries the model extension.
pub open spec fn syncable(p: Seq<char>) -> bool {
    !is_hidden(base_name(p)) && has_model_extension(base_name(p))
}

/// The index of the last dot of `name`, or -1 when it has none.
pub open spec fn last_dot(name: Seq<char>) -> int
    decreases name.len(),
{
    if name.len() == 0 {
        -1
    } else if name.last() == '.' {
        name.len() - 1
    } else {
        last_dot(name.drop_last())
    }
}

/// A file name without its extension. A name whose only dot leads it (a hidden
/// name such as `.profile`) has no extension.
pub open spec fn file_stem(name: Seq<char>) -> Seq<char> {
    if last_dot(name) > 0 {
        name.subrange(0, last_dot(name))
    } else {
        name
    }
}

/// The name under which the remote side knows the file at `p`: its base name
/// without the extension.
pub open spec fn search_key_of(p: Seq<char>) -> Seq<char> {
    file_stem(base_name(p))
}

/// Hidden files never take part in synchronization, and every other path
/// whose base name carries the model extension does.
pub proof fn hidden_files_are_skipped(p: Seq<char>)
    ensures
        is_hidden(base_name(p)) ==> !syncable(p),
        !is_hidden(base_name(p)) && has_model_extension(base_name(p)) ==> syncable(p),
{
}

/// Locates the base name of `path`: it is `path@.subrange(r.0, r.1)`.
fn base_name_range(path: &str) -> (r: (usize, usize))
    ensures
        r.0 <= r.1 <= path@.len(),
        path@.subrange(r.0 as int, r.1 as int) == base_name(path@),
{
    let len = path.unicode_len();
    let mut end: usize = len;
    assert(path@.subrange(0, len as int) =~= path@);
    while end > 0 && path.get_char(end - 1) == '/'
        invariant
            end <= len == path@.len(),
            trim_trailing_separators(path@.subrange(0, end as int))
                == trim_trailing_separators(path@),
        decreases end,
    {
        assert(path@.subrange(0, end as int).drop_last() =~= path@.subrange(0, end - 1));
        end = end - 1;
    }
    let ghost t = path@.subrange(0, end as int);
    assert(trim_trailing_separators(t) == t);
    let mut start: usize = end;
    while start > 0 && path.get_char(start - 1) != '/'
        invariant
            start <= end <= len == path@.len(),
            t == path@.subrange(0, end as int),
            segment_start(path@.subrange(0, start as int)) == segment_start(t),
        decreases start,
    {
        assert(path@.subrange(0, start as int).drop_last() =~= path@.subrange(0, start - 1));
        start = start - 1;
    }
    assert(t.subrange(start as int, end as int) =~= path@.subrange(start as int, end as int));
    (start, end)
}

/// Whether the file at `path` takes part in synchronization: its base name
/// must not start with a dot and must end with the model extension `.stl`
/// (an upper-case `.STL` does not match).
pub fn is_valid_path(path: &str) -> (r: bool)
    ensures
        r == syncable(path@),
{
    let (start, end) = base_name_range(path);
    let ghost name = base_name(path@);
    if end - start < 4 {
        return false;
    }
    if path.get_char(start) == '.' {
        return false;
    }
    let ok = path.get_char(end - 4) == '.' && path.get_char(end - 3) == 's' && path.get_char(end
        - 2) == 't' && path.get_char(end - 1) == 'l';
    proof {
        if ok {
            assert(name.subrange(name.len() - 4, name.len() as int) =~= seq!['.', 's', 't', 'l']);
        } else {
            let tail = name.subrange(name.len() - 4, name.len() as int);
            assert(tail[0] == path@[end - 4]);
            assert(tail[1] == path@[end - 3]);
            assert(tail[2] == path@[end - 2]);
            assert(tail[3] == path@[end - 1]);
        }
    }
    ok
}

/// The search key of the file at `path`: its base name without the extension.
pub fn search_key(path: &str) -> (r: String)
    ensures
        r@ == search_key_of(path@),
{
    let (start, end) = base_name_range(path);
    let ghost name = base_name(path@);
    let mut dot: usize = end;
    while dot > start && path.get_char(dot - 1) != '.'
        invariant
            start <= dot <= end <= path@.len(),
            name == path@.subrange(start as int, end as int),
            last_dot(name) == last_dot(path@.subrange(start as int, dot as int)),
        decreases dot,
    {
        assert(path@.subrange(start as int, dot as int).drop_last() =~= path@.subrange(
            start as int,
            dot - 1,
        ));
        dot = dot - 1;
    }
    proof {
        if dot > start {
            assert(last_dot(name) == dot - 1 - start);
        } else {
            assert(path@.subrange(start as int, dot as int) =~= Seq::<char>::empty());
        }
    }
    if dot - start > 1 {
        let stem = path.substring_char(start, dot - 1);
        assert(stem@ =~= name.subrange(0, last_dot(name)));
        stem.to_owned()
    } else {
        let whole = path.substring_char(start, end);
        whole.to_owned()
    }
}

} // verus!
