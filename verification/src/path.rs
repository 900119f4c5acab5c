//! Unix path handling on text: where the last component of a path starts,
//! its file name and extension, and joining a name onto a folder.
//!
//! The definitions follow the way `std::path::Path` splits a Unix path into
//! components: separators are `/`, repeated and trailing separators are
//! ignored, `.` components are dropped, and `..` is a component that names no
//! file.
use vstd::prelude::*;
use vstd::string::*;

verus! {

/// Index at which the last run of `s` that holds no `sep` begins.
pub open spec fn segment_start(s: Seq<char>, sep: char) -> nat
    decreases s.len(),
{
    if s.len() == 0 || s.last() == sep {
        s.len()
    } else {
        segment_start(s.drop_last(), sep)
    }
}

/// The longest suffix of `s` in which `sep` does not occur.
pub open spec fn last_segment(s: Seq<char>, sep: char) -> Seq<char> {
    s.subrange(segment_start(s, sep) as int, s.len() as int)
}

pub open spec fn is_dot(seg: Seq<char>) -> bool {
    seg.len() == 1 && seg[0] == '.'
}

pub open spec fn is_dot_dot(seg: Seq<char>) -> bool {
    seg.len() == 2 && seg[0] == '.' && seg[1] == '.'
}

/// The final component of a path when it is a normal name: `None` for an
/// empty path, the root, a path of `.` components only, or one that ends in `..`.
pub open spec fn file_name(p: Seq<char>) -> Option<Seq<char>>
    decreases p.len(),
{
    if p.len() == 0 {
        None
    } else if p.last() == '/' {
        file_name(p.drop_last())
    } else if is_dot(last_segment(p, '/')) {
        file_name(p.drop_last())
    } else if is_dot_dot(last_segment(p, '/')) {
        None
    } else {
        Some(last_segment(p, '/'))
    }
}

/// The text after the final `.` of a file name, when that dot is not its first character.
pub open spec fn name_extension(f: Seq<char>) -> Option<Seq<char>> {
    if segment_start(f, '.') <= 1 {
        None
    } else {
        Some(f.subrange(segment_start(f, '.') as int, f.len() as int))
    }
}

/// The extension of the file that a path names.
pub open spec fn extension(p: Seq<char>) -> Option<Seq<char>> {
    match file_name(p) {
        Some(f) => name_extension(f),
        None => None,
    }
}

/// Appending `name` to `base`: an absolute `name` replaces `base`; otherwise a
/// separator goes between them unless `base` is empty or already ends in one.
pub open spec fn join(base: Seq<char>, name: Seq<char>) -> Seq<char> {
    if name.len() > 0 && name[0] == '/' {
        name
    } else if base.len() > 0 && base.last() != '/' {
        base + seq!['/'] + name
    } else {
        base + name
    }
}

/// The segment start is the position just after the last `sep`: a suffix
/// free of `sep` that follows a `sep` (or the start) is the last segment.
pub proof fn lemma_segment_start_unique(s: Seq<char>, sep: char, k: int)
    requires
        0 <= k <= s.len(),
        forall|i: int| k <= i < s.len() ==> s[i] != sep,
        k > 0 ==> s[k - 1] == sep,
    ensures
        segment_start(s, sep) == k,
    decreases s.len(),
{
    if s.len() > 0 && s.last() != sep {
        assert(k < s.len());
        lemma_segment_start_unique(s.drop_last(), sep, k);
    }
}

/// Where the last `sep`-free run of the first `end` characters of `s` begins.
fn segment_start_in(s: &str, end: usize, sep: char) -> (k: usize)
    requires
        end <= s@.len(),
    ensures
        k == segment_start(s@.subrange(0, end as int), sep),
        k <= end,
{
    let mut j: usize = end;
    while j > 0 && s.get_char(j - 1) != sep
        invariant
            j <= end <= s@.len(),
            forall|i: int| j <= i < end ==> s@[i] != sep,
        decreases j,
    {
        j = j - 1;
    }
    proof {
        lemma_segment_start_unique(s@.subrange(0, end as int), sep, j as int);
    }
    j
}

/// The file name of a path, as `Path::file_name` gives it on Unix.
pub fn path_file_name(p: &str) -> (res: Option<&str>)
    ensures
        res is Some <==> file_name(p@) is Some,
        res matches Some(f) ==> f@ == file_name(p@)->0,
{
    let len: usize = p.unicode_len();
    let mut end: usize = len;
    assert(p@.subrange(0, len as int) =~= p@);
    while end > 0
        invariant
            end <= len == p@.len(),
            file_name(p@) == file_name(p@.subrange(0, end as int)),
        decreases end,
    {
        let ghost prefix = p@.subrange(0, end as int);
        assert(prefix.drop_last() =~= p@.subrange(0, end - 1));
        if p.get_char(end - 1) == '/' {
            end = end - 1;
        } else {
            let start: usize = segment_start_in(p, end, '/');
            let ghost seg = last_segment(prefix, '/');
            assert(seg =~= p@.subrange(start as int, end as int));
            let seg_len: usize = end - start;
            if seg_len == 1 && p.get_char(start) == '.' {
                end = end - 1;
            } else if seg_len == 2 && p.get_char(start) == '.' && p.get_char(start + 1) == '.' {
                return None;
            } else {
                return Some(p.substring_char(start, end));
            }
        }
    }
    assert(p@.subrange(0, 0) =~= Seq::<char>::empty());
    None
}

/// The extension of the file that a path names, as `Path::extension` gives it on Unix.
pub fn path_extension(p: &str) -> (res: Option<&str>)
    ensures
        res is Some <==> extension(p@) is Some,
        res matches Some(e) ==> e@ == extension(p@)->0,
{
    match path_file_name(p) {
        None => None,
        Some(f) => {
            let len: usize = f.unicode_len();
            let start: usize = segment_start_in(f, len, '.');
            assert(f@.subrange(0, len as int) =~= f@);
            if start <= 1 {
                None
            } else {
                Some(f.substring_char(start, len))
            }
        },
    }
}

/// `base` with `name` appended, as `Path::join` does on Unix.
pub fn path_join(base: &str, name: &str) -> (res: String)
    ensures
        res@ == join(base@, name@),
{
    let name_len: usize = name.unicode_len();
    let base_len: usize = base.unicode_len();
    if name_len > 0 && name.get_char(0) == '/' {
        String::from_str(name)
    } else if base_len > 0 && base.get_char(base_len - 1) != '/' {
        proof {
            reveal_strlit("/");
        }
        let with_sep = String::from_str(base).concat("/");
        with_sep.concat(name)
    } else {
        String::from_str(base).concat(name)
    }
}

/// Joining a plain name onto a folder yields a path whose file name is that name.
pub proof fn law_file_name_of_join(base: Seq<char>, name: Seq<char>)
    requires
        name.len() > 0,
        forall|i: int| 0 <= i < name.len() ==> name[i] != '/',
        !is_dot(name),
        !is_dot_dot(name),
    ensures
        file_name(join(base, name)) == Some(name),
{
    let p = join(base, name);
    assert(p.len() > 0);
    assert(p.last() == name.last());
    let k: int = p.len() - name.len();
    assert forall|i: int| k <= i < p.len() implies p[i] != '/' by {
        assert(p[i] == name[i - k]);
    }
    if k > 0 {
        assert(p[k - 1] == '/');
    }
    lemma_segment_start_unique(p, '/', k);
    assert(last_segment(p, '/') =~= name);
}

} // verus!
