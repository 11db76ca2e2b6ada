//! Paths as text, with `/` between their components.
use crate::text::{chars_of, has_prefix, starts_with, string_of};
use vstd::prelude::*;
use vstd::slice::slice_subrange;

verus! {

/// `rel` below `base`: a `rel` that begins at the root stands alone; otherwise
/// it follows `base`, after a `/` unless `base` is empty or ends in one.
pub open spec fn join(base: Seq<char>, rel: Seq<char>) -> Seq<char> {
    if rel.len() > 0 && rel[0] == '/' {
        rel
    } else if base.len() > 0 && base.last() != '/' {
        base + seq!['/'] + rel
    } else {
        base + rel
    }
}

/// The path of `rel` below `base`.
pub fn join_path(base: &str, rel: &str) -> (r: String)
    ensures
        r@ == join(base@, rel@),
{
    let b = chars_of(base);
    let c = chars_of(rel);
    if c.len() > 0 && c[0] == '/' {
        return String::from_str(rel);
    }
    let mut r = String::from_str(base);
    if b.len() > 0 && b[b.len() - 1] != '/' {
        r.push('/');
    }
    r.append(rel);
    r
}

/// Where the extension of `name` begins: the index of the last `.` of its last
/// component, unless that component begins with it; -1 if there is none.
pub open spec fn extension_start(name: Seq<char>) -> int
    decreases name.len(),
{
    if name.len() == 0 || name.last() == '/' {
        -1
    } else if name.last() == '.' {
        if name.len() == 1 || name[name.len() - 2] == '/' {
            -1
        } else {
            name.len() - 1
        }
    } else {
        extension_start(name.drop_last())
    }
}

/// `name` without its extension.
pub open spec fn stem(name: Seq<char>) -> Seq<char> {
    if extension_start(name) >= 0 {
        name.take(extension_start(name))
    } else {
        name
    }
}

/// `name` with `ext` in place of its extension, after a `.`.
pub open spec fn with_extension(name: Seq<char>, ext: Seq<char>) -> Seq<char> {
    stem(name) + seq!['.'] + ext
}

proof fn lemma_extension_start(name: Seq<char>, cut: int)
    requires
        0 <= cut <= name.len(),
        forall|k: int| cut <= k < name.len() ==> name[k] != '/' && name[k] != '.',
    ensures
        extension_start(name) == extension_start(name.take(cut)),
    decreases name.len() - cut,
{
    if cut < name.len() {
        lemma_extension_start(name.drop_last(), cut);
        assert(name.drop_last().take(cut) =~= name.take(cut));
    } else {
        assert(name.take(cut) =~= name);
    }
}

/// The path `name` with its extension replaced by `ext`.
pub fn replace_extension(name: &str, ext: &str) -> (r: String)
    ensures
        r@ == with_extension(name@, ext@),
{
    let n = chars_of(name);
    let mut cut: usize = n.len();
    while cut > 0 && n[cut - 1] != '/' && n[cut - 1] != '.'
        invariant
            cut <= n.len(),
            forall|k: int| cut <= k < n.len() ==> n@[k] != '/' && n@[k] != '.',
        decreases cut,
    {
        cut = cut - 1;
    }
    proof {
        lemma_extension_start(n@, cut as int);
    }
    let keep: usize = if cut > 0 && n[cut - 1] == '.' && !(cut == 1 || n[cut - 2] == '/') {
        cut - 1
    } else {
        n.len()
    };
    proof {
        assert(n@.take(n@.len() as int) =~= n@);
        if cut > 0 {
            assert(n@.take(cut as int).last() == n@[cut - 1]);
            if cut >= 2 {
                assert(n@.take(cut as int)[cut - 2] == n@[cut - 2]);
            }
        }
    }
    let mut r = string_of(slice_subrange(n.as_slice(), 0, keep));
    r.push('.');
    r.append(ext);
    r
}

/// `path` as seen from `dir`: where `path` is `dir` or lies below it, what
/// follows `dir` and the `/` after it; otherwise `path` itself.
pub open spec fn relative_to(path: Seq<char>, dir: Seq<char>) -> Seq<char> {
    if starts_with(path, dir) {
        let rest = path.skip(dir.len() as int);
        if rest.len() == 0 {
            rest
        } else if rest[0] == '/' {
            skip_slashes(rest)
        } else if dir.len() == 0 || dir.last() == '/' {
            rest
        } else {
            path
        }
    } else {
        path
    }
}

/// `s` without its leading `/` characters.
pub open spec fn skip_slashes(s: Seq<char>) -> Seq<char>
    decreases s.len(),
{
    if s.len() > 0 && s[0] == '/' {
        skip_slashes(s.skip(1))
    } else {
        s
    }
}

/// The path of `path` as seen from `dir`.
pub fn relative_path(path: &str, dir: &str) -> (r: String)
    ensures
        r@ == relative_to(path@, dir@),
{
    let p = chars_of(path);
    let d = chars_of(dir);
    if !has_prefix(p.as_slice(), d.as_slice()) {
        return String::from_str(path);
    }
    let mut k: usize = d.len();
    if k == p.len() {
        assert(p@.skip(k as int) =~= Seq::<char>::empty());
        return String::new();
    }
    if p[k] == '/' {
        let ghost rest = p@.skip(d@.len() as int);
        assert(rest.skip(0) =~= rest);
        while k < p.len() && p[k] == '/'
            invariant
                d.len() <= k <= p.len(),
                rest == p@.skip(d@.len() as int),
                skip_slashes(rest) == skip_slashes(rest.skip(k - d@.len())),
            decreases p.len() - k,
        {
            assert(rest.skip(k - d@.len()).skip(1) =~= rest.skip(k + 1 - d@.len()));
            k = k + 1;
        }
        assert(rest.skip(k - d@.len()) =~= p@.subrange(k as int, p@.len() as int));
        string_of(slice_subrange(p.as_slice(), k, p.len()))
    } else if d.len() == 0 || d[d.len() - 1] == '/' {
        assert(p@.skip(k as int) =~= p@.subrange(k as int, p@.len() as int));
        string_of(slice_subrange(p.as_slice(), k, p.len()))
    } else {
        String::from_str(path)
    }
}

} // verus!
