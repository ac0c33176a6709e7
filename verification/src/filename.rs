//! File-name extension parsing: the directory scan keeps only entries whose
//! name ends in a given extension, following the rules of `Path::extension`
//! (the part after the last `.`, with a leading-dot-only name counting as
//! having no extension).

use vstd::prelude::*;

use crate::strutil::str_eq;

verus! {

/// Index of the last `'.'` in `name`, or -1 when none occurs.
pub open spec fn last_dot(name: Seq<char>) -> int
    decreases name.len(),
{
    if name.len() == 0 {
        -1
    } else if name.last() == '.' {
        name.len() - 1
    } else {
        last_dot(name.drop_last())
    }
}

/// The extension of a file name: everything after the last `'.'`, or empty
/// when no `'.'` stands past the first character. A name whose only `'.'` is
/// its first character (a hidden file such as `.png`) has no extension.
pub open spec fn extension_of(name: Seq<char>) -> Seq<char> {
    if last_dot(name) >= 1 {
        name.skip(last_dot(name) + 1)
    } else {
        Seq::empty()
    }
}

/// `last_dot` points at a `'.'` when one exists, and nothing after it is one.
proof fn lemma_last_dot(name: Seq<char>)
    ensures
        -1 <= last_dot(name) < name.len(),
        last_dot(name) >= 0 ==> name[last_dot(name)] == '.',
        forall|k: int| last_dot(name) < k < name.len() ==> name[k] != '.',
    decreases name.len(),
{
    if name.len() == 0 {
    } else if name.last() == '.' {
    } else {
        lemma_last_dot(name.drop_last());
        assert forall|k: int| last_dot(name) < k < name.len() implies name[k] != '.' by {
            if k < name.len() - 1 {
                assert(name.drop_last()[k] == name[k]);
            }
        }
    }
}

/// The extension of `name`, empty when it has none.
pub fn extension(name: &str) -> (r: String)
    ensures
        r@ == extension_of(name@),
{
    let len: usize = name.unicode_len();
    let mut j: usize = len;
    while j > 0
        invariant
            j <= len,
            len == name@.len(),
            forall|k: int| j <= k < len ==> name@[k] != '.',
        decreases j,
    {
        let c = name.get_char(j - 1);
        if c == '.' {
            proof {
                lemma_last_dot(name@);
                assert(last_dot(name@) == j - 1);
            }
            if j >= 2 {
                let ext = name.substring_char(j, len);
                proof {
                    assert(name@.subrange(j as int, len as int) =~= name@.skip(j as int));
                }
                return ext.to_owned();
            } else {
                return String::new();
            }
        }
        j = j - 1;
    }
    proof {
        lemma_last_dot(name@);
    }
    String::new()
}

/// Whether the extension of `name` is exactly `ext`.
pub fn has_extension(name: &str, ext: &str) -> (r: bool)
    ensures
        r == (extension_of(name@) == ext@),
{
    let e = extension(name);
    str_eq(e.as_str(), ext)
}

} // verus!
