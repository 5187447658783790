//! File-system paths as text, joined the way `PathBuf::push` joins them on
//! Unix.
use vstd::prelude::*;

use crate::text::{chars_of, push_chars, string_of};

verus! {

/// `base` joined with `part`: an absolute `part` replaces `base`; otherwise
/// a `/` goes between them unless `base` is empty or already ends with one.
pub open spec fn join_path(base: Seq<char>, part: Seq<char>) -> Seq<char> {
    if part.len() > 0 && part[0] == '/' {
        part
    } else if base.len() == 0 || base.last() == '/' {
        base + part
    } else {
        base + seq!['/'] + part
    }
}

/// `join_path(base, part)`.
pub fn join_path_exec(base: &str, part: &str) -> (r: String)
    ensures
        r@ == join_path(base@, part@),
{
    let b = chars_of(base);
    let p = chars_of(part);
    if p.len() > 0 && p[0] == '/' {
        return string_of(&p);
    }
    let mut out = b;
    if out.len() > 0 && out[out.len() - 1] != '/' {
        out.push('/');
    }
    push_chars(&mut out, &p);
    string_of(&out)
}

} // verus!
