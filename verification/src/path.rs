//! The path of a connection request, which names the match to join.

use vstd::prelude::*;
use vstd::string::*;

verus! {

/// The number of characters of `/match/`.
pub const PREFIX_LEN: usize = 7;

/// The characters a match identifier is made of: the small letters `a` to
/// `z` and the hyphen.
pub open spec fn is_id_char(c: char) -> bool {
    ('a' <= c && c <= 'z') || c == '-'
}

/// A match identifier is a non-empty run of identifier characters.
pub open spec fn is_match_id(id: Seq<char>) -> bool {
    id.len() > 0 && forall|i: int| 0 <= i < id.len() ==> is_id_char(#[trigger] id[i])
}

/// The match identifier that a request path names: the path is `/match/`
/// followed by the identifier and by nothing else.
pub open spec fn match_id_of(path: Seq<char>) -> Option<Seq<char>> {
    if path.len() > PREFIX_LEN && path.subrange(0, PREFIX_LEN as int) == "/match/"@ && is_match_id(
        path.subrange(PREFIX_LEN as int, path.len() as int),
    ) {
        Some(path.subrange(PREFIX_LEN as int, path.len() as int))
    } else {
        None
    }
}

fn is_id_char_exec(c: char) -> (ok: bool)
    ensures
        ok == is_id_char(c),
{
    ('a' <= c && c <= 'z') || c == '-'
}

/// Reads the match identifier out of a request path, where the path names
/// one.
pub fn parse_match_path(path: &str) -> (id: Option<String>)
    ensures
        match match_id_of(path@) {
            Some(name) => id is Some && id->Some_0@ == name,
            None => id is None,
        },
{
    let prefix = "/match/";
    proof {
        reveal_strlit("/match/");
    }
    let n = path.unicode_len();
    if n <= PREFIX_LEN {
        return None;
    }
    let mut i: usize = 0;
    while i < PREFIX_LEN
        invariant
            i <= PREFIX_LEN,
            PREFIX_LEN < n,
            n == path@.len(),
            prefix@ == "/match/"@,
            prefix@.len() == PREFIX_LEN,
            forall|k: int| 0 <= k < i ==> path@[k] == prefix@[k],
        decreases PREFIX_LEN - i,
    {
        if path.get_char(i) != prefix.get_char(i) {
            assert(path@.subrange(0, PREFIX_LEN as int)[i as int] != prefix@[i as int]);
            return None;
        }
        i += 1;
    }
    assert(path@.subrange(0, PREFIX_LEN as int) =~= prefix@);
    let ghost name = path@.subrange(PREFIX_LEN as int, n as int);
    let mut j: usize = PREFIX_LEN;
    while j < n
        invariant
            PREFIX_LEN <= j <= n,
            n == path@.len(),
            name == path@.subrange(PREFIX_LEN as int, n as int),
            forall|k: int| 0 <= k < j - PREFIX_LEN ==> is_id_char(#[trigger] name[k]),
        decreases n - j,
    {
        if !is_id_char_exec(path.get_char(j)) {
            assert(!is_id_char(name[j - PREFIX_LEN]));
            return None;
        }
        j += 1;
    }
    Some(path.substring_char(PREFIX_LEN, n).to_owned())
}

/// A path names the identifier `id` exactly when it is `/match/` followed by
/// `id`, and `id` is a match identifier.
pub proof fn path_names_its_match(path: Seq<char>, id: Seq<char>)
    ensures
        match_id_of(path) == Some(id) <==> (path == "/match/"@ + id && is_match_id(id)),
{
    reveal_strlit("/match/");
    let prefix = "/match/"@;
    if path == prefix + id && is_match_id(id) {
        assert(path.subrange(0, PREFIX_LEN as int) =~= prefix);
        assert(path.subrange(PREFIX_LEN as int, path.len() as int) =~= id);
    }
    if match_id_of(path) == Some(id) {
        assert(path =~= prefix + id);
    }
}

} // verus!
