//! Joining file names onto directory paths.
use vstd::prelude::*;

verus! {

/// A name that can be joined onto a directory as it is: it does not start with
/// a separator and holds no `:`, so it carries no root and no drive.
pub open spec fn relative_name(name: Seq<char>) -> bool {
    &&& name.len() > 0 ==> name[0] != '/' && name[0] != '\\'
    &&& forall|i: int| 0 <= i < name.len() ==> #[trigger] name[i] != ':'
}

/// A directory path without a drive and without a verbatim prefix: it holds no
/// `:` and no `?`.
pub open spec fn plain_base(base: Seq<char>) -> bool {
    forall|i: int| 0 <= i < base.len() ==> #[trigger] base[i] != ':' && base[i] != '?'
}

/// A single file name: no separator, no `:`, and neither `.` nor `..`.
pub open spec fn simple_name(name: Seq<char>) -> bool {
    &&& forall|i: int| 0 <= i < name.len() ==> #[trigger] name[i] != '/' && name[i] != '\\' && name[i] != ':'
    &&& name != seq!['.']
    &&& name != seq!['.', '.']
}

/// `s` ends with `suffix`.
pub open spec fn ends_with(s: Seq<char>, suffix: Seq<char>) -> bool {
    s.len() >= suffix.len() && s.subrange(s.len() - suffix.len(), s.len() as int) == suffix
}

/// `res` is `name` joined onto the directory `base`: the name itself when the
/// base is empty, the base and the name when the base ends in `/`, and
/// otherwise the base, one separator (`/`, or `\` where that is the
/// platform's) and the name; a base that ends in `\` takes the name directly
/// where `\` is a separator, and `/` before it where it is not.
pub open spec fn joined(base: Seq<char>, name: Seq<char>, res: Seq<char>) -> bool {
    if base.len() == 0 {
        res == name
    } else if base.last() == '/' {
        res == base + name
    } else if base.last() == '\\' {
        res == base + name || res == base + seq!['/'] + name
    } else {
        res == base + seq!['/'] + name || res == base + seq!['\\'] + name
    }
}

/// Joining a name without `:` or `?` onto a base without them gives a path
/// without them.
pub proof fn lemma_joined_plain(base: Seq<char>, name: Seq<char>, res: Seq<char>)
    requires
        joined(base, name, res),
        plain_base(base),
        plain_base(name),
    ensures
        plain_base(res),
{
    assert forall|i: int| 0 <= i < res.len() implies #[trigger] res[i] != ':' && res[i] != '?' by {
        if i < base.len() {
            assert(res[i] == base[i]);
        } else if res.len() == base.len() + name.len() {
            assert(res[i] == name[i - base.len()]);
        } else {
            if i > base.len() {
                assert(res[i] == name[i - base.len() - 1]);
            }
        }
    }
}

/// Joins `name` onto the directory `base` with `camino::Utf8Path::join`.
/// Trusted: for a relative name and a base without drive or verbatim prefix,
/// the result is the name joined onto the base as `joined` says (std's
/// `PathBuf::push` adds a separator exactly when the base is non-empty and does
/// not end in one); for a single file name and any base, the result ends with
/// the name (`push` appends it, after a separator where one is needed). For
/// other inputs nothing is claimed: there the result depends on the
/// platform's path rules.
#[verifier::external_body]
pub fn join_path(base: &str, name: &str) -> (res: String)
    ensures
        relative_name(name@) && plain_base(base@) ==> joined(base@, name@, res@),
        simple_name(name@) ==> ends_with(res@, name@),
{
    camino::Utf8Path::new(base).join(name).into_string()
}

} // verus!
