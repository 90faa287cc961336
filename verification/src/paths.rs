//! File system paths as texts.

use vstd::prelude::*;

verus! {

/// What `Path::file_name` finds in a path, as text.
pub uninterp spec fn file_name_of(path: Seq<char>) -> Option<Seq<char>>;

/// What `Path::parent` finds of a path, as text.
pub uninterp spec fn parent_of(path: Seq<char>) -> Option<Seq<char>>;

/// Calls `std::path::Path::file_name`. The last component depends on the path alone.
#[verifier::external_body]
pub(crate) fn file_name(path: &str) -> (r: Option<String>)
    ensures
        match r {
            Some(n) => file_name_of(path@) == Some(n@),
            None => file_name_of(path@) is None,
        },
{
    std::path::Path::new(path).file_name().map(|n| n.to_string_lossy().into_owned())
}

/// Calls `std::path::Path::parent`. What is left without the last component depends on
/// the path alone.
#[verifier::external_body]
pub(crate) fn parent(path: &str) -> (r: Option<String>)
    ensures
        match r {
            Some(n) => parent_of(path@) == Some(n@),
            None => parent_of(path@) is None,
        },
{
    std::path::Path::new(path).parent().map(|n| n.to_string_lossy().into_owned())
}

/// A path made of a directory and a name inside it.
pub open spec fn path_joined(base: Seq<char>, name: Seq<char>) -> Seq<char> {
    if name.len() > 0 && name[0] == '/' {
        name
    } else if base.len() == 0 || base.last() == '/' {
        base + name
    } else {
        base.push('/') + name
    }
}

/// Joins a directory and a name inside it.
pub fn join_path(base: &str, name: &str) -> (r: String)
    ensures
        r@ == path_joined(base@, name@),
{
    if name.unicode_len() > 0 && name.get_char(0) == '/' {
        return name.to_owned();
    }
    let mut path = base.to_owned();
    let n: usize = base.unicode_len();
    if n > 0 && base.get_char(n - 1) != '/' {
        path.push('/');
    }
    path.append(name);
    path
}

/// A path inside a directory begins with the directory and ends with the name, with one slash
/// between them where the directory does not end with one. A name that begins with a slash
/// stands for itself.
pub proof fn names_stay_in_their_directory(base: Seq<char>, name: Seq<char>)
    ensures
        name.len() > 0 && name[0] == '/' ==> path_joined(base, name) == name,
        !(name.len() > 0 && name[0] == '/') && base.len() > 0 && base.last() != '/'
            ==> path_joined(base, name) == base + seq!['/'] + name,
        !(name.len() > 0 && name[0] == '/') && base.len() > 0 && base.last() == '/'
            ==> path_joined(base, name) == base + name,
        base.len() == 0 ==> path_joined(base, name) == name,
{
    assert(base.push('/') + name =~= base + seq!['/'] + name);
    if base.len() == 0 {
        assert(base + name =~= name);
    }
}

} // verus!
