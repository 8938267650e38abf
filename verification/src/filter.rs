//! The extension filter: an event is relevant if no allow-list is given, or
//! if one of its paths has an extension that the allow-list holds.
//!
//! The extension of a path is what follows the final `.` of its file name.
//! Extensions are compared as they are written: case matters, and neither
//! side carries a leading dot.

use vstd::prelude::*;
use vstd::string::*;
use crate::text::{option_text, option_texts, texts};

verus! {

/// The file name of a path, as `std::path::Path::file_name` reports it: the
/// final component of the path, if there is one and it is a name. What
/// separates components is the path syntax of the platform the library is
/// built for.
pub uninterp spec fn file_name(path: Seq<char>) -> Option<Seq<char>>;

/// Asks `std::path::Path::file_name` for the final component of `path` and
/// hands it back as text. The component is cut out of `path`, which is a
/// string, so turning it into a string loses nothing. The contract gives the
/// answer the name [`file_name`] and claims nothing else of it.
#[verifier::external_body]
fn path_file_name(path: &str) -> (name: Option<String>)
    ensures
        option_text(name) == file_name(path@),
{
    match std::path::Path::new(path).file_name() {
        Some(name) => Some(name.to_string_lossy().into_owned()),
        None => None,
    }
}

/// The position of the final `.` in `name`, or `-1` if it holds none.
pub open spec fn last_dot(name: Seq<char>) -> int
    decreases name.len(),
{
    if name.len() == 0 {
        -1
    } else if name.last() == '.' {
        name.len() - 1
    } else {
        last_dot(name.drop_last())
    }
}

/// The extension of a file name: what follows its final `.`.
///
/// A name without a `.` has no extension. Every `.` counts, the first
/// character of the name too: the extension of `.css` is `css`. A name that
/// ends in `.` has the empty extension.
pub open spec fn extension_of_name(name: Seq<char>) -> Option<Seq<char>> {
    if last_dot(name) < 0 {
        None
    } else {
        Some(name.skip(last_dot(name) + 1))
    }
}

/// The extension of a path: the extension of its file name.
pub open spec fn extension_of_path(path: Seq<char>) -> Option<Seq<char>> {
    match file_name(path) {
        Some(name) => extension_of_name(name),
        None => None,
    }
}

/// Whether a path has an extension that the allow-list holds.
pub open spec fn is_allowed(path: Seq<char>, allowed: Seq<Seq<char>>) -> bool {
    extension_of_path(path) matches Some(extension) && allowed.contains(extension)
}

/// Whether an event with these paths passes the filter: always without an
/// allow-list, and with one if at least one path is allowed by it.
pub open spec fn relevant(paths: Seq<Seq<char>>, allowed: Option<Seq<Seq<char>>>) -> bool {
    match allowed {
        None => true,
        Some(list) => exists|i: int| 0 <= i < paths.len() && is_allowed(#[trigger] paths[i], list),
    }
}

/// `last_dot` is what its name says: it points at a `.`, no `.` follows it,
/// and it is `-1` only if there is no `.` at all.
pub proof fn lemma_last_dot(name: Seq<char>)
    ensures
        -1 <= last_dot(name) < name.len(),
        last_dot(name) >= 0 ==> name[last_dot(name)] == '.',
        forall|k: int| last_dot(name) < k < name.len() ==> name[k] != '.',
    decreases name.len(),
{
    if name.len() > 0 && name.last() != '.' {
        let front = name.drop_last();
        lemma_last_dot(front);
        assert forall|k: int| last_dot(name) < k < name.len() implies name[k] != '.' by {
            if k < front.len() {
                assert(name[k] == front[k]);
            }
        }
        if last_dot(name) >= 0 {
            assert(name[last_dot(name)] == front[last_dot(front)]);
        }
    }
}

/// A position that points at a `.` which no `.` follows, or `-1` where there
/// is no `.`, is the position of the final `.`.
proof fn lemma_last_dot_is(name: Seq<char>, dot: int)
    requires
        -1 <= dot < name.len(),
        dot >= 0 ==> name[dot] == '.',
        forall|k: int| dot < k < name.len() ==> name[k] != '.',
    ensures
        last_dot(name) == dot,
{
    lemma_last_dot(name);
}

/// A file name has no extension exactly if it holds no `.`.
pub proof fn lemma_no_extension(name: Seq<char>)
    ensures
        extension_of_name(name) is None <==> forall|k: int|
            0 <= k < name.len() ==> name[k] != '.',
{
    lemma_last_dot(name);
}

/// A stem, a `.` and an extension without a `.` make a file name with that
/// extension, whatever the stem holds, and also if it is empty.
pub proof fn lemma_extension_of_joined(stem: Seq<char>, extension: Seq<char>)
    requires
        forall|k: int| 0 <= k < extension.len() ==> extension[k] != '.',
    ensures
        extension_of_name(stem + seq!['.'] + extension) == Some(extension),
{
    let name = stem + seq!['.'] + extension;
    assert(name[stem.len() as int] == '.');
    assert forall|k: int| stem.len() < k < name.len() implies name[k] != '.' by {
        assert(name[k] == extension[k - stem.len() - 1]);
    }
    lemma_last_dot_is(name, stem.len() as int);
    assert(name.skip(stem.len() as int + 1) =~= extension);
}

/// The extension of a file name: what follows its final `.`, if it holds
/// one.
pub fn extension_of_file_name(name: &str) -> (extension: Option<String>)
    ensures
        option_text(extension) == extension_of_name(name@),
{
    let n = name.unicode_len();
    let mut i: usize = n;
    while i > 0 && name.get_char(i - 1) != '.'
        invariant
            n == name@.len(),
            i <= n,
            forall|k: int| i <= k < n ==> name@[k] != '.',
        decreases i,
    {
        i = i - 1;
    }
    proof {
        lemma_last_dot_is(name@, i - 1);
    }
    if i == 0 {
        None
    } else {
        assert(name@.subrange(i as int, n as int) =~= name@.skip(i as int));
        Some(String::from_str(name.substring_char(i, n)))
    }
}

/// The extension of a path: what follows the final `.` of its file name.
///
/// A file name whose only `.` is its first character has an extension like
/// any other, where `std::path::Path::extension` sees none: the extension of
/// `/tmp/x/.css` is `css`.
pub fn path_extension(path: &str) -> (extension: Option<String>)
    ensures
        option_text(extension) == extension_of_path(path@),
{
    match path_file_name(path) {
        Some(name) => extension_of_file_name(name.as_str()),
        None => None,
    }
}

/// Whether the allow-list holds `extension`.
pub fn extension_in_list(extension: &String, allowed: &Vec<String>) -> (found: bool)
    ensures
        found == texts(allowed@).contains(extension@),
{
    let mut i: usize = 0;
    while i < allowed.len()
        invariant
            i <= allowed.len(),
            forall|k: int| 0 <= k < i ==> texts(allowed@)[k] != extension@,
        decreases allowed.len() - i,
    {
        if *extension == allowed[i] {
            assert(texts(allowed@)[i as int] == extension@);
            return true;
        }
        i = i + 1;
    }
    false
}

/// Whether `path` has an extension that the allow-list holds.
pub fn path_is_allowed(path: &str, allowed: &Vec<String>) -> (yes: bool)
    ensures
        yes == is_allowed(path@, texts(allowed@)),
{
    match path_extension(path) {
        Some(extension) => extension_in_list(&extension, allowed),
        None => false,
    }
}

/// Whether an event with these paths is relevant under the allow-list
/// `extensions`. Every path counts, not only the first.
pub fn is_relevant(paths: &Vec<String>, extensions: &Option<Vec<String>>) -> (yes: bool)
    ensures
        yes == relevant(texts(paths@), option_texts(*extensions)),
{
    match extensions {
        None => true,
        Some(allowed) => {
            let mut i: usize = 0;
            while i < paths.len()
                invariant
                    i <= paths.len(),
                    option_texts(*extensions) == Some(texts(allowed@)),
                    forall|k: int|
                        0 <= k < i ==> !is_allowed(#[trigger] texts(paths@)[k], texts(allowed@)),
                decreases paths.len() - i,
            {
                if path_is_allowed(paths[i].as_str(), allowed) {
                    assert(is_allowed(texts(paths@)[i as int], texts(allowed@)));
                    return true;
                }
                i = i + 1;
            }
            false
        },
    }
}

/// The filter is a function of what its inputs say: on path lists with the
/// same texts and allow-lists with the same texts it gives the same answer.
pub proof fn lemma_relevance_depends_on_texts(
    paths: Seq<String>,
    extensions: Option<Vec<String>>,
    other_paths: Seq<String>,
    other_extensions: Option<Vec<String>>,
)
    requires
        texts(paths) == texts(other_paths),
        option_texts(extensions) == option_texts(other_extensions),
    ensures
        relevant(texts(paths), option_texts(extensions)) == relevant(
            texts(other_paths),
            option_texts(other_extensions),
        ),
{
}

} // verus!
