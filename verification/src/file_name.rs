//! File names, taken out of Unix paths.
use crate::text::{
    after_last, ascii_lowercase, chars_of, contains_char, last_position,
    law_last_position_is_the_last, optional_string, optional_text, same_text, to_ascii_lowercase,
};
use vstd::prelude::*;
use vstd::utf8::encode_utf8;

verus! {

/// The most bytes that a file name may have.
pub const MAX_FILE_NAME_BYTES: usize = 255;

/// The last component of a path. Trailing slashes and trailing `.` components do not count;
/// the root, the current directory and a path that ends in `..` have no file name.
pub open spec fn file_name_of(path: Seq<char>) -> Option<Seq<char>>
    decreases path.len(),
{
    let start = last_position(path, '/') + 1;
    let segment = path.skip(start);
    if segment.len() == 0 || segment == seq!['.'] {
        if 0 < start <= path.len() {
            file_name_of(path.take(start - 1))
        } else {
            None
        }
    } else if segment == seq!['.', '.'] {
        None
    } else {
        Some(segment)
    }
}

/// What follows the last dot of a path's file name. A dot at the very beginning marks a hidden
/// file and starts no extension.
pub open spec fn extension_of(path: Seq<char>) -> Option<Seq<char>> {
    match file_name_of(path) {
        Some(name) => if last_position(name, '.') > 0 {
            Some(name.skip(last_position(name, '.') + 1))
        } else {
            None
        },
        None => None,
    }
}

/// Whether a file name is short enough and free of the NUL character.
pub open spec fn is_acceptable(name: Seq<char>) -> bool {
    encode_utf8(name).len() <= MAX_FILE_NAME_BYTES && !name.contains('\0')
}

/// The file name that an upload is kept under: the last component of the path that was given,
/// where that is acceptable.
pub open spec fn sanitized(value: Option<Seq<char>>) -> Option<Seq<char>> {
    match value {
        Some(path) => match file_name_of(path) {
            Some(name) => if is_acceptable(name) {
                Some(name)
            } else {
                None
            },
            None => None,
        },
        None => None,
    }
}

/// Whether an extension in lower case is one of a common image format.
pub open spec fn is_image_extension(extension: Seq<char>) -> bool {
    ||| extension == "png"@
    ||| extension == "jpg"@
    ||| extension == "jpeg"@
    ||| extension == "gif"@
    ||| extension == "webp"@
    ||| extension == "bmp"@
}

/// Whether a file name has the extension of a common image format, in whatever case.
pub open spec fn names_image(file_name: Seq<char>) -> bool {
    match extension_of(file_name) {
        Some(extension) => is_image_extension(ascii_lowercase(extension)),
        None => false,
    }
}

/// The last position of a character lies in the text.
proof fn lemma_last_position_range(text: Seq<char>, wanted: char)
    ensures
        -1 <= last_position(text, wanted) < text.len(),
    decreases text.len(),
{
    if text.len() > 0 && text.last() != wanted {
        lemma_last_position_range(text.drop_last(), wanted);
    }
}

/// The last component of a path.
pub fn file_name(path: &str) -> (r: Option<&str>)
    ensures
        optional_text(r) == file_name_of(path@),
{
    let chars = chars_of(path);
    let mut end: usize = chars.len();
    assert(path@.take(end as int) == path@);
    loop
        invariant
            end <= chars@.len(),
            chars@ == path@,
            file_name_of(path@) == file_name_of(path@.take(end as int)),
        decreases end,
    {
        let start: usize = after_last(&chars, end, '/');
        let ghost segment = path@.take(end as int).skip(start as int);
        assert(segment == path@.subrange(start as int, end as int));
        if start == end || (end - start == 1 && chars[start] == '.') {
            assert(segment.len() == 0 || segment =~= seq!['.']);
            if start == 0 {
                return None;
            }
            assert(path@.take(end as int).take(start - 1) == path@.take(start - 1));
            end = start - 1;
        } else if end - start == 2 && chars[start] == '.' && chars[start + 1] == '.' {
            assert(segment =~= seq!['.', '.']);
            return None;
        } else {
            assert(segment.len() == 1 ==> segment[0] != '.');
            assert(segment.len() == 2 ==> segment[0] != '.' || segment[1] != '.');
            return Some(path.substring_char(start, end));
        }
    }
}

/// What follows the last dot of a path's file name.
pub fn extension(path: &str) -> (r: Option<&str>)
    ensures
        optional_text(r) == extension_of(path@),
{
    match file_name(path) {
        Some(name) => {
            let chars = chars_of(name);
            assert(chars@.take(chars@.len() as int) == name@);
            let start: usize = after_last(&chars, chars.len(), '.');
            if start > 1 {
                let rest = name.substring_char(start, chars.len());
                assert(rest@ == name@.skip(start as int));
                Some(rest)
            } else {
                None
            }
        },
        None => None,
    }
}

/// The file name that an upload is kept under.
pub fn sanitized_file_name(value: Option<&str>) -> (r: Option<String>)
    ensures
        optional_string(r) == sanitized(optional_text(value)),
{
    match value {
        Some(path) => match file_name(path) {
            Some(name) => if name.as_bytes().len() <= MAX_FILE_NAME_BYTES && !contains_char(
                name,
                '\0',
            ) {
                Some(name.to_owned())
            } else {
                None
            },
            None => None,
        },
        None => None,
    }
}

/// Whether a file name has the extension of a common image format.
pub fn is_image_file_name(file_name: &str) -> (r: bool)
    ensures
        r == names_image(file_name@),
{
    match extension(file_name) {
        Some(extension) => {
            let lowered = to_ascii_lowercase(extension);
            let lowered = lowered.as_str();
            same_text(lowered, "png") || same_text(lowered, "jpg") || same_text(lowered, "jpeg")
                || same_text(lowered, "gif") || same_text(lowered, "webp") || same_text(
                lowered,
                "bmp",
            )
        },
        None => false,
    }
}

proof fn lemma_none_after_last_position(text: Seq<char>, wanted: char)
    ensures
        !text.skip(last_position(text, wanted) + 1).contains(wanted),
    decreases text.len(),
{
    lemma_last_position_range(text, wanted);
    let last = last_position(text, wanted);
    if text.len() > 0 && text.last() != wanted {
        lemma_none_after_last_position(text.drop_last(), wanted);
        lemma_last_position_range(text.drop_last(), wanted);
        let before = text.drop_last().skip(last + 1);
        let rest = text.skip(last + 1);
        assert(rest == before.push(text.last()));
        assert forall|i: int| 0 <= i < rest.len() implies rest[i] != wanted by {
            if i < before.len() {
                assert(before.contains(before[i]));
            }
        }
    }
}

proof fn lemma_last_position_absent(text: Seq<char>, wanted: char)
    requires
        !text.contains(wanted),
    ensures
        last_position(text, wanted) == -1,
    decreases text.len(),
{
    if text.len() > 0 {
        assert(text[text.len() - 1] != wanted);
        assert forall|i: int| 0 <= i < text.drop_last().len() implies text.drop_last()[i]
            != wanted by {
            assert(text.drop_last()[i] == text[i]);
        }
        lemma_last_position_absent(text.drop_last(), wanted);
    }
}

/// A file name names no directory: it holds no slash, is not empty, and is neither `.` nor
/// `..`.
pub proof fn law_file_name_names_no_directory(path: Seq<char>)
    ensures
        file_name_of(path) matches Some(name) ==> {
            &&& name.len() > 0
            &&& !name.contains('/')
            &&& name != seq!['.']
            &&& name != seq!['.', '.']
        },
    decreases path.len(),
{
    lemma_last_position_range(path, '/');
    lemma_none_after_last_position(path, '/');
    let start = last_position(path, '/') + 1;
    if 0 < start <= path.len() {
        law_file_name_names_no_directory(path.take(start - 1));
    }
}

/// A file name is its own file name: to take it out of a path once is enough.
pub proof fn law_file_name_is_final(path: Seq<char>)
    ensures
        file_name_of(path) matches Some(name) ==> file_name_of(name) == Some(name),
{
    law_file_name_names_no_directory(path);
    if let Some(name) = file_name_of(path) {
        lemma_last_position_absent(name, '/');
        assert(name.skip(0) == name);
    }
}

/// The name that an upload is kept under is kept as it is when it is given again.
pub proof fn law_sanitized_name_is_final(value: Option<Seq<char>>)
    ensures
        sanitized(value) matches Some(name) ==> sanitized(Some(name)) == Some(name),
{
    if let Some(path) = value {
        law_file_name_is_final(path);
    }
}

/// Whether a text can be the name of a file: it is not empty, holds no slash and is neither `.`
/// nor `..`.
pub open spec fn is_component(name: Seq<char>) -> bool {
    &&& name.len() > 0
    &&& !name.contains('/')
    &&& name != seq!['.']
    &&& name != seq!['.', '.']
}

proof fn lemma_last_position_at(before: Seq<char>, wanted: char, after: Seq<char>)
    requires
        !after.contains(wanted),
    ensures
        last_position(before.push(wanted) + after, wanted) == before.len(),
{
    let text = before.push(wanted) + after;
    law_last_position_is_the_last(text, wanted);
    assert(text[before.len() as int] == wanted);
    if last_position(text, wanted) > before.len() {
        let i = last_position(text, wanted);
        assert(text[i] == after[i - before.len() - 1]);
    }
}

/// The file name of a path is what follows its last slash, whatever directories stand before it;
/// a path without a slash is its own file name.
pub proof fn law_file_name_is_the_last_component(directory: Seq<char>, name: Seq<char>)
    requires
        is_component(name),
    ensures
        file_name_of(name) == Some(name),
        file_name_of(directory.push('/') + name) == Some(name),
{
    lemma_last_position_absent(name, '/');
    assert(name.skip(0) =~= name);
    let path = directory.push('/') + name;
    lemma_last_position_at(directory, '/', name);
    assert(path.skip(directory.len() as int + 1) =~= name);
}

/// A slash at the end of a path, or a slash and a dot, does not change its file name; two dots
/// at the end leave it without one.
pub proof fn law_trailing_dots_and_slashes(path: Seq<char>)
    ensures
        file_name_of(path.push('/')) == file_name_of(path),
        file_name_of(path.push('/').push('.')) == file_name_of(path),
        file_name_of(path.push('/').push('.').push('.')) is None,
{
    let none = Seq::<char>::empty();
    let slash = path.push('/');
    assert(slash =~= path.push('/') + none);
    lemma_last_position_at(path, '/', none);
    assert(slash.skip(slash.len() as int) =~= none);
    assert(slash.take(path.len() as int) =~= path);
    let dot = path.push('/').push('.');
    assert(dot =~= path.push('/') + seq!['.']);
    lemma_last_position_at(path, '/', seq!['.']);
    assert(dot.skip(path.len() as int + 1) =~= seq!['.']);
    assert(dot.take(path.len() as int) =~= path);
    let dots = path.push('/').push('.').push('.');
    assert(dots =~= path.push('/') + seq!['.', '.']);
    lemma_last_position_at(path, '/', seq!['.', '.']);
    assert(dots.skip(path.len() as int + 1) =~= seq!['.', '.']);
    assert(seq!['.', '.'].len() == 2 && seq!['.'].len() == 1);
}

/// The empty path, the current directory and the one above it have no file name.
pub proof fn law_directories_have_no_file_name()
    ensures
        file_name_of(Seq::empty()) is None,
        file_name_of(seq!['.']) is None,
        file_name_of(seq!['.', '.']) is None,
{
    let none = Seq::<char>::empty();
    lemma_last_position_absent(none, '/');
    assert(none.skip(0) =~= none);
    lemma_last_position_absent(seq!['.'], '/');
    assert(seq!['.'].skip(0) =~= seq!['.']);
    lemma_last_position_absent(seq!['.', '.'], '/');
    assert(seq!['.', '.'].skip(0) =~= seq!['.', '.']);
    assert(seq!['.', '.'].len() == 2 && seq!['.'].len() == 1);
}

/// The extension of a file is what follows the last dot of its name, where something stands
/// before that dot.
pub proof fn law_extension_follows_the_last_dot(stem: Seq<char>, extension: Seq<char>)
    requires
        !stem.contains('/'),
        !extension.contains('/'),
        !extension.contains('.'),
        is_component(stem.push('.') + extension),
    ensures
        stem.len() > 0 ==> extension_of(stem.push('.') + extension) == Some(extension),
        stem.len() == 0 ==> extension_of(stem.push('.') + extension) is None,
{
    let name = stem.push('.') + extension;
    law_file_name_is_the_last_component(Seq::empty(), name);
    lemma_last_position_at(stem, '.', extension);
    assert(name.skip(stem.len() as int + 1) =~= extension);
}

/// A file name without a dot has no extension.
pub proof fn law_name_without_a_dot_has_no_extension(name: Seq<char>)
    requires
        is_component(name),
        !name.contains('.'),
    ensures
        extension_of(name) is None,
        !names_image(name),
{
    law_file_name_is_the_last_component(Seq::empty(), name);
    lemma_last_position_absent(name, '.');
}

/// A file is taken for an image by its extension, in upper or lower case: png, jpg, jpeg, gif,
/// webp or bmp, and no other. A dot at the very beginning of its name starts no extension.
pub proof fn law_images_are_known_by_their_extension(stem: Seq<char>, extension: Seq<char>)
    requires
        !stem.contains('/'),
        !extension.contains('/'),
        !extension.contains('.'),
        is_component(stem.push('.') + extension),
    ensures
        names_image(stem.push('.') + extension) <==> stem.len() > 0 && ({
            let lower = ascii_lowercase(extension);
            lower == "png"@ || lower == "jpg"@ || lower == "jpeg"@ || lower == "gif"@ || lower
                == "webp"@ || lower == "bmp"@
        }),
{
    law_extension_follows_the_last_dot(stem, extension);
}

/// An upload is kept under the last component of the path that was given, whatever directories
/// stand before it, where that has at most 255 bytes and no NUL; else it has no name, and
/// without a path neither.
pub proof fn law_upload_is_kept_under_its_last_component(directory: Seq<char>, name: Seq<char>)
    requires
        is_component(name),
    ensures
        encode_utf8(name).len() <= 255 && !name.contains('\0') ==> sanitized(
            Some(directory.push('/') + name),
        ) == Some(name) && sanitized(Some(name)) == Some(name),
        encode_utf8(name).len() > 255 || name.contains('\0') ==> sanitized(
            Some(directory.push('/') + name),
        ) is None && sanitized(Some(name)) is None,
        sanitized(None) is None,
{
    law_file_name_is_the_last_component(directory, name);
}

} // verus!
