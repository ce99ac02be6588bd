//! The server's own storage.

use crate::error::with_message;
use crate::json::opt_text;
use crate::text::{contains, contains_char, contains_text, glue};
use vstd::prelude::*;
use vstd::string::*;

verus! {

/// A name without a path separator, by any platform's rules.
pub open spec fn plain_name(name: Seq<char>) -> bool {
    !name.contains('/') && !name.contains('\\') && !name.contains(':')
}

/// Where a character is found last, if at all.
pub open spec fn last_at(s: Seq<char>, c: char) -> Option<int>
    decreases s.len(),
{
    if s.len() == 0 {
        None
    } else if s.last() == c {
        Some(s.len() - 1)
    } else {
        last_at(s.drop_last(), c)
    }
}

/// A path that names the same pieces by any platform's rules: slashes separate
/// them, and nothing else does. Two slashes at the start can name a machine.
pub open spec fn slash_path(name: Seq<char>) -> bool {
    &&& !name.contains('\\') && !name.contains(':')
    &&& name.len() < 2 || name[0] != '/' || name[1] != '/'
}

/// The last piece of a path between slashes that is neither empty nor `.`, which
/// stand for nothing.
pub open spec fn last_piece(name: Seq<char>) -> Option<Seq<char>>
    decreases name.len(),
{
    match last_at(name, '/') {
        Some(k) if 0 <= k < name.len() => {
            let piece = name.skip(k + 1);
            if piece.len() > 0 && piece != seq!['.'] {
                Some(piece)
            } else {
                last_piece(name.take(k))
            }
        },
        _ => if name.len() > 0 && name != seq!['.'] {
            Some(name)
        } else {
            None
        },
    }
}

/// The extension of a file name: what follows the last dot, unless that dot comes
/// first. The parent directory `..` has none.
pub open spec fn extension(name: Seq<char>) -> Option<Seq<char>> {
    if name == seq!['.', '.'] {
        None
    } else {
        match last_at(name, '.') {
            Some(k) if k > 0 => Some(name.skip(k + 1)),
            _ => None,
        }
    }
}

/// The extension of the last piece of a path; none where there is no piece.
pub open spec fn extension_of(name: Seq<char>) -> Option<Seq<char>> {
    match last_piece(name) {
        Some(piece) => extension(piece),
        None => None,
    }
}

/// `std::path::Path::extension`: what follows the last dot of the last component
/// of the path, so that there is no dot in it. There is no slash in it either,
/// unless the path has a backslash: on Windows a path may start with a prefix of
/// backslashes after which a slash separates nothing. Of a path whose pieces only
/// slashes separate it is exact. Where a backslash or a colon occurs, or two
/// slashes stand at the start, what the last component is depends on the platform
/// and is left open.
#[verifier::external_body]
fn path_extension(name: &str) -> (res: Option<String>)
    ensures
        slash_path(name@) ==> opt_text(res) == extension_of(name@),
        res matches Some(e) ==> !e@.contains('.') && (!name@.contains('\\') ==> !e@.contains('/')),
{
    match std::path::Path::new(name).extension() {
        Some(e) => Some(e.to_string_lossy().into_owned()),
        None => None,
    }
}

/// Whether a file name may be used: it stays in its directory.
pub open spec fn safe_name(name: Seq<char>) -> bool {
    !name.contains('/') && !name.contains('\\') && !contains_text(name, ".."@)
}

/// Refuse a file name that could leave its directory.
pub fn validate_filename(filename: &str) -> (res: Result<(), String>)
    ensures
        with_message(res) == if safe_name(filename@) {
            Ok::<(), Seq<char>>(())
        } else {
            Err("Invalid filename"@)
        },
{
    if contains_char(filename, '/') || contains_char(filename, '\\') || contains(filename, "..") {
        return Err("Invalid filename".to_owned());
    }
    Ok(())
}

/// The name that a file is kept under: its id, and its extension behind a dot.
pub open spec fn kept_name(media_id: Seq<char>, ext: Option<Seq<char>>) -> Seq<char> {
    match ext {
        Some(e) => media_id + ("."@ + e),
        None => media_id + Seq::empty(),
    }
}

/// A text or a message by its characters.
pub open spec fn text_result(r: Result<String, String>) -> Result<Seq<char>, Seq<char>> {
    match r {
        Ok(s) => Ok(s@),
        Err(e) => Err(e@),
    }
}

/// The name that a file with some extension is kept under.
pub open spec fn name_for(media_id: Seq<char>, ext: Option<Seq<char>>) -> Result<Seq<char>, Seq<char>> {
    let name = kept_name(media_id, ext);
    if safe_name(name) {
        Ok(name)
    } else {
        Err("Invalid filename"@)
    }
}

/// The name that a file with some extension is kept under.
pub fn save_name(media_id: &str, ext: &Option<String>) -> (res: Result<String, String>)
    ensures
        text_result(res) == name_for(media_id@, opt_text(*ext)),
{
    let filename = match ext {
        Some(e) => {
            let tail = glue(".", e.as_str());
            glue(media_id, tail.as_str())
        },
        None => glue(media_id, ""),
    };
    proof {
        reveal_strlit("");
        assert(""@ =~= Seq::<char>::empty());
    }
    validate_filename(filename.as_str())?;
    Ok(filename)
}

/// The name that an uploaded file is kept under.
pub fn save_file(media_id: &str, original_filename: &str) -> (res: Result<String, String>)
    ensures
        slash_path(original_filename@) ==> text_result(res) == name_for(
            media_id@,
            extension_of(original_filename@),
        ),
        exists|ext: Option<Seq<char>>|
            text_result(res) == #[trigger] name_for(media_id@, ext) && (ext matches Some(e) ==> !e.contains(
                '.',
            ) && (!original_filename@.contains('\\') ==> !e.contains('/'))),
{
    let ext = path_extension(original_filename);
    save_name(media_id, &ext)
}

/// What became of a file that was to be written.
pub enum SaveEvent {
    /// The storage could not be found.
    NoStorage(String),
    /// The file would not be in the storage.
    Outside,
    /// The file could not be written.
    NotWritten(String),
    /// The file was written.
    Written,
}

/// The name of a file that was written, or why it was not.
pub open spec fn saved_as(filename: Seq<char>, event: SaveEvent) -> Result<Seq<char>, Seq<char>> {
    match event {
        SaveEvent::NoStorage(e) => Err("Storage path error: "@ + e@),
        SaveEvent::Outside => Err("Access denied"@),
        SaveEvent::NotWritten(e) => Err("Failed to write file: "@ + e@),
        SaveEvent::Written => Ok(filename),
    }
}

/// The name of a file that was written, or why it was not.
pub fn saved(filename: &str, event: &SaveEvent) -> (res: Result<String, String>)
    ensures
        text_result(res) == saved_as(filename@, *event),
{
    match event {
        SaveEvent::NoStorage(e) => Err(glue("Storage path error: ", e.as_str())),
        SaveEvent::Outside => Err("Access denied".to_owned()),
        SaveEvent::NotWritten(e) => Err(glue("Failed to write file: ", e.as_str())),
        SaveEvent::Written => Ok(filename.to_owned()),
    }
}

/// What became of a file that was to be read.
pub enum ReadEvent {
    /// The storage could not be found.
    NoStorage(String),
    /// There is no such file.
    NotFound,
    /// The file is not in the storage.
    Outside,
    /// The file could not be read.
    NotRead(String),
    /// The file was read.
    Read(Vec<u8>),
}

/// Some bytes, or a message by its characters.
pub open spec fn bytes_result(r: Result<Vec<u8>, String>) -> Result<Seq<u8>, Seq<char>> {
    match r {
        Ok(b) => Ok(b@),
        Err(e) => Err(e@),
    }
}

/// What is read from a file, or why nothing is.
pub open spec fn contents(filename: Seq<char>, event: ReadEvent) -> Result<Seq<u8>, Seq<char>> {
    if !safe_name(filename) {
        Err("Invalid filename"@)
    } else {
        match event {
            ReadEvent::NoStorage(e) => Err("Storage path error: "@ + e@),
            ReadEvent::NotFound => Err("File not found"@),
            ReadEvent::Outside => Err("Access denied"@),
            ReadEvent::NotRead(e) => Err("Failed to read file: "@ + e@),
            ReadEvent::Read(data) => Ok(data@),
        }
    }
}

/// What is read from a file, or why nothing is: its name may not be used, or
/// what became of reading it.
pub fn read_file(filename: &str, event: ReadEvent) -> (res: Result<Vec<u8>, String>)
    ensures
        bytes_result(res) == contents(filename@, event),
{
    validate_filename(filename)?;
    match event {
        ReadEvent::NoStorage(e) => Err(glue("Storage path error: ", e.as_str())),
        ReadEvent::NotFound => Err("File not found".to_owned()),
        ReadEvent::Outside => Err("Access denied".to_owned()),
        ReadEvent::NotRead(e) => Err(glue("Failed to read file: ", e.as_str())),
        ReadEvent::Read(data) => Ok(data),
    }
}

/// A file that is kept can be read again: its name is one that may be used, has
/// no path separator in it and starts with the file's id.
pub proof fn what_is_kept_can_be_read(media_id: Seq<char>, ext: Option<Seq<char>>)
    requires
        name_for(media_id, ext) is Ok,
    ensures
        safe_name(name_for(media_id, ext)->Ok_0),
        name_for(media_id, ext)->Ok_0.take(media_id.len() as int) == media_id,
{
    assert(kept_name(media_id, ext).take(media_id.len() as int) =~= media_id);
}

/// A file whose path has its pieces between slashes is always kept under an id of
/// hexadecimal digits and hyphens.
pub proof fn plain_files_are_kept(media_id: Seq<char>, original: Seq<char>)
    requires
        slash_path(original),
        media_id.len() > 0,
        forall|i: int|
            0 <= i < media_id.len() ==> #[trigger] media_id[i] == '-' || crate::crypto::hex_char(media_id[i]),
    ensures
        name_for(media_id, extension_of(original)) is Ok,
{
    let ext = extension_of(original);
    let name = kept_name(media_id, ext);
    reveal_strlit(".");
    reveal_strlit("..");
    if ext is Some {
        let piece = last_piece(original)->0;
        let k = last_at(piece, '.')->0;
        last_is_last(piece, '.');
        a_piece_has_no_slash(original);
        let e = ext->0;
        assert forall|i: int| 0 <= i < e.len() implies e[i] != '.' && e[i] != '/' && e[i] != '\\' by {
            assert(e[i] == piece[k + 1 + i]);
            assert(piece.contains(piece[k + 1 + i]));
            assert(original.contains(piece[k + 1 + i]));
        }
        assert forall|i: int| 0 <= i < name.len() implies name[i] != '/' && name[i] != '\\' && (name[i] == '.'
            ==> i == media_id.len()) by {
            if i < media_id.len() {
                assert(name[i] == media_id[i]);
            } else if i > media_id.len() {
                assert(name[i] == e[i - media_id.len() - 1]);
            } else {
                assert(name[i] == '.');
            }
        }
    } else {
        assert forall|i: int| 0 <= i < name.len() implies name[i] != '/' && name[i] != '\\' && name[i] != '.' by {
            assert(name[i] == media_id[i]);
        }
    }
    if contains_text(name, ".."@) {
        let i = choose|i: int| #[trigger] crate::text::stands_at(name, ".."@, i);
        assert(name[i] == '.' && name[i + 1] == '.') by {
            assert(name.subrange(i, i + 2)[0] == ".."@[0]);
            assert(name.subrange(i, i + 2)[1] == ".."@[1]);
        }
    }
}

proof fn a_piece_has_no_slash(name: Seq<char>)
    ensures
        last_piece(name) matches Some(p) ==> !p.contains('/') && forall|c: char| #[trigger]
            p.contains(c) ==> name.contains(c),
    decreases name.len(),
{
    last_is_last(name, '/');
    if let Some(k) = last_at(name, '/') {
        let piece = name.skip(k + 1);
        if piece.len() > 0 && piece != seq!['.'] {
            assert forall|i: int| 0 <= i < piece.len() implies #[trigger] piece[i] != '/' && name.contains(
                piece[i],
            ) by {
                assert(piece[i] == name[k + 1 + i]);
            }
        } else {
            let rest = name.take(k);
            a_piece_has_no_slash(rest);
            assert forall|c: char| #[trigger] rest.contains(c) implies name.contains(c) by {
                let i = choose|i: int| 0 <= i < rest.len() && rest[i] == c;
                assert(name[i] == c);
            }
        }
    }
}

/// A plain name is its own last piece, so that its extension is that of the name.
pub proof fn plain_names_keep_their_extension(name: Seq<char>)
    requires
        plain_name(name),
    ensures
        slash_path(name),
        extension_of(name) == extension(name),
{
    last_is_last(name, '/');
    if last_at(name, '/') is Some {
        assert(name.contains('/'));
    }
    if name.len() == 0 || name == seq!['.'] {
        last_is_last(name, '.');
    }
    if name.len() > 0 && name[0] == '/' {
        assert(name.contains('/'));
    }
}

proof fn last_is_last(s: Seq<char>, c: char)
    ensures
        last_at(s, c) matches Some(k) ==> 0 <= k < s.len() && s[k] == c && forall|i: int|
            k < i < s.len() ==> s[i] != c,
        last_at(s, c) is None ==> forall|i: int| 0 <= i < s.len() ==> s[i] != c,
    decreases s.len(),
{
    if s.len() > 0 {
        last_is_last(s.drop_last(), c);
        if s.last() != c {
            let rest = s.drop_last();
            assert forall|i: int| 0 <= i < s.len() - 1 implies s[i] == rest[i] by {
            }
            if let Some(k) = last_at(s, c) {
                assert forall|i: int| k < i < s.len() implies s[i] != c by {
                    if i < rest.len() {
                        assert(rest[i] != c);
                    }
                }
            } else {
                assert forall|i: int| 0 <= i < s.len() implies s[i] != c by {
                    if i < rest.len() {
                        assert(rest[i] != c);
                    }
                }
            }
        }
    }
}

/// A file that was written goes by its name, and one that was read gives what was
/// read, if its name stays in its directory; nothing else does.
pub proof fn files_are_what_became_of_them(filename: Seq<char>, written: SaveEvent, read: ReadEvent)
    ensures
        saved_as(filename, written) is Ok <==> written is Written,
        saved_as(filename, written) matches Ok(name) ==> name == filename,
        contents(filename, read) is Ok <==> read is Read && !filename.contains('/') && !filename.contains('\\')
            && !contains_text(filename, ".."@),
        contents(filename, read) matches Ok(data) ==> data == read->Read_0@,
{
}

/// The extension of a file is what follows the last dot of its name, if something
/// stands before that dot.
pub proof fn an_extension_follows_the_last_dot(stem: Seq<char>, ext: Seq<char>)
    requires
        stem.len() > 0,
        stem != seq!['.'] || ext.len() > 0,
        !ext.contains('.'),
    ensures
        extension(stem + seq!['.'] + ext) == Some(ext),
        !stem.contains('.') ==> extension(stem) is None,
{
    let name = stem + seq!['.'] + ext;
    last_is_last(name, '.');
    assert(name[stem.len() as int] == '.');
    let k = last_at(name, '.')->Some_0;
    if k > stem.len() {
        assert(name[k] == ext[k - stem.len() - 1]);
        assert(ext.contains(ext[k - stem.len() - 1]));
    }
    assert(name.skip(stem.len() as int + 1) =~= ext);
    if name == seq!['.', '.'] {
        assert(name.len() == 2);
        assert(stem =~= seq!['.']) by {
            assert(stem[0] == name[0]);
        }
    }
    last_is_last(stem, '.');
    if last_at(stem, '.') is Some {
        assert(stem.contains(stem[last_at(stem, '.')->Some_0]));
    }
}

/// The folders that a file comes from make no difference to its extension.
pub proof fn folders_have_no_say_in_the_extension(folder: Seq<char>, name: Seq<char>)
    requires
        name.len() > 0,
        name != seq!['.'],
        !name.contains('/'),
    ensures
        extension_of(folder + seq!['/'] + name) == extension(name),
{
    let path = folder + seq!['/'] + name;
    last_is_last(path, '/');
    assert(path[folder.len() as int] == '/');
    let k = last_at(path, '/')->Some_0;
    if k > folder.len() {
        assert(path[k] == name[k - folder.len() - 1]);
        assert(name.contains(name[k - folder.len() - 1]));
    }
    assert(path.skip(folder.len() as int + 1) =~= name);
}

/// A file is kept under its id with its extension behind a dot, or under its id
/// alone where it has none, if that name stays in its directory.
pub proof fn a_file_is_kept_under_its_id(media_id: Seq<char>, ext: Option<Seq<char>>)
    ensures
        name_for(media_id, ext) matches Ok(name) ==> name == (match ext {
            Some(e) => media_id + "."@ + e,
            None => media_id,
        }),
        name_for(media_id, ext) is Err ==> {
            let name = match ext {
                Some(e) => media_id + "."@ + e,
                None => media_id,
            };
            name.contains('/') || name.contains('\\') || contains_text(name, ".."@)
        },
{
    if let Some(e) = ext {
        assert(media_id + ("."@ + e) =~= media_id + "."@ + e);
    } else {
        assert(media_id + Seq::<char>::empty() =~= media_id);
    }
}

} // verus!
