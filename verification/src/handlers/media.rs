//! Uploading and downloading files.

use crate::auth::{bearer, bearer_token, resolve_token, token_owner};
use crate::crypto::{hex_char, new_uuid};
use crate::error::{
    bad_request, forbidden, not_found, some_found, unauthorized, AppError, Lookup, Refusal,
};
use crate::group::{applied, GroupDb, MediaRow};
use crate::handlers::avatars::{file_result, FileModel, FileReply, Part};
use crate::handlers::checks::{is_surely_counted, surely_counted};
use crate::json::{lookup_of_push, member_of, obj, opt_text, Fields, Json};
use crate::media::local::{bytes_result, plain_name};
use crate::outcome::{replying, Effect, Outcome};
use crate::store::{Change, Write};
use crate::text::{
    glue, glue3, is_among, same, show_u64, decimal, ends, starts, starts_with, suffixes_are_taken_off, texts,
    trim_end_matches, without_suffixes,
};
use vstd::prelude::*;
use vstd::string::*;

verus! {

/// Whether some bytes stand in the data at a position.
pub open spec fn bytes_at(data: Seq<u8>, at: int, pattern: Seq<u8>) -> bool {
    at + pattern.len() <= data.len() && data.subrange(at, at + pattern.len()) == pattern
}

fn has_bytes(data: &[u8], at: usize, pattern: &[u8]) -> (res: bool)
    requires
        at <= 16,
    ensures
        res == bytes_at(data@, at as int, pattern@),
{
    let n: usize = pattern.len();
    let size: usize = data.len();
    if size < at || size - at < n {
        return false;
    }
    let mut i: usize = 0;
    while i < n
        invariant
            i <= n == pattern@.len(),
            at + n <= size == data@.len(),
            forall|j: int| 0 <= j < i ==> data@[at + j] == pattern@[j],
        decreases n - i,
    {
        if data[at + i] != pattern[i] {
            assert(data@.subrange(at as int, at + n)[i as int] != pattern@[i as int]);
            return false;
        }
        i += 1;
    }
    assert(data@.subrange(at as int, at + n) =~= pattern@);
    true
}

/// `RIFF` with a given word behind its length.
pub open spec fn riff(data: Seq<u8>, word: Seq<u8>) -> bool {
    bytes_at(data, 0, [0x52u8, 0x49, 0x46, 0x46]@) && bytes_at(data, 8, word)
}

fn is_riff(data: &[u8], word: &[u8]) -> (res: bool)
    ensures
        res == riff(data@, word@),
{
    has_bytes(data, 0, &[0x52u8, 0x49, 0x46, 0x46]) && has_bytes(data, 8, word)
}

/// The type of some data by the bytes that it starts with; what is not known is
/// a stream of bytes.
pub open spec fn mime_of(data: Seq<u8>) -> Seq<char> {
    if bytes_at(data, 0, [0xFFu8, 0xD8, 0xFF]@) {
        "image/jpeg"@
    } else if bytes_at(data, 0, [0x89u8, 0x50, 0x4E, 0x47, 0x0D, 0x0A, 0x1A, 0x0A]@) {
        "image/png"@
    } else if bytes_at(data, 0, [0x47u8, 0x49, 0x46, 0x38, 0x37, 0x61]@) || bytes_at(
        data,
        0,
        [0x47u8, 0x49, 0x46, 0x38, 0x39, 0x61]@,
    ) {
        "image/gif"@
    } else if riff(data, [0x57u8, 0x45, 0x42, 0x50]@) {
        "image/webp"@
    } else if bytes_at(data, 4, [0x66u8, 0x74, 0x79, 0x70]@) {
        "video/mp4"@
    } else if bytes_at(data, 0, [0x1Au8, 0x45, 0xDF, 0xA3]@) {
        "video/webm"@
    } else if riff(data, [0x41u8, 0x56, 0x49, 0x20]@) {
        "video/x-msvideo"@
    } else if bytes_at(data, 0, [0x49u8, 0x44, 0x33]@) || (data.len() >= 2 && data[0] == 0xFF && data[1]
        & 0xE0 == 0xE0) {
        "audio/mpeg"@
    } else if bytes_at(data, 0, [0x4Fu8, 0x67, 0x67, 0x53]@) {
        "audio/ogg"@
    } else if bytes_at(data, 0, [0x66u8, 0x4C, 0x61, 0x43]@) {
        "audio/flac"@
    } else if riff(data, [0x57u8, 0x41, 0x56, 0x45]@) {
        "audio/wav"@
    } else {
        "application/octet-stream"@
    }
}

/// The type of some data by the bytes that it starts with.
pub fn detect_mime_from_magic(data: &[u8]) -> (res: &'static str)
    ensures
        res@ == mime_of(data@),
{
    if has_bytes(data, 0, &[0xFFu8, 0xD8, 0xFF]) {
        "image/jpeg"
    } else if has_bytes(data, 0, &[0x89u8, 0x50, 0x4E, 0x47, 0x0D, 0x0A, 0x1A, 0x0A]) {
        "image/png"
    } else if has_bytes(data, 0, &[0x47u8, 0x49, 0x46, 0x38, 0x37, 0x61]) || has_bytes(
        data,
        0,
        &[0x47u8, 0x49, 0x46, 0x38, 0x39, 0x61],
    ) {
        "image/gif"
    } else if is_riff(data, &[0x57u8, 0x45, 0x42, 0x50]) {
        "image/webp"
    } else if has_bytes(data, 4, &[0x66u8, 0x74, 0x79, 0x70]) {
        "video/mp4"
    } else if has_bytes(data, 0, &[0x1Au8, 0x45, 0xDF, 0xA3]) {
        "video/webm"
    } else if is_riff(data, &[0x41u8, 0x56, 0x49, 0x20]) {
        "video/x-msvideo"
    } else if has_bytes(data, 0, &[0x49u8, 0x44, 0x33]) || (data.len() >= 2 && data[0] == 0xFF && data[1]
        & 0xE0 == 0xE0) {
        "audio/mpeg"
    } else if has_bytes(data, 0, &[0x4Fu8, 0x67, 0x67, 0x53]) {
        "audio/ogg"
    } else if has_bytes(data, 0, &[0x66u8, 0x4C, 0x61, 0x43]) {
        "audio/flac"
    } else if is_riff(data, &[0x57u8, 0x41, 0x56, 0x45]) {
        "audio/wav"
    } else {
        "application/octet-stream"
    }
}

/// The kind of file that a type belongs to.
pub open spec fn kind_of(mime: Seq<char>) -> Seq<char> {
    if starts(mime, "image/"@) {
        "image"@
    } else if starts(mime, "video/"@) {
        "video"@
    } else if starts(mime, "audio/"@) {
        "audio"@
    } else {
        "file"@
    }
}

/// The kind of file that a type belongs to.
pub fn detect_file_type(mime: &str) -> (res: String)
    ensures
        res@ == kind_of(mime@),
{
    if starts_with(mime, "image/") {
        "image".to_owned()
    } else if starts_with(mime, "video/") {
        "video".to_owned()
    } else if starts_with(mime, "audio/") {
        "audio".to_owned()
    } else {
        "file".to_owned()
    }
}

/// What may be uploaded.
pub struct MediaLimits {
    pub max_file_size_mb: u64,
    pub allowed_types: Vec<String>,
}

/// The size that a file may have can be counted.
pub open spec fn size_fits(limits: MediaLimits) -> bool {
    limits.max_file_size_mb * 1_048_576 <= usize::MAX
}

/// What is known of the file after some parts: which part it is in, and its name.
/// The last file counts, under the last name that was given.
pub open spec fn file_in(parts: Seq<Part>, limits: MediaLimits) -> Result<(Option<int>, Seq<char>), Refusal>
    decreases parts.len(),
{
    if parts.len() == 0 {
        Ok((None, Seq::empty()))
    } else {
        match file_in(parts.drop_last(), limits) {
            Err(e) => Err(e),
            Ok(so_far) => if opt_text(parts.last().name) != Some("file"@) {
                Ok(so_far)
            } else {
                match parts.last().data {
                    Err(e) => Err(Refusal::BadRequest("Failed to read file: "@ + e@)),
                    Ok(d) => if d@.len() > limits.max_file_size_mb * 1_048_576 {
                        Err(
                            Refusal::BadRequest(
                                "File too large (max "@ + decimal(limits.max_file_size_mb as nat) + " MB)"@,
                            ),
                        )
                    } else {
                        Ok(
                            (
                                Some(parts.len() - 1),
                                match parts.last().file_name {
                                    Some(n) => n@,
                                    None => so_far.1,
                                },
                            ),
                        )
                    },
                }
            },
        }
    }
}

/// A file to keep: the part of the form that it is in, its name, its type and its
/// size.
pub struct MediaUpload {
    pub id: String,
    pub part: usize,
    pub original_filename: String,
    pub mime_type: String,
    pub size_bytes: i64,
}

/// The model of a file to keep.
pub struct UploadModel {
    pub id: Seq<char>,
    pub part: int,
    pub original_filename: Seq<char>,
    pub mime_type: Seq<char>,
    pub size_bytes: int,
}

impl View for MediaUpload {
    type V = UploadModel;

    open spec fn view(&self) -> UploadModel {
        UploadModel {
            id: self.id@,
            part: self.part as int,
            original_filename: self.original_filename@,
            mime_type: self.mime_type@,
            size_bytes: self.size_bytes as int,
        }
    }
}

/// The model of a result with a file to keep.
pub open spec fn upload_result(r: Result<MediaUpload, AppError>) -> Result<UploadModel, Refusal> {
    match r {
        Ok(u) => Ok(u@),
        Err(e) => Err(e@),
    }
}

/// The file that a form asks to keep: from a member, of an allowed kind. What the
/// form says about the file's type does not count, only what the file holds.
pub open spec fn upload_of(
    id: Seq<char>,
    memberships: Lookup<i64>,
    parts: Seq<Part>,
    failure: Option<Seq<char>>,
    limits: MediaLimits,
) -> Result<UploadModel, Refusal> {
    match file_in(parts, limits) {
        Err(e) => Err(e),
        Ok(found) => match failure {
            Some(e) => Err(Refusal::BadRequest("Multipart error: "@ + e)),
            None => match found.0 {
                None => Err(Refusal::BadRequest("No file field in upload"@)),
                Some(i) => if !surely_counted(memberships) {
                    Err(Refusal::Forbidden("Not a member of this group"@))
                } else {
                    let data = parts[i].data->Ok_0@;
                    let kind = kind_of(mime_of(data));
                    if !texts(limits.allowed_types@).contains(kind) {
                        Err(Refusal::BadRequest("File type '"@ + kind + "' not allowed"@))
                    } else {
                        Ok(
                            UploadModel {
                                id,
                                part: i,
                                original_filename: found.1,
                                mime_type: mime_of(data),
                                size_bytes: data.len() as int,
                            },
                        )
                    }
                },
            },
        },
    }
}

proof fn failed_parts_stay(parts: Seq<Part>, limits: MediaLimits, n: int)
    requires
        0 <= n <= parts.len(),
        file_in(parts.take(n), limits) is Err,
    ensures
        file_in(parts, limits) == file_in(parts.take(n), limits),
    decreases parts.len(),
{
    if n == parts.len() {
        assert(parts.take(n) =~= parts);
    } else {
        assert(parts.drop_last().take(n) =~= parts.take(n));
        failed_parts_stay(parts.drop_last(), limits, n);
    }
}

fn find_file(parts: &Vec<Part>, limits: &MediaLimits) -> (res: Result<(Option<usize>, String), AppError>)
    requires
        size_fits(*limits),
    ensures
        match res {
            Ok(f) => file_in(parts@, *limits) == Ok::<(Option<int>, Seq<char>), Refusal>(
                (
                    match f.0 {
                        Some(i) => Some(i as int),
                        None => None,
                    },
                    f.1@,
                ),
            ) && (f.0 matches Some(i) ==> i < parts@.len() && parts@[i as int].data is Ok
                && parts@[i as int].data->Ok_0@.len() <= limits.max_file_size_mb * 1_048_576),
            Err(e) => file_in(parts@, *limits) == Err::<(Option<int>, Seq<char>), Refusal>(e@),
        },
{
    let max_bytes: usize = limits.max_file_size_mb as usize * 1_048_576;
    let mut found: Option<usize> = None;
    let mut name = String::new();
    let mut i: usize = 0;
    while i < parts.len()
        invariant
            i <= parts@.len(),
            max_bytes == limits.max_file_size_mb * 1_048_576,
            file_in(parts@.take(i as int), *limits) == Ok::<(Option<int>, Seq<char>), Refusal>(
                (
                    match found {
                        Some(k) => Some(k as int),
                        None => None,
                    },
                    name@,
                ),
            ),
            found matches Some(k) ==> k < i && parts@[k as int].data is Ok && parts@[k as int].data->Ok_0@.len()
                <= max_bytes,
        decreases parts@.len() - i,
    {
        assert(parts@.take(i + 1).drop_last() =~= parts@.take(i as int));
        let is_file = match &parts[i].name {
            Some(n) => same(n.as_str(), "file"),
            None => false,
        };
        if is_file {
            match &parts[i].data {
                Err(e) => {
                    proof {
                        failed_parts_stay(parts@, *limits, i + 1);
                    }
                    return Err(AppError::BadRequest(glue("Failed to read file: ", e.as_str())));
                },
                Ok(d) => if d.len() > max_bytes {
                    proof {
                        failed_parts_stay(parts@, *limits, i + 1);
                    }
                    let max = show_u64(limits.max_file_size_mb);
                    return Err(
                        AppError::BadRequest(glue3("File too large (max ", max.as_str(), " MB)")),
                    );
                },
            }
            if let Some(n) = &parts[i].file_name {
                name = n.clone();
            }
            found = Some(i);
        }
        i += 1;
    }
    assert(parts@.take(parts@.len() as int) =~= parts@);
    Ok((found, name))
}

/// Which file a form asks to keep under an id. `parts` are those of the form, and
/// `failure` says why there are no more, if it broke off.
pub fn upload_media_as(
    id: String,
    memberships: &Lookup<i64>,
    parts: &Vec<Part>,
    failure: &Option<String>,
    limits: &MediaLimits,
) -> (res: Result<MediaUpload, AppError>)
    requires
        size_fits(*limits),
        limits.max_file_size_mb * 1_048_576 <= i64::MAX,
    ensures
        upload_result(res) == upload_of(id@, *memberships, parts@, opt_text(*failure), *limits),
{
    let (found, original_filename) = match find_file(parts, limits) {
        Err(e) => return Err(e),
        Ok(f) => f,
    };
    if let Some(e) = failure {
        return Err(AppError::BadRequest(glue("Multipart error: ", e.as_str())));
    }
    let part = match found {
        None => return Err(bad_request("No file field in upload")),
        Some(i) => i,
    };
    if !is_surely_counted(memberships) {
        return Err(forbidden("Not a member of this group"));
    }
    match &parts[part].data {
        Err(_) => Err(bad_request("No file field in upload")),
        Ok(data) => {
            let mime = detect_mime_from_magic(data.as_slice());
            let kind = detect_file_type(mime);
            if !is_among(&limits.allowed_types, kind.as_str()) {
                return Err(AppError::BadRequest(glue3("File type '", kind.as_str(), "' not allowed")));
            }
            Ok(
                MediaUpload {
                    id,
                    part,
                    original_filename,
                    mime_type: mime.to_owned(),
                    size_bytes: data.len() as i64,
                },
            )
        },
    }
}

/// Which file a form asks to keep. It gets a new id of 36 characters, hyphens and
/// lowercase hexadecimal digits.
pub fn upload_media(
    memberships: &Lookup<i64>,
    parts: &Vec<Part>,
    failure: &Option<String>,
    limits: &MediaLimits,
) -> (res: Result<MediaUpload, AppError>)
    requires
        size_fits(*limits),
        limits.max_file_size_mb * 1_048_576 <= i64::MAX,
    ensures
        exists|id: Seq<char>|
            {
                &&& id.len() == 36
                &&& forall|i: int| 0 <= i < 36 ==> (#[trigger] id[i] == '-' || hex_char(id[i]))
                &&& upload_result(res) == #[trigger] upload_of(
                    id,
                    *memberships,
                    parts@,
                    opt_text(*failure),
                    *limits,
                )
            },
{
    let id = new_uuid();
    upload_media_as(id, memberships, parts, failure, limits)
}

/// The address of a file that the server keeps: below its public address, if it
/// has one.
pub open spec fn local_url(public_url: Option<Seq<char>>, filename: Seq<char>) -> Seq<char> {
    match public_url {
        Some(u) => without_suffixes(u, "/"@) + "/data/media/"@ + filename,
        None => "/data/media/"@ + filename,
    }
}

/// The address of a file that the server keeps.
pub fn media_url(public_url: &Option<String>, filename: &str) -> (res: String)
    ensures
        res@ == local_url(opt_text(*public_url), filename@),
{
    match public_url {
        Some(u) => {
            proof {
                reveal_strlit("/");
            }
            let base = trim_end_matches(u.as_str(), "/");
            glue3(base.as_str(), "/data/media/", filename)
        },
        None => glue("/data/media/", filename),
    }
}

/// What follows once a file is kept somewhere.
pub open spec fn kept(u: UploadModel, uploader: Seq<char>, url: Seq<char>, provider: Seq<char>) -> Effect {
    replying(
        obj().with("ok"@, Json::Bool(true)).with("id"@, Json::Text(u.id)).with("url"@, Json::Text(url)).with(
            "original_filename"@,
            Json::Text(u.original_filename),
        ).with("mime_type"@, Json::Text(u.mime_type)).with("provider"@, Json::Text(provider)).json(),
    ).and_change(
        Change::InsertMedia {
            id: u.id,
            uploader,
            original_filename: u.original_filename,
            mime_type: u.mime_type,
            size_bytes: u.size_bytes as i64,
            url,
            provider,
        },
    )
}

/// What follows once a file is kept somewhere.
pub fn media_kept(upload: &MediaUpload, uploader: &str, url: &str, provider: &str) -> (res: Outcome)
    ensures
        res@ == kept(upload@, uploader@, url@, provider@),
{
    let reply = Fields::new().put_bool("ok", true).put_text("id", upload.id.as_str()).put_text(
        "url",
        url,
    ).put_text("original_filename", upload.original_filename.as_str()).put_text(
        "mime_type",
        upload.mime_type.as_str(),
    ).put_text("provider", provider).done();
    Outcome::replying(reply).and_write(
        Write::InsertMedia {
            id: upload.id.clone(),
            uploader: uploader.to_owned(),
            original_filename: upload.original_filename.clone(),
            mime_type: upload.mime_type.clone(),
            size_bytes: upload.size_bytes,
            url: url.to_owned(),
            provider: provider.to_owned(),
        },
    )
}

/// A file that is taken is from a member, not too large and of an allowed kind,
/// and its recorded type is that of its bytes, whatever the form says.
pub proof fn uploads_are_what_they_hold(
    id: Seq<char>,
    memberships: Lookup<i64>,
    parts: Seq<Part>,
    failure: Option<Seq<char>>,
    limits: MediaLimits,
    uploader: Seq<char>,
    url: Seq<char>,
    provider: Seq<char>,
    db: GroupDb,
)
    requires
        upload_of(id, memberships, parts, failure, limits) is Ok,
        limits.max_file_size_mb * 1_048_576 <= i64::MAX,
    ensures
        ({
            let u = upload_of(id, memberships, parts, failure, limits)->Ok_0;
            let data = parts[u.part].data->Ok_0@;
            let after = applied(db, kept(u, uploader, url, provider).changes[0], 0);
            &&& surely_counted(memberships)
            &&& 0 <= u.part < parts.len()
            &&& opt_text(parts[u.part].name) == Some("file"@)
            &&& u.mime_type == mime_of(data)
            &&& data.len() <= limits.max_file_size_mb * 1_048_576
            &&& texts(limits.allowed_types@).contains(kind_of(mime_of(data)))
            &&& after.media[id] == (MediaRow {
                uploader,
                original_filename: u.original_filename,
                mime_type: mime_of(data),
                size_bytes: data.len() as i64,
                url,
                provider,
            })
        }),
{
    found_in_range(parts, limits);
}

proof fn found_in_range(parts: Seq<Part>, limits: MediaLimits)
    ensures
        file_in(parts, limits) matches Ok(f) ==> (f.0 matches Some(i) ==> 0 <= i < parts.len() && opt_text(
            parts[i].name,
        ) == Some("file"@) && parts[i].data is Ok && parts[i].data->Ok_0@.len() <= limits.max_file_size_mb
            * 1_048_576),
    decreases parts.len(),
{
    if parts.len() > 0 {
        found_in_range(parts.drop_last(), limits);
    }
}

/// The token of a download: from the header or, where that holds none, from the
/// query. Widgets that show a file cannot set a header.
pub open spec fn token_of(header: Option<Seq<char>>, query: Option<Seq<char>>) -> Option<Seq<char>> {
    match bearer(header) {
        Some(t) => Some(t),
        None => query,
    }
}

/// The token of a download.
pub fn download_token(header: &Option<String>, query: &Option<String>) -> (res: Result<String, AppError>)
    ensures
        match res {
            Ok(t) => token_of(opt_text(*header), opt_text(*query)) == Some(t@),
            Err(e) => token_of(opt_text(*header), opt_text(*query)) is None && e@
                == Refusal::Unauthorized("Authentication required"@),
        },
{
    match bearer_token(header) {
        Some(t) => Ok(t),
        None => match query {
            Some(t) => Ok(t.clone()),
            None => Err(unauthorized("Authentication required")),
        },
    }
}

/// Whether a file may be downloaded, by whom a token belongs to.
pub open spec fn download_allowed(
    device: Lookup<String>,
    session: Lookup<String>,
    memberships: Lookup<i64>,
    provider: Seq<char>,
) -> Result<(), Refusal> {
    if token_owner(device, session) is None {
        Err(Refusal::Unauthorized("Invalid token"@))
    } else if !surely_counted(memberships) {
        Err(Refusal::Forbidden("Not a member of this group"@))
    } else if provider != "local"@ {
        Err(Refusal::NotFound("Local media not available"@))
    } else {
        Ok(())
    }
}

/// Refuse a download to whom it is not for. `device` and `session` are what the
/// database holds under the hash of the token.
pub fn authorize_download(
    device: &Lookup<String>,
    session: &Lookup<String>,
    memberships: &Lookup<i64>,
    provider: &str,
) -> (res: Result<(), AppError>)
    ensures
        crate::error::shown(res) == download_allowed(*device, *session, *memberships, provider@),
{
    if resolve_token(device, session).is_none() {
        return Err(unauthorized("Invalid token"));
    }
    if !is_surely_counted(memberships) {
        return Err(forbidden("Not a member of this group"));
    }
    if !same(provider, "local") {
        return Err(not_found("Local media not available"));
    }
    Ok(())
}

/// The type that a file is sent as, by its name.
pub uninterp spec fn guessed_mime(filename: Seq<char>) -> Seq<char>;

/// `mime_guess::from_path`, its first guess or `application/octet-stream`: the
/// type by the extension of the file's name. What the extension is of a name
/// with a path separator depends on the platform, so nothing is claimed of one.
#[verifier::external_body]
fn guess_mime(filename: &str) -> (res: String)
    ensures
        plain_name(filename@) ==> res@ == guessed_mime(filename@),
{
    mime_guess::from_path(filename).first_or_octet_stream().to_string()
}

/// A file that is sent: to be saved, not shown, and under the type that is said.
pub open spec fn download_of(filename: Seq<char>, mime: Seq<char>, data: Seq<u8>) -> FileModel {
    FileModel {
        data,
        content_type: mime,
        cache_control: "public, max-age=86400"@,
        nosniff: true,
        disposition: Some("attachment; filename=\""@ + filename + "\""@),
    }
}

/// What sending a file under a type leads to.
pub open spec fn downloaded(filename: Seq<char>, mime: Seq<char>, data: Result<Seq<u8>, Seq<char>>) -> Result<
    FileModel,
    Refusal,
> {
    match data {
        Err(_) => Err(Refusal::NotFound("File not found"@)),
        Ok(d) => Ok(download_of(filename, mime, d)),
    }
}

/// Send a file under a type.
pub fn download_as(filename: &str, mime: String, data: Result<Vec<u8>, String>) -> (res: Result<
    FileReply,
    AppError,
>)
    ensures
        file_result(res) == downloaded(filename@, mime@, bytes_result(data)),
{
    match data {
        Err(_) => Err(not_found("File not found")),
        Ok(d) => Ok(
            FileReply {
                data: d,
                content_type: mime,
                cache_control: "public, max-age=86400".to_owned(),
                nosniff: true,
                disposition: Some(glue3("attachment; filename=\"", filename, "\"")),
            },
        ),
    }
}

/// Send a file, or say that there is none, whatever went wrong.
pub fn download_media(filename: &str, data: Result<Vec<u8>, String>) -> (res: Result<FileReply, AppError>)
    ensures
        data is Err ==> file_result(res) == Err::<FileModel, Refusal>(Refusal::NotFound("File not found"@)),
        data matches Ok(d) ==> {
            &&& res is Ok
            &&& res->Ok_0@ == download_of(filename@, res->Ok_0@.content_type, d@)
            &&& plain_name(filename@) ==> res->Ok_0@.content_type == guessed_mime(filename@)
        },
{
    let mime = guess_mime(filename);
    download_as(filename, mime, data)
}

/// Whether each byte of a pattern stands in the data, from a position on.
pub open spec fn reads(data: Seq<u8>, at: int, pattern: Seq<u8>) -> bool {
    at + pattern.len() <= data.len() && forall|k: int|
        0 <= k < pattern.len() ==> data[at + k] == #[trigger] pattern[k]
}

proof fn reads_is_at(data: Seq<u8>, at: int, pattern: Seq<u8>)
    requires
        0 <= at,
        pattern.len() > 0,
    ensures
        bytes_at(data, at, pattern) <==> reads(data, at, pattern),
        reads(data, at, pattern) ==> data[at] == pattern[0] && data[at + pattern.len() - 1] == pattern[
            pattern.len() - 1
        ],
{
    if bytes_at(data, at, pattern) {
        assert forall|k: int| 0 <= k < pattern.len() implies data[at + k] == #[trigger] pattern[k] by {
            assert(data.subrange(at, at + pattern.len())[k] == pattern[k]);
        }
    }
    if reads(data, at, pattern) {
        assert(data.subrange(at, at + pattern.len()) =~= pattern);
    }
}

/// A file is what it starts with, whatever follows: each format by the bytes that
/// mark it.
pub proof fn files_are_known_by_their_marks(data: Seq<u8>)
    ensures
        reads(data, 0, [0xFFu8, 0xD8, 0xFF]@) ==> mime_of(data) == "image/jpeg"@,
        reads(data, 0, [0x89u8, 0x50, 0x4E, 0x47, 0x0D, 0x0A, 0x1A, 0x0A]@) ==> mime_of(data) == "image/png"@,
        reads(data, 0, [0x47u8, 0x49, 0x46, 0x38, 0x37, 0x61]@) ==> mime_of(data) == "image/gif"@,
        reads(data, 0, [0x47u8, 0x49, 0x46, 0x38, 0x39, 0x61]@) ==> mime_of(data) == "image/gif"@,
        reads(data, 0, [0x1Au8, 0x45, 0xDF, 0xA3]@) && !reads(data, 4, [0x66u8, 0x74, 0x79, 0x70]@) ==> mime_of(data) == "video/webm"@,
        reads(data, 0, [0x49u8, 0x44, 0x33]@) && !reads(data, 4, [0x66u8, 0x74, 0x79, 0x70]@) ==> mime_of(data) == "audio/mpeg"@,
        reads(data, 0, [0x4Fu8, 0x67, 0x67, 0x53]@) && !reads(data, 4, [0x66u8, 0x74, 0x79, 0x70]@) ==> mime_of(data) == "audio/ogg"@,
        reads(data, 0, [0x66u8, 0x4C, 0x61, 0x43]@) && !reads(data, 4, [0x66u8, 0x74, 0x79, 0x70]@) ==> mime_of(data) == "audio/flac"@,
        reads(data, 0, [0x52u8, 0x49, 0x46, 0x46]@) && reads(data, 8, [0x57u8, 0x45, 0x42, 0x50]@) ==> mime_of(data) == "image/webp"@,
        reads(data, 0, [0x52u8, 0x49, 0x46, 0x46]@) && reads(data, 8, [0x41u8, 0x56, 0x49, 0x20]@) && !reads(data, 4, [0x66u8, 0x74, 0x79, 0x70]@) ==> mime_of(data) == "video/x-msvideo"@,
        reads(data, 0, [0x52u8, 0x49, 0x46, 0x46]@) && reads(data, 8, [0x57u8, 0x41, 0x56, 0x45]@) && !reads(data, 4, [0x66u8, 0x74, 0x79, 0x70]@) ==> mime_of(data) == "audio/wav"@,
        reads(data, 4, [0x66u8, 0x74, 0x79, 0x70]@) && data[0] == 0 ==> mime_of(data) == "video/mp4"@,
        data.len() >= 2 && data[0] == 0xFF && data[1] & 0xE0 == 0xE0 && data[1] != 0xD8 && !reads(data, 4, [0x66u8, 0x74, 0x79, 0x70]@) ==> mime_of(data) == "audio/mpeg"@,
{
    reads_is_at(data, 0, [0xFFu8, 0xD8, 0xFF]@);
    reads_is_at(data, 0, [0x89u8, 0x50, 0x4E, 0x47, 0x0D, 0x0A, 0x1A, 0x0A]@);
    reads_is_at(data, 0, [0x47u8, 0x49, 0x46, 0x38, 0x37, 0x61]@);
    reads_is_at(data, 0, [0x47u8, 0x49, 0x46, 0x38, 0x39, 0x61]@);
    reads_is_at(data, 0, [0x1Au8, 0x45, 0xDF, 0xA3]@);
    reads_is_at(data, 0, [0x49u8, 0x44, 0x33]@);
    reads_is_at(data, 0, [0x4Fu8, 0x67, 0x67, 0x53]@);
    reads_is_at(data, 0, [0x66u8, 0x4C, 0x61, 0x43]@);
    reads_is_at(data, 8, [0x57u8, 0x45, 0x42, 0x50]@);
    reads_is_at(data, 8, [0x41u8, 0x56, 0x49, 0x20]@);
    reads_is_at(data, 8, [0x57u8, 0x41, 0x56, 0x45]@);
    reads_is_at(data, 0, [0x52u8, 0x49, 0x46, 0x46]@);
    reads_is_at(data, 4, [0x66u8, 0x74, 0x79, 0x70]@);
    assert(0xD8u8 & 0xE0 != 0xE0) by (bit_vector);
}

/// The kind of a file is what its type says before the slash, if it is an image, a
/// video or audio.
pub proof fn kinds_are_those_of_types(rest: Seq<char>)
    ensures
        kind_of("image/"@ + rest) == "image"@,
        kind_of("video/"@ + rest) == "video"@,
        kind_of("audio/"@ + rest) == "audio"@,
        kind_of("application/"@ + rest) == "file"@,
{
    reveal_strlit("image/");
    reveal_strlit("video/");
    reveal_strlit("audio/");
    reveal_strlit("application/");
    assert(("image/"@ + rest).subrange(0, 6) =~= "image/"@);
    let v = "video/"@ + rest;
    assert(v.subrange(0, 6) =~= "video/"@);
    assert(v.subrange(0, 6)[0] != "image/"@[0]);
    let a = "audio/"@ + rest;
    assert(a.subrange(0, 6) =~= "audio/"@);
    assert(a.subrange(0, 6)[0] != "image/"@[0] && a.subrange(0, 6)[0] != "video/"@[0]);
    let o = "application/"@ + rest;
    assert(o.subrange(0, 6)[0] != "image/"@[0] && o.subrange(0, 6)[0] != "video/"@[0] && o.subrange(0, 6)[1]
        != "audio/"@[1]);
}

/// Whether a part of a form is named after a file.
pub open spec fn named_as_file(part: Part) -> bool {
    part.name matches Some(n) && n@ == "file"@
}

proof fn the_last_file_counts(parts: Seq<Part>, limits: MediaLimits, i: int)
    requires
        0 <= i < parts.len(),
        named_as_file(parts[i]),
        forall|k: int| i < k < parts.len() ==> !named_as_file(#[trigger] parts[k]),
        file_in(parts, limits) is Ok,
    ensures
        parts[i].data is Ok,
        ({
            let found = file_in(parts, limits)->Ok_0;
            &&& found.0 == Some(i)
            &&& parts[i].file_name matches Some(n) ==> found.1 == n@
        }),
    decreases parts.len(),
{
    let rest = parts.drop_last();
    assert(parts.last() == parts[parts.len() - 1]);
    if i < rest.len() {
        assert(!named_as_file(parts[parts.len() - 1]));
        assert forall|k: int| i < k < rest.len() implies !named_as_file(#[trigger] rest[k]) by {
            assert(rest[k] == parts[k]);
        }
        the_last_file_counts(rest, limits, i);
    }
}

proof fn a_form_can_be_read(parts: Seq<Part>, limits: MediaLimits)
    ensures
        file_in(parts, limits) is Ok <==> forall|k: int|
            0 <= k < parts.len() && named_as_file(#[trigger] parts[k]) ==> parts[k].data is Ok
                && parts[k].data->Ok_0@.len() <= limits.max_file_size_mb * 1_048_576,
        (forall|k: int| 0 <= k < parts.len() ==> !named_as_file(#[trigger] parts[k])) ==> (file_in(parts, limits)
            matches Ok(found) && found.0 is None),
    decreases parts.len(),
{
    if parts.len() > 0 {
        let rest = parts.drop_last();
        a_form_can_be_read(rest, limits);
        assert(parts.last() == parts[parts.len() - 1]);
        assert forall|k: int| 0 <= k < rest.len() implies #[trigger] rest[k] == parts[k] by {}
        if file_in(rest, limits) is Err {
            let k = choose|k: int|
                0 <= k < rest.len() && named_as_file(#[trigger] rest[k]) && !(rest[k].data is Ok
                    && rest[k].data->Ok_0@.len() <= limits.max_file_size_mb * 1_048_576);
            assert(named_as_file(parts[k]));
        } else if file_in(parts, limits) is Ok {
            assert forall|k: int| 0 <= k < parts.len() && named_as_file(#[trigger] parts[k]) implies parts[k].data is Ok
                && parts[k].data->Ok_0@.len() <= limits.max_file_size_mb * 1_048_576 by {
                if k < rest.len() {
                    assert(named_as_file(rest[k]));
                }
            }
        }
        if forall|k: int| 0 <= k < parts.len() ==> !named_as_file(#[trigger] parts[k]) {
            assert forall|k: int| 0 <= k < rest.len() implies !named_as_file(#[trigger] rest[k]) by {
                assert(!named_as_file(parts[k]));
            }
        }
    }
}

/// The file that is taken is the last one in the form, under the name that the
/// form gives for it. It is taken if and only if the form did not break off, every
/// file in it could be read and is not too large, it comes from a member, and it
/// is of an allowed kind.
pub proof fn the_last_file_is_taken(
    id: Seq<char>,
    memberships: Lookup<i64>,
    parts: Seq<Part>,
    failure: Option<Seq<char>>,
    limits: MediaLimits,
    i: int,
)
    requires
        0 <= i < parts.len(),
        named_as_file(parts[i]),
        forall|k: int| i < k < parts.len() ==> !named_as_file(#[trigger] parts[k]),
    ensures
        ({
            let res = upload_of(id, memberships, parts, failure, limits);
            let data = parts[i].data->Ok_0@;
            let readable = forall|k: int|
                0 <= k < parts.len() && named_as_file(#[trigger] parts[k]) ==> parts[k].data is Ok
                    && parts[k].data->Ok_0@.len() <= limits.max_file_size_mb * 1_048_576;
            &&& res is Ok <==> {
                &&& readable
                &&& failure is None
                &&& some_found(memberships)
                &&& texts(limits.allowed_types@).contains(kind_of(mime_of(data)))
            }
            &&& readable && failure is None && !some_found(memberships) ==> (res matches Err(
                Refusal::Forbidden(_),
            ))
            &&& res matches Ok(u) ==> {
                &&& u.id == id
                &&& u.part == i
                &&& u.mime_type == mime_of(data)
                &&& u.size_bytes == data.len()
                &&& parts[i].file_name matches Some(n) ==> u.original_filename == n@
            }
        }),
{
    a_form_can_be_read(parts, limits);
    if file_in(parts, limits) is Ok {
        the_last_file_counts(parts, limits, i);
    }
}

/// A form without a file is refused.
pub proof fn a_form_without_a_file_is_refused(
    id: Seq<char>,
    memberships: Lookup<i64>,
    parts: Seq<Part>,
    failure: Option<Seq<char>>,
    limits: MediaLimits,
)
    requires
        forall|k: int| 0 <= k < parts.len() ==> !named_as_file(#[trigger] parts[k]),
    ensures
        upload_of(id, memberships, parts, failure, limits) is Err,
{
    a_form_can_be_read(parts, limits);
}

/// Once a file is kept, it is recorded with who uploaded it, its name, its type,
/// its size, where it is and by which provider, and the uploader is told.
pub proof fn a_kept_file_is_recorded_and_told(
    u: UploadModel,
    uploader: Seq<char>,
    url: Seq<char>,
    provider: Seq<char>,
    db: GroupDb,
)
    requires
        0 <= u.size_bytes <= i64::MAX,
    ensures
        ({
            let effect = kept(u, uploader, url, provider);
            &&& effect.changes.len() == 1
            &&& applied(db, effect.changes[0], 0) == (GroupDb {
                media: db.media.insert(
                    u.id,
                    MediaRow {
                        uploader,
                        original_filename: u.original_filename,
                        mime_type: u.mime_type,
                        size_bytes: u.size_bytes as i64,
                        url,
                        provider,
                    },
                ),
                ..db
            })
            &&& effect.notices.len() == 0
            &&& member_of(effect.reply, "ok"@) == Some(Json::Bool(true))
            &&& member_of(effect.reply, "id"@) == Some(Json::Text(u.id))
            &&& member_of(effect.reply, "url"@) == Some(Json::Text(url))
            &&& member_of(effect.reply, "original_filename"@) == Some(Json::Text(u.original_filename))
            &&& member_of(effect.reply, "mime_type"@) == Some(Json::Text(u.mime_type))
            &&& member_of(effect.reply, "provider"@) == Some(Json::Text(provider))
        }),
{
    broadcast use lookup_of_push;

    reveal_strlit("ok");
    reveal_strlit("id");
    reveal_strlit("url");
    reveal_strlit("original_filename");
    reveal_strlit("mime_type");
    reveal_strlit("provider");
}

/// The address of a file ends in its name. It lies below the public address, to
/// which it makes no difference whether that ends in slashes.
pub proof fn a_file_lies_below_the_public_address(public_url: Seq<char>, filename: Seq<char>)
    ensures
        local_url(None, filename) == "/data/media/"@ + filename,
        local_url(Some(public_url + "/"@), filename) == local_url(Some(public_url), filename),
        !ends(public_url, "/"@) ==> local_url(Some(public_url), filename) == public_url + "/data/media/"@
            + filename,
{
    reveal_strlit("/");
    assert("/"@.len() == 1);
    suffixes_are_taken_off(public_url, "/"@);
}

/// The token of a download is the one in the header, and that of the query where
/// the header holds none.
pub proof fn the_header_comes_before_the_query(token: Seq<char>, query: Option<Seq<char>>)
    ensures
        token_of(Some("Bearer "@ + token), query) == Some(token),
        token_of(None, query) == query,
{
    let header = "Bearer "@ + token;
    assert(header.subrange(0, "Bearer "@.len() as int) =~= "Bearer "@);
    assert(header.skip("Bearer "@.len() as int) =~= token);
}

/// A file is sent to a member with a valid token, if the server keeps it itself.
pub proof fn downloads_are_for_members(
    device: Lookup<String>,
    session: Lookup<String>,
    memberships: Lookup<i64>,
    provider: Seq<char>,
)
    ensures
        download_allowed(device, session, memberships, provider) is Ok <==> (device is Found || session is Found)
            && some_found(memberships) && provider == "local"@,
        device !is Found && session !is Found ==> download_allowed(device, session, memberships, provider)
            matches Err(Refusal::Unauthorized(_)),
        (device is Found || session is Found) && !some_found(memberships) ==> download_allowed(
            device,
            session,
            memberships,
            provider,
        ) matches Err(Refusal::Forbidden(_)),
{
}

/// A file that could be read is sent as it is, under the type that is said and not
/// guessed again, to be saved under its name.
pub proof fn a_file_is_sent_as_it_is(filename: Seq<char>, mime: Seq<char>, data: Result<Seq<u8>, Seq<char>>)
    ensures
        downloaded(filename, mime, data) is Ok <==> data is Ok,
        data is Err ==> downloaded(filename, mime, data) matches Err(Refusal::NotFound(_)),
        downloaded(filename, mime, data) matches Ok(f) ==> {
            &&& f.data == data->Ok_0
            &&& f.content_type == mime
            &&& f.nosniff
            &&& f.disposition == Some("attachment; filename=\""@ + filename + "\""@)
        },
{
}

/// A file that is refused says why: how large one may be, or which kind is not
/// allowed.
pub proof fn a_refused_file_says_why(
    id: Seq<char>,
    memberships: Lookup<i64>,
    part: Part,
    limits: MediaLimits,
)
    requires
        named_as_file(part),
        part.data is Ok,
    ensures
        ({
            let res = upload_of(id, memberships, seq![part], None, limits);
            let data = part.data->Ok_0@;
            let kind = kind_of(mime_of(data));
            &&& data.len() > limits.max_file_size_mb * 1_048_576 ==> res == Err::<UploadModel, Refusal>(
                Refusal::BadRequest("File too large (max "@ + decimal(limits.max_file_size_mb as nat) + " MB)"@),
            )
            &&& data.len() <= limits.max_file_size_mb * 1_048_576 && some_found(memberships) && !texts(
                limits.allowed_types@,
            ).contains(kind) ==> res == Err::<UploadModel, Refusal>(
                Refusal::BadRequest("File type '"@ + kind + "' not allowed"@),
            )
        }),
{
    let parts = seq![part];
    assert(parts.last() == part);
    reveal_with_fuel(file_in, 2);
    assert(parts.drop_last() =~= Seq::<Part>::empty());
}

proof fn the_last_name_counts(parts: Seq<Part>, limits: MediaLimits, j: int)
    requires
        0 <= j < parts.len(),
        named_as_file(parts[j]),
        parts[j].file_name is Some,
        forall|k: int| j < k < parts.len() && named_as_file(#[trigger] parts[k]) ==> parts[k].file_name is None,
        file_in(parts, limits) is Ok,
    ensures
        ({
            let found = file_in(parts, limits)->Ok_0;
            found.1 == parts[j].file_name->Some_0@
        }),
    decreases parts.len(),
{
    let rest = parts.drop_last();
    assert(parts.last() == parts[parts.len() - 1]);
    if j < rest.len() {
        assert forall|k: int| j < k < rest.len() && named_as_file(#[trigger] rest[k]) implies rest[k].file_name is None by {
            assert(named_as_file(parts[k]));
        }
        the_last_name_counts(rest, limits, j);
    }
}

proof fn without_a_name_there_is_none(parts: Seq<Part>, limits: MediaLimits)
    requires
        forall|k: int| 0 <= k < parts.len() && named_as_file(#[trigger] parts[k]) ==> parts[k].file_name is None,
        file_in(parts, limits) is Ok,
    ensures
        ({
            let found = file_in(parts, limits)->Ok_0;
            found.1.len() == 0
        }),
    decreases parts.len(),
{
    if parts.len() > 0 {
        let rest = parts.drop_last();
        assert(parts.last() == parts[parts.len() - 1]);
        assert forall|k: int| 0 <= k < rest.len() && named_as_file(#[trigger] rest[k]) implies rest[k].file_name is None by {
            assert(named_as_file(parts[k]));
        }
        without_a_name_there_is_none(rest, limits);
    }
}

/// The name of the file that is taken is the last one that the form gives for a
/// file; where it gives none, the name is empty.
pub proof fn the_last_name_given_is_taken(
    id: Seq<char>,
    memberships: Lookup<i64>,
    parts: Seq<Part>,
    failure: Option<Seq<char>>,
    limits: MediaLimits,
    j: int,
)
    requires
        upload_of(id, memberships, parts, failure, limits) is Ok,
    ensures
        0 <= j < parts.len() && named_as_file(parts[j]) && parts[j].file_name is Some && (forall|k: int|
            j < k < parts.len() && named_as_file(#[trigger] parts[k]) ==> parts[k].file_name is None)
            ==> upload_of(id, memberships, parts, failure, limits)->Ok_0.original_filename
            == parts[j].file_name->Some_0@,
        (forall|k: int|
            0 <= k < parts.len() && named_as_file(#[trigger] parts[k]) ==> parts[k].file_name is None)
            ==> upload_of(id, memberships, parts, failure, limits)->Ok_0.original_filename.len() == 0,
{
    if 0 <= j < parts.len() && named_as_file(parts[j]) && parts[j].file_name is Some && (forall|k: int|
        j < k < parts.len() && named_as_file(#[trigger] parts[k]) ==> parts[k].file_name is None) {
        the_last_name_counts(parts, limits, j);
    }
    if forall|k: int| 0 <= k < parts.len() && named_as_file(#[trigger] parts[k]) ==> parts[k].file_name is None {
        without_a_name_there_is_none(parts, limits);
    }
}

} // verus!
