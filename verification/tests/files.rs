use onyx_server::error::{AppError, Lookup};
use onyx_server::handlers::avatars::{
    avatar_stored, delete_avatar, get_avatar, is_avatar_part, upload_avatar, Part, MAX_AVATAR_BYTES,
};
use onyx_server::handlers::groups::{
    avatar_files, delete_group_avatar, extension_for, file_failure, get_group_avatar, group_avatar_written,
    rename_group, server_subfolder, upload_group_avatar, version_write, FileFailure, RenameGroupRequest,
};
use onyx_server::handlers::media::{
    authorize_download, detect_file_type, detect_mime_from_magic, download_as, download_media, download_token,
    media_kept, media_url, upload_media, upload_media_as, MediaLimits,
};
use onyx_server::json::{Fields, JsonValue};
use onyx_server::media::local::{
    read_file, save_file, save_name, saved, validate_filename, ReadEvent, SaveEvent,
};
use onyx_server::media::{
    anonfiles, catbox, custom, fileio, pixeldrain, upload_to_provider, CustomConfig, JsonReply, Provider,
    TextReply, UploadResult,
};
use onyx_server::outcome::Notice;
use onyx_server::store::Write;

fn render(v: &JsonValue) -> String {
    match v {
        JsonValue::Null => "null".to_string(),
        JsonValue::Bool(b) => format!("{}", b),
        JsonValue::Int(n) => format!("{}", n),
        JsonValue::OtherNumber => "number".to_string(),
        JsonValue::Text(s) => format!("{:?}", s),
        JsonValue::Array(items) => {
            let parts: Vec<String> = items.iter().map(render).collect();
            format!("[{}]", parts.join(","))
        }
        JsonValue::Object(fields) => {
            let parts: Vec<String> =
                fields.iter().map(|f| format!("{:?}:{}", f.key, render(&f.value))).collect();
            format!("{{{}}}", parts.join(","))
        }
    }
}

fn part(name: &str, content_type: Option<&str>, data: Vec<u8>) -> Part {
    Part {
        name: Some(name.to_string()),
        file_name: None,
        content_type: content_type.map(|t| t.to_string()),
        data: Ok(data),
    }
}

fn failed(name: &str) -> Part {
    Part { name: Some(name.to_string()), file_name: None, content_type: None, data: Err("cut".to_string()) }
}

fn owner() -> Lookup<String> {
    Lookup::Found("owner".to_string())
}

#[test]
fn the_last_avatar_of_a_form_counts() {
    assert!(is_avatar_part(&Some("file".to_string())));
    assert!(!is_avatar_part(&Some("text".to_string())));
    assert!(!is_avatar_part(&None));
    let parts = vec![part("file", Some("image/gif"), vec![1]), failed("text"), part("avatar", None, vec![2, 3])];
    let writes = upload_avatar(&Lookup::Found("moderator".to_string()), &parts, &None).unwrap();
    assert!(matches!(&writes[0], Write::ReplaceAvatar { data, mime_type }
        if *data == vec![2, 3] && mime_type == "image/gif"));
    assert!(matches!(&writes[1], Write::BumpAvatarVersion));
    let plain = upload_avatar(&owner(), &vec![part("file", None, vec![1])], &None).unwrap();
    assert!(matches!(&plain[0], Write::ReplaceAvatar { mime_type, .. } if mime_type == "image/png"));
    let out = avatar_stored(&Lookup::Found(4));
    assert_eq!(render(&out.reply), "{\"ok\":true,\"avatar_version\":4}");
    assert!(matches!(&out.notices[0], Notice::Broadcast(v)
        if render(v) == "{\"type\":\"avatar_update\",\"avatar_version\":4}"));
    assert_eq!(render(&avatar_stored(&Lookup::Missing).reply), "{\"ok\":true,\"avatar_version\":0}");
}

#[test]
fn avatars_are_refused() {
    let none = None;
    let refused = |role: Lookup<String>, parts: Vec<Part>| upload_avatar(&role, &parts, &none).err().unwrap();
    assert!(matches!(refused(Lookup::Found("member".to_string()), vec![]),
        AppError::Forbidden(m) if m == "Only owner or moderator can change avatar"));
    assert!(matches!(refused(Lookup::Missing, vec![]), AppError::NotFound(m) if m == "Not a member"));
    assert!(matches!(refused(owner(), vec![]), AppError::BadRequest(m) if m == "No avatar file provided"));
    assert!(matches!(refused(owner(), vec![failed("file")]), AppError::BadRequest(m) if m == "Read error: cut"));
    assert!(matches!(refused(owner(), vec![part("file", None, vec![0; MAX_AVATAR_BYTES + 1])]),
        AppError::BadRequest(m) if m == "Avatar too large (max 5 MB)"));
    let broken = upload_avatar(&owner(), &vec![part("file", None, vec![1])], &Some("eof".to_string()));
    assert!(matches!(broken, Err(AppError::BadRequest(m)) if m == "Multipart error: eof"));
}

#[test]
fn the_avatar_is_sent_and_deleted() {
    let file = get_avatar(&Lookup::Found((vec![7], "image/png".to_string()))).ok().unwrap();
    assert_eq!(file.data, vec![7]);
    assert_eq!(file.content_type, "image/png");
    assert_eq!(file.cache_control, "public, max-age=3600");
    assert!(!file.nosniff && file.disposition.is_none());
    assert!(matches!(get_avatar(&Lookup::Missing), Err(AppError::NotFound(m)) if m == "No avatar"));
    let out = delete_avatar("ann", &Lookup::Found("ann".to_string())).unwrap();
    assert!(matches!(&out.writes[0], Write::DeleteAvatar));
    assert!(matches!(&out.notices[0], Notice::Broadcast(v)
        if render(v) == "{\"type\":\"avatar_update\",\"avatar_version\":-1}"));
    assert!(matches!(delete_avatar("bob", &Lookup::Found("ann".to_string())),
        Err(AppError::Forbidden(m)) if m == "Only owner can delete avatar"));
    assert!(matches!(delete_avatar("bob", &Lookup::Missing), Err(AppError::NotFound(m)) if m == "Group not found"));
}

#[test]
fn the_group_is_renamed() {
    let name = |n: &str| RenameGroupRequest { name: n.to_string() };
    let out = rename_group(1, &owner(), &name(" Chess ")).unwrap();
    assert!(matches!(&out.writes[0], Write::SetGroupName { name } if name == "Chess"));
    assert_eq!(
        render(&out.reply),
        "{\"ok\":true,\"message\":\"Group renamed successfully\",\"name\":\"Chess\"}"
    );
    assert!(matches!(rename_group(2, &owner(), &name("x")), Err(AppError::NotFound(_))));
    assert!(matches!(rename_group(1, &Lookup::Missing, &name("x")),
        Err(AppError::Unauthorized(m)) if m == "Not a member"));
    assert!(matches!(rename_group(1, &Lookup::Found("moderator".to_string()), &name("x")),
        Err(AppError::Forbidden(m)) if m == "Only owner can rename the group"));
    assert!(matches!(rename_group(1, &owner(), &name(" ")),
        Err(AppError::BadRequest(m)) if m == "Group name cannot be empty"));
    assert!(matches!(rename_group(1, &owner(), &name(&"n".repeat(101))),
        Err(AppError::BadRequest(m)) if m == "Group name too long (max 100 characters)"));
}

#[test]
fn a_servers_folder_is_a_single_one() {
    assert_eq!(server_subfolder("My Server/../x"), "My_Server____x");
    assert_eq!(server_subfolder("Größe_1-a"), "Größe_1-a");
    assert_eq!(server_subfolder(""), "");
}

#[test]
fn the_groups_avatar_goes_to_a_file() {
    assert_eq!(extension_for("image/png"), "png");
    assert_eq!(extension_for("image/jpeg"), "jpg");
    assert_eq!(extension_for("image/webp"), "webp");
    assert_eq!(extension_for("image/gif"), "gif");
    assert_eq!(extension_for("image/bmp"), "jpg");
    let parts = vec![part("text", None, vec![]), part("avatar", Some("image/webp"), vec![1]), failed("avatar")];
    let plan = upload_group_avatar(1, &owner(), &parts, &None, &Lookup::Found(6)).ok().unwrap();
    assert_eq!((plan.part, plan.filename.as_str(), plan.version), (1, "group_1.webp", 7));
    assert!(avatar_files(1).contains(&plan.filename));
    assert_eq!(avatar_files(1), vec!["group_1.png", "group_1.jpg", "group_1.jpeg", "group_1.gif", "group_1.webp"]);
    assert!(matches!(version_write(7), Write::SetAvatarVersion { version: 7 }));
    let out = group_avatar_written(1, 7);
    assert_eq!(
        render(&out.reply),
        "{\"ok\":true,\"message\":\"Group avatar updated successfully\",\"avatar_version\":7}"
    );
    let refused = |role: Lookup<String>, parts: Vec<Part>| {
        upload_group_avatar(1, &role, &parts, &None, &Lookup::Missing).err().unwrap()
    };
    assert!(matches!(refused(owner(), vec![]), AppError::BadRequest(m) if m == "No avatar file provided"));
    assert!(matches!(refused(owner(), vec![failed("avatar")]), AppError::BadRequest(m) if m == "cut"));
    assert!(matches!(refused(owner(), vec![part("avatar", Some("text/html"), vec![1])]),
        AppError::BadRequest(m) if m == "File must be an image"));
    assert!(matches!(refused(owner(), vec![part("avatar", Some("image/png"), vec![0; MAX_AVATAR_BYTES + 1])]),
        AppError::BadRequest(m) if m == "Avatar file too large (max 5MB)"));
    assert!(matches!(refused(Lookup::Found("member".to_string()), vec![]),
        AppError::Forbidden(m) if m == "Only owner can change the group avatar"));
    assert!(matches!(file_failure(&FileFailure::Writing("full".to_string())),
        AppError::Internal(m) if m == "Failed to write avatar file: full"));
    assert!(matches!(file_failure(&FileFailure::Folder("x".to_string())),
        AppError::Internal(m) if m == "Failed to create media directory: x"));
    assert!(matches!(file_failure(&FileFailure::Creation("x".to_string())),
        AppError::Internal(m) if m == "Failed to create avatar file: x"));
}

#[test]
fn the_groups_avatar_is_read_and_deleted() {
    assert_eq!(get_group_avatar(1, &vec![None, Some(vec![2]), Some(vec![3])]).ok().unwrap(), vec![2]);
    assert!(matches!(get_group_avatar(1, &vec![None]), Err(AppError::NotFound(m)) if m == "Avatar not found"));
    assert!(matches!(get_group_avatar(3, &vec![Some(vec![2])]), Err(AppError::NotFound(m)) if m == "Group not found"));
    let out = delete_group_avatar(1, &owner(), &Lookup::Found(6)).unwrap();
    assert!(matches!(&out.writes[0], Write::SetAvatarVersion { version: 7 }));
    assert!(render(&out.reply).contains("Group avatar deleted successfully"));
    assert!(matches!(delete_group_avatar(1, &Lookup::Found("member".to_string()), &Lookup::Missing),
        Err(AppError::Forbidden(m)) if m == "Only owner can delete the group avatar"));
}

#[test]
fn types_are_told_by_their_bytes() {
    assert_eq!(detect_mime_from_magic(&[0xff, 0xd8, 0xff, 0]), "image/jpeg");
    assert_eq!(detect_mime_from_magic(&[0x89, 0x50, 0x4e, 0x47, 0x0d, 0x0a, 0x1a, 0x0a]), "image/png");
    assert_eq!(detect_mime_from_magic(b"GIF87a"), "image/gif");
    assert_eq!(detect_mime_from_magic(b"GIF89a."), "image/gif");
    assert_eq!(detect_mime_from_magic(b"RIFF....WEBP"), "image/webp");
    assert_eq!(detect_mime_from_magic(b"....ftyp"), "video/mp4");
    assert_eq!(detect_mime_from_magic(&[0x1a, 0x45, 0xdf, 0xa3]), "video/webm");
    assert_eq!(detect_mime_from_magic(b"RIFF....AVI "), "video/x-msvideo");
    assert_eq!(detect_mime_from_magic(b"ID3"), "audio/mpeg");
    assert_eq!(detect_mime_from_magic(&[0xff, 0xfb]), "audio/mpeg");
    assert_eq!(detect_mime_from_magic(b"OggS"), "audio/ogg");
    assert_eq!(detect_mime_from_magic(b"fLaC"), "audio/flac");
    assert_eq!(detect_mime_from_magic(b"RIFF....WAVE"), "audio/wav");
    assert_eq!(detect_mime_from_magic(b"<html>"), "application/octet-stream");
    assert_eq!(detect_mime_from_magic(&[]), "application/octet-stream");
    assert_eq!(detect_file_type("image/png"), "image");
    assert_eq!(detect_file_type("video/mp4"), "video");
    assert_eq!(detect_file_type("audio/ogg"), "audio");
    assert_eq!(detect_file_type("application/pdf"), "file");
}

fn limits() -> MediaLimits {
    MediaLimits { max_file_size_mb: 1, allowed_types: vec!["image".to_string()] }
}

#[test]
fn files_are_taken_for_what_they_hold() {
    let member = Lookup::Found(1);
    let mut file = part("file", Some("text/html"), b"GIF89a".to_vec());
    file.file_name = Some("a.gif".to_string());
    let parts = vec![file, failed("note")];
    let up = upload_media_as("id".to_string(), &member, &parts, &None, &limits()).ok().unwrap();
    assert_eq!((up.part, up.original_filename.as_str(), up.mime_type.as_str(), up.size_bytes), (0, "a.gif", "image/gif", 6));
    let out = media_kept(&up, "ann", "/u", "local");
    assert!(matches!(&out.writes[0], Write::InsertMedia { id, uploader, size_bytes: 6, .. } if id == "id" && uploader == "ann"));
    assert_eq!(
        render(&out.reply),
        "{\"ok\":true,\"id\":\"id\",\"url\":\"/u\",\"original_filename\":\"a.gif\",\"mime_type\":\"image/gif\",\"provider\":\"local\"}"
    );
    let named = upload_media(&member, &parts, &None, &limits()).ok().unwrap();
    assert_eq!(named.id.len(), 36);
    assert!(named.id.chars().all(|c| c == '-' || c.is_ascii_hexdigit()));
    assert_ne!(named.id, upload_media(&member, &parts, &None, &limits()).ok().unwrap().id);
}

#[test]
fn uploads_are_refused() {
    let member = Lookup::Found(1);
    let refused = |members: &Lookup<i64>, parts: Vec<Part>, failure: Option<String>| {
        upload_media(members, &parts, &failure, &limits()).err().unwrap()
    };
    assert!(matches!(refused(&member, vec![], None), AppError::BadRequest(m) if m == "No file field in upload"));
    assert!(matches!(refused(&member, vec![], Some("eof".to_string())),
        AppError::BadRequest(m) if m == "Multipart error: eof"));
    assert!(matches!(refused(&member, vec![failed("file")], None),
        AppError::BadRequest(m) if m == "Failed to read file: cut"));
    assert!(matches!(refused(&member, vec![part("file", None, vec![0; 1_048_577])], None),
        AppError::BadRequest(m) if m == "File too large (max 1 MB)"));
    assert!(matches!(refused(&Lookup::Missing, vec![part("file", None, b"GIF89a".to_vec())], None),
        AppError::Forbidden(m) if m == "Not a member of this group"));
    assert!(matches!(refused(&member, vec![part("file", Some("image/png"), b"<html>".to_vec())], None),
        AppError::BadRequest(m) if m == "File type 'file' not allowed"));
}

#[test]
fn names_stay_in_their_folder() {
    assert!(validate_filename("a.b-c").is_ok());
    assert!(matches!(validate_filename("a/b"), Err(m) if m == "Invalid filename"));
    assert!(validate_filename("a\\b").is_err());
    assert!(validate_filename("a..b").is_err());
    assert_eq!(save_file("id", "photo.tar.gz"), Ok("id.gz".to_string()));
    assert_eq!(save_file("id", "photo"), Ok("id".to_string()));
    assert_eq!(save_file("id", ".bashrc"), Ok("id".to_string()));
    assert_eq!(save_file("id", "photo."), Ok("id.".to_string()));
    assert_eq!(save_file("id", ".."), Ok("id".to_string()));
    assert_eq!(save_file("id", "dir/photo.png"), Ok("id.png".to_string()));
    assert_eq!(save_file("id", "dir/photo.png/.//"), Ok("id.png".to_string()));
    assert_eq!(save_file("id", "/a.b/c"), Ok("id".to_string()));
    assert_eq!(save_file("id", "photo.png/.."), Ok("id".to_string()));
    assert_eq!(save_file("id", "./."), Ok("id".to_string()));
    assert_eq!(save_file("id", "./.bashrc"), Ok("id".to_string()));
    assert_eq!(save_file("id", "/"), Ok("id".to_string()));
    assert_eq!(save_file("id", ""), Ok("id".to_string()));
    assert!(save_name("id", &Some("a\\b".to_string())).is_err());
}

#[test]
fn storage_results_are_told() {
    assert_eq!(saved("n", &SaveEvent::Written), Ok("n".to_string()));
    assert_eq!(saved("n", &SaveEvent::Outside), Err("Access denied".to_string()));
    assert_eq!(saved("n", &SaveEvent::NoStorage("e".to_string())), Err("Storage path error: e".to_string()));
    assert_eq!(saved("n", &SaveEvent::NotWritten("e".to_string())), Err("Failed to write file: e".to_string()));
    assert_eq!(read_file("n", ReadEvent::Read(vec![1])), Ok(vec![1]));
    assert_eq!(read_file("../n", ReadEvent::Read(vec![1])), Err("Invalid filename".to_string()));
    assert_eq!(read_file("n", ReadEvent::NotFound), Err("File not found".to_string()));
    assert_eq!(read_file("n", ReadEvent::Outside), Err("Access denied".to_string()));
    assert_eq!(read_file("n", ReadEvent::NoStorage("e".to_string())), Err("Storage path error: e".to_string()));
    assert_eq!(read_file("n", ReadEvent::NotRead("e".to_string())), Err("Failed to read file: e".to_string()));
}

#[test]
fn addresses_of_kept_files() {
    assert_eq!(media_url(&None, "f"), "/data/media/f");
    assert_eq!(media_url(&Some("https://x.org//".to_string()), "f"), "https://x.org/data/media/f");
}

#[test]
fn downloads_need_a_token_and_membership() {
    let header = Some("Bearer h".to_string());
    let query = Some("q".to_string());
    assert_eq!(download_token(&header, &query).unwrap(), "h");
    assert_eq!(download_token(&None, &query).unwrap(), "q");
    assert!(matches!(download_token(&None, &None),
        Err(AppError::Unauthorized(m)) if m == "Authentication required"));
    let ann = Lookup::Found("ann".to_string());
    assert!(authorize_download(&ann, &Lookup::Missing, &Lookup::Found(1), "local").is_ok());
    assert!(matches!(authorize_download(&Lookup::Missing, &Lookup::Missing, &Lookup::Found(1), "local"),
        Err(AppError::Unauthorized(m)) if m == "Invalid token"));
    assert!(matches!(authorize_download(&ann, &Lookup::Missing, &Lookup::Found(0), "local"),
        Err(AppError::Forbidden(m)) if m == "Not a member of this group"));
    assert!(matches!(authorize_download(&ann, &Lookup::Missing, &Lookup::Found(1), "catbox"),
        Err(AppError::NotFound(m)) if m == "Local media not available"));
}

#[test]
fn downloads_are_attachments() {
    let file = download_media("a.png", Ok(vec![1])).ok().unwrap();
    assert_eq!(file.content_type, "image/png");
    assert_eq!(file.cache_control, "public, max-age=86400");
    assert_eq!(file.disposition, Some("attachment; filename=\"a.png\"".to_string()));
    assert!(file.nosniff);
    assert_eq!(download_media("a.unknown-ext", Ok(vec![1])).ok().unwrap().content_type, "application/octet-stream");
    assert!(matches!(download_media("a.png", Err("x".to_string())), Err(AppError::NotFound(m)) if m == "File not found"));
    assert_eq!(download_as("a", "x/y".to_string(), Ok(vec![])).ok().unwrap().content_type, "x/y");
}

fn custom_config(url: &str) -> CustomConfig {
    CustomConfig {
        upload_url: url.to_string(),
        upload_field_name: "f".to_string(),
        extra_headers: vec![],
        response_url_jsonpath: "$.data.url".to_string(),
    }
}

#[test]
fn providers_go_by_name() {
    let c = custom_config("https://mine");
    let target = upload_to_provider("catbox", &c).ok().unwrap();
    assert!(target.provider == Provider::Catbox);
    assert_eq!((target.url.as_str(), target.file_field.as_str()), ("https://catbox.moe/user/api.php", "fileToUpload"));
    assert_eq!(upload_to_provider("custom", &c).ok().unwrap().url, "https://mine");
    assert_eq!(upload_to_provider("fileio", &c).ok().unwrap().url, "https://file.io");
    assert!(matches!(upload_to_provider("custom", &custom_config("")),
        Err(m) if m == "Custom media provider upload_url not configured"));
    assert!(matches!(upload_to_provider("ftp", &c), Err(m) if m == "Unknown media provider: ftp"));
    assert!(matches!(upload_to_provider("local", &c),
        Err(m) if m == "Local uploads handled separately via handlers::media"));
    assert_eq!(catbox::request_field(), ("reqtype", "fileupload"));
}

fn url(r: Result<UploadResult, String>) -> Result<(String, String), String> {
    r.map(|u| (u.url, u.provider))
}

#[test]
fn catbox_answers_with_an_address() {
    let read = |s: &str| url(catbox::upload(&TextReply::Read(s.to_string())));
    assert_eq!(read("https://c/x\n"), Ok(("https://c/x".to_string(), "catbox".to_string())));
    assert_eq!(read("busy"), Err("Catbox upload failed: busy".to_string()));
    assert_eq!(url(catbox::upload(&TextReply::NotSent("e".to_string()))), Err("Catbox upload failed: e".to_string()));
    assert_eq!(
        url(catbox::upload(&TextReply::NotRead("e".to_string()))),
        Err("Failed to read catbox response: e".to_string())
    );
}

#[test]
fn other_providers_answer_with_json() {
    let parsed = |v: JsonValue| JsonReply::Parsed(v, "looks".to_string());
    let id = Fields::new().put_text("id", "abc").done();
    assert_eq!(
        url(pixeldrain::upload(&parsed(id))),
        Ok(("https://pixeldrain.com/api/file/abc".to_string(), "pixeldrain".to_string()))
    );
    assert_eq!(
        url(pixeldrain::upload(&parsed(JsonValue::Null))),
        Err("Pixeldrain upload failed: looks".to_string())
    );
    assert_eq!(
        url(pixeldrain::upload(&JsonReply::NotParsed("e".to_string()))),
        Err("Failed to parse pixeldrain response: e".to_string())
    );
    let link = |ok: bool| Fields::new().put_bool("success", ok).put_text("link", "l").done();
    assert_eq!(url(fileio::upload(&parsed(link(true)))), Ok(("l".to_string(), "fileio".to_string())));
    assert_eq!(url(fileio::upload(&parsed(link(false)))), Err("File.io upload failed: looks".to_string()));
    assert_eq!(
        url(fileio::upload(&JsonReply::NotSent("e".to_string()))),
        Err("File.io upload failed: e".to_string())
    );
    let full = |ok: bool| {
        let u = Fields::new().put_text("full", "l").done();
        let f = Fields::new().put("url", u).done();
        let d = Fields::new().put("file", f).done();
        Fields::new().put_bool("status", ok).put("data", d).done()
    };
    assert_eq!(url(anonfiles::upload(&parsed(full(true)))), Ok(("l".to_string(), "anonfiles".to_string())));
    assert_eq!(url(anonfiles::upload(&parsed(full(false)))), Err("Anonfiles upload failed: looks".to_string()));
}

#[test]
fn custom_answers_hold_an_address_somewhere() {
    let inner = Fields::new().put_text("url", "l").done();
    let answer = Fields::new().put("data", inner).done();
    assert_eq!(custom::extract_jsonpath(&answer, "$.data.url"), Some("l".to_string()));
    assert_eq!(custom::extract_jsonpath(&answer, "data.url"), Some("l".to_string()));
    assert_eq!(custom::extract_jsonpath(&answer, "data.nope"), None);
    assert_eq!(custom::extract_jsonpath(&answer, "data"), None);
    assert_eq!(custom::extract_jsonpath(&answer, ""), None);
    let reply = JsonReply::Parsed(answer, "looks".to_string());
    let c = custom_config("https://mine");
    assert_eq!(url(custom::upload(&c, &reply)), Ok(("l".to_string(), "custom".to_string())));
    let empty = JsonReply::Parsed(JsonValue::Null, "Null".to_string());
    assert_eq!(
        url(custom::upload(&c, &empty)),
        Err("Could not extract URL from response using '$.data.url': Null".to_string())
    );
    assert_eq!(
        url(custom::upload(&c, &JsonReply::NotParsed("e".to_string()))),
        Err("Failed to parse custom response: e".to_string())
    );
}
