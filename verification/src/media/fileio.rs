//! file.io.

use crate::json::{member_of, Json, JsonValue};
use crate::media::pixeldrain::{member_text, text_member};
use crate::media::{uploaded, JsonReply, UploadResult};
use crate::text::glue;
use vstd::prelude::*;

verus! {

/// Whether a member is `true`.
pub fn member_is_true(v: &JsonValue, key: &str) -> (res: bool)
    ensures
        res == (member_of(v@, key@) == Some(Json::Bool(true))),
{
    match v.get(key) {
        Some(m) => m.is_true(),
        None => false,
    }
}

/// Where the file went, or why it went nowhere.
pub open spec fn placed(reply: JsonReply) -> Result<(Seq<char>, Seq<char>), Seq<char>> {
    match reply {
        JsonReply::NotSent(e) => Err("File.io upload failed: "@ + e@),
        JsonReply::NotParsed(e) => Err("Failed to parse file.io response: "@ + e@),
        JsonReply::Parsed(v, looks) => match text_member(v@, "link"@) {
            Some(link) if member_of(v@, "success"@) == Some(Json::Bool(true)) => Ok((link, "fileio"@)),
            _ => Err("File.io upload failed: "@ + looks@),
        },
    }
}

/// Where the file went: the answer says so where it says that it succeeded.
pub fn upload(reply: &JsonReply) -> (res: Result<UploadResult, String>)
    ensures
        uploaded(res) == placed(*reply),
{
    match reply {
        JsonReply::NotSent(e) => Err(glue("File.io upload failed: ", e.as_str())),
        JsonReply::NotParsed(e) => Err(glue("Failed to parse file.io response: ", e.as_str())),
        JsonReply::Parsed(v, looks) => {
            if member_is_true(v, "success") {
                if let Some(link) = member_text(v, "link") {
                    return Ok(UploadResult { url: link, provider: "fileio".to_owned() });
                }
            }
            Err(glue("File.io upload failed: ", looks.as_str()))
        },
    }
}

/// The file went where the link in the answer leads, if it says that it succeeded.
pub proof fn the_answer_holds_the_link(reply: JsonReply)
    ensures
        placed(reply) is Ok <==> reply is Parsed && member_of(reply->Parsed_0@, "success"@) == Some(
            Json::Bool(true),
        ) && member_of(reply->Parsed_0@, "link"@) is Some && member_of(
            reply->Parsed_0@,
            "link"@,
        )->Some_0 is Text,
        placed(reply) matches Ok(at) ==> at.0 == member_of(reply->Parsed_0@, "link"@)->Some_0->Text_0 && at.1
            == "fileio"@,
{
}

} // verus!
