//! pixeldrain.com.

use crate::json::{member_of, Json, JsonValue};
use crate::media::{uploaded, JsonReply, UploadResult};
use crate::text::glue;
use vstd::prelude::*;

verus! {

/// The text of a member, if it has one.
pub open spec fn text_member(v: Json, key: Seq<char>) -> Option<Seq<char>> {
    match member_of(v, key) {
        Some(Json::Text(s)) => Some(s),
        _ => None,
    }
}

/// The text of a member, if it has one.
pub fn member_text(v: &JsonValue, key: &str) -> (res: Option<String>)
    ensures
        crate::json::opt_text(res) == text_member(v@, key@),
{
    match v.get(key) {
        Some(m) => m.as_text(),
        None => None,
    }
}

/// Where the file went, or why it went nowhere.
pub open spec fn placed(reply: JsonReply) -> Result<(Seq<char>, Seq<char>), Seq<char>> {
    match reply {
        JsonReply::NotSent(e) => Err("Pixeldrain upload failed: "@ + e@),
        JsonReply::NotParsed(e) => Err("Failed to parse pixeldrain response: "@ + e@),
        JsonReply::Parsed(v, looks) => match text_member(v@, "id"@) {
            Some(id) => Ok(("https://pixeldrain.com/api/file/"@ + id, "pixeldrain"@)),
            None => Err("Pixeldrain upload failed: "@ + looks@),
        },
    }
}

/// Where the file went: the answer holds its id.
pub fn upload(reply: &JsonReply) -> (res: Result<UploadResult, String>)
    ensures
        uploaded(res) == placed(*reply),
{
    match reply {
        JsonReply::NotSent(e) => Err(glue("Pixeldrain upload failed: ", e.as_str())),
        JsonReply::NotParsed(e) => Err(glue("Failed to parse pixeldrain response: ", e.as_str())),
        JsonReply::Parsed(v, looks) => match member_text(v, "id") {
            Some(id) => Ok(
                UploadResult {
                    url: glue("https://pixeldrain.com/api/file/", id.as_str()),
                    provider: "pixeldrain".to_owned(),
                },
            ),
            None => Err(glue("Pixeldrain upload failed: ", looks.as_str())),
        },
    }
}

/// The file went to the address with the id in the answer, if there is one.
pub proof fn the_answer_holds_the_id(reply: JsonReply)
    ensures
        placed(reply) is Ok <==> reply is Parsed && member_of(reply->Parsed_0@, "id"@) is Some && member_of(
            reply->Parsed_0@,
            "id"@,
        )->Some_0 is Text,
        placed(reply) matches Ok(at) ==> {
            let id = member_of(reply->Parsed_0@, "id"@)->Some_0->Text_0;
            at.0 == "https://pixeldrain.com/api/file/"@ + id && at.1 == "pixeldrain"@
        },
{
}

} // verus!
