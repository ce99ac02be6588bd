//! catbox.moe.

use crate::media::{uploaded, TextReply, UploadResult};
use crate::text::{glue, starts, starts_with, trim, trimmed};
use vstd::prelude::*;

verus! {

/// The form field, next to the file, that asks for an upload.
pub fn request_field() -> (res: (&'static str, &'static str))
    ensures
        res.0@ == "reqtype"@,
        res.1@ == "fileupload"@,
{
    ("reqtype", "fileupload")
}

/// Where the file went, or why it went nowhere.
pub open spec fn placed(reply: TextReply) -> Result<(Seq<char>, Seq<char>), Seq<char>> {
    match reply {
        TextReply::NotSent(e) => Err("Catbox upload failed: "@ + e@),
        TextReply::NotRead(e) => Err("Failed to read catbox response: "@ + e@),
        TextReply::Read(text) => if starts(text@, "http"@) {
            Ok((trimmed(text@), "catbox"@))
        } else {
            Err("Catbox upload failed: "@ + text@)
        },
    }
}

/// Where the file went: the answer is its address.
pub fn upload(reply: &TextReply) -> (res: Result<UploadResult, String>)
    ensures
        uploaded(res) == placed(*reply),
{
    match reply {
        TextReply::NotSent(e) => Err(glue("Catbox upload failed: ", e.as_str())),
        TextReply::NotRead(e) => Err(glue("Failed to read catbox response: ", e.as_str())),
        TextReply::Read(text) => if starts_with(text.as_str(), "http") {
            Ok(UploadResult { url: trim(text.as_str()), provider: "catbox".to_owned() })
        } else {
            Err(glue("Catbox upload failed: ", text.as_str()))
        },
    }
}

/// The file went where the answer says, if that is an address.
pub proof fn the_answer_is_the_address(reply: TextReply)
    ensures
        placed(reply) is Ok <==> (reply matches TextReply::Read(text) && starts(text@, "http"@)),
        placed(reply) matches Ok(at) ==> at.0 == trimmed(reply->Read_0@) && at.1 == "catbox"@,
{
}

} // verus!
