//! anonfiles.com.

use crate::json::{member_of, opt_text, Json, JsonValue};
use crate::media::fileio::member_is_true;
use crate::media::{uploaded, JsonReply, UploadResult};
use crate::text::glue;
use vstd::prelude::*;

verus! {

/// The text at `data`, `file`, `url`, `full` of an answer.
pub open spec fn full_url(v: Json) -> Option<Seq<char>> {
    match member_of(v, "data"@) {
        Some(data) => match member_of(data, "file"@) {
            Some(file) => match member_of(file, "url"@) {
                Some(url) => match member_of(url, "full"@) {
                    Some(Json::Text(s)) => Some(s),
                    _ => None,
                },
                None => None,
            },
            None => None,
        },
        None => None,
    }
}

fn find_full_url(v: &JsonValue) -> (res: Option<String>)
    ensures
        opt_text(res) == full_url(v@),
{
    match v.get("data") {
        Some(data) => match data.get("file") {
            Some(file) => match file.get("url") {
                Some(url) => match url.get("full") {
                    Some(full) => full.as_text(),
                    None => None,
                },
                None => None,
            },
            None => None,
        },
        None => None,
    }
}

/// Where the file went, or why it went nowhere.
pub open spec fn placed(reply: JsonReply) -> Result<(Seq<char>, Seq<char>), Seq<char>> {
    match reply {
        JsonReply::NotSent(e) => Err("Anonfiles upload failed: "@ + e@),
        JsonReply::NotParsed(e) => Err("Failed to parse anonfiles response: "@ + e@),
        JsonReply::Parsed(v, looks) => match full_url(v@) {
            Some(url) if member_of(v@, "status"@) == Some(Json::Bool(true)) => Ok((url, "anonfiles"@)),
            _ => Err("Anonfiles upload failed: "@ + looks@),
        },
    }
}

/// Where the file went: the answer says so where its status is `true`.
pub fn upload(reply: &JsonReply) -> (res: Result<UploadResult, String>)
    ensures
        uploaded(res) == placed(*reply),
{
    match reply {
        JsonReply::NotSent(e) => Err(glue("Anonfiles upload failed: ", e.as_str())),
        JsonReply::NotParsed(e) => Err(glue("Failed to parse anonfiles response: ", e.as_str())),
        JsonReply::Parsed(v, looks) => {
            if member_is_true(v, "status") {
                if let Some(url) = find_full_url(v) {
                    return Ok(UploadResult { url, provider: "anonfiles".to_owned() });
                }
            }
            Err(glue("Anonfiles upload failed: ", looks.as_str()))
        },
    }
}

/// The file went to the full address in the answer, if its status is `true`.
pub proof fn the_answer_holds_the_full_address(reply: JsonReply, url: Seq<char>)
    ensures
        placed(reply) is Ok ==> reply is Parsed && member_of(reply->Parsed_0@, "status"@) == Some(
            Json::Bool(true),
        ),
        ({
            let v = reply->Parsed_0@;
            let data = member_of(v, "data"@)->Some_0;
            let file = member_of(data, "file"@)->Some_0;
            let address = member_of(file, "url"@)->Some_0;
            &&& reply is Parsed && member_of(v, "status"@) == Some(Json::Bool(true)) && member_of(v, "data"@) is Some
                && member_of(data, "file"@) is Some && member_of(file, "url"@) is Some && member_of(
                address,
                "full"@,
            ) == Some(Json::Text(url)) ==> placed(reply) == Ok::<(Seq<char>, Seq<char>), Seq<char>>(
                (url, "anonfiles"@),
            )
            &&& placed(reply) matches Ok(at) ==> member_of(address, "full"@) == Some(Json::Text(at.0))
        }),
{
}

} // verus!
