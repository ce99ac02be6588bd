//! A provider of one's own.

use crate::json::{member_of, opt_text, Json, JsonValue};
use crate::media::{uploaded, CustomConfig, JsonReply, UploadResult};
use crate::text::{glue, glue3, pieces, split, starts, strip_prefix, texts};
use vstd::prelude::*;
use vstd::string::*;

verus! {

/// What the members of members are that a list of keys leads to.
pub open spec fn led_to(v: Json, keys: Seq<Seq<char>>) -> Option<Json>
    decreases keys.len(),
{
    if keys.len() == 0 {
        Some(v)
    } else {
        match led_to(v, keys.drop_last()) {
            Some(m) => member_of(m, keys.last()),
            None => None,
        }
    }
}

/// A path without the `$.` that it may start with.
pub open spec fn bare_path(path: Seq<char>) -> Seq<char> {
    if starts(path, "$."@) {
        path.skip("$."@.len() as int)
    } else {
        path
    }
}

/// The text that a path such as `$.data.url` leads to.
pub open spec fn text_at(v: Json, path: Seq<char>) -> Option<Seq<char>> {
    match led_to(v, pieces(bare_path(path), '.')) {
        Some(Json::Text(s)) => Some(s),
        _ => None,
    }
}

proof fn dead_ends_stay(v: Json, keys: Seq<Seq<char>>, n: int)
    requires
        0 <= n <= keys.len(),
        led_to(v, keys.take(n)) is None,
    ensures
        led_to(v, keys) is None,
    decreases keys.len(),
{
    if n == keys.len() {
        assert(keys.take(n) =~= keys);
    } else {
        assert(keys.drop_last().take(n) =~= keys.take(n));
        dead_ends_stay(v, keys.drop_last(), n);
    }
}

/// The text that a path such as `$.data.url` leads to.
pub fn extract_jsonpath(value: &JsonValue, path: &str) -> (res: Option<String>)
    ensures
        opt_text(res) == text_at(value@, path@),
{
    let bare = match strip_prefix(path, "$.") {
        Some(p) => p,
        None => path.to_owned(),
    };
    let keys = split(bare.as_str(), '.');
    let ghost all = texts(keys@);
    let mut current = value;
    let mut i: usize = 0;
    while i < keys.len()
        invariant
            i <= keys@.len(),
            all == texts(keys@),
            all == pieces(bare_path(path@), '.'),
            led_to(value@, all.take(i as int)) == Some(current@),
        decreases keys@.len() - i,
    {
        proof {
            assert(all.take(i + 1).drop_last() =~= all.take(i as int));
            assert(all.take(i + 1).last() == keys@[i as int]@);
        }
        match current.get(keys[i].as_str()) {
            Some(next) => {
                current = next;
            },
            None => {
                proof {
                    dead_ends_stay(value@, all, i + 1);
                }
                return None;
            },
        }
        i += 1;
    }
    assert(all.take(all.len() as int) =~= all);
    current.as_text()
}

/// Where the file went, or why it went nowhere.
pub open spec fn placed(config: CustomConfig, reply: JsonReply) -> Result<(Seq<char>, Seq<char>), Seq<char>> {
    match reply {
        JsonReply::NotSent(e) => Err("Custom upload failed: "@ + e@),
        JsonReply::NotParsed(e) => Err("Failed to parse custom response: "@ + e@),
        JsonReply::Parsed(v, looks) => match text_at(v@, config.response_url_jsonpath@) {
            Some(url) => Ok((url, "custom"@)),
            None => Err(
                "Could not extract URL from response using '"@ + config.response_url_jsonpath@ + "': "@ + looks@,
            ),
        },
    }
}

/// Where the file went: the answer says so at a configured place.
pub fn upload(config: &CustomConfig, reply: &JsonReply) -> (res: Result<UploadResult, String>)
    ensures
        uploaded(res) == placed(*config, *reply),
{
    match reply {
        JsonReply::NotSent(e) => Err(glue("Custom upload failed: ", e.as_str())),
        JsonReply::NotParsed(e) => Err(glue("Failed to parse custom response: ", e.as_str())),
        JsonReply::Parsed(v, looks) => match extract_jsonpath(v, config.response_url_jsonpath.as_str()) {
            Some(url) => Ok(UploadResult { url, provider: "custom".to_owned() }),
            None => {
                let head = glue3(
                    "Could not extract URL from response using '",
                    config.response_url_jsonpath.as_str(),
                    "': ",
                );
                Err(glue(head.as_str(), looks.as_str()))
            },
        },
    }
}

/// A path leads from member to member, by its keys in their order, and may start
/// with `$.` or not.
pub proof fn a_path_leads_from_member_to_member(v: Json, keys: Seq<Seq<char>>, key: Seq<char>, path: Seq<char>)
    ensures
        led_to(v, Seq::empty()) == Some(v),
        led_to(v, keys) matches Some(m) ==> led_to(v, keys.push(key)) == member_of(m, key),
        led_to(v, keys) is None ==> led_to(v, keys.push(key)) is None,
        !starts(path, "$."@) ==> text_at(v, "$."@ + path) == text_at(v, path),
{
    assert(keys.push(key).drop_last() =~= keys);
    let dollar = "$."@ + path;
    assert(dollar.subrange(0, "$."@.len() as int) =~= "$."@);
    assert(dollar.skip("$."@.len() as int) =~= path);
}

/// The file went to the text that the configured path leads to in the answer.
pub proof fn the_answer_holds_the_configured_address(config: CustomConfig, reply: JsonReply)
    ensures
        placed(config, reply) is Ok <==> reply is Parsed && text_at(
            reply->Parsed_0@,
            config.response_url_jsonpath@,
        ) is Some,
        placed(config, reply) matches Ok(at) ==> Some(at.0) == text_at(
            reply->Parsed_0@,
            config.response_url_jsonpath@,
        ) && at.1 == "custom"@,
{
}

} // verus!
