//! The `dog`, `fox` and `tuff` commands: a picture link read from a web API.

use vstd::prelude::*;
use vstd::string::*;
use crate::json_value::{
    JsonModel, JsonParseError, json_tree, parsed_json, parse_json, field, item, is_array,
    array_len, as_str,
};
use crate::random::{random_index, roll_thousand};
use crate::reply::opt_view;

verus! {

/// The string at `value`, or `fallback` where `value` is no string.
pub open spec fn str_or(value: JsonModel, fallback: Seq<char>) -> Seq<char> {
    match value.as_str() {
        Some(s) => s,
        None => fallback,
    }
}

fn str_or_exec(value: &json::JsonValue, fallback: &str) -> (r: String)
    ensures
        r@ == str_or(json_tree(*value), fallback@),
{
    match as_str(value) {
        Some(s) => String::from_str(s),
        None => String::from_str(fallback),
    }
}

/// Where a random dog picture is asked for.
pub const DOG_URL: &'static str = "https://dog.ceo/api/breeds/image/random";

/// The answer to `dog`: the `message` field (the picture link), or
/// "api broke :(" where it is no string.
pub open spec fn dog_reply_view(doc: JsonModel) -> Seq<char> {
    str_or(doc.field("message"@), "api broke :("@)
}

/// The answer to `dog` for a parsed response.
pub fn dog_reply_from(doc: &json::JsonValue) -> (r: String)
    ensures
        r@ == dog_reply_view(json_tree(*doc)),
{
    str_or_exec(field(doc, "message"), "api broke :(")
}

/// The answer to `dog` for the text of the response; fails where it is not JSON.
pub fn dog_reply(response: &str) -> (r: Result<String, JsonParseError>)
    ensures
        (r is Ok) <==> (parsed_json(response@) is Some),
        r matches Ok(s) ==> s@ == dog_reply_view(parsed_json(response@)->0),
{
    match parse_json(response) {
        Ok(doc) => Ok(dog_reply_from(&doc)),
        Err(error) => Err(JsonParseError { error }),
    }
}

/// Where a random fox picture is asked for.
pub const FOX_API_ENDPOINT: &'static str = "https://randomfox.ca/floof/";

/// The context given to a failed fox request.
pub const FOX_FETCH_CONTEXT: &'static str = "Failed to fetch response from https://randomfox.ca/floof/";

/// The picture posted instead of a fox, one time in a thousand.
pub const FOX_JUMPSCARE: &'static str = "https://tenor.com/fZEGeo3lNTk.gif";

/// The draw that brings the scary fox.
pub open spec fn is_jumpscare_roll(roll: u32) -> bool {
    roll == 67
}

/// Whether a draw from 1 to 1000 is the one that brings the scary fox.
pub fn is_fox_jumpscare(roll: u32) -> (r: bool)
    ensures
        r == (roll == 67),
{
    roll == 67
}

/// Draws a number from 1 to 1000 and tells, for that same draw, whether the
/// scary fox comes: the answer is `true` exactly when the drawn number is 67.
pub fn draw_fox_roll() -> (r: (u32, bool))
    ensures
        1 <= r.0 <= 1000,
        r.1 == (r.0 == 67),
        r.1 ==> r.0 == 67,
        r.0 != 67 ==> !r.1,
{
    let roll = roll_thousand();
    (roll, is_fox_jumpscare(roll))
}

/// Only one draw in the thousand brings the scary fox: every other number
/// from 1 to 1000 brings a fox picture.
pub proof fn lemma_one_jumpscare_roll(roll: u32)
    requires
        1 <= roll <= 1000,
    ensures
        is_jumpscare_roll(roll) <==> roll == 67,
        roll != 67 ==> !is_jumpscare_roll(roll),
{
}

/// Draws from 1 to 1000 and tells whether the scary fox comes: a chance of
/// one in a thousand. The answer is that of `draw_fox_roll` for its draw.
pub fn draw_fox_jumpscare() -> (r: bool)
    ensures
        exists|roll: u32| 1 <= roll <= 1000 && r == #[trigger] is_jumpscare_roll(roll),
{
    let (roll, r) = draw_fox_roll();
    assert(r == is_jumpscare_roll(roll));
    r
}

/// The answer to `fox`: the `image` field, or "response has unexpected
/// structure" where it is no string.
pub open spec fn fox_reply_view(doc: JsonModel) -> Seq<char> {
    str_or(doc.field("image"@), "response has unexpected structure"@)
}

/// The answer to `fox` for a parsed response.
pub fn fox_reply_from(doc: &json::JsonValue) -> (r: String)
    ensures
        r@ == fox_reply_view(json_tree(*doc)),
{
    str_or_exec(field(doc, "image"), "response has unexpected structure")
}

/// A fox response that is not JSON, with the context shown to the user.
pub struct PayloadError {
    pub context: String,
    pub error: json::Error,
}

/// The answer to `fox` for the text of the response; where it is not JSON the
/// error carries the context "Failed to parse response payload:" and the text.
pub fn fox_reply(payload: &str) -> (r: Result<String, PayloadError>)
    ensures
        (r is Ok) <==> (parsed_json(payload@) is Some),
        r matches Ok(s) ==> s@ == fox_reply_view(parsed_json(payload@)->0),
        r matches Err(e) ==> e.context@ == "Failed to parse response payload:\n"@ + payload@,
{
    match parse_json(payload) {
        Ok(doc) => Ok(fox_reply_from(&doc)),
        Err(error) => {
            let mut context = String::from_str("Failed to parse response payload:\n");
            context.append(payload);
            Err(PayloadError { context, error })
        },
    }
}

/// Where the hot posts of r/hardimages2 are asked for.
pub const TUFF_URL: &'static str = "https://www.reddit.com/r/hardimages2/hot.json?limit=100";

/// The user agent that the site asks of clients.
pub const TUFF_USER_AGENT: &'static str = "alfred:2.0";

/// The message for a response whose status is not a success.
pub open spec fn unexpected_status_view(status: Seq<char>) -> Seq<char> {
    "unexpected response code: "@ + status
        + "\n-# note: if this is a 403, reddit has probably blocked us"@
}

/// The message for a response whose status (as displayed) is not a success.
pub fn unexpected_status_reply(status: &str) -> (r: String)
    ensures
        r@ == unexpected_status_view(status@),
{
    let mut s = String::from_str("unexpected response code: ");
    s.append(status);
    s.append("\n-# note: if this is a 403, reddit has probably blocked us");
    s
}

/// The error when there is no post to choose from.
pub const NO_POST_CHOSEN: &'static str = "failed to choose post";

/// The posts of a listing: `data.children`.
pub open spec fn children_of(doc: JsonModel) -> JsonModel {
    doc.field("data"@).field("children"@)
}

/// What a post links to: `data.url`, or "failed to parse post".
pub open spec fn post_link_view(post: JsonModel) -> Seq<char> {
    str_or(post.field("data"@).field("url"@), "failed to parse post"@)
}

/// The link of the post at position `i` of a listing (the fallback text
/// where there is no such post or it has no link).
pub fn post_link_at(doc: &json::JsonValue, i: usize) -> (r: String)
    ensures
        r@ == post_link_view(children_of(json_tree(*doc)).item(i as int)),
{
    let children = field(field(doc, "data"), "children");
    str_or_exec(field(field(item(children, i), "data"), "url"), "failed to parse post")
}

/// What `tuff` says about a listing: first a notice where the posts are no
/// array, then the link of a post drawn at random (`None`, an error, where
/// there is none to draw).
pub struct TuffReply {
    pub notice: Option<String>,
    pub post: Option<String>,
}

/// What `tuff` says for a parsed listing. The notice is
/// "failed to parse reddit response" exactly where `data.children` is no
/// array; a post is drawn exactly where the array has members, and its link
/// is that of one of them.
pub fn tuff_reply_from(doc: &json::JsonValue) -> (r: TuffReply)
    ensures
        opt_view(r.notice) == (if children_of(json_tree(*doc)) is Array {
            None
        } else {
            Some("failed to parse reddit response"@)
        }),
        (r.post is None) <==> children_of(json_tree(*doc)).member_count() == 0,
        r.post matches Some(link) ==> exists|i: int|
            0 <= i < children_of(json_tree(*doc)).member_count() && link@ == post_link_view(
                #[trigger] children_of(json_tree(*doc)).item(i),
            ),
{
    let children = field(field(doc, "data"), "children");
    let listed = is_array(children);
    let notice = if listed {
        None
    } else {
        Some(String::from_str("failed to parse reddit response"))
    };
    let count = if listed {
        array_len(children)
    } else {
        0
    };
    let post = match random_index(count) {
        Some(i) => {
            let link = post_link_at(doc, i);
            Some(link)
        },
        None => None,
    };
    TuffReply { notice, post }
}

/// What `tuff` says for the text of a listing; fails where it is not JSON.
pub fn tuff_reply(response: &str) -> (r: Result<TuffReply, JsonParseError>)
    ensures
        (r is Ok) <==> (parsed_json(response@) is Some),
        r matches Ok(t) ==> {
            let kids = children_of(parsed_json(response@)->0);
            &&& opt_view(t.notice) == (if kids is Array {
                None
            } else {
                Some("failed to parse reddit response"@)
            })
            &&& (t.post is None) <==> kids.member_count() == 0
            &&& t.post matches Some(link) ==> exists|i: int|
                0 <= i < kids.member_count() && link@ == post_link_view(#[trigger] kids.item(i))
        },
{
    match parse_json(response) {
        Ok(doc) => Ok(tuff_reply_from(&doc)),
        Err(error) => Err(JsonParseError { error }),
    }
}

} // verus!
