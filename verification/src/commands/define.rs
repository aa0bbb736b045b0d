//! The `define` command: the first Urban Dictionary definition of a term.

use vstd::prelude::*;
use vstd::string::*;
use crate::json_value::{
    JsonModel, JsonParseError, json_tree, parsed_json, parse_json, field, item, is_string, as_str,
};
use crate::text::{has_prefix, has_suffix};
use crate::reply::{Embed, EmbedView, Rgb, blue, red, blue_view, red_view};

verus! {

/// The request for the definitions of `query`.
pub open spec fn define_url_view(query: Seq<char>) -> Seq<char> {
    "https://api.urbandictionary.com/v0/define?term="@ + query
}

/// Where definitions are asked for; the term follows.
pub const DEFINE_ENDPOINT: &'static str = "https://api.urbandictionary.com/v0/define?term=";

/// The request asks for the whole query, character for character: it is the
/// endpoint followed by exactly the query and nothing else.
pub proof fn lemma_define_url_whole_query(query: Seq<char>)
    ensures
        define_url_view(query).len() == DEFINE_ENDPOINT@.len() + query.len(),
        has_prefix(define_url_view(query), DEFINE_ENDPOINT@),
        has_suffix(define_url_view(query), query),
{
    let u = define_url_view(query);
    assert(u.take(DEFINE_ENDPOINT@.len() as int) =~= DEFINE_ENDPOINT@);
    assert(u.skip(u.len() - query.len()) =~= query);
}

/// The address that asks for the definitions of `query` (inserted as it is).
pub fn define_url(query: &str) -> (r: String)
    ensures
        r@ == define_url_view(query@),
        r@.len() == DEFINE_ENDPOINT@.len() + query@.len(),
        has_prefix(r@, DEFINE_ENDPOINT@),
        has_suffix(r@, query@),
{
    proof {
        lemma_define_url_whole_query(query@);
    }
    let mut url = String::from_str("https://api.urbandictionary.com/v0/define?term=");
    url.append(query);
    url
}

/// The first definition in a response: `list[0].definition`.
pub open spec fn first_definition(doc: JsonModel) -> JsonModel {
    doc.field("list"@).item(0).field("definition"@)
}

/// The embed answering `define`: always by "Urban Dictionary" with the footer
/// "Requested by <author>"; with a definition, the term as title, the
/// definition as text, in blue; without one, in red, titled
/// `No definition found for "<query>"`.
pub open spec fn define_embed_view(query: Seq<char>, doc: JsonModel, author: Seq<char>) -> EmbedView {
    let footer = Some("Requested by "@ + author);
    match first_definition(doc) {
        JsonModel::Str(d) => EmbedView {
            author: Some("Urban Dictionary"@),
            title: Some(query),
            description: Some(d),
            color: Some(blue_view()),
            footer,
        },
        _ => EmbedView {
            author: Some("Urban Dictionary"@),
            title: Some("No definition found for \""@ + query + "\""@),
            description: None,
            color: Some(red_view()),
            footer,
        },
    }
}

/// Whether two embeds agree in every part.
pub open spec fn same_embed(a: EmbedView, b: EmbedView) -> bool {
    &&& a.author == b.author
    &&& a.title == b.title
    &&& a.description == b.description
    &&& a.color == b.color
    &&& a.footer == b.footer
}

/// The embed for a parsed response.
pub fn define_embed_from(query: &str, doc: &json::JsonValue, author_name: &str) -> (r: Embed)
    ensures
        same_embed(r@, define_embed_view(query@, json_tree(*doc), author_name@)),
{
    let definition = field(item(field(doc, "list"), 0), "definition");
    let mut footer = String::from_str("Requested by ");
    footer.append(author_name);
    if is_string(definition) {
        let text = match as_str(definition) {
            Some(t) => String::from_str(t),
            None => String::new(),
        };
        Embed {
            author: Some(String::from_str("Urban Dictionary")),
            title: Some(String::from_str(query)),
            description: Some(text),
            color: Some(blue()),
            footer: Some(footer),
        }
    } else {
        let mut title = String::from_str("No definition found for \"");
        title.append(query);
        title.append("\"");
        Embed {
            author: Some(String::from_str("Urban Dictionary")),
            title: Some(title),
            description: None,
            color: Some(red()),
            footer: Some(footer),
        }
    }
}

/// The embed answering `define` for the text of the dictionary's response;
/// fails where the text is not JSON.
pub fn define_embed(query: &str, response: &str, author_name: &str) -> (r: Result<
    Embed,
    JsonParseError,
>)
    ensures
        (r is Ok) <==> (parsed_json(response@) is Some),
        r matches Ok(e) ==> same_embed(
            e@,
            define_embed_view(query@, parsed_json(response@)->0, author_name@),
        ),
{
    match parse_json(response) {
        Ok(doc) => Ok(define_embed_from(query, &doc, author_name)),
        Err(error) => Err(JsonParseError { error }),
    }
}

} // verus!
