//! The `send` command: a research-grade photo of an animal from iNaturalist.

use vstd::prelude::*;
use vstd::string::*;
use crate::json_value::{
    JsonModel, JsonParseError, json_tree, parsed_json, parse_json, field, item, is_null, as_str,
    as_u64, members_contain_u64, has_member_u64,
};
use crate::text::{append_decimal, decimal_view, replace_all, replace_view};

verus! {

/// The animal looked for: the query, or frogs when there is none.
pub open spec fn animal_view(query: Option<Seq<char>>) -> Seq<char> {
    match query {
        Some(q) => q,
        None => "frog"@,
    }
}

/// The animal looked for.
pub fn animal(query: Option<String>) -> (r: String)
    ensures
        r@ == animal_view(match query {
            Some(q) => Some(q@),
            None => None,
        }),
{
    match query {
        Some(q) => q,
        None => String::from_str("frog"),
    }
}

/// The request for the taxon best matching `animal`.
pub open spec fn taxa_url_view(animal: Seq<char>) -> Seq<char> {
    "https://api.inaturalist.org/v1/taxa/autocomplete?q="@ + animal + "&per_page=1"@
}

/// The address that asks for the taxon best matching `animal`.
pub fn taxa_url(animal: &str) -> (r: String)
    ensures
        r@ == taxa_url_view(animal@),
{
    let mut url = String::from_str("https://api.inaturalist.org/v1/taxa/autocomplete?q=");
    url.append(animal);
    url.append("&per_page=1");
    url
}

/// The taxon of frogs, asked for when nothing matched.
pub const FROG_TAXON: u64 = 20979;

/// The taxon of all plants.
pub const PLANT_TAXON: u64 = 47126;

/// The taxon of all arachnids.
pub const ARACHNID_TAXON: u64 = 47118;

/// The taxon found, and what kind of life it belongs to.
#[derive(Clone, Copy, Debug, PartialEq, Eq, Structural)]
pub struct TaxonChoice {
    pub id: u64,
    pub is_plant: bool,
    pub is_arachnid: bool,
}

/// Whether `taxon` is the taxon `group` or lies within it (by its ancestors).
pub open spec fn within_view(taxon: JsonModel, group: u64) -> bool {
    ||| (!(taxon.field("id"@) is Null) && taxon.field("id"@).as_u64() == Some(group))
    ||| (!(taxon.field("ancestor_ids"@) is Null) && has_member_u64(
        taxon.field("ancestor_ids"@),
        group,
    ))
}

/// The first match of a taxa response: `results[0]`.
pub open spec fn first_result(doc: JsonModel) -> JsonModel {
    doc.field("results"@).item(0)
}

/// The taxon to show: frogs when nothing matched; otherwise the match's id,
/// or 0 where it has no whole-number id.
pub open spec fn taxon_choice_view(doc: JsonModel) -> TaxonChoice {
    let taxon = first_result(doc);
    TaxonChoice {
        id: if taxon is Null {
            FROG_TAXON
        } else {
            match taxon.field("id"@).as_u64() {
                Some(id) => id,
                None => 0,
            }
        },
        is_plant: within_view(taxon, PLANT_TAXON),
        is_arachnid: within_view(taxon, ARACHNID_TAXON),
    }
}

fn within(taxon: &json::JsonValue, group: u64) -> (r: bool)
    ensures
        r == within_view(json_tree(*taxon), group),
{
    let id = field(taxon, "id");
    if !is_null(id) && as_u64(id) == Some(group) {
        return true;
    }
    let ancestors = field(taxon, "ancestor_ids");
    !is_null(ancestors) && members_contain_u64(ancestors, group)
}

/// Whether `taxon` is the taxon `group` or descends from it: its id is
/// `group`, or `group` stands at some position of its `ancestor_ids` array.
pub open spec fn belongs_to(taxon: JsonModel, group: u64) -> bool {
    ||| taxon.field("id"@).as_u64() == Some(group)
    ||| exists|i: int|
        0 <= i < taxon.field("ancestor_ids"@).member_count() && #[trigger] taxon.field(
            "ancestor_ids"@,
        ).item(i).as_u64() == Some(group)
}

/// A taxon is a plant exactly when it is Plantae (47126) or has Plantae
/// among its ancestors, and an arachnid exactly when the same holds of
/// Arachnida (47118); an unmatched search is neither.
pub proof fn lemma_taxon_kinds(doc: JsonModel)
    ensures
        taxon_choice_view(doc).is_plant == belongs_to(first_result(doc), PLANT_TAXON),
        taxon_choice_view(doc).is_arachnid == belongs_to(first_result(doc), ARACHNID_TAXON),
        first_result(doc) is Null ==> !taxon_choice_view(doc).is_plant
            && !taxon_choice_view(doc).is_arachnid && taxon_choice_view(doc).id == FROG_TAXON,
{
    let t = first_result(doc);
    assert(within_view(t, PLANT_TAXON) == belongs_to(t, PLANT_TAXON));
    assert(within_view(t, ARACHNID_TAXON) == belongs_to(t, ARACHNID_TAXON));
}

/// The taxon to show for a parsed taxa response.
pub fn taxon_choice_from(doc: &json::JsonValue) -> (r: TaxonChoice)
    ensures
        r == taxon_choice_view(json_tree(*doc)),
        r.is_plant == belongs_to(first_result(json_tree(*doc)), PLANT_TAXON),
        r.is_arachnid == belongs_to(first_result(json_tree(*doc)), ARACHNID_TAXON),
{
    proof {
        lemma_taxon_kinds(json_tree(*doc));
    }
    let taxon = item(field(doc, "results"), 0);
    let id = if is_null(taxon) {
        FROG_TAXON
    } else {
        match as_u64(field(taxon, "id")) {
            Some(id) => id,
            None => 0,
        }
    };
    TaxonChoice {
        id,
        is_plant: within(taxon, PLANT_TAXON),
        is_arachnid: within(taxon, ARACHNID_TAXON),
    }
}

/// The taxon to show for the text of a taxa response; fails where it is not JSON.
pub fn taxon_choice(response: &str) -> (r: Result<TaxonChoice, JsonParseError>)
    ensures
        (r is Ok) <==> (parsed_json(response@) is Some),
        r matches Ok(c) ==> c == taxon_choice_view(parsed_json(response@)->0),
{
    match parse_json(response) {
        Ok(doc) => Ok(taxon_choice_from(&doc)),
        Err(error) => Err(JsonParseError { error }),
    }
}

/// The request for one random research-grade observation of the taxon, seeded
/// by `seed`; except for plants (which cannot be dead), only living
/// organisms are asked for (term 17 with value 18).
pub open spec fn observations_url_view(choice: TaxonChoice, seed: u64) -> Seq<char> {
    let base = "https://api.inaturalist.org/v1/observations?taxon_id="@ + decimal_view(
        choice.id as nat,
    ) + "&quality_grade=research&order_by=random&per_page=1&seed="@ + decimal_view(seed as nat);
    if choice.is_plant {
        base
    } else {
        base + "&term_id=17&term_value_id=18"@
    }
}

/// The address that asks for a random observation of the chosen taxon.
pub fn observations_url(choice: TaxonChoice, seed: u64) -> (r: String)
    ensures
        r@ == observations_url_view(choice, seed),
{
    let mut url = String::from_str("https://api.inaturalist.org/v1/observations?taxon_id=");
    append_decimal(&mut url, choice.id);
    url.append("&quality_grade=research&order_by=random&per_page=1&seed=");
    append_decimal(&mut url, seed);
    if !choice.is_plant {
        url.append("&term_id=17&term_value_id=18");
    }
    url
}

/// The photo of the first observation: `results[0].observation_photos[0].photo.url`.
pub open spec fn photo_url_of(doc: JsonModel) -> JsonModel {
    doc.field("results"@).item(0).field("observation_photos"@).item(0).field("photo"@).field(
        "url"@,
    )
}

/// The taxon of the first observation: `results[0].taxon`.
pub open spec fn observed_taxon(doc: JsonModel) -> JsonModel {
    doc.field("results"@).item(0).field("taxon"@)
}

/// Whether an observation response holds what the answer is made of: a photo
/// link and a scientific name (both strings).
pub open spec fn observation_complete(doc: JsonModel) -> bool {
    &&& photo_url_of(doc) is Str
    &&& observed_taxon(doc).field("name"@) is Str
}

/// The answer to `send`: "Image of <name>", where the name is the common name
/// or else the scientific one; then the photo link in large size, hidden
/// behind a spoiler for arachnids.
pub open spec fn observation_reply_view(doc: JsonModel, is_arachnid: bool) -> (Seq<char>, Seq<char>) {
    let taxon = observed_taxon(doc);
    let name = match taxon.field("preferred_common_name"@).as_str() {
        Some(n) => n,
        None => taxon.field("name"@).as_str()->0,
    };
    let large = replace_view(photo_url_of(doc).as_str()->0, "square"@, "large"@);
    let link = if is_arachnid {
        "|| "@ + large + " ||"@
    } else {
        large
    };
    ("Image of "@ + name, link)
}

/// The answer to `send` for a parsed observation response that holds a photo
/// link and a scientific name.
pub fn observation_reply_from(doc: &json::JsonValue, is_arachnid: bool) -> (r: (String, String))
    requires
        observation_complete(json_tree(*doc)),
    ensures
        (r.0@, r.1@) == observation_reply_view(json_tree(*doc), is_arachnid),
{
    let first = item(field(doc, "results"), 0);
    let photo = field(field(item(field(first, "observation_photos"), 0), "photo"), "url");
    let photo_text = match as_str(photo) {
        Some(t) => t,
        None => "",
    };
    proof {
        reveal_strlit("square");
        assert("square"@.len() > 0);
    }
    let large = replace_all(photo_text, "square", "large");
    let link = if is_arachnid {
        let mut l = String::from_str("|| ");
        l.append(large.as_str());
        l.append(" ||");
        l
    } else {
        large
    };
    let taxon = field(first, "taxon");
    let scientific = match as_str(field(taxon, "name")) {
        Some(n) => n,
        None => "",
    };
    let name = match as_str(field(taxon, "preferred_common_name")) {
        Some(n) => n,
        None => scientific,
    };
    let mut message = String::from_str("Image of ");
    message.append(name);
    (message, link)
}

/// The answer to `send` for the text of an observation response: an error
/// where it is not JSON, `None` where it lacks the photo link or the
/// scientific name, where the command gives up.
pub fn observation_reply(response: &str, is_arachnid: bool) -> (r: Result<
    Option<(String, String)>,
    JsonParseError,
>)
    ensures
        (r is Ok) <==> (parsed_json(response@) is Some),
        r matches Ok(o) ==> ((o is Some) <==> observation_complete(parsed_json(response@)->0)),
        r matches Ok(Some(m)) ==> (m.0@, m.1@) == observation_reply_view(
            parsed_json(response@)->0,
            is_arachnid,
        ),
{
    match parse_json(response) {
        Ok(doc) => {
            let first = item(field(&doc, "results"), 0);
            let photo = field(field(item(field(first, "observation_photos"), 0), "photo"), "url");
            let name = field(field(first, "taxon"), "name");
            if as_str(photo).is_some() && as_str(name).is_some() {
                Ok(Some(observation_reply_from(&doc, is_arachnid)))
            } else {
                Ok(None)
            }
        },
        Err(error) => Err(JsonParseError { error }),
    }
}

} // verus!
