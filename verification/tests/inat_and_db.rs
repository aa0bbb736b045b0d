use alfred::commands::inat::{
    animal, observation_reply, observations_url, taxa_url, taxon_choice, taxon_choice_from,
    TaxonChoice,
};
use alfred::db::{guild_key, is_enabled, toggle, ToggleStatement, DELETE_DISABLED_ROW, INSERT_DISABLED_ROW};

#[test]
fn inat_query_and_taxa_url() {
    assert_eq!(animal(None), "frog");
    assert_eq!(animal(Some("owl".to_string())), "owl");
    assert_eq!(taxa_url("owl"), "https://api.inaturalist.org/v1/taxa/autocomplete?q=owl&per_page=1");
}

#[test]
fn taxon_choice_defaults_to_frogs() {
    let c = taxon_choice(r#"{"results":[]}"#).ok().unwrap();
    assert_eq!(c, TaxonChoice { id: 20979, is_plant: false, is_arachnid: false });
    assert!(taxon_choice("?").is_err());
}

#[test]
fn taxon_choice_reads_id_and_kind() {
    let c = taxon_choice(r#"{"results":[{"id":47126}]}"#).ok().unwrap();
    assert_eq!(c, TaxonChoice { id: 47126, is_plant: true, is_arachnid: false });
    let c = taxon_choice(r#"{"results":[{"id":52,"ancestor_ids":[48460,1,47118,123]}]}"#).ok().unwrap();
    assert_eq!(c, TaxonChoice { id: 52, is_plant: false, is_arachnid: true });
    let c = taxon_choice(r#"{"results":[{"name":"nameless"}]}"#).ok().unwrap();
    assert_eq!(c, TaxonChoice { id: 0, is_plant: false, is_arachnid: false });
    let doc = json::parse(r#"{"results":[{"id":1.5,"ancestor_ids":[47126.0]}]}"#).unwrap();
    assert_eq!(taxon_choice_from(&doc), TaxonChoice { id: 0, is_plant: false, is_arachnid: false });
}

#[test]
fn observations_url_filters_living_animals_except_plants() {
    let animal = TaxonChoice { id: 20979, is_plant: false, is_arachnid: false };
    assert_eq!(
        observations_url(animal, 1700000000),
        "https://api.inaturalist.org/v1/observations?taxon_id=20979&quality_grade=research&order_by=random&per_page=1&seed=1700000000&term_id=17&term_value_id=18"
    );
    let plant = TaxonChoice { id: 47126, is_plant: true, is_arachnid: false };
    assert_eq!(
        observations_url(plant, 0),
        "https://api.inaturalist.org/v1/observations?taxon_id=47126&quality_grade=research&order_by=random&per_page=1&seed=0"
    );
}

const OBSERVATION: &str = r#"{"results":[{"observation_photos":[{"photo":{"url":"https://p/square.jpg"}}],"taxon":{"name":"Rana","preferred_common_name":"Frog"}}]}"#;

#[test]
fn observation_reply_names_and_enlarges() {
    let (name, link) = observation_reply(OBSERVATION, false).ok().unwrap().unwrap();
    assert_eq!(name, "Image of Frog");
    assert_eq!(link, "https://p/large.jpg");
    let (_, link) = observation_reply(OBSERVATION, true).ok().unwrap().unwrap();
    assert_eq!(link, "|| https://p/large.jpg ||");
    let plain = r#"{"results":[{"observation_photos":[{"photo":{"url":"u"}}],"taxon":{"name":"Rana"}}]}"#;
    assert_eq!(observation_reply(plain, false).ok().unwrap().unwrap().0, "Image of Rana");
}

#[test]
fn observation_reply_incomplete_or_invalid() {
    let no_name = r#"{"results":[{"observation_photos":[{"photo":{"url":"u"}}],"taxon":{"preferred_common_name":"Frog"}}]}"#;
    assert!(observation_reply(no_name, false).ok().unwrap().is_none());
    assert!(observation_reply(r#"{"results":[]}"#, false).ok().unwrap().is_none());
    assert!(observation_reply("<", false).is_err());
}

#[test]
fn guild_keys_are_decimal() {
    assert_eq!(guild_key(0), "0");
    assert_eq!(guild_key(123456789012345678), "123456789012345678");
    assert_eq!(guild_key(u64::MAX), "18446744073709551615");
}

#[test]
fn is_enabled_looks_for_the_name() {
    let rows = vec![Some("cat".to_string()), None, Some("define".to_string())];
    assert!(!is_enabled(&rows, "cat"));
    assert!(!is_enabled(&rows, "define"));
    assert!(is_enabled(&rows, "dog"));
    assert!(is_enabled(&Vec::new(), "cat"));
}

#[test]
fn toggle_plans() {
    assert_eq!(toggle(true), (ToggleStatement::Delete, true));
    assert_eq!(toggle(false), (ToggleStatement::Insert, false));
    assert_eq!(ToggleStatement::Delete.sql(), DELETE_DISABLED_ROW);
    assert_eq!(ToggleStatement::Insert.sql(), INSERT_DISABLED_ROW);
}

fn run_toggle(table: &mut Vec<(String, Option<String>)>, guild: u64, name: &str) -> bool {
    let key = guild_key(guild);
    let found = table.iter().any(|(g, n)| *g == key && n.as_deref() == Some(name));
    let (statement, enabled) = toggle(found);
    match statement {
        ToggleStatement::Delete => table.retain(|(g, n)| !(*g == key && n.as_deref() == Some(name))),
        ToggleStatement::Insert => table.push((key, Some(name.to_string()))),
    }
    enabled
}

fn enabled_in(table: &Vec<(String, Option<String>)>, guild: u64, name: &str) -> bool {
    let key = guild_key(guild);
    let names: Vec<Option<String>> = table.iter().filter(|(g, _)| *g == key).map(|(_, n)| n.clone()).collect();
    is_enabled(&names, name)
}

#[test]
fn toggle_answer_is_the_new_state_and_twice_restores() {
    let mut table = vec![("7".to_string(), Some("dog".to_string()))];
    assert!(enabled_in(&table, 7, "cat"));
    let answer = run_toggle(&mut table, 7, "cat");
    assert!(!answer);
    assert_eq!(enabled_in(&table, 7, "cat"), answer);
    assert!(!enabled_in(&table, 7, "dog"));
    assert!(enabled_in(&table, 8, "cat"));
    let answer = run_toggle(&mut table, 7, "cat");
    assert!(answer);
    assert_eq!(enabled_in(&table, 7, "cat"), answer);
    assert!(!enabled_in(&table, 7, "dog"));
    assert_eq!(table, vec![("7".to_string(), Some("dog".to_string()))]);
}
