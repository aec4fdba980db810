use jira_rs::options::cdelim::{none_or_empty, CommaDelimited, Element, Number};
use jira_rs::options::create::Create;
use jira_rs::options::get::{Get, GetIter};
use jira_rs::options::metadata::{MetaCreate, MetaCreateIter};
use jira_rs::options::query::{push_list, to_query, Param};
use jira_rs::options::search::{Search, SearchIter};
use jira_rs::options::validate::ValidateQuery;

fn items() -> Vec<Element> {
    vec![
        Element::from_str("hello"),
        Element::from_i64(42),
        Element::from_bool(false),
        Element::from_str("world"),
    ]
}

/// The query of a request with the two parameters `key` and `opt`.
fn generate(key: CommaDelimited, opt: Option<CommaDelimited>) -> Option<String> {
    let mut params: Vec<Param> = Vec::new();
    push_list(&mut params, "key", &Some(key));
    push_list(&mut params, "opt", &opt);
    to_query(&params)
}

#[test]
fn cdelim_single() {
    let delim = CommaDelimited::from_element(Element::from_str("hello"));

    assert_eq!(delim.as_str(), "hello");
}

#[test]
fn cdelim_multiple() {
    let delim = CommaDelimited::from_elements(&items());

    assert_eq!(delim.as_str(), "hello,42,false,world");
}

#[test]
fn urlencoded_none() {
    let query = generate(CommaDelimited::default(), None);

    assert_eq!(query, None);
}

#[test]
fn urlencoded_single() {
    let query = generate(CommaDelimited::from_element(Element::from_i64(42)), None);
    let query = query.expect("a non-empty query");

    assert_eq!(query, "key=42");
}

#[test]
fn urlencoded_delimited() {
    let query = generate(CommaDelimited::from_elements(&items()), None);
    let query = query.expect("a non-empty query");

    assert_eq!(query, "key=hello%2C42%2Cfalse%2Cworld");
}

#[test]
fn urlencoded_multiple() {
    let query = generate(
        CommaDelimited::from_elements(&items()),
        Some(CommaDelimited::from_element(Element::from_str("another"))),
    );
    let query = query.expect("a non-empty query");

    assert_eq!(query, "key=hello%2C42%2Cfalse%2Cworld&opt=another");
}

#[test]
fn create_empty() {
    let create = Create::new();

    assert_eq!(create.to_query(), None);
}

#[test]
fn create_single() {
    let create = Create::new().with(|this| this.update_history(Some(true)));
    let query = create.to_query().expect("a non-empty query");

    assert_eq!(query, "updateHistory=true")
}

#[test]
fn get_empty() {
    let get = Get::new();

    assert_eq!(get.to_query(), None);
}

#[test]
fn get_single() {
    let get = Get::new().with(|this| this.fields(&["value"]));
    let query = get.to_query().expect("a non-empty query");

    assert_eq!(query, "fields=value")
}

#[test]
fn get_multiple() {
    let get = Get::new().with(|this| this.expand(&["value"]).update_history(Some(true)));
    let query = get.to_query().expect("a non-empty query");

    assert_eq!(query, "expand=value&updateHistory=true")
}

#[test]
fn get_complex() {
    let get = Get::new().with(|this| {
        this.properties(&["foo", "bar", "baz"])
            .fields_by_key(Some(true))
            .fields(&["field"])
            .update_history(Some(false))
    });
    let query = get.to_query().expect("a non-empty query");

    assert_eq!(query, "fields=field&fieldsByKeys=true&properties=foo%2Cbar%2Cbaz")
}

#[test]
fn get_empty_values() {
    const EMPTY: &[&str] = &[];

    assert_eq!(Get::new().fields(EMPTY).to_query(), None);
    assert_eq!(Get::new().expand(EMPTY).to_query(), None);
    assert_eq!(Get::new().properties(EMPTY).to_query(), None);
}

#[test]
fn search_empty() {
    let search = Search::new();

    assert_eq!(search.to_query(), None);
}

#[test]
fn search_single() {
    let search = Search::new().with(|this| this.expand(&["value"]));
    let query = search.to_query().expect("a non-empty query");

    assert_eq!(query, "expand=value")
}

#[test]
fn search_multiple() {
    let search =
        Search::new().with(|this| this.max_results(Some(100u32)).fields_by_key(Some(true)));
    let query = search.to_query().expect("a non-empty query");

    assert_eq!(query, "maxResults=100&fieldsByKeys=true")
}

#[test]
fn search_complex() {
    let search = Search::new().with(|this| {
        this.start_at(Some(80))
            .validate(Some(ValidateQuery::Strict))
            .properties(&["foo", "bar"])
    });
    let query = search.to_query().expect("a non-empty query");

    assert_eq!(query, "startAt=80&validateQuery=strict&properties=foo%2Cbar")
}

#[test]
fn search_empty_values() {
    const EMPTY: &[&str] = &[];

    assert_eq!(Search::new().expand(EMPTY).to_query(), None);
    assert_eq!(Search::new().fields(EMPTY).to_query(), None);
    assert_eq!(Search::new().properties(EMPTY).to_query(), None);
}

#[test]
fn metadata_empty() {
    let get = MetaCreate::new();

    assert_eq!(get.to_query(), None);
}

#[test]
fn metadata_single() {
    let get = MetaCreate::new().with(|this| this.expand(&["value"]));
    let query = get.to_query().expect("a non-empty query");

    assert_eq!(query, "expand=value")
}

#[test]
fn metadata_multiple() {
    let get = MetaCreate::new().with(|this| this.issuetype_ids(&[42u64]).project_keys(&["foo"]));
    let query = get.to_query().expect("a non-empty query");

    assert_eq!(query, "projectKeys=foo&issuetypeIds=42")
}

#[test]
fn metadata_complex() {
    let get = MetaCreate::new().with(|this| {
        this.project_keys(&["key1", "key2"]).issuetype_ids(&[0, 10, 30]).expand(&["value"])
    });
    let query = get.to_query().expect("a non-empty query");

    assert_eq!(query, "projectKeys=key1%2Ckey2&issuetypeIds=0%2C10%2C30&expand=value")
}

#[test]
fn metadata_empty_values() {
    const EMPTY_S: &[&str] = &[];
    const EMPTY_N: &[u64] = &[];

    assert_eq!(MetaCreate::new().project_ids(EMPTY_N).to_query(), None);
    assert_eq!(MetaCreate::new().project_keys(EMPTY_S).to_query(), None);
    assert_eq!(MetaCreate::new().issuetype_ids(EMPTY_N).to_query(), None);
    assert_eq!(MetaCreate::new().issuetype_keys(EMPTY_S).to_query(), None);
    assert_eq!(MetaCreate::new().expand(EMPTY_S).to_query(), None);
}

#[test]
fn fields_are_sent_without_properties() {
    let mut get = Get::new();
    get.fields(&["a", "b"]).properties(&[]);
    let query = get.to_query().expect("a non-empty query");

    assert!(query.contains("fields=a%2Cb"));
    assert!(!query.contains("properties"));
    assert_eq!(query, "fields=a%2Cb");
}

#[test]
fn a_list_of_one_empty_text_is_not_sent() {
    let mut get = Get::new();
    get.fields(&[""]);

    assert_eq!(get.to_query(), None);
    assert!(get.to_params().is_empty());
}

#[test]
fn values_are_percent_encoded() {
    let mut search = Search::new();
    search.jql(Some("project = X AND text ~ \"a&b\""));
    let query = search.to_query().unwrap();

    assert_eq!(query, "jql=project+%3D+X+AND+text+%7E+%22a%26b%22");
    search.jql(None);
    assert_eq!(search.to_query(), None);
}

#[test]
fn a_limit_of_zero_is_not_sent() {
    let mut search = Search::new();
    search.max_results(Some(0)).start_at(Some(0));

    assert_eq!(search.to_query(), Some("startAt=0".to_string()));
}

#[test]
fn lists_grow_with_every_call() {
    let mut get = Get::new();
    get.fields(&["a"]).fields(&["b", "c"]).fields(&[]);

    assert_eq!(get.to_query(), Some("fields=a%2Cb%2Cc".to_string()));
    let replaced = get.with_fields(Some(&["z"]));
    assert_eq!(replaced.to_query(), Some("fields=z".to_string()));
    let cleared = replaced.with_fields(None);
    assert_eq!(cleared.to_query(), None);
}

#[test]
fn flags_are_sent_only_when_set() {
    let mut get = Get::new();
    get.fields_by_key(Some(false)).update_history(None);
    assert_eq!(get.to_query(), None);
    get.fields_by_key(Some(true));
    assert_eq!(get.to_query(), Some("fieldsByKeys=true".to_string()));
    get.fields_by_key(None);
    assert_eq!(get.to_query(), None);
}

#[test]
fn iterators_hand_out_the_parameters_in_order() {
    let mut get = Get::new();
    get.update_history(Some(true)).properties(&["p"]).fields(&["f"]);
    let mut iter = GetIter::new(&get);
    let mut seen = Vec::new();
    while let Some(param) = iter.next() {
        seen.push((param.key, param.value));
    }
    assert_eq!(
        seen,
        vec![
            ("fields", "f".to_string()),
            ("properties", "p".to_string()),
            ("updateHistory", "true".to_string()),
        ]
    );
    assert!(iter.next().is_none());

    let mut search = Search::new();
    search.validate(Some(ValidateQuery::Warn)).jql(Some("a"));
    let mut iter = SearchIter::new(&search);
    assert_eq!(iter.next().map(|p| (p.key, p.value)), Some(("jql", "a".to_string())));
    assert_eq!(iter.next().map(|p| (p.key, p.value)), Some(("validateQuery", "warn".to_string())));
    assert!(iter.next().is_none());

    let mut meta = MetaCreate::new();
    meta.project_ids(&[7, 8]);
    let mut iter = MetaCreateIter::new(&meta);
    assert_eq!(iter.next().map(|p| (p.key, p.value)), Some(("projectIds", "7,8".to_string())));
    assert!(iter.next().is_none());
}

#[test]
fn elements_are_written_as_text() {
    assert_eq!(Element::from_str("a b").to_text(), "a b");
    assert_eq!(Element::from_u64(u64::MAX).to_text(), "18446744073709551615");
    assert_eq!(Element::from_i64(i64::MIN).to_text(), "-9223372036854775808");
    assert_eq!(Element::from_i64(-1).to_text(), "-1");
    assert_eq!(Element::from_bool(true).to_text(), "true");
    assert_eq!(Number::default().to_text(), "0");
}

#[test]
fn appending_puts_commas_between_elements() {
    let mut list = CommaDelimited::new();
    assert!(list.is_empty());
    assert!(none_or_empty(&None));
    list.append(&Element::from_str("a"));
    assert_eq!(list.as_str(), "a");
    list.append(&Element::from_u64(2));
    assert_eq!(list.as_str(), "a,2");
    list.append_elements(&[Element::from_bool(true), Element::from_str("")]);
    assert_eq!(list.as_str(), "a,2,true,");
    let list = list.with(|this| this.append(&Element::from_str("z")));
    assert_eq!(list.as_str(), "a,2,true,,z");
    assert!(!none_or_empty(&Some(list)));
    assert!(none_or_empty(&Some(CommaDelimited::new())));
}

#[test]
fn validation_levels_go_by_name() {
    assert_eq!(ValidateQuery::try_new("strict"), Some(ValidateQuery::Strict));
    assert_eq!(ValidateQuery::try_new("warn"), Some(ValidateQuery::Warn));
    assert_eq!(ValidateQuery::try_new("none"), Some(ValidateQuery::Off));
    assert_eq!(ValidateQuery::try_new("Strict"), None);
    assert_eq!(ValidateQuery::try_new(""), None);
    assert_eq!(ValidateQuery::default(), ValidateQuery::Strict);
    assert_eq!(ValidateQuery::Off.as_str(), "none");
}

#[test]
fn an_empty_value_is_still_followed_by_its_comma() {
    let mut list = CommaDelimited::new();
    list.append(&Element::from_str(""));
    assert_eq!(list.as_str(), "");
    assert!(list.is_empty());
    list.append(&Element::from_str("a"));
    assert_eq!(list.as_str(), ",a");
    list.append(&Element::from_str(""));
    assert_eq!(list.as_str(), ",a,");

    let empties = [Element::from_str(""), Element::from_str(""), Element::from_str("")];
    assert_eq!(CommaDelimited::from_elements(&empties).as_str(), ",,");
    assert_eq!(CommaDelimited::from_elements(&[]).as_str(), "");
    assert_eq!(CommaDelimited::from_element(Element::from_str("")).as_str(), "");
    assert_ne!(CommaDelimited::from_element(Element::from_str("")), CommaDelimited::new());
}

#[test]
fn values_are_joined_by_single_commas_in_an_optional_list() {
    let mut get = Get::new();
    get.fields(&["", "a"]);
    assert_eq!(get.to_query(), Some("fields=%2Ca".to_string()));

    let mut get = Get::new();
    get.fields(&[]).fields(&[""]).fields(&[]).fields(&["a", "b"]);
    assert_eq!(get.to_query(), Some("fields=%2Ca%2Cb".to_string()));

    let mut meta = MetaCreate::new();
    meta.project_keys(&[""]).project_keys(&[""]);
    assert_eq!(meta.to_query(), Some("projectKeys=%2C".to_string()));
}
