use churl::model::Param;
use churl::query::{merge_query_params, percent_decode, split_query};

fn params(pairs: &[(&str, &str, bool)]) -> Vec<Param> {
    pairs
        .iter()
        .map(|(n, v, e)| Param {
            name: (*n).to_owned(),
            value: (*v).to_owned(),
            enabled: *e,
        })
        .collect()
}

#[test]
fn merge_rule_a_exact_match_ensures_enabled() {
    let mut p = params(&[("a", "1", false)]);
    let report = merge_query_params(&mut p, &vec![("a".into(), "1".into())]);
    assert_eq!(p.len(), 1);
    assert!(p[0].enabled);
    assert_eq!(report.as_deref(), Some("a updated"));
    let mut p = params(&[("a", "1", true)]);
    assert!(merge_query_params(&mut p, &vec![("a".into(), "1".into())]).is_none());
    assert_eq!(p.len(), 1);
}

#[test]
fn split_query_strips_and_decodes() {
    let (base, pairs) = split_query("https://x/y?a=1&b=hello%20world&c");
    assert_eq!(base, "https://x/y");
    assert_eq!(
        pairs,
        vec![
            ("a".to_owned(), "1".to_owned()),
            ("b".to_owned(), "hello world".to_owned()),
            ("c".to_owned(), String::new()),
        ]
    );
    let (base, pairs) = split_query("https://x/y");
    assert_eq!(base, "https://x/y");
    assert!(pairs.is_empty());
}

#[test]
fn merge_rule_b_updates_first_row_of_name() {
    let mut p = params(&[("a", "old", false)]);
    let report = merge_query_params(&mut p, &vec![("a".into(), "new".into())]);
    assert_eq!(p.len(), 1);
    assert_eq!(p[0].value, "new");
    assert!(p[0].enabled);
    assert_eq!(report.as_deref(), Some("a updated"));
}

#[test]
fn merge_rule_c_appends_absent() {
    let mut p = params(&[("a", "1", true)]);
    let report = merge_query_params(&mut p, &vec![("b".into(), "2".into())]);
    assert_eq!(p.len(), 2);
    assert_eq!(p[1].name, "b");
    assert!(p[1].enabled);
    assert_eq!(report.as_deref(), Some("b added"));
}

#[test]
fn merge_rule_d_duplicate_names_positional() {
    let mut p = params(&[("tag", "a", true), ("tag", "b", true)]);
    merge_query_params(
        &mut p,
        &vec![("tag".into(), "x".into()), ("tag".into(), "y".into())],
    );
    assert_eq!(p.len(), 2, "no new rows — positional map");
    assert_eq!(p[0].value, "x");
    assert_eq!(p[1].value, "y");
    let mut p = params(&[("tag", "a", true)]);
    merge_query_params(
        &mut p,
        &vec![("tag".into(), "x".into()), ("tag".into(), "y".into())],
    );
    assert_eq!(p.len(), 2);
    assert_eq!(p[0].value, "x");
    assert_eq!(p[1].value, "y");
}

#[test]
fn split_query_trims_whitespace() {
    let (_, pairs) = split_query("https://x/y? a = 1 & b = hello world ");
    assert_eq!(
        pairs,
        vec![
            ("a".to_owned(), "1".to_owned()),
            ("b".to_owned(), "hello world".to_owned()),
        ]
    );
    let (_, pairs) = split_query("https://x/y? flag ");
    assert_eq!(pairs, vec![("flag".to_owned(), String::new())]);
}

#[test]
fn bytes_that_are_no_text_become_replacement_characters() {
    let (_, pairs) = split_query("https://x/y?a=%FF&b=%E2%9C%93&c=1%2");
    assert_eq!(pairs[0].1, "\u{FFFD}");
    assert_eq!(pairs[1].1, "✓");
    assert_eq!(pairs[2].1, "1%2");
}

fn merged(rows: &[(&str, &str, bool)], pairs: &[(&str, &str)]) -> Vec<(String, String, bool)> {
    let mut p = params(rows);
    let pairs: Vec<(String, String)> =
        pairs.iter().map(|(n, v)| ((*n).to_owned(), (*v).to_owned())).collect();
    merge_query_params(&mut p, &pairs);
    let once: Vec<(String, String, bool)> =
        p.iter().map(|r| (r.name.clone(), r.value.clone(), r.enabled)).collect();
    assert!(merge_query_params(&mut p, &pairs).is_none(), "a second time nothing changes");
    once
}

fn row(name: &str, value: &str) -> (String, String, bool) {
    (name.to_owned(), value.to_owned(), true)
}

#[test]
fn every_value_of_a_repeated_name_stays() {
    let two = [("tag", "a", true), ("tag", "b", true)];
    assert_eq!(merged(&two, &[("tag", "b"), ("tag", "c")]), vec![row("tag", "c"), row("tag", "b")]);
    assert_eq!(merged(&two, &[("tag", "x"), ("tag", "a")]), vec![row("tag", "x"), row("tag", "a")]);
    assert_eq!(
        merged(&two, &[("tag", "b"), ("tag", "a"), ("tag", "c")]),
        vec![row("tag", "a"), row("tag", "b"), row("tag", "c")]
    );
    let twice = [("tag", "a", true), ("tag", "a", false)];
    assert_eq!(
        merged(&twice, &[("tag", "a"), ("tag", "a"), ("tag", "c")]),
        vec![row("tag", "a"), row("tag", "a"), row("tag", "c")]
    );
    let one = [("tag", "a", true)];
    assert_eq!(merged(&one, &[("tag", "a"), ("tag", "a")]), vec![row("tag", "a")]);
}

#[test]
fn part_without_an_escape_decodes_on_its_own() {
    assert_eq!(percent_decode("a+b"), "a b");
    assert_eq!(percent_decode("plain"), "plain");
    assert_eq!(percent_decode("ü+%41"), "ü A");
    assert_eq!(percent_decode("a+%FF"), "a \u{FFFD}");
    assert_eq!(percent_decode("%zz+"), "%zz ");
}
