use bz2gh::query::{parse_query_param, parse_query_params};
use bz2gh::settings::{authorization_header, ConfigError, Settings};

fn pair(key: &str, value: &str) -> (String, String) {
    (key.to_string(), value.to_string())
}

#[test]
fn param_with_one_equals_sign_is_split() {
    assert_eq!(parse_query_param("keywords=topcrash"), Some(pair("keywords", "topcrash")));
    assert_eq!(parse_query_param("component=DOM: Core"), Some(pair("component", "DOM: Core")));
}

#[test]
fn param_may_have_an_empty_side() {
    assert_eq!(parse_query_param("=b"), Some(pair("", "b")));
    assert_eq!(parse_query_param("a="), Some(pair("a", "")));
    assert_eq!(parse_query_param("="), Some(pair("", "")));
}

#[test]
fn param_without_equals_sign_is_dropped() {
    assert_eq!(parse_query_param("keywords"), None);
    assert_eq!(parse_query_param(""), None);
}

#[test]
fn param_with_several_equals_signs_is_dropped() {
    assert_eq!(parse_query_param("a=b=c"), None);
    assert_eq!(parse_query_param("a=="), None);
    assert_eq!(parse_query_param("==b"), None);
    assert_eq!(parse_query_param("=a="), None);
}

#[test]
fn param_keeps_characters_beyond_ascii() {
    assert_eq!(parse_query_param("résumé=ß"), Some(pair("résumé", "ß")));
}

#[test]
fn params_keep_their_order_and_lose_the_malformed() {
    let values = vec![
        "keywords=topcrash".to_string(),
        "nonsense".to_string(),
        "component=DOM".to_string(),
        "a=b=c".to_string(),
        "x=".to_string(),
    ];
    assert_eq!(
        parse_query_params(&values),
        vec![pair("keywords", "topcrash"), pair("component", "DOM"), pair("x", "")]
    );
}

#[test]
fn params_of_nothing_are_none() {
    assert_eq!(parse_query_params(&Vec::new()), Vec::new());
    assert_eq!(parse_query_params(&vec!["none".to_string()]), Vec::new());
}

#[test]
fn authorization_is_the_scheme_and_the_key() {
    assert_eq!(authorization_header("abc123"), "token abc123");
    assert_eq!(authorization_header(""), "token ");
}

#[test]
fn settings_from_all_arguments() {
    let query = vec!["keywords=topcrash".to_string(), "broken".to_string()];
    let labels = vec!["android".to_string(), "crash".to_string()];
    let settings =
        Settings::from_args(Some("k"), Some("orgs/Example"), true, Some(&query), Some(&labels))
            .unwrap();
    assert_eq!(settings.repopath, "orgs/Example");
    assert!(settings.preview);
    assert_eq!(settings.queryparams, vec![pair("keywords", "topcrash")]);
    assert_eq!(settings.labels, labels);
    assert_eq!(settings.authorization, "token k");
}

#[test]
fn settings_without_labels_have_none() {
    let query = vec!["a=b".to_string()];
    let settings = Settings::from_args(Some("k"), Some("r"), false, Some(&query), None).unwrap();
    assert!(!settings.preview);
    assert!(settings.labels.is_empty());
}

#[test]
fn settings_need_the_api_key() {
    let query = vec!["a=b".to_string()];
    assert_eq!(
        Settings::from_args(None, Some("r"), false, Some(&query), None),
        Err(ConfigError::MissingApiKey)
    );
    assert_eq!(Settings::from_args(None, None, false, None, None), Err(ConfigError::MissingApiKey));
}

#[test]
fn settings_need_the_repository_path() {
    let query = vec!["a=b".to_string()];
    assert_eq!(
        Settings::from_args(Some("k"), None, false, Some(&query), None),
        Err(ConfigError::MissingRepoPath)
    );
    assert_eq!(
        Settings::from_args(Some("k"), None, false, None, None),
        Err(ConfigError::MissingRepoPath)
    );
}

#[test]
fn settings_need_the_query() {
    assert_eq!(
        Settings::from_args(Some("k"), Some("r"), false, None, None),
        Err(ConfigError::MissingQueryParam)
    );
}
