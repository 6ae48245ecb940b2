use house_display::query::build_api_query;
use house_display::query::build_web_query;
use house_display::RouteConfig;
use house_display::TimeSnapshot;

fn pairs_of(url_str: &str) -> Vec<(String, String)> {
    let url = url::Url::parse(url_str).expect("the builder yields a parseable URL");
    url.query_pairs().map(|(k, v)| (k.into_owned(), v.into_owned())).collect()
}

#[test]
fn web_query_parameter_set() {
    let route = RouteConfig::standard();
    let t = TimeSnapshot::from_parts(2019, 5, 3, 7, 5);
    let url_str = build_web_query(&route, &t);
    let url = url::Url::parse(&url_str).unwrap();
    assert_eq!("https", url.scheme());
    assert_eq!(Some("roote.ekispert.net"), url.host_str());
    assert_eq!("/ja/result", url.path());
    let expected: Vec<(String, String)> = [
        ("dep", "豊島園(都営線)"),
        ("dep_code", "22836"),
        ("arr", "中野坂上"),
        ("arr_code", "22850"),
        ("yyyymm", "201905"),
        ("day", "3"),
        ("hour", "7"),
        ("minute10", "0"),
        ("minute1", "5"),
        ("locale", "ja"),
        ("connect", "true"),
        ("highway", "true"),
        ("liner", "true"),
        ("local", "true"),
        ("plane", "true"),
        ("shinkansen", "true"),
        ("ship", "true"),
        ("sort", "time"),
        ("submit_btn", "検索"),
        ("surcharge", "3"),
        ("ticket_type", "0"),
        ("transfer", "2"),
        ("type", "dep"),
        ("utf8", "✓"),
    ]
    .iter()
    .map(|(k, v)| (k.to_string(), v.to_string()))
    .collect();
    assert_eq!(expected, pairs_of(&url_str));
}

#[test]
fn web_query_is_deterministic() {
    let route = RouteConfig::standard();
    let t = TimeSnapshot::from_parts(2021, 11, 9, 16, 28);
    let first = build_web_query(&route, &t);
    let second = build_web_query(&route, &t);
    assert_eq!(first, second);
    let mut first_pairs = pairs_of(&first);
    let mut second_pairs = pairs_of(&second);
    first_pairs.sort();
    second_pairs.sort();
    assert_eq!(first_pairs, second_pairs);
}

#[test]
fn web_query_encodes_station_names() {
    let route = RouteConfig::standard();
    let t = TimeSnapshot::from_parts(2019, 5, 3, 7, 5);
    let url_str = build_web_query(&route, &t);
    let query = url::Url::parse(&url_str).unwrap().query().unwrap().to_string();
    assert!(query.is_ascii());
    assert!(!query.contains('('));
    assert!(!query.contains('✓'));
}

#[test]
fn api_query_parameter_set() {
    let route = RouteConfig::standard();
    let t = TimeSnapshot::from_parts(2019, 5, 13, 16, 28);
    let url_str = build_api_query(&route, &t, "abc123");
    let url = url::Url::parse(&url_str).unwrap();
    assert_eq!("http", url.scheme());
    assert_eq!(Some("api.ekispert.jp"), url.host_str());
    assert_eq!("/v1/json/search/course/light", url.path());
    let expected: Vec<(String, String)> = [
        ("key", "abc123"),
        ("from", "22836"),
        ("to", "22850"),
        ("date", "20190513"),
        ("time", "1628"),
    ]
    .iter()
    .map(|(k, v)| (k.to_string(), v.to_string()))
    .collect();
    assert_eq!(expected, pairs_of(&url_str));
}

#[test]
fn api_query_concatenates_unpadded_day_and_hour() {
    let route = RouteConfig::standard();
    let t = TimeSnapshot::from_parts(2019, 5, 3, 7, 5);
    let url_str = build_api_query(&route, &t, "k");
    let pairs = pairs_of(&url_str);
    let date = &pairs.iter().find(|(k, _)| k == "date").unwrap().1;
    let time = &pairs.iter().find(|(k, _)| k == "time").unwrap().1;
    assert_eq!("2019053", date);
    assert_eq!("705", time);
}
