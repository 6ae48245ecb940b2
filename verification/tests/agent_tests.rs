use house_display::agent::index;
use house_display::AgentError;
use house_display::ApiAgent;
use house_display::TrainTime;

fn tt(from: &str, to: &str) -> TrainTime {
    TrainTime { from: from.to_string(), to: to.to_string() }
}

#[test]
fn new_agent_is_empty() {
    let agent = ApiAgent::new();
    assert_eq!("豊島園(都営線)", agent.route.dep);
    assert_eq!("22836", agent.route.dep_code);
    assert_eq!("中野坂上", agent.route.arr);
    assert_eq!("22850", agent.route.arr_code);
    assert!(agent.train_times.is_empty());
    assert_eq!(None, agent.access_key);
}

#[test]
fn search_records_response_text() {
    let mut agent = ApiAgent::new();
    agent.search_train_time(
        r#"<p class="candidate_list_txt">16:28 ⇒ <span>16:45（17分）</span></p>
           <p class="candidate_list_txt">16:34 ⇒ <span>16:51（17分）</span></p>"#,
    );
    assert_eq!(vec![tt("16:28", "16:45"), tt("16:34", "16:51")], agent.train_times);
    agent.search_train_time("<p>nothing here</p>");
    assert!(agent.train_times.is_empty());
}

#[test]
fn search_url_uses_the_fixed_route() {
    let agent = ApiAgent::new();
    let url_str = agent.search_url().expect("the fixed base path parses");
    let url = url::Url::parse(&url_str).unwrap();
    assert_eq!(Some("roote.ekispert.net"), url.host_str());
    let pairs: Vec<(String, String)> =
        url.query_pairs().map(|(k, v)| (k.into_owned(), v.into_owned())).collect();
    assert!(pairs.contains(&("dep_code".to_string(), "22836".to_string())));
    assert!(pairs.contains(&("arr_code".to_string(), "22850".to_string())));
}

#[test]
fn index_joins_records_with_newlines() {
    let times = vec![tt("16:28", "16:45"), tt("16:34", "16:51")];
    assert_eq!("16:28 -> 16:45\n16:34 -> 16:51", index(&times));
}

#[test]
fn index_of_no_records_is_empty() {
    assert_eq!("", index(&Vec::new()));
}

#[test]
fn index_keeps_empty_arrival_visible() {
    assert_eq!("16:28 -> ", index(&vec![tt("16:28", "")]));
}

#[test]
fn error_descriptions_name_each_condition() {
    assert_eq!("fetch failed", AgentError::FetchFailure.describe());
    assert_eq!("malformed url", AgentError::MalformedUrl.describe());
    assert_eq!("credential missing", AgentError::CredentialMissing.describe());
    assert_eq!("malformed response", AgentError::MalformedResponse.describe());
}
