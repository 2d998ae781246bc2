use dapnet_api::client::{
    fetch_outcome, present_items, submit_outcome, Endpoint, FetchAction, Method, Reply,
};
use dapnet_api::transmitters::{AntennaType, Usage};
use dapnet_api::{nodes, transmitters, Client, ClientConfig, Error, Timestamp};

#[test]
fn not_found_is_absent_not_an_error() {
    assert_eq!(fetch_outcome(404).unwrap(), FetchAction::Absent);
}

#[test]
fn success_statuses_decode() {
    assert_eq!(fetch_outcome(200).unwrap(), FetchAction::Decode);
    assert_eq!(fetch_outcome(204).unwrap(), FetchAction::Decode);
    assert!(submit_outcome(201).is_ok());
}

#[test]
fn other_statuses_carry_their_code() {
    for status in [100u16, 301, 400, 401, 403, 500, 503] {
        assert!(matches!(fetch_outcome(status), Err(Error::ApiError(s)) if s == status));
        assert!(matches!(submit_outcome(status), Err(Error::ApiError(s)) if s == status));
    }
    assert!(matches!(submit_outcome(404), Err(Error::ApiError(404))));
}

#[test]
fn null_news_entries_are_dropped() {
    let items = vec![Some(1), None, Some(2), None, None, Some(3)];
    assert_eq!(present_items(items), vec![1, 2, 3]);
    assert_eq!(present_items::<u8>(vec![None, None]), Vec::<u8>::new());
    assert_eq!(present_items::<u8>(vec![]), Vec::<u8>::new());
}

#[test]
fn endpoint_paths() {
    assert_eq!(Endpoint::Statistics.path(), "stats");
    assert_eq!(Endpoint::NewCall.path(), "calls");
    assert_eq!(Endpoint::AllTransmitterGroups.path(), "transmitterGroups");
    assert_eq!(Endpoint::Node("db0abc".to_string()).path(), "nodes/db0abc");
    assert_eq!(
        Endpoint::CallsBy("m0nxn".to_string()).path(),
        "calls?ownerName=m0nxn"
    );
    assert_eq!(
        Endpoint::News("a b&c/d".to_string()).path(),
        "news?rubricName=a%20b%26c%2Fd"
    );
    assert_eq!(Endpoint::Rubric("x?y#z".to_string()).path(), "rubrics/x%3Fy%23z");
}

#[test]
fn endpoint_methods_and_replies() {
    assert_eq!(Endpoint::NewNews.method(), Method::Post);
    assert_eq!(Endpoint::NewNews.reply(), Reply::Unit);
    assert_eq!(Endpoint::AllNodes.method(), Method::Get);
    assert_eq!(Endpoint::AllNodes.reply(), Reply::Many);
    assert_eq!(Endpoint::Callsign("c".to_string()).reply(), Reply::One);
    assert_eq!(Endpoint::News("r".to_string()).reply(), Reply::Many);
}

#[test]
fn request_resolves_against_default_base() {
    let client = Client::new("m0nxn", "secret");
    assert_eq!(client.config().api_url, "https://hampager.de/api/");
    let req = client.request(&Endpoint::Transmitter("db0 xyz".to_string())).unwrap();
    assert_eq!(req.url.as_str(), "https://hampager.de/api/transmitters/db0%20xyz");
    assert_eq!(req.url_text, "https://hampager.de/api/transmitters/db0%20xyz");
    assert_eq!(req.method, Method::Get);
    assert_eq!(req.username, "m0nxn");
    assert_eq!(req.password, "secret");
    let req = client.request(&Endpoint::CallsBy("m0nxn".to_string())).unwrap();
    assert_eq!(req.url.as_str(), "https://hampager.de/api/calls?ownerName=m0nxn");
    assert_eq!(req.url_text, "https://hampager.de/api/calls?ownerName=m0nxn");
    let req = client.request(&Endpoint::NewNews).unwrap();
    assert_eq!(req.method, Method::Post);
    assert_eq!(req.url_text, "https://hampager.de/api/news");
}

#[test]
fn request_with_bad_base_is_a_url_error() {
    let client = Client::with_config(
        "u",
        "p",
        ClientConfig { api_url: "not a url".to_string() },
    );
    assert!(matches!(client.request(&Endpoint::Statistics), Err(Error::UrlError(_))));
    let relative_base = Client::with_config(
        "u",
        "p",
        ClientConfig { api_url: "api/".to_string() },
    );
    assert!(matches!(relative_base.request(&Endpoint::AllNodes), Err(Error::UrlError(_))));
}

#[test]
fn tokens_round_trip() {
    assert_eq!(nodes::Status::from_token("SUSPENDED"), Some(nodes::Status::Suspended));
    assert_eq!(nodes::Status::from_token("online"), None);
    assert_eq!(transmitters::Status::from_token("OFFLINE"), Some(transmitters::Status::Offline));
    assert_eq!(AntennaType::from_token("OMNI"), Some(AntennaType::Omnidirectional));
    assert_eq!(AntennaType::Directional.token(), "DIRECTIONAL");
    assert_eq!(Usage::from_token("WIDERANGE"), Some(Usage::Widerange));
    assert_eq!(Usage::from_token(""), None);
}

#[test]
fn timestamp_rejects_overlong_nanoseconds() {
    assert!(Timestamp::new(0, 999_999_999).is_some());
    assert!(Timestamp::new(0, 1_999_999_999).is_some());
    assert!(Timestamp::new(0, 2_000_000_000).is_none());
}
