use appconfiguration::client::http::{
    add_query_pair, get_access_token, get_base_url, get_configuration,
    get_configuration_monitoring_websocket, get_ws_url,
};
use appconfiguration::Error;

fn pairs(list: &[(&str, &str)]) -> Vec<(String, String)> {
    list.iter().map(|(a, b)| (a.to_string(), b.to_string())).collect()
}

#[test]
fn the_catalog_is_fetched_from_the_instance_of_the_region() {
    assert_eq!(
        get_base_url("us-south", "1234-abcd"),
        "https://us-south.apprapp.cloud.ibm.com/apprapp/feature/v1/instances/1234-abcd/config"
    );
    assert_eq!(
        get_base_url("", ""),
        "https://.apprapp.cloud.ibm.com/apprapp/feature/v1/instances//config"
    );
}

#[test]
fn the_push_channel_is_that_of_the_region() {
    assert_eq!(get_ws_url("eu-de"), "wss://eu-de.apprapp.cloud.ibm.com/apprapp/wsfeature");
}

#[test]
fn the_token_request_posts_the_api_key() {
    let request = get_access_token("secret");
    assert_eq!(request.url, "https://iam.cloud.ibm.com/identity/token");
    assert!(request.query.is_empty());
    assert_eq!(request.headers, pairs(&[("Accept", "application/json")]));
    assert_eq!(
        request.form,
        pairs(&[
            ("reponse_type", "cloud_iam"),
            ("grant_type", "urn:ibm:params:oauth:grant-type:apikey"),
            ("apikey", "secret"),
        ])
    );
}

#[test]
fn the_catalog_request_names_collection_and_environment() {
    let request = get_configuration("token", "us-south", "guid", "collection", "environment");
    assert_eq!(request.url, get_base_url("us-south", "guid"));
    assert_eq!(
        request.query,
        pairs(&[
            ("action", "sdkConfig"),
            ("collection_id", "collection"),
            ("environment_id", "environment"),
        ])
    );
    assert_eq!(
        request.headers,
        pairs(&[
            ("Accept", "application/json"),
            ("User-Agent", "appconfiguration-rust-sdk/0.0.1"),
            ("Authorization", "Bearer token"),
        ])
    );
    assert!(request.form.is_empty());
}

#[test]
fn the_push_channel_request_carries_the_ids_in_its_query() {
    let request =
        get_configuration_monitoring_websocket("token", "us-south", "guid", "coll", "env").unwrap();
    assert_eq!(
        request.url,
        "wss://us-south.apprapp.cloud.ibm.com/apprapp/wsfeature?instance_id=guid&collection_id=coll&environment_id=env"
    );
    assert_eq!(
        request.headers,
        pairs(&[
            ("User-Agent", "appconfiguration-rust-sdk/0.0.1"),
            ("Authorization", "Bearer token"),
        ])
    );
    assert!(request.query.is_empty());
    assert!(request.form.is_empty());
}

#[test]
fn the_push_channel_address_is_what_the_url_crate_writes() {
    let cases = [
        ("us-south", "guid", "coll", "env"),
        ("eu-gb", "a b", "c&d=e", "é/ü?"),
        ("au-syd", "", "+", "%20"),
        ("US-South", "12345678-1234-1234-1234-12345678abcd", "ecommerce", "production"),
    ];
    for (region, guid, collection, environment) in cases {
        let mut expected = url::Url::parse(&get_ws_url(region)).unwrap();
        expected
            .query_pairs_mut()
            .append_pair("instance_id", guid)
            .append_pair("collection_id", collection)
            .append_pair("environment_id", environment);
        let request =
            get_configuration_monitoring_websocket("t", region, guid, collection, environment)
                .unwrap();
        assert_eq!(request.url, expected.as_str());
    }
}

#[test]
fn a_region_that_makes_no_address_is_an_error() {
    for region in ["a b", "a/b:c d", "[", "a\\b c"] {
        let direct = url::Url::parse(&get_ws_url(region));
        let request = get_configuration_monitoring_websocket("t", region, "g", "c", "e");
        assert_eq!(request.is_ok(), direct.is_ok(), "{region:?}");
        if direct.is_err() {
            assert!(matches!(request, Err(Error::InvalidUrl)));
        }
    }
    assert!(matches!(
        get_configuration_monitoring_websocket("t", " ", "g", "c", "e"),
        Err(Error::InvalidUrl)
    ));
}

#[test]
fn a_pair_is_appended_form_encoded() {
    assert_eq!(
        add_query_pair("https://example.com", "name", "a value").unwrap(),
        "https://example.com/?name=a+value"
    );
    assert_eq!(
        add_query_pair("https://example.com/path?x=1", "y", "2&3").unwrap(),
        "https://example.com/path?x=1&y=2%263"
    );
    assert_eq!(add_query_pair("not an address", "a", "b"), None);
    let long = "x".repeat(0x0100_0001);
    assert_eq!(add_query_pair("https://example.com", "a", &long), None);
}
