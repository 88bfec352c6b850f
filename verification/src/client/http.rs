//! The requests that a client sends: where to, and with what.
//!
//! Sending them is the caller's part.
use vstd::prelude::*;
use vstd::string::StringExecFns;
use vstd::utf8::encode_utf8;
use crate::errors::Error;

verus! {

#[verifier::external_type_specification]
#[verifier::external_body]
pub struct ExUrlParseError(url::ParseError);

/// The most bytes of an address, a name or a value that is handed to the
/// `url` crate.
pub const TEXT_LIMIT: usize = 0x0100_0000;

/// What the `url` crate makes of `address` with one more pair in its query:
/// the address as the crate writes it, the pair form-encoded behind `?` or
/// `&`; `None` where the crate does not take `address` for an address.
pub uninterp spec fn url_with_query_pair(
    address: Seq<char>,
    name: Seq<char>,
    value: Seq<char>,
) -> Option<Seq<char>>;

/// Parses `address` with `url::Url::parse`, appends the pair with
/// `Url::query_pairs_mut` and `append_pair`, and hands back the address as
/// `Url` writes it. The result is a function of the three texts; an address
/// that `Url::parse` refuses comes back as its error. The texts are kept
/// short of the 4 GiB at which `Url` gives up.
#[verifier::external_body]
fn append_query_pair(address: &str, name: &str, value: &str) -> (r: Result<
    String,
    url::ParseError,
>)
    requires
        fits(address@),
        fits(name@),
        fits(value@),
    ensures
        match r {
            Ok(s) => url_with_query_pair(address@, name@, value@) == Some(s@),
            Err(_) => url_with_query_pair(address@, name@, value@) is None,
        },
{
    let mut parsed = url::Url::parse(address)?;
    parsed.query_pairs_mut().append_pair(name, value);
    Ok(String::from(parsed))
}

/// The text is short enough to go into an address.
pub open spec fn fits(text: Seq<char>) -> bool {
    encode_utf8(text).len() <= TEXT_LIMIT
}

/// An address with one more pair in its query, where there is an address
/// and everything fits.
pub open spec fn with_query_pair(
    address: Option<Seq<char>>,
    name: Seq<char>,
    value: Seq<char>,
) -> Option<Seq<char>> {
    match address {
        Some(a) => if fits(a) && fits(name) && fits(value) {
            url_with_query_pair(a, name, value)
        } else {
            None
        },
        None => None,
    }
}

/// Appends a pair to the query of an address.
pub fn add_query_pair(address: &str, name: &str, value: &str) -> (r: Option<String>)
    ensures
        match r {
            Some(s) => with_query_pair(Some(address@), name@, value@) == Some(s@),
            None => with_query_pair(Some(address@), name@, value@) is None,
        },
{
    if address.as_bytes().len() > TEXT_LIMIT || name.as_bytes().len() > TEXT_LIMIT
        || value.as_bytes().len() > TEXT_LIMIT {
        return None;
    }
    match append_query_pair(address, name, value) {
        Ok(s) => Some(s),
        Err(_) => None,
    }
}

/// A request, described: the address, the pairs of its query, its headers
/// and the fields of its form.
#[derive(Debug)]
pub struct Request {
    pub url: String,
    pub query: Vec<(String, String)>,
    pub headers: Vec<(String, String)>,
    pub form: Vec<(String, String)>,
}

pub struct RequestView {
    pub url: Seq<char>,
    pub query: Seq<(Seq<char>, Seq<char>)>,
    pub headers: Seq<(Seq<char>, Seq<char>)>,
    pub form: Seq<(Seq<char>, Seq<char>)>,
}

pub open spec fn pair_views(pairs: Seq<(String, String)>) -> Seq<(Seq<char>, Seq<char>)> {
    pairs.map_values(|p: (String, String)| (p.0@, p.1@))
}

impl View for Request {
    type V = RequestView;

    open spec fn view(&self) -> RequestView {
        RequestView {
            url: self.url@,
            query: pair_views(self.query@),
            headers: pair_views(self.headers@),
            form: pair_views(self.form@),
        }
    }
}

fn pair(name: &str, value: &str) -> (r: (String, String))
    ensures
        r.0@ == name@,
        r.1@ == value@,
{
    (name.to_owned(), value.to_owned())
}

pub open spec fn base_url(region: Seq<char>, guid: Seq<char>) -> Seq<char> {
    "https://"@ + region + ".apprapp.cloud.ibm.com/apprapp/feature/v1/instances/"@ + guid
        + "/config"@
}

/// The address from which the catalog of an instance is fetched.
pub fn get_base_url(region: &str, guid: &str) -> (r: String)
    ensures
        r@ == base_url(region@, guid@),
{
    let mut url = String::from_str("https://");
    url.append(region);
    url.append(".apprapp.cloud.ibm.com/apprapp/feature/v1/instances/");
    url.append(guid);
    url.append("/config");
    url
}

pub open spec fn ws_url(region: Seq<char>) -> Seq<char> {
    "wss://"@ + region + ".apprapp.cloud.ibm.com/apprapp/wsfeature"@
}

/// The address of the push channel of a region.
pub fn get_ws_url(region: &str) -> (r: String)
    ensures
        r@ == ws_url(region@),
{
    let mut url = String::from_str("wss://");
    url.append(region);
    url.append(".apprapp.cloud.ibm.com/apprapp/wsfeature");
    url
}

pub open spec fn bearer(access_token: Seq<char>) -> Seq<char> {
    "Bearer "@ + access_token
}

fn authorization(access_token: &str) -> (r: (String, String))
    ensures
        r.0@ == "Authorization"@,
        r.1@ == bearer(access_token@),
{
    let mut value = String::from_str("Bearer ");
    value.append(access_token);
    ("Authorization".to_owned(), value)
}

pub open spec fn access_token_request(apikey: Seq<char>) -> RequestView {
    RequestView {
        url: "https://iam.cloud.ibm.com/identity/token"@,
        query: seq![],
        headers: seq![("Accept"@, "application/json"@)],
        form: seq![
            ("reponse_type"@, "cloud_iam"@),
            ("grant_type"@, "urn:ibm:params:oauth:grant-type:apikey"@),
            ("apikey"@, apikey),
        ],
    }
}

/// The request that trades an API key for an access token: a form to post.
pub fn get_access_token(apikey: &str) -> (r: Request)
    ensures
        r@ == access_token_request(apikey@),
{
    let mut headers: Vec<(String, String)> = Vec::new();
    headers.push(pair("Accept", "application/json"));
    let mut form: Vec<(String, String)> = Vec::new();
    form.push(pair("reponse_type", "cloud_iam"));
    form.push(pair("grant_type", "urn:ibm:params:oauth:grant-type:apikey"));
    form.push(pair("apikey", apikey));
    let r = Request {
        url: "https://iam.cloud.ibm.com/identity/token".to_owned(),
        query: Vec::new(),
        headers,
        form,
    };
    assert(r@.query =~= access_token_request(apikey@).query);
    assert(r@.headers =~= access_token_request(apikey@).headers);
    assert(r@.form =~= access_token_request(apikey@).form);
    r
}

pub open spec fn configuration_request(
    access_token: Seq<char>,
    region: Seq<char>,
    guid: Seq<char>,
    collection_id: Seq<char>,
    environment_id: Seq<char>,
) -> RequestView {
    RequestView {
        url: base_url(region, guid),
        query: seq![
            ("action"@, "sdkConfig"@),
            ("collection_id"@, collection_id),
            ("environment_id"@, environment_id),
        ],
        headers: seq![
            ("Accept"@, "application/json"@),
            ("User-Agent"@, "appconfiguration-rust-sdk/0.0.1"@),
            ("Authorization"@, bearer(access_token)),
        ],
        form: seq![],
    }
}

/// The request that fetches the catalog document of a collection and an
/// environment.
pub fn get_configuration(
    access_token: &str,
    region: &str,
    guid: &str,
    collection_id: &str,
    environment_id: &str,
) -> (r: Request)
    ensures
        r@ == configuration_request(
            access_token@,
            region@,
            guid@,
            collection_id@,
            environment_id@,
        ),
{
    let ghost expected = configuration_request(
        access_token@,
        region@,
        guid@,
        collection_id@,
        environment_id@,
    );
    let mut query: Vec<(String, String)> = Vec::new();
    query.push(pair("action", "sdkConfig"));
    query.push(pair("collection_id", collection_id));
    query.push(pair("environment_id", environment_id));
    let mut headers: Vec<(String, String)> = Vec::new();
    headers.push(pair("Accept", "application/json"));
    headers.push(pair("User-Agent", "appconfiguration-rust-sdk/0.0.1"));
    headers.push(authorization(access_token));
    let r = Request { url: get_base_url(region, guid), query, headers, form: Vec::new() };
    assert(r@.query =~= expected.query);
    assert(r@.headers =~= expected.headers);
    assert(r@.form =~= expected.form);
    r
}

/// The address of the push channel for an instance, a collection and an
/// environment, where the `url` crate can write it.
pub open spec fn monitoring_url(
    region: Seq<char>,
    guid: Seq<char>,
    collection_id: Seq<char>,
    environment_id: Seq<char>,
) -> Option<Seq<char>> {
    with_query_pair(
        with_query_pair(
            with_query_pair(Some(ws_url(region)), "instance_id"@, guid),
            "collection_id"@,
            collection_id,
        ),
        "environment_id"@,
        environment_id,
    )
}

/// The request that opens the push channel on which the server announces
/// changes of the catalog.
pub fn get_configuration_monitoring_websocket(
    access_token: &str,
    region: &str,
    guid: &str,
    collection_id: &str,
    environment_id: &str,
) -> (r: Result<Request, Error>)
    ensures
        match r {
            Ok(request) => monitoring_url(region@, guid@, collection_id@, environment_id@) == Some(
                request@.url,
            ) && request@.query.len() == 0 && request@.form.len() == 0 && request@.headers
                == seq![
                ("User-Agent"@, "appconfiguration-rust-sdk/0.0.1"@),
                ("Authorization"@, bearer(access_token@)),
            ],
            Err(e) => monitoring_url(region@, guid@, collection_id@, environment_id@) is None && e
                == Error::InvalidUrl,
        },
{
    let start = get_ws_url(region);
    let first = match add_query_pair(start.as_str(), "instance_id", guid) {
        Some(s) => s,
        None => {
            return Err(Error::InvalidUrl);
        },
    };
    let second = match add_query_pair(first.as_str(), "collection_id", collection_id) {
        Some(s) => s,
        None => {
            return Err(Error::InvalidUrl);
        },
    };
    let url = match add_query_pair(second.as_str(), "environment_id", environment_id) {
        Some(s) => s,
        None => {
            return Err(Error::InvalidUrl);
        },
    };
    let mut headers: Vec<(String, String)> = Vec::new();
    headers.push(pair("User-Agent", "appconfiguration-rust-sdk/0.0.1"));
    headers.push(authorization(access_token));
    let r = Request { url, query: Vec::new(), headers, form: Vec::new() };
    assert(r@.headers =~= seq![
        ("User-Agent"@, "appconfiguration-rust-sdk/0.0.1"@),
        ("Authorization"@, bearer(access_token@)),
    ]);
    Ok(r)
}

} // verus!
