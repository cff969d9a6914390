//! The client: what it asks for, and the URL that asks for it.

use vstd::prelude::*;
use vstd::string::*;
use vstd::utf8::*;
use crate::address::{
    parse_url, parsed_url, push_segment, put_query, url_with_query, url_with_segment, MAX_TEXT,
};
use crate::article::{NewsAPIResponse, ResponseView};
use crate::endpoint::{Country, Endpoint};
use crate::envelope::{answers, parse_response, response_of_body};
use crate::error::NewsApiError;
use crate::parts::{chars_of, check_segment_and_query, has_segment_and_query};

verus! {

/// Where the service answers.
pub const BASE_URL: &'static str = "https://newsapi.org/v2";

/// The query that restricts a request to a country.
pub open spec fn country_query(country: Country) -> Seq<char> {
    "country="@ + country.text()
}

/// Whether a URL asks for the endpoint and the country: its path ends in
/// `/<endpoint>`, and its query is exactly `country=<code>`. Such a URL is
/// made of ASCII characters alone.
pub open spec fn is_request_url(url: Seq<char>, endpoint: Endpoint, country: Country) -> bool {
    is_ascii_chars(url) && has_segment_and_query(url, endpoint.text(), country_query(country))
}

/// The URL of a request, as the `url` crate builds it from a base: the base
/// is read, the endpoint is added to its path, and the country becomes its
/// query. `None` where the base is no absolute URL, where it cannot be a
/// base, where it is too long to work on, and where what comes back does not
/// ask for the endpoint and the country.
pub open spec fn built_url(base: Seq<char>, endpoint: Endpoint, country: Country) -> Option<
    Seq<char>,
> {
    match parsed_url(base) {
        Some(address) if address.len() <= MAX_TEXT => match url_with_segment(
            address,
            endpoint.text(),
        ) {
            Some(extended) if extended.len() <= MAX_TEXT => match url_with_query(
                extended,
                country_query(country),
            ) {
                Some(url) if is_request_url(url, endpoint, country) => Some(url),
                _ => None,
            },
            _ => None,
        },
        _ => None,
    }
}

/// Every endpoint is a short text of ASCII characters.
pub proof fn lemma_endpoint_is_ascii(endpoint: Endpoint)
    ensures
        is_ascii_chars(endpoint.text()),
        endpoint.text().len() <= 32,
{
    reveal_strlit("top-headlines");
}

/// Every country makes a short query of ASCII characters.
pub proof fn lemma_country_query_is_ascii(country: Country)
    ensures
        is_ascii_chars(country_query(country)),
        country_query(country).len() <= 32,
{
    reveal_strlit("country=");
    reveal_strlit("in");
}

/// Decides whether a URL asks for the endpoint and the country.
pub fn asks_for(url: &str, endpoint: &Endpoint, country: &Country) -> (asks: bool)
    ensures
        asks == is_request_url(url@, *endpoint, *country),
{
    if !url.is_ascii() {
        return false;
    }
    let segment = endpoint.to_string();
    let query = String::from_str("country=").concat(country.to_string().as_str());
    proof {
        lemma_endpoint_is_ascii(*endpoint);
        lemma_country_query_is_ascii(*country);
    }
    check_segment_and_query(
        &chars_of(url),
        &chars_of(segment.as_str()),
        &chars_of(query.as_str()),
    )
}

/// Builds the URL of a request from a base: `<base>/<endpoint>?country=<code>`.
/// Whatever the base, a URL that is handed out asks for the endpoint and the
/// country. The base fails where it is no absolute URL, where it cannot be a
/// base, where it is longer than [`MAX_TEXT`] characters with the endpoint or
/// without, and where what the `url` crate makes of it does not ask for the
/// two.
pub fn build_url(base: &str, endpoint: &Endpoint, country: &Country) -> (built: Result<
    String,
    NewsApiError,
>)
    ensures
        match built {
            Ok(url) => built_url(base@, *endpoint, *country) == Some(url@),
            Err(error) => built_url(base@, *endpoint, *country) is None && error
                == NewsApiError::UrlParsingFailed,
        },
        built matches Ok(url) ==> is_request_url(url@, *endpoint, *country),
{
    let mut address = match parse_url(base) {
        Ok(address) => address,
        Err(_) => { return Err(NewsApiError::UrlParsingFailed); },
    };
    if address.as_str().unicode_len() > MAX_TEXT {
        return Err(NewsApiError::UrlParsingFailed);
    }
    let segment = endpoint.to_string();
    let query = String::from_str("country=").concat(country.to_string().as_str());
    proof {
        lemma_endpoint_is_ascii(*endpoint);
        lemma_country_query_is_ascii(*country);
    }
    if !push_segment(&mut address, segment.as_str()) {
        return Err(NewsApiError::UrlParsingFailed);
    }
    if address.as_str().unicode_len() > MAX_TEXT {
        return Err(NewsApiError::UrlParsingFailed);
    }
    if !put_query(&mut address, query.as_str()) {
        return Err(NewsApiError::UrlParsingFailed);
    }
    if !asks_for(address.as_str(), endpoint, country) {
        return Err(NewsApiError::UrlParsingFailed);
    }
    Ok(address)
}

/// The two ways in which the bytes of a request can be carried.
#[derive(Debug, Clone, Copy, PartialEq, Eq)]
pub enum Transport {
    /// The calling thread waits for the reply.
    Blocking,
    /// The calling task is suspended until the reply is there.
    Suspending,
}

/// One header of a request.
#[derive(Debug, Clone, PartialEq, Eq)]
pub struct Header {
    pub name: String,
    pub value: String,
}

impl View for Header {
    type V = (Seq<char>, Seq<char>);

    open spec fn view(&self) -> (Seq<char>, Seq<char>) {
        (self.name@, self.value@)
    }
}

/// A request as a value.
pub struct RequestView {
    pub url: Seq<char>,
    pub headers: Seq<(Seq<char>, Seq<char>)>,
}

/// A `GET` request: where it goes and the headers it carries.
#[derive(Debug, Clone, PartialEq, Eq)]
pub struct Request {
    pub url: String,
    pub headers: Vec<Header>,
}

impl View for Request {
    type V = RequestView;

    open spec fn view(&self) -> RequestView {
        RequestView {
            url: self.url@,
            headers: Seq::new(self.headers@.len(), |at: int| self.headers@[at]@),
        }
    }
}

/// What came of carrying a request.
#[derive(Debug, Clone, PartialEq, Eq)]
pub enum Reply {
    /// The exchange did not complete.
    Failed,
    /// The exchange completed, and the body could not be read.
    Unreadable,
    /// The bytes of the body.
    Body(Vec<u8>),
}

/// The headers of a request: the key, and on the suspending transport the
/// name of this client too.
pub open spec fn headers_for(api_key: Seq<char>, transport: Transport) -> Seq<
    (Seq<char>, Seq<char>),
> {
    match transport {
        Transport::Blocking => seq![("Authorization"@, api_key)],
        Transport::Suspending => seq![("Authorization"@, api_key), ("User-Agent"@, "clinews"@)],
    }
}

/// What a reply means to the caller: the outer `Err` holds the failure of
/// the transport, the rest is what the body means.
pub open spec fn reply_meaning(transport: Transport, reply: Reply) -> Result<
    Option<Result<ResponseView, Seq<char>>>,
    NewsApiError,
> {
    match reply {
        Reply::Failed => Err(
            match transport {
                Transport::Blocking => NewsApiError::RequestFailed,
                Transport::Suspending => NewsApiError::AsyncRequestFailed,
            },
        ),
        Reply::Unreadable => Err(NewsApiError::FailedResponseToString),
        Reply::Body(body) => Ok(response_of_body(body@)),
    }
}

/// Whether `outcome` is what a request with the given reply ends in.
pub open spec fn settles(
    transport: Transport,
    reply: Reply,
    outcome: Result<NewsAPIResponse, NewsApiError>,
) -> bool {
    match reply_meaning(transport, reply) {
        Err(error) => outcome == Err::<NewsAPIResponse, NewsApiError>(error),
        Ok(meaning) => answers(outcome, meaning),
    }
}

/// Whether `send` took the wanted request, brought back `reply`, and
/// `outcome` is what the request then ends in on the blocking transport.
pub open spec fn exchanged<F: FnOnce(&Request) -> Reply>(
    send: F,
    wanted: RequestView,
    request: &Request,
    reply: Reply,
    outcome: Result<NewsAPIResponse, NewsApiError>,
) -> bool {
    &&& request@ == wanted
    &&& send.ensures((request,), reply)
    &&& settles(Transport::Blocking, reply, outcome)
}

/// Decides how a request ends, from what the transport brought back.
pub fn interpret_reply(transport: Transport, reply: Reply) -> (outcome: Result<
    NewsAPIResponse,
    NewsApiError,
>)
    ensures
        settles(transport, reply, outcome),
{
    match reply {
        Reply::Failed => match transport {
            Transport::Blocking => Err(NewsApiError::RequestFailed),
            Transport::Suspending => Err(NewsApiError::AsyncRequestFailed),
        },
        Reply::Unreadable => Err(NewsApiError::FailedResponseToString),
        Reply::Body(body) => parse_response(body.as_slice()),
    }
}

/// A client as a value.
pub struct ClientView {
    pub api_key: Seq<char>,
    pub endpoint: Endpoint,
    pub country: Country,
}

/// A client of the service: the key it presents and what it asks for.
pub struct NewsAPI {
    api_key: String,
    endpoint: Endpoint,
    country: Country,
}

impl View for NewsAPI {
    type V = ClientView;

    closed spec fn view(&self) -> ClientView {
        ClientView { api_key: self.api_key@, endpoint: self.endpoint, country: self.country }
    }
}

impl NewsAPI {
    /// A client with the given key, which asks for the top headlines of
    /// India.
    pub fn new(api_key: &str) -> (api: NewsAPI)
        ensures
            api@ == (ClientView {
                api_key: api_key@,
                endpoint: Endpoint::TopHeadlines,
                country: Country::In,
            }),
    {
        NewsAPI {
            api_key: String::from_str(api_key),
            endpoint: Endpoint::TopHeadlines,
            country: Country::In,
        }
    }

    /// Sets the endpoint, and hands the client back for the next setting.
    pub fn endpoint(&mut self, endpoint: Endpoint) -> (api: &mut NewsAPI)
        ensures
            api@ == (ClientView { endpoint, ..old(self)@ }),
            *final(self) == *final(api),
    {
        self.endpoint = endpoint;
        self
    }

    /// Sets the country, and hands the client back for the next setting.
    pub fn country(&mut self, country: Country) -> (api: &mut NewsAPI)
        ensures
            api@ == (ClientView { country, ..old(self)@ }),
            *final(self) == *final(api),
    {
        self.country = country;
        self
    }

    /// The URL of this client's request. Where one is handed out, its path
    /// ends in the client's endpoint and its query is the client's country.
    pub fn prepare_url(&self) -> (built: Result<String, NewsApiError>)
        ensures
            match built {
                Ok(url) => built_url(BASE_URL@, self@.endpoint, self@.country) == Some(url@),
                Err(error) => built_url(BASE_URL@, self@.endpoint, self@.country) is None && error
                    == NewsApiError::UrlParsingFailed,
            },
            built matches Ok(url) ==> is_request_url(url@, self@.endpoint, self@.country),
    {
        build_url(BASE_URL, &self.endpoint, &self.country)
    }

    /// The request of this client on the given transport.
    pub fn request(&self, transport: Transport) -> (built: Result<Request, NewsApiError>)
        ensures
            match built {
                Ok(request) => request@ == (RequestView {
                    url: built_url(BASE_URL@, self@.endpoint, self@.country).unwrap(),
                    headers: headers_for(self@.api_key, transport),
                }) && built_url(BASE_URL@, self@.endpoint, self@.country) is Some,
                Err(error) => built_url(BASE_URL@, self@.endpoint, self@.country) is None && error
                    == NewsApiError::UrlParsingFailed,
            },
    {
        let url = match self.prepare_url() {
            Ok(url) => url,
            Err(error) => { return Err(error); },
        };
        let mut headers: Vec<Header> = Vec::new();
        headers.push(
            Header { name: String::from_str("Authorization"), value: self.api_key.clone() },
        );
        match transport {
            Transport::Blocking => {},
            Transport::Suspending => {
                headers.push(
                    Header {
                        name: String::from_str("User-Agent"),
                        value: String::from_str("clinews"),
                    },
                );
            },
        }
        let request = Request { url, headers };
        assert(request@.headers =~= headers_for(self@.api_key, transport));
        Ok(request)
    }

    /// Asks the service once, on the blocking transport: builds the request,
    /// hands it to `send`, and decides from the reply how the request ends.
    /// Where the URL cannot be built nothing is sent.
    pub fn fetch<F: FnOnce(&Request) -> Reply>(&self, send: F) -> (outcome: Result<
        NewsAPIResponse,
        NewsApiError,
    >)
        requires
            forall|request: &Request| send.requires((request,)),
        ensures
            built_url(BASE_URL@, self@.endpoint, self@.country) is None ==> outcome == Err::<
                NewsAPIResponse,
                NewsApiError,
            >(NewsApiError::UrlParsingFailed),
            built_url(BASE_URL@, self@.endpoint, self@.country) matches Some(url) ==> exists|
                request: &Request,
                reply: Reply,
            |
                exchanged(
                    send,
                    RequestView { url, headers: headers_for(self@.api_key, Transport::Blocking) },
                    request,
                    reply,
                    outcome,
                ),
    {
        let request = match self.request(Transport::Blocking) {
            Ok(request) => request,
            Err(error) => { return Err(error); },
        };
        let reply = send(&request);
        let outcome = interpret_reply(Transport::Blocking, reply);
        assert(exchanged(send, request@, &request, reply, outcome));
        outcome
    }
}

} // verus!
