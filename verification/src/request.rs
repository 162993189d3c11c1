//! What is asked of the tracking service: the credential, the address and
//! headers of a request, and the days that a fetch covers.

use vstd::prelude::*;
use crate::timestamp::{utc_date_text, Timestamp, LAST_FOUR_DIGIT_YEAR_SECOND};

verus! {

/// The address that every resource path is appended to.
pub const BASE_URL: &'static str = "https://api.track.toggl.com/api/v9/";

/// The resource that lists the account's time entries.
pub const TIME_ENTRIES_PATH: &'static str = "me/time_entries";

/// The content type that every request declares.
pub const JSON_CONTENT_TYPE: &'static str = "application/json";

/// The fixed word sent as the password beside the API key.
pub const TOKEN_MARKER: &'static str = "api_token";

/// The number of days before now at which a fetch begins.
pub const WINDOW_DAYS: u32 = 89;

/// The moment `WINDOW_DAYS` days before `now`, at which a fetch begins.
pub open spec fn window_start(now: int) -> int {
    now - WINDOW_DAYS * 86_400
}

/// The stored credential.
pub struct Config {
    /// The key that identifies the account.
    pub api_key: String,
}

impl Config {
    /// The credential that holds `api_key`.
    pub fn new(api_key: String) -> (config: Config)
        ensures
            config.api_key == api_key,
    {
        Config { api_key }
    }
}

/// The method of a request.
#[derive(Clone, Copy, Debug, PartialEq, Eq, Structural)]
pub enum Method {
    Get,
    Post,
    Put,
    Delete,
    Head,
    Options,
    Connect,
    Patch,
    Trace,
}

/// A request as it is to be sent: where to, how, and with which basic
/// authentication.
pub struct AuthRequest {
    /// The method to use.
    pub method: Method,
    /// The full address.
    pub url: String,
    /// The value of the `Content-Type` header.
    pub content_type: String,
    /// The user name of the basic authentication.
    pub username: String,
    /// The password of the basic authentication.
    pub password: String,
}

/// The two dates between which entries are fetched, each written
/// `YYYY-MM-DD`.
#[derive(Debug)]
pub struct DateRange {
    /// The first day.
    pub start_date: String,
    /// The last day.
    pub end_date: String,
}

/// The name of the query parameter that holds the first day.
pub const START_DATE_KEY: &'static str = "start_date";

/// The name of the query parameter that holds the last day.
pub const END_DATE_KEY: &'static str = "end_date";

impl DateRange {
    /// The query parameters that bound a fetch: the first day under
    /// `START_DATE_KEY`, then the last day under `END_DATE_KEY`.
    pub fn query(&self) -> (pairs: Vec<(String, String)>)
        ensures
            pairs@.len() == 2,
            pairs@[0].0@ == START_DATE_KEY@,
            pairs@[0].1@ == self.start_date@,
            pairs@[1].0@ == END_DATE_KEY@,
            pairs@[1].1@ == self.end_date@,
    {
        let mut pairs: Vec<(String, String)> = Vec::new();
        pairs.push((String::from_str(START_DATE_KEY), self.start_date.clone()));
        pairs.push((String::from_str(END_DATE_KEY), self.end_date.clone()));
        pairs
    }
}

/// The days that a fetch at `now` covers: from `WINDOW_DAYS` days before
/// `now` through `now`. `None` where the first of them has no calendar date.
pub fn recent_window(now: &Timestamp) -> (range: Option<DateRange>)
    ensures
        match range {
            Some(days) => {
                &&& utc_date_text(window_start(now@)) == Some(days.start_date@)
                &&& days.end_date@ == now.date_text()
            },
            None => window_start(now@) < i64::MIN || utc_date_text(window_start(now@)) is None,
        },
        0 <= window_start(now@) <= LAST_FOUR_DIGIT_YEAR_SECOND ==> range is Some,
{
    match now.days_earlier(WINDOW_DAYS) {
        Some(first) => Some(DateRange { start_date: first.iso_date(), end_date: now.iso_date() }),
        None => None,
    }
}

/// What identifies the account to the service.
pub struct ToggleClient {
    api_key: String,
}

impl ToggleClient {
    /// The key that the client authenticates with.
    pub closed spec fn api_key(&self) -> Seq<char> {
        self.api_key@
    }

    /// A client for the account that `api_key` identifies.
    pub fn new(api_key: String) -> (client: ToggleClient)
        ensures
            client.api_key() == api_key@,
    {
        ToggleClient { api_key }
    }

    /// The request for the resource at `uri` below `BASE_URL`: it declares
    /// JSON content and authenticates with the API key as user name and
    /// `TOKEN_MARKER` as password.
    pub fn auth_request(&self, method: Method, uri: &str) -> (request: AuthRequest)
        ensures
            request.method == method,
            request.url@ == BASE_URL@ + uri@,
            request.content_type@ == JSON_CONTENT_TYPE@,
            request.username@ == self.api_key(),
            request.password@ == TOKEN_MARKER@,
    {
        let mut url = String::from_str(BASE_URL);
        url.append(uri);
        AuthRequest {
            method,
            url,
            content_type: String::from_str(JSON_CONTENT_TYPE),
            username: self.api_key.clone(),
            password: String::from_str(TOKEN_MARKER),
        }
    }
}

} // verus!
