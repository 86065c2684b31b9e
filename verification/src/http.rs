//! Requests to the bridge's HTTP control endpoints.
use crate::ports::{http_port, port_text, PortQuery, PortQueryView};
use vstd::prelude::*;

verus! {

/// Endpoint that puts the target into its bootloader.
pub const ENTER_BOOTLOADER_PATH: &'static str = "/enter-bootloader";

/// Endpoint that reboots the target.
pub const RESET_PATH: &'static str = "/reset";

/// The URL of the endpoint `path` on the HTTP port `port` of `host`.
pub open spec fn endpoint_url(host: Seq<char>, port: u16, path: Seq<char>) -> Seq<char> {
    "http://"@ + host + ":"@ + crate::ports::decimal(port as nat) + path
}

/// A question for the HTTP port, before a request to the endpoint `path` of
/// the bridge at `host`.
#[derive(Debug)]
pub struct PostQuery {
    pub host: String,
    pub path: &'static str,
    pub port: PortQuery,
}

/// A [`PostQuery`], seen as plain values.
pub struct PostQueryView {
    pub host: Seq<char>,
    pub path: Seq<char>,
    pub port: PortQueryView,
}

impl View for PostQuery {
    type V = PostQueryView;

    open spec fn view(&self) -> PostQueryView {
        PostQueryView { host: self.host@, path: self.path@, port: self.port@ }
    }
}

impl PostQueryView {
    /// The URL of the request, where the variable asked for has the value
    /// `setting`.
    pub open spec fn url(self, setting: Option<Seq<char>>) -> Seq<char> {
        endpoint_url(self.host, self.port.port(setting), self.path)
    }
}

/// The question before a request to the endpoint `path` of the bridge at
/// `host`.
pub open spec fn post_query(host: Seq<char>, path: Seq<char>) -> PostQueryView {
    PostQueryView { host, path, port: crate::ports::http_port_query() }
}

/// An HTTP POST without a body, to be sent to `url`.
#[derive(Debug)]
pub struct PostRequest {
    pub url: String,
}

/// A POST that failed: where it went, and what went wrong.
#[derive(Debug)]
pub struct PostError {
    pub url: String,
    pub cause: ureq::Error,
}

/// Begins a request to the endpoint `path` of the bridge at `host`.
pub fn http_post(host: &str, path: &'static str) -> (r: PostQuery)
    ensures
        r@ == post_query(host@, path@),
        r.host@ == host@,
        r.path@ == path@,
        r.port.variable@ == "ESPBRIDGE_HTTP_PORT"@,
        r.port.default == 80,
{
    PostQuery { host: host.to_owned(), path, port: http_port() }
}

impl PostQuery {
    /// The request, where the variable asked for has the value `setting`.
    pub fn answered(&self, setting: Option<&str>) -> (r: PostRequest)
        ensures
            r.url@ == self@.url(crate::ports::text_view(setting)),
            ({
                let port = match setting {
                    Some(text) => match crate::ports::port_value(text@) {
                        Some(port) => port,
                        None => self.port.default,
                    },
                    None => self.port.default,
                };
                r.url@ == "http://"@ + self.host@ + ":"@ + crate::ports::decimal(port as nat)
                    + self.path@
            }),
    {
        let mut url: String = "http://".to_owned();
        url.append(self.host.as_str());
        url.append(":");
        url.append(port_text(self.port.answered(setting)).as_str());
        url.append(self.path);
        PostRequest { url }
    }
}

impl PostRequest {
    /// What came of the request. It succeeds with any response, and fails with
    /// the cause and the URL.
    pub fn sent<R>(self, outcome: Result<R, ureq::Error>) -> (r: Result<(), PostError>)
        ensures
            match outcome {
                Ok(_) => r == Ok::<(), PostError>(()),
                Err(cause) => r == Err::<(), PostError>(PostError { url: self.url, cause }),
            },
    {
        match outcome {
            Ok(_) => Ok(()),
            Err(cause) => Err(PostError { url: self.url, cause }),
        }
    }
}

impl PostError {
    /// The message of a failed request.
    pub open spec fn text(self) -> Seq<char> {
        "POST "@ + self.url@ + " failed"@
    }

    /// The message of a failed request, which names its URL.
    pub fn message(&self) -> (r: String)
        ensures
            r@ == self.text(),
            r@ == "POST "@ + self.url@ + " failed"@,
    {
        "POST ".to_owned().concat(self.url.as_str()).concat(" failed")
    }
}

/// Wraps a failed request to the bridge as the failure of a connection.
#[derive(Debug)]
pub struct BridgeError(pub PostError);

impl BridgeError {
    /// The message of the request that failed.
    pub fn message(&self) -> (r: String)
        ensures
            r@ == self.0.text(),
            r@ == "POST "@ + self.0.url@ + " failed"@,
    {
        self.0.message()
    }
}

/// Why a target could not be reset.
#[derive(Debug)]
pub enum ResetError {
    /// The connection to the target failed.
    Connection(BridgeError),
}

/// A question for the HTTP port, before the target is rebooted.
#[derive(Debug)]
pub struct HardResetQuery {
    pub post: PostQuery,
}

/// A request to the bridge to reboot the target.
#[derive(Debug)]
pub struct HardReset {
    pub request: PostRequest,
}

/// Begins to reboot the target by way of the bridge's reset endpoint. A bridge
/// has no control lines that could be driven for this.
pub fn hard_reset(host: &str) -> (r: HardResetQuery)
    ensures
        r.post@ == post_query(host@, RESET_PATH@),
        r.post.host@ == host@,
        r.post.path@ == "/reset"@,
        r.post.port.variable@ == "ESPBRIDGE_HTTP_PORT"@,
        r.post.port.default == 80,
{
    HardResetQuery { post: http_post(host, RESET_PATH) }
}

impl HardResetQuery {
    /// The request, where the variable asked for has the value `setting`.
    pub fn answered(&self, setting: Option<&str>) -> (r: HardReset)
        ensures
            r.request.url@ == self.post@.url(crate::ports::text_view(setting)),
            ({
                let port = match setting {
                    Some(text) => match crate::ports::port_value(text@) {
                        Some(port) => port,
                        None => self.post.port.default,
                    },
                    None => self.post.port.default,
                };
                r.request.url@ == "http://"@ + self.post.host@ + ":"@ + crate::ports::decimal(port as nat)
                    + self.post.path@
            }),
    {
        HardReset { request: self.post.answered(setting) }
    }
}

impl HardReset {
    /// What came of the reset: it succeeds with any response, and a failed
    /// request is a failed connection.
    pub fn sent<R>(self, outcome: Result<R, ureq::Error>) -> (r: Result<(), ResetError>)
        ensures
            match outcome {
                Ok(_) => r == Ok::<(), ResetError>(()),
                Err(cause) => r == Err::<(), ResetError>(
                    ResetError::Connection(BridgeError(PostError { url: self.request.url, cause })),
                ),
            },
    {
        match self.request.sent(outcome) {
            Ok(()) => Ok(()),
            Err(error) => Err(ResetError::Connection(BridgeError(error))),
        }
    }
}

/// A request goes to the port whose decimal text the HTTP port's variable
/// holds, and to the default port where that variable has no value.
pub proof fn law_port_override_moves_requests(host: Seq<char>, path: Seq<char>, port: u16)
    ensures
        post_query(host, path).port.variable == crate::ports::HTTP_PORT_VAR@,
        post_query(host, path).url(Some(crate::ports::decimal(port as nat))) == endpoint_url(
            host,
            port,
            path,
        ),
        post_query(host, path).url(None) == endpoint_url(
            host,
            crate::ports::DEFAULT_HTTP_PORT,
            path,
        ),
{
    crate::ports::law_port_text_reads_back(port, crate::ports::DEFAULT_HTTP_PORT);
}

/// A URL spells out its parts, each of them whole: the scheme, the host, a
/// colon, the port in decimal and the path, with nothing before, between or
/// after them.
pub proof fn law_url_spells_its_parts(host: Seq<char>, port: u16, path: Seq<char>)
    ensures
        ({
            let url = endpoint_url(host, port, path);
            let digits = crate::ports::decimal(port as nat);
            let colon = 7 + host.len() as int;
            let slash = colon + 1 + digits.len() as int;
            &&& url == "http://"@ + host + ":"@ + digits + path
            &&& url.len() == 7 + host.len() + 1 + digits.len() + path.len()
            &&& url.subrange(0, 7) == seq!['h', 't', 't', 'p', ':', '/', '/']
            &&& url.subrange(7, colon) == host
            &&& url[colon] == ':'
            &&& url.subrange(colon + 1, slash) == digits
            &&& url.subrange(slash, url.len() as int) == path
        }),
{
    reveal_strlit("http://");
    reveal_strlit(":");
    let url: Seq<char> = endpoint_url(host, port, path);
    let digits: Seq<char> = crate::ports::decimal(port as nat);
    let colon: int = 7 + host.len() as int;
    let slash: int = colon + 1 + digits.len() as int;
    assert(url.subrange(0, 7) == seq!['h', 't', 't', 'p', ':', '/', '/']);
    assert(url.subrange(7, colon) == host);
    assert(url.subrange(colon + 1, slash) == digits);
    assert(url.subrange(slash, url.len() as int) == path);
}

/// Two URLs that differ in one part only differ: another host, another port or
/// another path is never reached by the same URL.
pub proof fn law_urls_tell_endpoints_apart(
    host: Seq<char>,
    other_host: Seq<char>,
    port: u16,
    other_port: u16,
    path: Seq<char>,
    other_path: Seq<char>,
)
    ensures
        host != other_host ==> endpoint_url(host, port, path) != endpoint_url(
            other_host,
            port,
            path,
        ),
        port != other_port ==> endpoint_url(host, port, path) != endpoint_url(
            host,
            other_port,
            path,
        ),
        path != other_path ==> endpoint_url(host, port, path) != endpoint_url(
            host,
            port,
            other_path,
        ),
{
    law_url_spells_its_parts(host, port, path);
    law_url_spells_its_parts(other_host, port, path);
    law_url_spells_its_parts(host, other_port, path);
    law_url_spells_its_parts(host, port, other_path);
    crate::ports::law_decimal_tells_numbers_apart(port as nat, other_port as nat);
}

/// A request goes to the host, port and path of its question, whole and as they
/// are: the port that the value of the variable denotes, or the default of the
/// question where there is no value or it denotes no port.
pub proof fn law_request_goes_to_its_endpoint(
    query: &PostQuery,
    setting: Option<&str>,
    port: u16,
    r: PostRequest,
)
    requires
        call_ensures(PostQuery::answered, (query, setting), r),
        call_ensures(PortQuery::answered, (&query.port, setting), port),
    ensures
        ({
            let digits = crate::ports::decimal(port as nat);
            let colon = 7 + query.host@.len() as int;
            let slash = colon + 1 + digits.len() as int;
            &&& r.url@.len() == 7 + query.host@.len() + 1 + digits.len() + query.path@.len()
            &&& r.url@.subrange(0, 7) == seq!['h', 't', 't', 'p', ':', '/', '/']
            &&& r.url@.subrange(7, colon) == query.host@
            &&& r.url@[colon] == ':'
            &&& r.url@.subrange(colon + 1, slash) == digits
            &&& r.url@.subrange(slash, r.url@.len() as int) == query.path@
        }),
{
    law_url_spells_its_parts(query.host@, port, query.path@);
}

/// The questions for two hosts that differ never lead to the same request,
/// where path and setting are the same.
pub proof fn law_requests_tell_hosts_apart(
    host: &str,
    other_host: &str,
    path: &'static str,
    setting: Option<&str>,
    query: PostQuery,
    other_query: PostQuery,
    r: PostRequest,
    other_r: PostRequest,
)
    requires
        call_ensures(http_post, (host, path), query),
        call_ensures(http_post, (other_host, path), other_query),
        call_ensures(PostQuery::answered, (&query, setting), r),
        call_ensures(PostQuery::answered, (&other_query, setting), other_r),
    ensures
        r.url@ == other_r.url@ <==> host@ == other_host@,
{
    let port: u16 = match setting {
        Some(text) => match crate::ports::port_value(text@) {
            Some(port) => port,
            None => 80,
        },
        None => 80,
    };
    law_url_spells_its_parts(host@, port, path@);
    law_url_spells_its_parts(other_host@, port, path@);
}

/// A hard reset is a POST to the reset endpoint of the whole host: on port 80
/// where the variable has no value, and on the port written in it where it
/// holds the decimal text of one.
pub proof fn law_hard_reset_goes_to_the_reset_endpoint(
    host: &str,
    query: HardResetQuery,
    text: &str,
    port: u16,
    unset: HardReset,
    set: HardReset,
)
    requires
        call_ensures(hard_reset, (host,), query),
        call_ensures(HardResetQuery::answered, (&query, None), unset),
        text@ == crate::ports::decimal(port as nat),
        call_ensures(HardResetQuery::answered, (&query, Some(text)), set),
    ensures
        query.post.port.variable@ == "ESPBRIDGE_HTTP_PORT"@,
        unset.request.url@ == "http://"@ + host@ + ":80/reset"@,
        set.request.url@ == "http://"@ + host@ + ":"@ + text@ + "/reset"@,
{
    crate::ports::law_port_text_reads_back(port, 80);
    reveal_strlit(":");
    reveal_strlit("/reset");
    reveal_strlit(":80/reset");
    reveal_with_fuel(crate::ports::decimal, 2);
    assert(crate::ports::decimal(80) == seq!['8', '0']);
    assert(unset.request.url@ == "http://"@ + host@ + ":80/reset"@);
}

/// A request that was answered has succeeded, and one that was not has failed
/// with its own URL and cause. The message of the failure names the URL.
pub proof fn law_request_fails_with_its_cause<R>(
    request: PostRequest,
    outcome: Result<R, ureq::Error>,
    r: Result<(), PostError>,
)
    requires
        call_ensures(PostRequest::sent::<R>, (request, outcome), r),
    ensures
        r is Ok <==> outcome is Ok,
        r matches Err(error) ==> outcome == Err::<R, ureq::Error>(error.cause) && error.url@
            == request.url@ && error.text() == "POST "@ + request.url@ + " failed"@,
{
}

/// A hard reset that was answered has succeeded, and one that was not has
/// failed as a connection, with its own URL and cause.
pub proof fn law_hard_reset_fails_with_its_cause<R>(
    reset: HardReset,
    outcome: Result<R, ureq::Error>,
    r: Result<(), ResetError>,
)
    requires
        call_ensures(HardReset::sent::<R>, (reset, outcome), r),
    ensures
        r is Ok <==> outcome is Ok,
        r matches Err(ResetError::Connection(error)) ==> outcome == Err::<R, ureq::Error>(
            error.0.cause,
        ) && error.0.url@ == reset.request.url@,
{
}

/// The message of a failed request names its URL, whole, and so does the error
/// of a connection that wraps it.
pub proof fn law_message_names_the_url(
    error: PostError,
    message: String,
    wrapped: &BridgeError,
    wrapped_message: String,
)
    requires
        call_ensures(PostError::message, (&error,), message),
        wrapped.0 == error,
        call_ensures(BridgeError::message, (wrapped,), wrapped_message),
    ensures
        message@ == "POST "@ + error.url@ + " failed"@,
        wrapped_message@ == message@,
        error.text() == message@,
{
}

} // verus!
