use vstd::prelude::*;

use crate::har::{NameValue, Request, RequestView};
use crate::json::{push_member, Json};
use crate::wire::{encode_list, required_list_spec, required_spec, views, Wire};

verus! {

/// The HTTP methods that a request can be replayed with.
#[derive(Clone, Copy, Debug, PartialEq, Eq, Structural)]
pub enum Method {
    Get,
    Post,
    Put,
    Delete,
    Head,
    Options,
    Patch,
}

/// The method that a token names, compared case-sensitively.
pub open spec fn method_of(token: Seq<char>) -> Option<Method> {
    if token == "GET"@ {
        Some(Method::Get)
    } else if token == "POST"@ {
        Some(Method::Post)
    } else if token == "PUT"@ {
        Some(Method::Put)
    } else if token == "DELETE"@ {
        Some(Method::Delete)
    } else if token == "HEAD"@ {
        Some(Method::Head)
    } else if token == "OPTIONS"@ {
        Some(Method::Options)
    } else if token == "PATCH"@ {
        Some(Method::Patch)
    } else {
        None
    }
}

/// Why a request could not be replayed. Each variant holds the text to show:
/// the method token, or what the transport reported.
#[derive(Debug)]
pub enum ReplayError {
    /// The method token is not one of the methods that can be replayed.
    UnsupportedMethod(String),
    /// The transport failed: name resolution, connection, TLS or timeout.
    Network(String),
    /// The response body could not be read as text.
    BodyDecode(String),
}

impl Method {
    /// The token of the method, as it stands in a request line.
    pub fn token(&self) -> (r: &'static str)
        ensures
            method_of(r@) == Some(*self),
    {
        proof {
            reveal_strlit("GET");
            reveal_strlit("POST");
            reveal_strlit("PUT");
            reveal_strlit("DELETE");
            reveal_strlit("HEAD");
            reveal_strlit("OPTIONS");
            reveal_strlit("PATCH");
            assert("GET"@.len() == 3 && "GET"@[0] == 'G');
            assert("POST"@.len() == 4 && "POST"@[0] == 'P');
            assert("PUT"@.len() == 3 && "PUT"@[0] == 'P');
            assert("DELETE"@.len() == 6);
            assert("HEAD"@.len() == 4 && "HEAD"@[0] == 'H');
            assert("OPTIONS"@.len() == 7);
            assert("PATCH"@.len() == 5);
        }
        match self {
            Method::Get => "GET",
            Method::Post => "POST",
            Method::Put => "PUT",
            Method::Delete => "DELETE",
            Method::Head => "HEAD",
            Method::Options => "OPTIONS",
            Method::Patch => "PATCH",
        }
    }
}

/// Reads a method token; any token outside the fixed set is refused.
pub fn parse_method(token: &str) -> (r: Result<Method, ReplayError>)
    ensures
        match r {
            Ok(m) => method_of(token@) == Some(m),
            Err(e) => method_of(token@) is None && (e matches ReplayError::UnsupportedMethod(t)
                && t@ == token@),
        },
{
    let t = token.to_owned();
    if t == "GET".to_owned() {
        Ok(Method::Get)
    } else if t == "POST".to_owned() {
        Ok(Method::Post)
    } else if t == "PUT".to_owned() {
        Ok(Method::Put)
    } else if t == "DELETE".to_owned() {
        Ok(Method::Delete)
    } else if t == "HEAD".to_owned() {
        Ok(Method::Head)
    } else if t == "OPTIONS".to_owned() {
        Ok(Method::Options)
    } else if t == "PATCH".to_owned() {
        Ok(Method::Patch)
    } else {
        Err(ReplayError::UnsupportedMethod(t))
    }
}

/// What goes out on the wire when a request is replayed.
#[derive(Debug)]
pub struct ReplayPlan {
    pub method: Method,
    /// The target, verbatim.
    pub url: String,
    /// Every header, in order, repeated names included.
    pub headers: Vec<NameValue>,
    /// The body, verbatim, or none.
    pub body: Option<String>,
}

/// The body that replaying a request sends: the literal text of its post
/// data, where there is one. Structured form parameters are not sent.
pub open spec fn body_of(r: RequestView) -> Option<Seq<char>> {
    match r.post_data {
        Some(pd) => pd.text,
        None => None,
    }
}

/// Decides what replaying `request` sends, before any network traffic: the
/// method (refused outside the fixed set), the URL and every header as
/// captured, and the literal body text if there is one.
pub fn plan_replay(request: Request) -> (r: Result<ReplayPlan, ReplayError>)
    ensures
        match r {
            Ok(p) => method_of(request.method@) == Some(p.method) && p.url == request.url
                && p.headers == request.headers && match p.body {
                Some(b) => body_of(request@) == Some(b@),
                None => body_of(request@) is None,
            },
            Err(e) => method_of(request.method@) is None && (e matches ReplayError::UnsupportedMethod(
                t,
            ) && t@ == request.method@),
        },
{
    let method = parse_method(request.method.as_str())?;
    let body = match request.post_data {
        Some(pd) => pd.text,
        None => None,
    };
    Ok(ReplayPlan { method, url: request.url, headers: request.headers, body })
}

/// A header of a live response; a value that is not text reads as empty.
pub fn response_header(name: &String, value: &Option<String>) -> (r: NameValue)
    ensures
        r.name@ == name@,
        r.value@ == match value {
            Some(v) => v@,
            None => Seq::<char>::empty(),
        },
{
    let value = match value {
        Some(v) => v.clone(),
        None => String::new(),
    };
    NameValue { name: name.clone(), value }
}

/// The headers of a live response, in the order received, repeated names
/// included; a value that is not text reads as empty.
pub fn response_headers(raw: &Vec<(String, Option<String>)>) -> (r: Vec<NameValue>)
    ensures
        r@.len() == raw@.len(),
        forall|i: int|
            0 <= i < raw@.len() ==> (#[trigger] r@[i]).name@ == raw@[i].0@ && r@[i].value@ == match raw@[i].1 {
                Some(v) => v@,
                None => Seq::<char>::empty(),
            },
{
    let mut out: Vec<NameValue> = Vec::new();
    let mut i: usize = 0;
    while i < raw.len()
        invariant
            i <= raw.len(),
            out@.len() == i,
            forall|k: int|
                0 <= k < i ==> (#[trigger] out@[k]).name@ == raw@[k].0@ && out@[k].value@ == match raw@[k].1 {
                    Some(v) => v@,
                    None => Seq::<char>::empty(),
                },
        decreases raw.len() - i,
    {
        let h = response_header(&raw[i].0, &raw[i].1);
        out.push(h);
        i += 1;
    }
    out
}

/// What a replay observed.
#[derive(Debug)]
pub struct ReplayResult {
    pub status: u16,
    pub headers: Vec<NameValue>,
    pub body: String,
}

impl ReplayResult {
    /// The result as a JSON object `{status, headers: [{name, value}], body}`.
    pub fn to_json(&self) -> (r: Json)
        ensures
            required_spec::<i64>(r, "status"@) == Some(self.status as i64),
            required_list_spec::<NameValue>(r, "headers"@) == Some(views(self.headers@)),
            required_spec::<String>(r, "body"@) == Some(self.body@),
    {
        let mut f: Vec<(String, Json)> = Vec::new();
        push_member(&mut f, "status", Json::Int(self.status as i64));
        push_member(&mut f, "headers", encode_list(&self.headers));
        push_member(&mut f, "body", self.body.encode());
        proof {
            reveal_strlit("status");
            reveal_strlit("headers");
            reveal_strlit("body");
            assert("status"@.len() == 6);
            assert("headers"@.len() == 7);
            assert("body"@.len() == 4);
        }
        Json::Object(f)
    }
}

} // verus!
