use vstd::prelude::*;

use crate::har::{
    Archive, ArchiveView, Cache, CacheState, CacheStateView, CacheView, Content, ContentView, Entry,
    EntryView, Log, LogView, NameValue, NameValueView, Number, NumberView, Page, PageView, Param,
    ParamView, PostData, PostDataView, Request, RequestView, Response, ResponseView, Software,
    SoftwareView, Timings, TimingsView,
};
use crate::json::{is_object, push_member, Json};
use crate::wire::{
    encode_list, optional, optional_list, optional_list_spec, optional_spec, required,
    required_list, required_list_spec, required_spec, shape_error, ParseError, Wire,
};

verus! {

// Each record of the archive is a JSON object, and only an object, whose
// members carry the wire names of the archive format (`startedDateTime`, `httpVersion`, ...). The
// `decode_spec` of each type below is its table of members: which are
// required, which may be absent or null, and under which name each is found.

impl Wire for Number {
    open spec fn decode_spec(j: Json) -> Option<NumberView> {
        match j {
            Json::Int(n) => Some(NumberView::Int(n)),
            Json::Num(s) => Some(NumberView::Decimal(s@)),
            _ => None,
        }
    }

    fn decode(j: &Json) -> (r: Result<Number, ParseError>) {
        match j {
            Json::Int(n) => Ok(Number::Int(*n)),
            Json::Num(s) => Ok(Number::Decimal(s.clone())),
            _ => Err(shape_error("expected a number")),
        }
    }

    fn encode(&self) -> (r: Json) {
        match self {
            Number::Int(n) => Json::Int(*n),
            Number::Decimal(s) => Json::Num(s.clone()),
        }
    }
}

impl Wire for NameValue {
    open spec fn decode_spec(j: Json) -> Option<NameValueView> {
        let name = required_spec::<String>(j, "name"@);
        let value = required_spec::<String>(j, "value"@);
        if j is Object && name is Some && value is Some {
            Some(NameValueView {
                name: name->Some_0,
                value: value->Some_0,
            })
        } else {
            None
        }
    }

    fn decode(j: &Json) -> (r: Result<NameValue, ParseError>) {
        if !is_object(j) {
            return Err(shape_error("expected an object"));
        }
        let name = required::<String>(j, "name")?;
        let value = required::<String>(j, "value")?;
        Ok(NameValue { name, value })
    }

    fn encode(&self) -> (r: Json) {
        let mut f: Vec<(String, Json)> = Vec::new();
        push_member(&mut f, "name", self.name.encode());
        push_member(&mut f, "value", self.value.encode());
        proof {
            reveal_strlit("name");
            reveal_strlit("value");
            assert("name"@.len() == 4);
            assert("value"@.len() == 5);
        }
        Json::Object(f)
    }
}

impl Wire for Software {
    open spec fn decode_spec(j: Json) -> Option<SoftwareView> {
        let name = required_spec::<String>(j, "name"@);
        let version = required_spec::<String>(j, "version"@);
        if j is Object && name is Some && version is Some {
            Some(SoftwareView {
                name: name->Some_0,
                version: version->Some_0,
            })
        } else {
            None
        }
    }

    fn decode(j: &Json) -> (r: Result<Software, ParseError>) {
        if !is_object(j) {
            return Err(shape_error("expected an object"));
        }
        let name = required::<String>(j, "name")?;
        let version = required::<String>(j, "version")?;
        Ok(Software { name, version })
    }

    fn encode(&self) -> (r: Json) {
        let mut f: Vec<(String, Json)> = Vec::new();
        push_member(&mut f, "name", self.name.encode());
        push_member(&mut f, "version", self.version.encode());
        proof {
            reveal_strlit("name");
            reveal_strlit("version");
            assert("name"@.len() == 4);
            assert("version"@.len() == 7);
        }
        Json::Object(f)
    }
}

impl Wire for Page {
    open spec fn decode_spec(j: Json) -> Option<PageView> {
        let id = required_spec::<String>(j, "id"@);
        let title = required_spec::<String>(j, "title"@);
        let started_date_time = required_spec::<String>(j, "startedDateTime"@);
        if j is Object && id is Some && title is Some && started_date_time is Some {
            Some(PageView {
                id: id->Some_0,
                title: title->Some_0,
                started_date_time: started_date_time->Some_0,
            })
        } else {
            None
        }
    }

    fn decode(j: &Json) -> (r: Result<Page, ParseError>) {
        if !is_object(j) {
            return Err(shape_error("expected an object"));
        }
        let id = required::<String>(j, "id")?;
        let title = required::<String>(j, "title")?;
        let started_date_time = required::<String>(j, "startedDateTime")?;
        Ok(Page { id, title, started_date_time })
    }

    fn encode(&self) -> (r: Json) {
        let mut f: Vec<(String, Json)> = Vec::new();
        push_member(&mut f, "id", self.id.encode());
        push_member(&mut f, "title", self.title.encode());
        push_member(&mut f, "startedDateTime", self.started_date_time.encode());
        proof {
            reveal_strlit("id");
            reveal_strlit("title");
            reveal_strlit("startedDateTime");
            assert("id"@.len() == 2);
            assert("title"@.len() == 5);
            assert("startedDateTime"@.len() == 15);
        }
        Json::Object(f)
    }
}

impl Wire for Timings {
    open spec fn decode_spec(j: Json) -> Option<TimingsView> {
        let blocked = required_spec::<Number>(j, "blocked"@);
        let dns = required_spec::<Number>(j, "dns"@);
        let connect = required_spec::<Number>(j, "connect"@);
        let send = required_spec::<Number>(j, "send"@);
        let wait = required_spec::<Number>(j, "wait"@);
        let receive = required_spec::<Number>(j, "receive"@);
        let ssl = required_spec::<Number>(j, "ssl"@);
        if j is Object && blocked is Some && dns is Some && connect is Some && send is Some && wait is Some && receive is Some && ssl is Some {
            Some(TimingsView {
                blocked: blocked->Some_0,
                dns: dns->Some_0,
                connect: connect->Some_0,
                send: send->Some_0,
                wait: wait->Some_0,
                receive: receive->Some_0,
                ssl: ssl->Some_0,
            })
        } else {
            None
        }
    }

    fn decode(j: &Json) -> (r: Result<Timings, ParseError>) {
        if !is_object(j) {
            return Err(shape_error("expected an object"));
        }
        let blocked = required::<Number>(j, "blocked")?;
        let dns = required::<Number>(j, "dns")?;
        let connect = required::<Number>(j, "connect")?;
        let send = required::<Number>(j, "send")?;
        let wait = required::<Number>(j, "wait")?;
        let receive = required::<Number>(j, "receive")?;
        let ssl = required::<Number>(j, "ssl")?;
        Ok(Timings { blocked, dns, connect, send, wait, receive, ssl })
    }

    fn encode(&self) -> (r: Json) {
        let mut f: Vec<(String, Json)> = Vec::new();
        push_member(&mut f, "blocked", self.blocked.encode());
        push_member(&mut f, "dns", self.dns.encode());
        push_member(&mut f, "connect", self.connect.encode());
        push_member(&mut f, "send", self.send.encode());
        push_member(&mut f, "wait", self.wait.encode());
        push_member(&mut f, "receive", self.receive.encode());
        push_member(&mut f, "ssl", self.ssl.encode());
        proof {
            reveal_strlit("blocked");
            reveal_strlit("dns");
            reveal_strlit("connect");
            reveal_strlit("send");
            reveal_strlit("wait");
            reveal_strlit("receive");
            reveal_strlit("ssl");
            assert("blocked"@.len() == 7);
            assert("dns"@.len() == 3);
            assert("connect"@.len() == 7);
            assert("send"@.len() == 4);
            assert("wait"@.len() == 4);
            assert("receive"@.len() == 7);
            assert("ssl"@.len() == 3);
            assert("blocked"@[0] == 'b');
            assert("connect"@[0] == 'c');
            assert("receive"@[0] == 'r');
            assert("dns"@[0] == 'd');
            assert("ssl"@[0] == 's');
            assert("send"@[0] == 's');
            assert("wait"@[0] == 'w');
        }
        Json::Object(f)
    }
}

impl Wire for CacheState {
    open spec fn decode_spec(j: Json) -> Option<CacheStateView> {
        let expires = optional_spec::<String>(j, "expires"@);
        let last_access = required_spec::<String>(j, "lastAccess"@);
        let etag = required_spec::<String>(j, "eTag"@);
        let hit_count = required_spec::<i64>(j, "hitCount"@);
        if j is Object && expires is Some && last_access is Some && etag is Some && hit_count is Some {
            Some(CacheStateView {
                expires: expires->Some_0,
                last_access: last_access->Some_0,
                etag: etag->Some_0,
                hit_count: hit_count->Some_0,
            })
        } else {
            None
        }
    }

    fn decode(j: &Json) -> (r: Result<CacheState, ParseError>) {
        if !is_object(j) {
            return Err(shape_error("expected an object"));
        }
        let expires = optional::<String>(j, "expires")?;
        let last_access = required::<String>(j, "lastAccess")?;
        let etag = required::<String>(j, "eTag")?;
        let hit_count = required::<i64>(j, "hitCount")?;
        Ok(CacheState { expires, last_access, etag, hit_count })
    }

    fn encode(&self) -> (r: Json) {
        let mut f: Vec<(String, Json)> = Vec::new();
        if let Some(v) = &self.expires {
            push_member(&mut f, "expires", v.encode());
        }
        push_member(&mut f, "lastAccess", self.last_access.encode());
        push_member(&mut f, "eTag", self.etag.encode());
        push_member(&mut f, "hitCount", self.hit_count.encode());
        proof {
            reveal_strlit("expires");
            reveal_strlit("lastAccess");
            reveal_strlit("eTag");
            reveal_strlit("hitCount");
            assert("expires"@.len() == 7);
            assert("lastAccess"@.len() == 10);
            assert("eTag"@.len() == 4);
            assert("hitCount"@.len() == 8);
        }
        Json::Object(f)
    }
}

impl Wire for Cache {
    open spec fn decode_spec(j: Json) -> Option<CacheView> {
        let before_request = optional_spec::<CacheState>(j, "beforeRequest"@);
        let after_request = optional_spec::<CacheState>(j, "afterRequest"@);
        if j is Object && before_request is Some && after_request is Some {
            Some(CacheView {
                before_request: before_request->Some_0,
                after_request: after_request->Some_0,
            })
        } else {
            None
        }
    }

    fn decode(j: &Json) -> (r: Result<Cache, ParseError>) {
        if !is_object(j) {
            return Err(shape_error("expected an object"));
        }
        let before_request = optional::<CacheState>(j, "beforeRequest")?;
        let after_request = optional::<CacheState>(j, "afterRequest")?;
        Ok(Cache { before_request, after_request })
    }

    fn encode(&self) -> (r: Json) {
        let mut f: Vec<(String, Json)> = Vec::new();
        if let Some(v) = &self.before_request {
            push_member(&mut f, "beforeRequest", v.encode());
        }
        if let Some(v) = &self.after_request {
            push_member(&mut f, "afterRequest", v.encode());
        }
        proof {
            reveal_strlit("beforeRequest");
            reveal_strlit("afterRequest");
            assert("beforeRequest"@.len() == 13);
            assert("afterRequest"@.len() == 12);
        }
        Json::Object(f)
    }
}

impl Wire for Param {
    open spec fn decode_spec(j: Json) -> Option<ParamView> {
        let name = required_spec::<String>(j, "name"@);
        let value = optional_spec::<String>(j, "value"@);
        let file_name = optional_spec::<String>(j, "fileName"@);
        let content_type = optional_spec::<String>(j, "contentType"@);
        if j is Object && name is Some && value is Some && file_name is Some && content_type is Some {
            Some(ParamView {
                name: name->Some_0,
                value: value->Some_0,
                file_name: file_name->Some_0,
                content_type: content_type->Some_0,
            })
        } else {
            None
        }
    }

    fn decode(j: &Json) -> (r: Result<Param, ParseError>) {
        if !is_object(j) {
            return Err(shape_error("expected an object"));
        }
        let name = required::<String>(j, "name")?;
        let value = optional::<String>(j, "value")?;
        let file_name = optional::<String>(j, "fileName")?;
        let content_type = optional::<String>(j, "contentType")?;
        Ok(Param { name, value, file_name, content_type })
    }

    fn encode(&self) -> (r: Json) {
        let mut f: Vec<(String, Json)> = Vec::new();
        push_member(&mut f, "name", self.name.encode());
        if let Some(v) = &self.value {
            push_member(&mut f, "value", v.encode());
        }
        if let Some(v) = &self.file_name {
            push_member(&mut f, "fileName", v.encode());
        }
        if let Some(v) = &self.content_type {
            push_member(&mut f, "contentType", v.encode());
        }
        proof {
            reveal_strlit("name");
            reveal_strlit("value");
            reveal_strlit("fileName");
            reveal_strlit("contentType");
            assert("name"@.len() == 4);
            assert("value"@.len() == 5);
            assert("fileName"@.len() == 8);
            assert("contentType"@.len() == 11);
        }
        Json::Object(f)
    }
}

impl Wire for PostData {
    open spec fn decode_spec(j: Json) -> Option<PostDataView> {
        let mime_type = required_spec::<String>(j, "mimeType"@);
        let params = optional_list_spec::<Param>(j, "params"@);
        let text = optional_spec::<String>(j, "text"@);
        if j is Object && mime_type is Some && params is Some && text is Some {
            Some(PostDataView {
                mime_type: mime_type->Some_0,
                params: params->Some_0,
                text: text->Some_0,
            })
        } else {
            None
        }
    }

    fn decode(j: &Json) -> (r: Result<PostData, ParseError>) {
        if !is_object(j) {
            return Err(shape_error("expected an object"));
        }
        let mime_type = required::<String>(j, "mimeType")?;
        let params = optional_list::<Param>(j, "params")?;
        let text = optional::<String>(j, "text")?;
        Ok(PostData { mime_type, params, text })
    }

    fn encode(&self) -> (r: Json) {
        let mut f: Vec<(String, Json)> = Vec::new();
        push_member(&mut f, "mimeType", self.mime_type.encode());
        if let Some(v) = &self.params {
            push_member(&mut f, "params", encode_list(v));
        }
        if let Some(v) = &self.text {
            push_member(&mut f, "text", v.encode());
        }
        proof {
            reveal_strlit("mimeType");
            reveal_strlit("params");
            reveal_strlit("text");
            assert("mimeType"@.len() == 8);
            assert("params"@.len() == 6);
            assert("text"@.len() == 4);
        }
        Json::Object(f)
    }
}

impl Wire for Content {
    open spec fn decode_spec(j: Json) -> Option<ContentView> {
        let size = required_spec::<i64>(j, "size"@);
        let mime_type = required_spec::<String>(j, "mimeType"@);
        let text = optional_spec::<String>(j, "text"@);
        let encoding = optional_spec::<String>(j, "encoding"@);
        if j is Object && size is Some && mime_type is Some && text is Some && encoding is Some {
            Some(ContentView {
                size: size->Some_0,
                mime_type: mime_type->Some_0,
                text: text->Some_0,
                encoding: encoding->Some_0,
            })
        } else {
            None
        }
    }

    fn decode(j: &Json) -> (r: Result<Content, ParseError>) {
        if !is_object(j) {
            return Err(shape_error("expected an object"));
        }
        let size = required::<i64>(j, "size")?;
        let mime_type = required::<String>(j, "mimeType")?;
        let text = optional::<String>(j, "text")?;
        let encoding = optional::<String>(j, "encoding")?;
        Ok(Content { size, mime_type, text, encoding })
    }

    fn encode(&self) -> (r: Json) {
        let mut f: Vec<(String, Json)> = Vec::new();
        push_member(&mut f, "size", self.size.encode());
        push_member(&mut f, "mimeType", self.mime_type.encode());
        if let Some(v) = &self.text {
            push_member(&mut f, "text", v.encode());
        }
        if let Some(v) = &self.encoding {
            push_member(&mut f, "encoding", v.encode());
        }
        proof {
            reveal_strlit("size");
            reveal_strlit("mimeType");
            reveal_strlit("text");
            reveal_strlit("encoding");
            assert("size"@.len() == 4);
            assert("mimeType"@.len() == 8);
            assert("text"@.len() == 4);
            assert("encoding"@.len() == 8);
            assert("size"@[0] == 's');
            assert("text"@[0] == 't');
            assert("mimeType"@[0] == 'm');
            assert("encoding"@[0] == 'e');
        }
        Json::Object(f)
    }
}

impl Wire for Request {
    open spec fn decode_spec(j: Json) -> Option<RequestView> {
        let method = required_spec::<String>(j, "method"@);
        let url = required_spec::<String>(j, "url"@);
        let http_version = required_spec::<String>(j, "httpVersion"@);
        let cookies = required_list_spec::<NameValue>(j, "cookies"@);
        let headers = required_list_spec::<NameValue>(j, "headers"@);
        let query_string = required_list_spec::<NameValue>(j, "queryString"@);
        let post_data = optional_spec::<PostData>(j, "postData"@);
        let headers_size = required_spec::<i64>(j, "headersSize"@);
        let body_size = required_spec::<i64>(j, "bodySize"@);
        if j is Object && method is Some && url is Some && http_version is Some && cookies is Some && headers is Some && query_string is Some && post_data is Some && headers_size is Some && body_size is Some {
            Some(RequestView {
                method: method->Some_0,
                url: url->Some_0,
                http_version: http_version->Some_0,
                cookies: cookies->Some_0,
                headers: headers->Some_0,
                query_string: query_string->Some_0,
                post_data: post_data->Some_0,
                headers_size: headers_size->Some_0,
                body_size: body_size->Some_0,
            })
        } else {
            None
        }
    }

    fn decode(j: &Json) -> (r: Result<Request, ParseError>) {
        if !is_object(j) {
            return Err(shape_error("expected an object"));
        }
        let method = required::<String>(j, "method")?;
        let url = required::<String>(j, "url")?;
        let http_version = required::<String>(j, "httpVersion")?;
        let cookies = required_list::<NameValue>(j, "cookies")?;
        let headers = required_list::<NameValue>(j, "headers")?;
        let query_string = required_list::<NameValue>(j, "queryString")?;
        let post_data = optional::<PostData>(j, "postData")?;
        let headers_size = required::<i64>(j, "headersSize")?;
        let body_size = required::<i64>(j, "bodySize")?;
        Ok(Request { method, url, http_version, cookies, headers, query_string, post_data, headers_size, body_size })
    }

    fn encode(&self) -> (r: Json) {
        let mut f: Vec<(String, Json)> = Vec::new();
        push_member(&mut f, "method", self.method.encode());
        push_member(&mut f, "url", self.url.encode());
        push_member(&mut f, "httpVersion", self.http_version.encode());
        push_member(&mut f, "cookies", encode_list(&self.cookies));
        push_member(&mut f, "headers", encode_list(&self.headers));
        push_member(&mut f, "queryString", encode_list(&self.query_string));
        if let Some(v) = &self.post_data {
            push_member(&mut f, "postData", v.encode());
        }
        push_member(&mut f, "headersSize", self.headers_size.encode());
        push_member(&mut f, "bodySize", self.body_size.encode());
        proof {
            reveal_strlit("method");
            reveal_strlit("url");
            reveal_strlit("httpVersion");
            reveal_strlit("cookies");
            reveal_strlit("headers");
            reveal_strlit("queryString");
            reveal_strlit("postData");
            reveal_strlit("headersSize");
            reveal_strlit("bodySize");
            assert("method"@.len() == 6);
            assert("url"@.len() == 3);
            assert("httpVersion"@.len() == 11);
            assert("cookies"@.len() == 7);
            assert("headers"@.len() == 7);
            assert("queryString"@.len() == 11);
            assert("postData"@.len() == 8);
            assert("headersSize"@.len() == 11);
            assert("bodySize"@.len() == 8);
            assert("httpVersion"@[0] == 'h');
            assert("queryString"@[0] == 'q');
            assert("httpVersion"@[1] == 't');
            assert("headersSize"@[1] == 'e');
            assert("cookies"@[0] == 'c');
            assert("headers"@[0] == 'h');
            assert("headersSize"@[0] == 'h');
            assert("postData"@[0] == 'p');
            assert("bodySize"@[0] == 'b');
        }
        Json::Object(f)
    }
}

impl Wire for Response {
    open spec fn decode_spec(j: Json) -> Option<ResponseView> {
        let status = required_spec::<i64>(j, "status"@);
        let status_text = required_spec::<String>(j, "statusText"@);
        let http_version = required_spec::<String>(j, "httpVersion"@);
        let cookies = required_list_spec::<NameValue>(j, "cookies"@);
        let headers = required_list_spec::<NameValue>(j, "headers"@);
        let content = required_spec::<Content>(j, "content"@);
        let redirect_url = required_spec::<String>(j, "redirectURL"@);
        let headers_size = required_spec::<i64>(j, "headersSize"@);
        let body_size = required_spec::<i64>(j, "bodySize"@);
        if j is Object && status is Some && status_text is Some && http_version is Some && cookies is Some && headers is Some && content is Some && redirect_url is Some && headers_size is Some && body_size is Some {
            Some(ResponseView {
                status: status->Some_0,
                status_text: status_text->Some_0,
                http_version: http_version->Some_0,
                cookies: cookies->Some_0,
                headers: headers->Some_0,
                content: content->Some_0,
                redirect_url: redirect_url->Some_0,
                headers_size: headers_size->Some_0,
                body_size: body_size->Some_0,
            })
        } else {
            None
        }
    }

    fn decode(j: &Json) -> (r: Result<Response, ParseError>) {
        if !is_object(j) {
            return Err(shape_error("expected an object"));
        }
        let status = required::<i64>(j, "status")?;
        let status_text = required::<String>(j, "statusText")?;
        let http_version = required::<String>(j, "httpVersion")?;
        let cookies = required_list::<NameValue>(j, "cookies")?;
        let headers = required_list::<NameValue>(j, "headers")?;
        let content = required::<Content>(j, "content")?;
        let redirect_url = required::<String>(j, "redirectURL")?;
        let headers_size = required::<i64>(j, "headersSize")?;
        let body_size = required::<i64>(j, "bodySize")?;
        Ok(Response { status, status_text, http_version, cookies, headers, content, redirect_url, headers_size, body_size })
    }

    fn encode(&self) -> (r: Json) {
        let mut f: Vec<(String, Json)> = Vec::new();
        push_member(&mut f, "status", self.status.encode());
        push_member(&mut f, "statusText", self.status_text.encode());
        push_member(&mut f, "httpVersion", self.http_version.encode());
        push_member(&mut f, "cookies", encode_list(&self.cookies));
        push_member(&mut f, "headers", encode_list(&self.headers));
        push_member(&mut f, "content", self.content.encode());
        push_member(&mut f, "redirectURL", self.redirect_url.encode());
        push_member(&mut f, "headersSize", self.headers_size.encode());
        push_member(&mut f, "bodySize", self.body_size.encode());
        proof {
            reveal_strlit("status");
            reveal_strlit("statusText");
            reveal_strlit("httpVersion");
            reveal_strlit("cookies");
            reveal_strlit("headers");
            reveal_strlit("content");
            reveal_strlit("redirectURL");
            reveal_strlit("headersSize");
            reveal_strlit("bodySize");
            assert("status"@.len() == 6);
            assert("statusText"@.len() == 10);
            assert("httpVersion"@.len() == 11);
            assert("cookies"@.len() == 7);
            assert("headers"@.len() == 7);
            assert("content"@.len() == 7);
            assert("redirectURL"@.len() == 11);
            assert("headersSize"@.len() == 11);
            assert("bodySize"@.len() == 8);
            assert("httpVersion"@[0] == 'h');
            assert("redirectURL"@[0] == 'r');
            assert("httpVersion"@[1] == 't');
            assert("headersSize"@[1] == 'e');
            assert("cookies"@[0] == 'c');
            assert("headers"@[0] == 'h');
            assert("cookies"@[2] == 'o');
            assert("content"@[2] == 'n');
            assert("content"@[0] == 'c');
            assert("headersSize"@[0] == 'h');
        }
        Json::Object(f)
    }
}

impl Wire for Entry {
    open spec fn decode_spec(j: Json) -> Option<EntryView> {
        let started_date_time = required_spec::<String>(j, "startedDateTime"@);
        let time = required_spec::<Number>(j, "time"@);
        let request = required_spec::<Request>(j, "request"@);
        let response = required_spec::<Response>(j, "response"@);
        let cache = required_spec::<Cache>(j, "cache"@);
        let timings = required_spec::<Timings>(j, "timings"@);
        let server_ip_address = optional_spec::<String>(j, "serverIPAddress"@);
        let connection = optional_spec::<String>(j, "connection"@);
        if j is Object && started_date_time is Some && time is Some && request is Some && response is Some && cache is Some && timings is Some && server_ip_address is Some && connection is Some {
            Some(EntryView {
                started_date_time: started_date_time->Some_0,
                time: time->Some_0,
                request: request->Some_0,
                response: response->Some_0,
                cache: cache->Some_0,
                timings: timings->Some_0,
                server_ip_address: server_ip_address->Some_0,
                connection: connection->Some_0,
            })
        } else {
            None
        }
    }

    fn decode(j: &Json) -> (r: Result<Entry, ParseError>) {
        if !is_object(j) {
            return Err(shape_error("expected an object"));
        }
        let started_date_time = required::<String>(j, "startedDateTime")?;
        let time = required::<Number>(j, "time")?;
        let request = required::<Request>(j, "request")?;
        let response = required::<Response>(j, "response")?;
        let cache = required::<Cache>(j, "cache")?;
        let timings = required::<Timings>(j, "timings")?;
        let server_ip_address = optional::<String>(j, "serverIPAddress")?;
        let connection = optional::<String>(j, "connection")?;
        Ok(Entry { started_date_time, time, request, response, cache, timings, server_ip_address, connection })
    }

    fn encode(&self) -> (r: Json) {
        let mut f: Vec<(String, Json)> = Vec::new();
        push_member(&mut f, "startedDateTime", self.started_date_time.encode());
        push_member(&mut f, "time", self.time.encode());
        push_member(&mut f, "request", self.request.encode());
        push_member(&mut f, "response", self.response.encode());
        push_member(&mut f, "cache", self.cache.encode());
        push_member(&mut f, "timings", self.timings.encode());
        if let Some(v) = &self.server_ip_address {
            push_member(&mut f, "serverIPAddress", v.encode());
        }
        if let Some(v) = &self.connection {
            push_member(&mut f, "connection", v.encode());
        }
        proof {
            reveal_strlit("startedDateTime");
            reveal_strlit("time");
            reveal_strlit("request");
            reveal_strlit("response");
            reveal_strlit("cache");
            reveal_strlit("timings");
            reveal_strlit("serverIPAddress");
            reveal_strlit("connection");
            assert("startedDateTime"@.len() == 15);
            assert("time"@.len() == 4);
            assert("request"@.len() == 7);
            assert("response"@.len() == 8);
            assert("cache"@.len() == 5);
            assert("timings"@.len() == 7);
            assert("serverIPAddress"@.len() == 15);
            assert("connection"@.len() == 10);
            assert("startedDateTime"@[1] == 't');
            assert("serverIPAddress"@[1] == 'e');
            assert("request"@[0] == 'r');
            assert("timings"@[0] == 't');
        }
        Json::Object(f)
    }
}

impl Wire for Log {
    open spec fn decode_spec(j: Json) -> Option<LogView> {
        let version = required_spec::<String>(j, "version"@);
        let creator = required_spec::<Software>(j, "creator"@);
        let browser = optional_spec::<Software>(j, "browser"@);
        let pages = optional_list_spec::<Page>(j, "pages"@);
        let entries = required_list_spec::<Entry>(j, "entries"@);
        if j is Object && version is Some && creator is Some && browser is Some && pages is Some && entries is Some {
            Some(LogView {
                version: version->Some_0,
                creator: creator->Some_0,
                browser: browser->Some_0,
                pages: pages->Some_0,
                entries: entries->Some_0,
            })
        } else {
            None
        }
    }

    fn decode(j: &Json) -> (r: Result<Log, ParseError>) {
        if !is_object(j) {
            return Err(shape_error("expected an object"));
        }
        let version = required::<String>(j, "version")?;
        let creator = required::<Software>(j, "creator")?;
        let browser = optional::<Software>(j, "browser")?;
        let pages = optional_list::<Page>(j, "pages")?;
        let entries = required_list::<Entry>(j, "entries")?;
        Ok(Log { version, creator, browser, pages, entries })
    }

    fn encode(&self) -> (r: Json) {
        let mut f: Vec<(String, Json)> = Vec::new();
        push_member(&mut f, "version", self.version.encode());
        push_member(&mut f, "creator", self.creator.encode());
        if let Some(v) = &self.browser {
            push_member(&mut f, "browser", v.encode());
        }
        if let Some(v) = &self.pages {
            push_member(&mut f, "pages", encode_list(v));
        }
        push_member(&mut f, "entries", encode_list(&self.entries));
        proof {
            reveal_strlit("version");
            reveal_strlit("creator");
            reveal_strlit("browser");
            reveal_strlit("pages");
            reveal_strlit("entries");
            assert("version"@.len() == 7);
            assert("creator"@.len() == 7);
            assert("browser"@.len() == 7);
            assert("pages"@.len() == 5);
            assert("entries"@.len() == 7);
            assert("version"@[0] == 'v');
            assert("creator"@[0] == 'c');
            assert("browser"@[0] == 'b');
            assert("entries"@[0] == 'e');
        }
        Json::Object(f)
    }
}

impl Wire for Archive {
    open spec fn decode_spec(j: Json) -> Option<ArchiveView> {
        let log = required_spec::<Log>(j, "log"@);
        if j is Object && log is Some {
            Some(ArchiveView {
                log: log->Some_0,
            })
        } else {
            None
        }
    }

    fn decode(j: &Json) -> (r: Result<Archive, ParseError>) {
        if !is_object(j) {
            return Err(shape_error("expected an object"));
        }
        let log = required::<Log>(j, "log")?;
        Ok(Archive { log })
    }

    fn encode(&self) -> (r: Json) {
        let mut f: Vec<(String, Json)> = Vec::new();
        push_member(&mut f, "log", self.log.encode());
        proof {
            reveal_strlit("log");
            assert("log"@.len() == 3);
        }
        Json::Object(f)
    }
}


} // verus!
