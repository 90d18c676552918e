use vstd::prelude::*;

use crate::wire::{opt_view, views};

verus! {

/// A name/value pair: a header, a cookie or a query-string parameter.
/// Pairs are kept in sequences, never keyed by name: names may repeat.
#[derive(Clone, Debug)]
pub struct NameValue {
    pub name: String,
    pub value: String,
}

/// What a `NameValue` holds, as mathematical values.
pub struct NameValueView {
    pub name: Seq<char>,
    pub value: Seq<char>,
}

impl View for NameValue {
    type V = NameValueView;

    open spec fn view(&self) -> NameValueView {
        NameValueView { name: self.name@, value: self.value@ }
    }
}

/// The program that wrote the archive, or the browser it captured from.
#[derive(Clone, Debug)]
pub struct Software {
    pub name: String,
    pub version: String,
}

/// What a `Software` holds, as mathematical values.
pub struct SoftwareView {
    pub name: Seq<char>,
    pub version: Seq<char>,
}

impl View for Software {
    type V = SoftwareView;

    open spec fn view(&self) -> SoftwareView {
        SoftwareView { name: self.name@, version: self.version@ }
    }
}

/// A page whose loading the archive records.
#[derive(Clone, Debug)]
pub struct Page {
    pub id: String,
    pub title: String,
    pub started_date_time: String,
}

/// What a `Page` holds, as mathematical values.
pub struct PageView {
    pub id: Seq<char>,
    pub title: Seq<char>,
    pub started_date_time: Seq<char>,
}

impl View for Page {
    type V = PageView;

    open spec fn view(&self) -> PageView {
        PageView { id: self.id@, title: self.title@, started_date_time: self.started_date_time@ }
    }
}

/// A JSON number as the archive holds it: an integer in the range of `i64`,
/// or any other number as its decimal text, passed through unchanged.
#[derive(Clone, Debug)]
pub enum Number {
    Int(i64),
    Decimal(String),
}

/// What a `Number` holds, as mathematical values.
pub enum NumberView {
    Int(i64),
    Decimal(Seq<char>),
}

impl View for Number {
    type V = NumberView;

    open spec fn view(&self) -> NumberView {
        match self {
            Number::Int(n) => NumberView::Int(*n),
            Number::Decimal(s) => NumberView::Decimal(s@),
        }
    }
}

/// Time spent in each phase of a transaction, in milliseconds.
#[derive(Clone, Debug)]
pub struct Timings {
    pub blocked: Number,
    pub dns: Number,
    pub connect: Number,
    pub send: Number,
    pub wait: Number,
    pub receive: Number,
    pub ssl: Number,
}

/// What a `Timings` holds, as mathematical values.
pub struct TimingsView {
    pub blocked: NumberView,
    pub dns: NumberView,
    pub connect: NumberView,
    pub send: NumberView,
    pub wait: NumberView,
    pub receive: NumberView,
    pub ssl: NumberView,
}

impl View for Timings {
    type V = TimingsView;

    open spec fn view(&self) -> TimingsView {
        TimingsView {
            blocked: self.blocked@,
            dns: self.dns@,
            connect: self.connect@,
            send: self.send@,
            wait: self.wait@,
            receive: self.receive@,
            ssl: self.ssl@,
        }
    }
}

/// The state of a cache entry before or after a request.
#[derive(Clone, Debug)]
pub struct CacheState {
    pub expires: Option<String>,
    pub last_access: String,
    pub etag: String,
    pub hit_count: i64,
}

/// What a `CacheState` holds, as mathematical values.
pub struct CacheStateView {
    pub expires: Option<Seq<char>>,
    pub last_access: Seq<char>,
    pub etag: Seq<char>,
    pub hit_count: i64,
}

impl View for CacheState {
    type V = CacheStateView;

    open spec fn view(&self) -> CacheStateView {
        CacheStateView {
            expires: opt_view(self.expires),
            last_access: self.last_access@,
            etag: self.etag@,
            hit_count: self.hit_count,
        }
    }
}

/// What the cache held around one transaction.
#[derive(Clone, Debug)]
pub struct Cache {
    pub before_request: Option<CacheState>,
    pub after_request: Option<CacheState>,
}

/// What a `Cache` holds, as mathematical values.
pub struct CacheView {
    pub before_request: Option<CacheStateView>,
    pub after_request: Option<CacheStateView>,
}

impl View for Cache {
    type V = CacheView;

    open spec fn view(&self) -> CacheView {
        CacheView {
            before_request: opt_view(self.before_request),
            after_request: opt_view(self.after_request),
        }
    }
}

/// One parameter of a submitted form.
#[derive(Clone, Debug)]
pub struct Param {
    pub name: String,
    pub value: Option<String>,
    pub file_name: Option<String>,
    pub content_type: Option<String>,
}

/// What a `Param` holds, as mathematical values.
pub struct ParamView {
    pub name: Seq<char>,
    pub value: Option<Seq<char>>,
    pub file_name: Option<Seq<char>>,
    pub content_type: Option<Seq<char>>,
}

impl View for Param {
    type V = ParamView;

    open spec fn view(&self) -> ParamView {
        ParamView {
            name: self.name@,
            value: opt_view(self.value),
            file_name: opt_view(self.file_name),
            content_type: opt_view(self.content_type),
        }
    }
}

/// The body of a request.
#[derive(Clone, Debug)]
pub struct PostData {
    pub mime_type: String,
    pub text: Option<String>,
    pub params: Option<Vec<Param>>,
}

/// What a `PostData` holds, as mathematical values.
pub struct PostDataView {
    pub mime_type: Seq<char>,
    pub text: Option<Seq<char>>,
    pub params: Option<Seq<ParamView>>,
}

/// The views of the items of an optional sequence.
pub open spec fn opt_views<T: View>(o: Option<Vec<T>>) -> Option<Seq<T::V>> {
    match o {
        Some(v) => Some(views(v@)),
        None => None,
    }
}

impl View for PostData {
    type V = PostDataView;

    open spec fn view(&self) -> PostDataView {
        PostDataView {
            mime_type: self.mime_type@,
            text: opt_view(self.text),
            params: opt_views(self.params),
        }
    }
}

/// The body of a response.
#[derive(Clone, Debug)]
pub struct Content {
    pub size: i64,
    pub mime_type: String,
    pub text: Option<String>,
    pub encoding: Option<String>,
}

/// What a `Content` holds, as mathematical values.
pub struct ContentView {
    pub size: i64,
    pub mime_type: Seq<char>,
    pub text: Option<Seq<char>>,
    pub encoding: Option<Seq<char>>,
}

impl View for Content {
    type V = ContentView;

    open spec fn view(&self) -> ContentView {
        ContentView {
            size: self.size,
            mime_type: self.mime_type@,
            text: opt_view(self.text),
            encoding: opt_view(self.encoding),
        }
    }
}

/// A captured request.
#[derive(Clone, Debug)]
pub struct Request {
    pub method: String,
    pub url: String,
    pub http_version: String,
    pub cookies: Vec<NameValue>,
    pub headers: Vec<NameValue>,
    pub query_string: Vec<NameValue>,
    pub post_data: Option<PostData>,
    pub headers_size: i64,
    pub body_size: i64,
}

/// What a `Request` holds, as mathematical values.
pub struct RequestView {
    pub method: Seq<char>,
    pub url: Seq<char>,
    pub http_version: Seq<char>,
    pub cookies: Seq<NameValueView>,
    pub headers: Seq<NameValueView>,
    pub query_string: Seq<NameValueView>,
    pub post_data: Option<PostDataView>,
    pub headers_size: i64,
    pub body_size: i64,
}

impl View for Request {
    type V = RequestView;

    open spec fn view(&self) -> RequestView {
        RequestView {
            method: self.method@,
            url: self.url@,
            http_version: self.http_version@,
            cookies: views(self.cookies@),
            headers: views(self.headers@),
            query_string: views(self.query_string@),
            post_data: opt_view(self.post_data),
            headers_size: self.headers_size,
            body_size: self.body_size,
        }
    }
}

/// A captured response.
#[derive(Clone, Debug)]
pub struct Response {
    pub status: i64,
    pub status_text: String,
    pub http_version: String,
    pub cookies: Vec<NameValue>,
    pub headers: Vec<NameValue>,
    pub content: Content,
    pub redirect_url: String,
    pub headers_size: i64,
    pub body_size: i64,
}

/// What a `Response` holds, as mathematical values.
pub struct ResponseView {
    pub status: i64,
    pub status_text: Seq<char>,
    pub http_version: Seq<char>,
    pub cookies: Seq<NameValueView>,
    pub headers: Seq<NameValueView>,
    pub content: ContentView,
    pub redirect_url: Seq<char>,
    pub headers_size: i64,
    pub body_size: i64,
}

impl View for Response {
    type V = ResponseView;

    open spec fn view(&self) -> ResponseView {
        ResponseView {
            status: self.status,
            status_text: self.status_text@,
            http_version: self.http_version@,
            cookies: views(self.cookies@),
            headers: views(self.headers@),
            content: self.content@,
            redirect_url: self.redirect_url@,
            headers_size: self.headers_size,
            body_size: self.body_size,
        }
    }
}

/// One captured transaction.
#[derive(Clone, Debug)]
pub struct Entry {
    pub started_date_time: String,
    pub time: Number,
    pub request: Request,
    pub response: Response,
    pub cache: Cache,
    pub timings: Timings,
    pub server_ip_address: Option<String>,
    pub connection: Option<String>,
}

/// What a `Entry` holds, as mathematical values.
pub struct EntryView {
    pub started_date_time: Seq<char>,
    pub time: NumberView,
    pub request: RequestView,
    pub response: ResponseView,
    pub cache: CacheView,
    pub timings: TimingsView,
    pub server_ip_address: Option<Seq<char>>,
    pub connection: Option<Seq<char>>,
}

impl View for Entry {
    type V = EntryView;

    open spec fn view(&self) -> EntryView {
        EntryView {
            started_date_time: self.started_date_time@,
            time: self.time@,
            request: self.request@,
            response: self.response@,
            cache: self.cache@,
            timings: self.timings@,
            server_ip_address: opt_view(self.server_ip_address),
            connection: opt_view(self.connection),
        }
    }
}

/// The log: who wrote it, the pages, and the entries in capture order.
#[derive(Clone, Debug)]
pub struct Log {
    pub version: String,
    pub creator: Software,
    pub browser: Option<Software>,
    pub pages: Option<Vec<Page>>,
    pub entries: Vec<Entry>,
}

/// What a `Log` holds, as mathematical values.
pub struct LogView {
    pub version: Seq<char>,
    pub creator: SoftwareView,
    pub browser: Option<SoftwareView>,
    pub pages: Option<Seq<PageView>>,
    pub entries: Seq<EntryView>,
}

impl View for Log {
    type V = LogView;

    open spec fn view(&self) -> LogView {
        LogView {
            version: self.version@,
            creator: self.creator@,
            browser: opt_view(self.browser),
            pages: opt_views(self.pages),
            entries: views(self.entries@),
        }
    }
}

/// An HTTP archive.
#[derive(Clone, Debug)]
pub struct Archive {
    pub log: Log,
}

/// What a `Archive` holds, as mathematical values.
pub struct ArchiveView {
    pub log: LogView,
}

impl View for Archive {
    type V = ArchiveView;

    open spec fn view(&self) -> ArchiveView {
        ArchiveView { log: self.log@ }
    }
}

} // verus!
