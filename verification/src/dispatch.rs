//! From a decoded request to what is done with it.
//!
//! The path is brought to its normal form and looked up among the routes.
//! A route leads to a redirect, to the login page, to a script, or to
//! content that is sent as it is.

use vstd::prelude::*;
use crate::collections::NameMap;
use crate::constants::{
    JWT_USER,
    NOTIFICATION_PREFIX_REQUEST,
    NOTIFICATION_PREFIX_RESPONSE,
    PROGRAM_NAME,
    REQUESTS_TABLE,
    RESPONSE_TABLE,
};
use crate::crypto::{jwt_claims, jwt_to_map};
use crate::http::{media_type, media_type_of, Header, HeaderView, ResponseDraft};
use crate::paths::{normalize_path, normalize_path_spec};
use crate::tasks::{
    is_message,
    lemma_released_exactly_once,
    message_tasks,
    released_count,
    GiveUp,
    JSTask,
    RequestUrl,
    ServletTask,
};
use crate::text::{
    begins_with,
    chars_of,
    pair_views,
    push_str,
    same_text,
    starts_with,
    string_of,
    tail_of,
    texts,
};
use crate::words::{pieces_view, split, split_on, trim, trimmed};

verus! {

/// What a route says.
#[derive(Clone, Debug)]
pub struct RequestInfo {
    /// The name of the response, or the address to redirect to.
    pub name: String,
    /// The content type under which the route answers.
    pub mime: String,
    pub redirect: bool,
    pub authorize: bool,
    /// Whether the route runs a script.
    pub execute: bool,
    pub dynamic: bool,
}

/// A [`RequestInfo`] as a mathematical value.
pub struct RequestInfoView {
    pub name: Seq<char>,
    pub mime: Seq<char>,
    pub redirect: bool,
    pub authorize: bool,
    pub execute: bool,
    pub dynamic: bool,
}

impl View for RequestInfo {
    type V = RequestInfoView;

    open spec fn view(&self) -> RequestInfoView {
        RequestInfoView {
            name: self.name@,
            mime: self.mime@,
            redirect: self.redirect,
            authorize: self.authorize,
            execute: self.execute,
            dynamic: self.dynamic,
        }
    }
}

impl RequestInfo {
    /// What a row of the table of routes says. The content type is kept
    /// as the media type that it writes, rendered anew; a row whose
    /// content type writes no media type says nothing.
    pub fn from_row(
        name: String,
        mime: &str,
        redirect: bool,
        authorize: bool,
        execute: bool,
        dynamic: bool,
    ) -> (r: Option<Self>)
        ensures
            match media_type_of(mime@) {
                Some(m) => r matches Some(info) && info@ == (RequestInfoView {
                    name: name@,
                    mime: m,
                    redirect,
                    authorize,
                    execute,
                    dynamic,
                }),
                None => r is None,
            },
    {
        match media_type(mime) {
            Some(mime) => Some(RequestInfo { name, mime, redirect, authorize, execute, dynamic }),
            None => None,
        }
    }
}

/// One row of the table of routes.
#[derive(Clone, Debug)]
pub struct RequestRow {
    pub path: String,
    pub info: RequestInfo,
}

/// What is known of a response without its content.
#[derive(Clone, Debug)]
pub struct ResponseInfo {
    pub mime: String,
    pub execute: bool,
    pub transpile: bool,
}

/// A [`ResponseInfo`] as a mathematical value.
pub struct ResponseInfoView {
    pub mime: Seq<char>,
    pub execute: bool,
    pub transpile: bool,
}

impl View for ResponseInfo {
    type V = ResponseInfoView;

    open spec fn view(&self) -> ResponseInfoView {
        ResponseInfoView { mime: self.mime@, execute: self.execute, transpile: self.transpile }
    }
}

impl ResponseInfo {
    /// What a row of the table of responses says. The content type is
    /// kept as the media type that it writes, rendered anew; a row whose
    /// content type writes no media type says nothing.
    pub fn from_row(mime: &str, execute: bool, transpile: bool) -> (r: Option<Self>)
        ensures
            match media_type_of(mime@) {
                Some(m) => r matches Some(info) && info@ == (ResponseInfoView {
                    mime: m,
                    execute,
                    transpile,
                }),
                None => r is None,
            },
    {
        match media_type(mime) {
            Some(mime) => Some(ResponseInfo { mime, execute, transpile }),
            None => None,
        }
    }
}

/// One row of the table of responses.
#[derive(Clone, Debug)]
pub struct ResponseRow {
    pub name: String,
    pub info: ResponseInfo,
}

/// What the last row for `path` says, if a row is for it.
pub open spec fn last_request(rows: Seq<RequestRow>, path: Seq<char>) -> Option<RequestInfoView>
    decreases rows.len(),
{
    if rows.len() == 0 {
        None
    } else if rows.last().path@ == path {
        Some(rows.last().info@)
    } else {
        last_request(rows.drop_last(), path)
    }
}

/// What the last row for `name` says, if a row is for it.
pub open spec fn last_response(rows: Seq<ResponseRow>, name: Seq<char>) -> Option<
    ResponseInfoView,
>
    decreases rows.len(),
{
    if rows.len() == 0 {
        None
    } else if rows.last().name@ == name {
        Some(rows.last().info@)
    } else {
        last_response(rows.drop_last(), name)
    }
}

/// The view of a route that may be missing.
pub open spec fn request_view(info: Option<RequestInfo>) -> Option<RequestInfoView> {
    match info {
        Some(i) => Some(i@),
        None => None,
    }
}

/// The view of a response that may be missing.
pub open spec fn response_view(info: Option<ResponseInfo>) -> Option<ResponseInfoView> {
    match info {
        Some(i) => Some(i@),
        None => None,
    }
}

/// The cache of the table of routes.
pub struct RequestManager {
    cache: NameMap<RequestInfo>,
}

impl RequestManager {
    /// The cache is one that the operations below keep up.
    pub closed spec fn wf(&self) -> bool {
        self.cache.wf()
    }

    /// What the cache says of `path`.
    pub closed spec fn entry(&self, path: Seq<char>) -> Option<RequestInfoView> {
        request_view(self.cache.lookup(path))
    }

    /// An empty cache.
    pub fn new() -> (m: Self)
        ensures
            m.wf(),
            forall|p: Seq<char>| (#[trigger] m.entry(p)) is None,
    {
        RequestManager { cache: NameMap::new() }
    }

    /// The query that reads the table of routes.
    pub fn reload_query() -> (q: String)
        ensures
            q@
                == "SELECT request_path, response_name, request_mime_type, redirect_flag, authorize_flag, execute_flag, dynamic_flag FROM "@
                + REQUESTS_TABLE@,
    {
        let mut buf: Vec<char> = Vec::new();
        push_str(
            &mut buf,
            "SELECT request_path, response_name, request_mime_type, redirect_flag, authorize_flag, execute_flag, dynamic_flag FROM ",
        );
        push_str(&mut buf, REQUESTS_TABLE);
        string_of(&buf)
    }

    /// Replaces what the cache holds by what `rows` say; of two rows for
    /// one path the later counts.
    pub fn reload_requests(&mut self, rows: Vec<RequestRow>)
        ensures
            final(self).wf(),
            forall|p: Seq<char>| #[trigger] final(self).entry(p) == last_request(rows@, p),
    {
        let mut cache: NameMap<RequestInfo> = NameMap::new();
        let mut i: usize = 0;
        proof {
            assert(rows@.take(0) =~= Seq::<RequestRow>::empty());
        }
        while i < rows.len()
            invariant
                i <= rows.len(),
                cache.wf(),
                forall|p: Seq<char>| #[trigger]
                    request_view(cache.lookup(p)) == last_request(rows@.take(i as int), p),
            decreases rows.len() - i,
        {
            let row = &rows[i];
            let info = RequestInfo {
                name: row.info.name.clone(),
                mime: row.info.mime.clone(),
                redirect: row.info.redirect,
                authorize: row.info.authorize,
                execute: row.info.execute,
                dynamic: row.info.dynamic,
            };
            let ghost before = cache;
            cache.insert(row.path.clone(), info);
            proof {
                assert(rows@.take(i + 1).drop_last() =~= rows@.take(i as int));
                assert(rows@.take(i + 1).last() == rows@[i as int]);
                assert forall|p: Seq<char>| #[trigger]
                    request_view(cache.lookup(p)) == last_request(rows@.take(i + 1), p) by {
                    assert(request_view(before.lookup(p)) == last_request(
                        rows@.take(i as int),
                        p,
                    ));
                }
            }
            i += 1;
        }
        proof {
            assert(rows@.take(rows.len() as int) =~= rows@);
        }
        self.cache = cache;
    }

    /// The query that reads one route; its parameter is the path.
    pub fn point_query() -> (q: String)
        ensures
            q@
                == "SELECT response_name, request_mime_type, redirect_flag, authorize_flag, execute_flag, dynamic_flag FROM "@
                + REQUESTS_TABLE@ + " WHERE request_path = $1"@,
    {
        let mut buf: Vec<char> = Vec::new();
        push_str(
            &mut buf,
            "SELECT response_name, request_mime_type, redirect_flag, authorize_flag, execute_flag, dynamic_flag FROM ",
        );
        push_str(&mut buf, REQUESTS_TABLE);
        push_str(&mut buf, " WHERE request_path = $1");
        string_of(&buf)
    }

    /// The route for `path`, if there is one.
    pub fn get_request(&self, path: &String) -> (r: Option<RequestInfo>)
        requires
            self.wf(),
        ensures
            request_view(r) == self.entry(path@),
    {
        match self.cache.get(path.as_str()) {
            Some(info) => Some(
                RequestInfo {
                    name: info.name.clone(),
                    mime: info.mime.clone(),
                    redirect: info.redirect,
                    authorize: info.authorize,
                    execute: info.execute,
                    dynamic: info.dynamic,
                },
            ),
            None => None,
        }
    }

    /// Whether a notification asks for the routes to be read again: it
    /// does where its text begins with the prefix of the routes.
    pub fn invalidator(message: &str) -> (reload: bool)
        ensures
            reload == begins_with(message@, NOTIFICATION_PREFIX_REQUEST@),
    {
        let m = chars_of(message);
        let p = chars_of(NOTIFICATION_PREFIX_REQUEST);
        starts_with(&m, &p)
    }
}

/// What the responses do with a notification.
pub struct ResponseInvalidation {
    /// Whether the table of responses is read again.
    pub reload: bool,
    /// The message tasks that go to the isolates.
    pub tasks: Vec<JSTask>,
}

/// The cache of the table of responses, and the number of isolates that
/// run its scripts.
pub struct ResponseManager {
    js_thread_count: usize,
    cache: NameMap<ResponseInfo>,
}

/// The query that reads the content of a response as it was stored; its
/// parameter is the name.
pub open spec fn content_statement() -> Seq<char> {
    "SELECT response_content FROM "@ + RESPONSE_TABLE@ + " WHERE response_name = $1"@
}

/// The query that reads the content of a response as it is served: the
/// transpiled script where the response asks for it, else the content as
/// it was stored; its parameter is the name.
pub open spec fn javascript_statement() -> Seq<char> {
    "SELECT (CASE WHEN transpile_flag THEN javascript ELSE response_content END) FROM "@
        + RESPONSE_TABLE@ + " WHERE response_name = $1"@
}

/// The text that reports that no response has the name.
pub open spec fn missing_response(name: Seq<char>) -> Seq<char> {
    "response '"@ + name + "' does not exist in database"@
}

impl ResponseManager {
    /// The cache is one that the operations below keep up.
    pub closed spec fn wf(&self) -> bool {
        self.cache.wf()
    }

    /// What the cache says of `name`.
    pub closed spec fn entry(&self, name: Seq<char>) -> Option<ResponseInfoView> {
        response_view(self.cache.lookup(name))
    }

    /// The number of isolates.
    pub closed spec fn isolates(&self) -> usize {
        self.js_thread_count
    }

    /// An empty cache for a server with `js_thread_count` isolates.
    pub fn new(js_thread_count: usize) -> (m: Self)
        ensures
            m.wf(),
            m.isolates() == js_thread_count,
            forall|p: Seq<char>| (#[trigger] m.entry(p)) is None,
    {
        ResponseManager { js_thread_count, cache: NameMap::new() }
    }

    /// The query that reads the table of responses.
    pub fn reload_query() -> (q: String)
        ensures
            q@ == "SELECT response_name, response_mime_type, execute_flag, transpile_flag FROM "@
                + RESPONSE_TABLE@,
    {
        let mut buf: Vec<char> = Vec::new();
        push_str(
            &mut buf,
            "SELECT response_name, response_mime_type, execute_flag, transpile_flag FROM ",
        );
        push_str(&mut buf, RESPONSE_TABLE);
        string_of(&buf)
    }

    /// Replaces what the cache holds by what `rows` say; of two rows for
    /// one name the later counts.
    pub fn reload_responses(&mut self, rows: Vec<ResponseRow>)
        ensures
            final(self).wf(),
            final(self).isolates() == old(self).isolates(),
            forall|p: Seq<char>| #[trigger] final(self).entry(p) == last_response(rows@, p),
    {
        let mut cache: NameMap<ResponseInfo> = NameMap::new();
        let mut i: usize = 0;
        proof {
            assert(rows@.take(0) =~= Seq::<ResponseRow>::empty());
        }
        while i < rows.len()
            invariant
                i <= rows.len(),
                cache.wf(),
                forall|p: Seq<char>| #[trigger]
                    response_view(cache.lookup(p)) == last_response(rows@.take(i as int), p),
            decreases rows.len() - i,
        {
            let row = &rows[i];
            let info = ResponseInfo {
                mime: row.info.mime.clone(),
                execute: row.info.execute,
                transpile: row.info.transpile,
            };
            let ghost before = cache;
            cache.insert(row.name.clone(), info);
            proof {
                assert(rows@.take(i + 1).drop_last() =~= rows@.take(i as int));
                assert(rows@.take(i + 1).last() == rows@[i as int]);
                assert forall|p: Seq<char>| #[trigger]
                    response_view(cache.lookup(p)) == last_response(rows@.take(i + 1), p) by {
                    assert(response_view(before.lookup(p)) == last_response(
                        rows@.take(i as int),
                        p,
                    ));
                }
            }
            i += 1;
        }
        proof {
            assert(rows@.take(rows.len() as int) =~= rows@);
        }
        self.cache = cache;
    }

    /// The query that reads what is known of one response; its parameter is
    /// the name.
    pub fn point_query() -> (q: String)
        ensures
            q@ == "SELECT response_mime_type, execute_flag, transpile_flag FROM "@
                + RESPONSE_TABLE@ + " WHERE response_name = $1"@,
    {
        let mut buf: Vec<char> = Vec::new();
        push_str(&mut buf, "SELECT response_mime_type, execute_flag, transpile_flag FROM ");
        push_str(&mut buf, RESPONSE_TABLE);
        push_str(&mut buf, " WHERE response_name = $1");
        string_of(&buf)
    }

    /// What is known of the response `name`, if there is one.
    pub fn get_response(&self, name: &str) -> (r: Option<ResponseInfo>)
        requires
            self.wf(),
        ensures
            response_view(r) == self.entry(name@),
    {
        match self.cache.get(name) {
            Some(info) => Some(
                ResponseInfo {
                    mime: info.mime.clone(),
                    execute: info.execute,
                    transpile: info.transpile,
                },
            ),
            None => None,
        }
    }

    /// What a notification asks of the responses: the table is read again
    /// where the text begins with the prefix of the responses, and every
    /// notification goes to each isolate as a message task.
    pub fn invalidator(&self, message: &str) -> (r: ResponseInvalidation)
        ensures
            r.reload == begins_with(message@, NOTIFICATION_PREFIX_RESPONSE@),
            r.tasks@.len() == self.isolates(),
            forall|i: int| 0 <= i < r.tasks@.len() ==> is_message(#[trigger] r.tasks@[i], message@),
    {
        let m = chars_of(message);
        let p = chars_of(NOTIFICATION_PREFIX_RESPONSE);
        ResponseInvalidation {
            reload: starts_with(&m, &p),
            tasks: message_tasks(message, self.js_thread_count),
        }
    }

    /// The query that reads the content of a response as it was stored.
    pub fn get_response_bytes() -> (q: String)
        ensures
            q@ == content_statement(),
    {
        let mut buf: Vec<char> = Vec::new();
        push_str(&mut buf, "SELECT response_content FROM ");
        push_str(&mut buf, RESPONSE_TABLE);
        push_str(&mut buf, " WHERE response_name = $1");
        string_of(&buf)
    }

    /// The query that reads the content of a response as it is served.
    pub fn get_response_javascript() -> (q: String)
        ensures
            q@ == javascript_statement(),
    {
        let mut buf: Vec<char> = Vec::new();
        push_str(
            &mut buf,
            "SELECT (CASE WHEN transpile_flag THEN javascript ELSE response_content END) FROM ",
        );
        push_str(&mut buf, RESPONSE_TABLE);
        push_str(&mut buf, " WHERE response_name = $1");
        string_of(&buf)
    }

    /// The content that the table gave for `name`, or the text that
    /// reports that no response has the name.
    pub fn content_of(name: &str, row: Option<Vec<u8>>) -> (r: Result<Vec<u8>, String>)
        ensures
            match row {
                Some(bytes) => r == Ok::<Vec<u8>, String>(bytes),
                None => r matches Err(e) && e@ == missing_response(name@),
            },
    {
        match row {
            Some(bytes) => Ok(bytes),
            None => {
                let mut buf: Vec<char> = Vec::new();
                push_str(&mut buf, "response '");
                push_str(&mut buf, name);
                push_str(&mut buf, "' does not exist in database");
                Err(string_of(&buf))
            },
        }
    }

    /// The task that hands a request to a script: the module is the
    /// response that the route names, and the pending response has the
    /// status 200 and the content type of the route.
    pub fn serve_dynamic(
        method: String,
        request_path: String,
        url: RequestUrl,
        request_info: &RequestInfo,
        connection: u64,
        user: String,
        body: String,
    ) -> (task: JSTask)
        ensures
            task matches JSTask::Servlet(servlet) && {
                &&& servlet.method == method
                &&& servlet.request_path == request_path
                &&& servlet.url == url
                &&& servlet.user == user
                &&& servlet.body == body
                &&& servlet.connection == connection
                &&& servlet.js_module@ == request_info.name@
                &&& servlet.response@.status == 200
                &&& servlet.response@.headers == seq![
                    HeaderView { name: "content-type"@, value: request_info.mime@ },
                ]
                &&& servlet.response@.body.len() == 0
            },
    {
        let mut headers: Vec<Header> = Vec::new();
        let h = Header { name: "content-type".to_owned(), value: request_info.mime.clone() };
        headers.push(h);
        let response = ResponseDraft { status: 200, headers, body: Vec::new() };
        assert(response@.headers =~= seq![
            HeaderView { name: "content-type"@, value: request_info.mime@ },
        ]);
        JSTask::Servlet(
            ServletTask {
                method,
                request_path,
                js_module: request_info.name.clone(),
                url,
                user,
                body,
                response,
                connection,
            },
        )
    }

    /// The response that sends content as it is: the status 200, the
    /// content type of the route, and the content as the body.
    pub fn serve_static(request_info: &RequestInfo, content: Vec<u8>) -> (r: ResponseDraft)
        ensures
            r@.status == 200,
            r@.headers == seq![HeaderView { name: "content-type"@, value: request_info.mime@ }],
            r@.body == content@,
    {
        let mut headers: Vec<Header> = Vec::new();
        let h = Header { name: "content-type".to_owned(), value: request_info.mime.clone() };
        headers.push(h);
        let r = ResponseDraft { status: 200, headers, body: content };
        assert(r@.headers =~= seq![
            HeaderView { name: "content-type"@, value: request_info.mime@ },
        ]);
        r
    }
}

/// The prefix of the cookie that carries a token.
pub open spec fn cookie_prefix() -> Seq<char> {
    "nino="@
}

/// The prefix of the authorization that carries a token.
pub open spec fn bearer_prefix() -> Seq<char> {
    "Bearer "@
}

/// The tokens among the pieces of a cookie header: every piece that,
/// trimmed, begins with the cookie's name and an equals sign gives what
/// follows them.
pub open spec fn tokens_of_pieces(pieces: Seq<Seq<char>>) -> Seq<Seq<char>>
    decreases pieces.len(),
{
    if pieces.len() == 0 {
        Seq::empty()
    } else {
        let init = tokens_of_pieces(pieces.drop_last());
        let t = trimmed(pieces.last());
        if begins_with(t, cookie_prefix()) {
            init.push(t.skip(cookie_prefix().len() as int))
        } else {
            init
        }
    }
}

/// The tokens that cookie headers carry, in order.
pub open spec fn cookie_tokens(cookies: Seq<Seq<char>>) -> Seq<Seq<char>>
    decreases cookies.len(),
{
    if cookies.len() == 0 {
        Seq::empty()
    } else {
        cookie_tokens(cookies.drop_last()) + tokens_of_pieces(split_on(cookies.last(), ';'))
    }
}

/// The tokens that authorization headers carry, in order: every value that
/// begins with `Bearer ` gives what follows, trimmed.
pub open spec fn bearer_tokens(authorizations: Seq<Seq<char>>) -> Seq<Seq<char>>
    decreases authorizations.len(),
{
    if authorizations.len() == 0 {
        Seq::empty()
    } else {
        let init = bearer_tokens(authorizations.drop_last());
        let a = authorizations.last();
        if begins_with(a, bearer_prefix()) {
            init.push(trimmed(a.skip(bearer_prefix().len() as int)))
        } else {
            init
        }
    }
}

/// The tokens that a request carries: those of its cookies, then those of
/// its authorizations.
pub open spec fn token_candidates(
    cookies: Seq<Seq<char>>,
    authorizations: Seq<Seq<char>>,
) -> Seq<Seq<char>> {
    cookie_tokens(cookies) + bearer_tokens(authorizations)
}

/// The tokens that a request carries in its cookie and authorization
/// headers, in the order in which they are tried.
pub fn credentials(cookies: &Vec<String>, authorizations: &Vec<String>) -> (tokens: Vec<String>)
    ensures
        texts(tokens@) == token_candidates(texts(cookies@), texts(authorizations@)),
{
    let prefix = chars_of("nino=");
    let bearer = chars_of("Bearer ");
    let mut tokens: Vec<String> = Vec::new();
    let ghost all_cookies = texts(cookies@);
    let ghost all_auths = texts(authorizations@);
    let mut i: usize = 0;
    proof {
        assert(all_cookies.take(0) =~= Seq::<Seq<char>>::empty());
        assert(texts(tokens@) =~= cookie_tokens(all_cookies.take(0)));
    }
    while i < cookies.len()
        invariant
            i <= cookies.len(),
            prefix@ == cookie_prefix(),
            all_cookies == texts(cookies@),
            texts(tokens@) == cookie_tokens(all_cookies.take(i as int)),
        decreases cookies.len() - i,
    {
        let cookie = chars_of(cookies[i].as_str());
        let pieces = split(&cookie, ';');
        let ghost all_pieces = pieces_view(pieces@);
        let ghost start = texts(tokens@);
        let mut j: usize = 0;
        proof {
            assert(all_cookies.take(i + 1).drop_last() =~= all_cookies.take(i as int));
            assert(all_cookies.take(i + 1).last() == cookies[i as int]@);
            assert(all_pieces.take(0) =~= Seq::<Seq<char>>::empty());
            assert(texts(tokens@) =~= start + tokens_of_pieces(all_pieces.take(0)));
        }
        while j < pieces.len()
            invariant
                j <= pieces.len(),
                prefix@ == cookie_prefix(),
                all_pieces == pieces_view(pieces@),
                texts(tokens@) == start + tokens_of_pieces(all_pieces.take(j as int)),
            decreases pieces.len() - j,
        {
            let token = trim(&pieces[j]);
            proof {
                assert(all_pieces.take(j + 1).drop_last() =~= all_pieces.take(j as int));
                assert(all_pieces.take(j + 1).last() == pieces[j as int]@);
            }
            if starts_with(&token, &prefix) {
                let rest = tail_of(&token, prefix.len());
                let ghost before = texts(tokens@);
                let text = string_of(&rest);
                tokens.push(text);
                assert(texts(tokens@) =~= before.push(text@));
                assert(texts(tokens@) =~= start + tokens_of_pieces(all_pieces.take(j + 1)));
            }
            j += 1;
        }
        proof {
            assert(all_pieces.take(pieces.len() as int) =~= all_pieces);
        }
        i += 1;
    }
    proof {
        assert(all_cookies.take(cookies.len() as int) =~= all_cookies);
    }
    let ghost from_cookies = texts(tokens@);
    let mut k: usize = 0;
    proof {
        assert(all_auths.take(0) =~= Seq::<Seq<char>>::empty());
        assert(texts(tokens@) =~= from_cookies + bearer_tokens(all_auths.take(0)));
    }
    while k < authorizations.len()
        invariant
            k <= authorizations.len(),
            bearer@ == bearer_prefix(),
            all_auths == texts(authorizations@),
            texts(tokens@) == from_cookies + bearer_tokens(all_auths.take(k as int)),
        decreases authorizations.len() - k,
    {
        let a = chars_of(authorizations[k].as_str());
        proof {
            assert(all_auths.take(k + 1).drop_last() =~= all_auths.take(k as int));
            assert(all_auths.take(k + 1).last() == authorizations[k as int]@);
        }
        if starts_with(&a, &bearer) {
            let rest = tail_of(&a, bearer.len());
            let token = trim(&rest);
            let ghost before = texts(tokens@);
            let text = string_of(&token);
            tokens.push(text);
            assert(texts(tokens@) =~= before.push(text@));
            assert(texts(tokens@) =~= from_cookies + bearer_tokens(all_auths.take(k + 1)));
        }
        k += 1;
    }
    proof {
        assert(all_auths.take(authorizations.len() as int) =~= all_auths);
    }
    tokens
}

/// The user that claims name: the value of the last claim of the name
/// `user`.
pub open spec fn user_of(claims: Seq<(Seq<char>, Seq<char>)>) -> Option<Seq<char>>
    decreases claims.len(),
{
    if claims.len() == 0 {
        None
    } else if claims.last().0 == JWT_USER@ {
        Some(claims.last().1)
    } else {
        user_of(claims.drop_last())
    }
}

/// The first of `tokens` that is signed with the secret, if one is.
pub open spec fn first_valid(secret: Seq<char>, tokens: Seq<Seq<char>>) -> Option<int>
    decreases tokens.len(),
{
    if tokens.len() == 0 {
        None
    } else {
        match first_valid(secret, tokens.drop_last()) {
            Some(i) => Some(i),
            None => if jwt_claims(secret, tokens.last()) is Some {
                Some(tokens.len() - 1)
            } else {
                None
            },
        }
    }
}

/// The user after a token was found valid: the one its claims name, or
/// the one before where they name none.
pub open spec fn user_after(claims: Seq<(Seq<char>, Seq<char>)>, before: Seq<char>) -> Seq<char> {
    match user_of(claims) {
        Some(user) => user,
        None => before,
    }
}

/// Takes a token as the proof of who asks: where it is signed with the
/// program's secret, the user that its claims name becomes the current
/// user.
pub fn jwt_to_user(jwt: &str, current_user: &mut String) -> (valid: bool)
    ensures
        valid == jwt_claims(PROGRAM_NAME@, jwt@) is Some,
        final(current_user)@ == if valid {
            user_after(jwt_claims(PROGRAM_NAME@, jwt@)->0, old(current_user)@)
        } else {
            old(current_user)@
        },
{
    match jwt_to_map(PROGRAM_NAME, jwt) {
        Err(_) => false,
        Ok(claims) => {
            let ghost all = pair_views(claims@);
            let mut i: usize = 0;
            proof {
                assert(all.take(0) =~= Seq::<(Seq<char>, Seq<char>)>::empty());
            }
            while i < claims.len()
                invariant
                    i <= claims.len(),
                    all == pair_views(claims@),
                    current_user@ == user_after(all.take(i as int), old(current_user)@),
                decreases claims.len() - i,
            {
                proof {
                    assert(all.take(i + 1).drop_last() =~= all.take(i as int));
                    assert(all.take(i + 1).last() == (claims[i as int].0@, claims[i as int].1@));
                }
                if same_text(claims[i].0.as_str(), JWT_USER) {
                    *current_user = claims[i].1.clone();
                }
                i += 1;
            }
            proof {
                assert(all.take(claims.len() as int) =~= all);
            }
            true
        },
    }
}

/// Whether a request proves who asks, and who that is: the first of its
/// tokens that is signed with the program's secret counts.
pub open spec fn authorization_of(tokens: Seq<Seq<char>>, before: Seq<char>) -> (bool, Seq<char>) {
    match first_valid(PROGRAM_NAME@, tokens) {
        Some(i) => (true, user_after(jwt_claims(PROGRAM_NAME@, tokens[i])->0, before)),
        None => (false, before),
    }
}

/// What `first_valid` finds is a valid token, and every token before it is
/// none.
pub proof fn lemma_first_valid(secret: Seq<char>, tokens: Seq<Seq<char>>)
    ensures
        match first_valid(secret, tokens) {
            Some(i) => 0 <= i < tokens.len() && jwt_claims(secret, tokens[i]) is Some && forall|
                j: int,
            |
                0 <= j < i ==> jwt_claims(secret, #[trigger] tokens[j]) is None,
            None => forall|j: int|
                0 <= j < tokens.len() ==> jwt_claims(secret, #[trigger] tokens[j]) is None,
        },
    decreases tokens.len(),
{
    if tokens.len() > 0 {
        lemma_first_valid(secret, tokens.drop_last());
        match first_valid(secret, tokens.drop_last()) {
            Some(i) => {
                assert(tokens.drop_last()[i] == tokens[i]);
                assert forall|j: int| 0 <= j < i implies jwt_claims(secret, #[trigger] tokens[j])
                    is None by {
                    assert(tokens.drop_last()[j] == tokens[j]);
                }
            },
            None => {
                assert forall|j: int| 0 <= j < tokens.len() - 1 implies jwt_claims(
                    secret,
                    #[trigger] tokens[j],
                ) is None by {
                    assert(tokens.drop_last()[j] == tokens[j]);
                }
            },
        }
    }
}

/// Whether the request proves who asks. Its cookies are tried first, then
/// its authorizations; the first token that is signed with the program's
/// secret settles it and names the current user.
pub fn check_authorization(
    cookies: &Vec<String>,
    authorizations: &Vec<String>,
    current_user: &mut String,
) -> (authorized: bool)
    ensures
        (authorized, final(current_user)@) == authorization_of(
            token_candidates(texts(cookies@), texts(authorizations@)),
            old(current_user)@,
        ),
{
    let tokens = credentials(cookies, authorizations);
    let ghost all = texts(tokens@);
    let mut i: usize = 0;
    while i < tokens.len()
        invariant
            i <= tokens.len(),
            all == texts(tokens@),
            all == token_candidates(texts(cookies@), texts(authorizations@)),
            current_user@ == old(current_user)@,
            forall|j: int| 0 <= j < i ==> jwt_claims(PROGRAM_NAME@, #[trigger] all[j]) is None,
        decreases tokens.len() - i,
    {
        assert(all[i as int] == tokens[i as int]@);
        if jwt_to_user(tokens[i].as_str(), current_user) {
            proof {
                lemma_first_valid(PROGRAM_NAME@, all);
                assert(jwt_claims(PROGRAM_NAME@, all[i as int]) is Some);
                assert(first_valid(PROGRAM_NAME@, all) == Some(i as int));
            }
            return true;
        }
        i += 1;
    }
    proof {
        lemma_first_valid(PROGRAM_NAME@, all);
    }
    false
}

/// Whether the cookies of a request prove who asks: the first of their
/// tokens that is signed with the program's secret settles it and names
/// the current user.
pub fn check_cookie(cookies: &Vec<String>, current_user: &mut String) -> (authorized: bool)
    ensures
        (authorized, final(current_user)@) == authorization_of(
            cookie_tokens(texts(cookies@)),
            old(current_user)@,
        ),
{
    let none: Vec<String> = Vec::new();
    proof {
        let empty = texts(none@);
        assert(bearer_tokens(empty) =~= Seq::<Seq<char>>::empty());
        assert(token_candidates(texts(cookies@), empty) =~= cookie_tokens(texts(cookies@)));
    }
    check_authorization(cookies, &none, current_user)
}

/// What is done with a request.
#[derive(Clone, Debug)]
pub enum Dispatch {
    /// Nothing is under the address: answer 404.
    NotFound,
    /// Send the client on to this address.
    Redirect(String),
    /// Send the client to the login page: `login_redirect` says where.
    Login,
    /// Hand the request to the script of this response.
    Execute { request_info: RequestInfo, response_info: ResponseInfo, user: String },
    /// Send the content of this response as it is.
    Static { request_info: RequestInfo, response_info: ResponseInfo },
    /// Content is served to GET alone: the request fails.
    StaticNeedsGet,
}

/// A [`Dispatch`] as a mathematical value.
pub enum DispatchView {
    NotFound,
    Redirect(Seq<char>),
    Login,
    Execute { request_info: RequestInfoView, response_info: ResponseInfoView, user: Seq<char> },
    Static { request_info: RequestInfoView, response_info: ResponseInfoView },
    StaticNeedsGet,
}

impl View for Dispatch {
    type V = DispatchView;

    open spec fn view(&self) -> DispatchView {
        match self {
            Dispatch::NotFound => DispatchView::NotFound,
            Dispatch::Redirect(to) => DispatchView::Redirect(to@),
            Dispatch::Login => DispatchView::Login,
            Dispatch::Execute { request_info, response_info, user } => DispatchView::Execute {
                request_info: request_info@,
                response_info: response_info@,
                user: user@,
            },
            Dispatch::Static { request_info, response_info } => DispatchView::Static {
                request_info: request_info@,
                response_info: response_info@,
            },
            Dispatch::StaticNeedsGet => DispatchView::StaticNeedsGet,
        }
    }
}

/// What is done with a request for which the route and the response are
/// known: without a route, or without the response that the route names,
/// nothing is found; a redirecting route redirects; a route that asks for
/// authorization sends whoever does not prove it to the login page; an
/// executable route runs the script of its response; any other content is
/// sent, to a GET alone.
pub open spec fn dispatch_of(
    is_get: bool,
    route: Option<RequestInfoView>,
    authorization: (bool, Seq<char>),
    response: Option<ResponseInfoView>,
) -> DispatchView {
    match route {
        None => DispatchView::NotFound,
        Some(request_info) => if request_info.redirect {
            DispatchView::Redirect(request_info.name)
        } else if request_info.authorize && !authorization.0 {
            DispatchView::Login
        } else {
            match response {
                None => DispatchView::NotFound,
                Some(response_info) => if request_info.execute {
                    DispatchView::Execute {
                        request_info,
                        response_info,
                        user: if request_info.authorize {
                            authorization.1
                        } else {
                            Seq::empty()
                        },
                    }
                } else if is_get {
                    DispatchView::Static { request_info, response_info }
                } else {
                    DispatchView::StaticNeedsGet
                },
            }
        },
    }
}

/// The route that a request falls under.
pub open spec fn route_of(requests: &RequestManager, url_path: Seq<char>) -> Option<
    RequestInfoView,
> {
    requests.entry(normalize_path_spec(url_path))
}

/// The response that a route names.
pub open spec fn response_of_route(
    responses: &ResponseManager,
    route: Option<RequestInfoView>,
) -> Option<ResponseInfoView> {
    match route {
        Some(request_info) => responses.entry(request_info.name),
        None => None,
    }
}

/// What a decoder made of a connection.
#[derive(Clone, Copy, Debug, PartialEq, Eq, Structural)]
pub enum Decoded {
    /// The client took longer than allowed to send its request.
    TimedOut,
    /// What the client sent is no request.
    Malformed,
    /// The client closed the connection before it sent a request.
    Closed,
    /// A request arrived.
    Request,
}

/// What is done with a connection once the decoder is through with it.
#[derive(Clone, Copy, Debug, PartialEq, Eq, Structural)]
pub enum Served {
    /// The request is dispatched: one response, or one task, comes of it.
    Dispatch,
    /// The connection is closed without a response.
    Close,
}

/// Whether the dispatcher answers the request itself: with a response
/// that says that nothing was found, with a redirect, or with content.
pub open spec fn answers_itself(dispatch: DispatchView) -> bool {
    dispatch is NotFound || dispatch is Redirect || dispatch is Login || dispatch is Static
}

/// The number of responses that go out on a connection.
///
/// A connection without a request is closed without one. A request that
/// the dispatcher answers itself gets its one response where the response
/// can be `made` (the content is there, the address parses), else none. A
/// request that is handed to an isolate as `task` gets one for each time
/// that the operations `ops` of the script release its connection. A
/// request that fails gets none.
pub open spec fn responses(
    served: Served,
    dispatch: DispatchView,
    made: bool,
    task: JSTask,
    ops: Seq<GiveUp>,
) -> nat {
    match served {
        Served::Close => 0,
        Served::Dispatch => if answers_itself(dispatch) {
            if made {
                1
            } else {
                0
            }
        } else if dispatch is Execute {
            released_count(Some(task), ops)
        } else {
            0
        },
    }
}

/// No connection gets two responses: whatever was decoded and decided, and
/// whatever the script does with its task, one response goes out or none.
pub proof fn lemma_at_most_one_response(
    served: Served,
    dispatch: DispatchView,
    made: bool,
    task: JSTask,
    ops: Seq<GiveUp>,
)
    ensures
        responses(served, dispatch, made, task, ops) <= 1,
        served == Served::Close ==> responses(served, dispatch, made, task, ops) == 0,
{
    lemma_released_exactly_once(Some(task), ops);
}

/// The web server's settings.
#[derive(Clone, Copy, Debug)]
pub struct WebManager {
    pub port: u16,
    pub request_timeout_ms: u32,
}

impl WebManager {
    /// The web server for what the settings say of the port and of the
    /// time a client has to send its request.
    pub fn new(port: i32, request_timeout_ms: i32) -> (web: Self)
        ensures
            web.port as int == port as int % 0x1_0000,
            web.request_timeout_ms as int == request_timeout_ms as int % 0x1_0000_0000,
    {
        let p: i64 = (port as i64) % 0x1_0000;
        let t: i64 = (request_timeout_ms as i64) % 0x1_0000_0000;
        WebManager {
            port: if p >= 0 {
                p as u16
            } else {
                (p + 0x1_0000) as u16
            },
            request_timeout_ms: if t >= 0 {
                t as u32
            } else {
                (t + 0x1_0000_0000) as u32
            },
        }
    }

    /// What is done with a connection once the decoder is through with it:
    /// a request is dispatched, anything else closes the connection
    /// without a response.
    pub fn serve_request(decoded: Decoded) -> (served: Served)
        ensures
            served == if decoded == Decoded::Request {
                Served::Dispatch
            } else {
                Served::Close
            },
    {
        match decoded {
            Decoded::Request => Served::Dispatch,
            _ => Served::Close,
        }
    }

    /// Decides what is done with a request.
    ///
    /// `url_path` is the path of its address as it came, `is_get` whether
    /// its method is GET, and `cookies` and `authorizations` the values of
    /// its cookie and authorization headers.
    pub fn dispatch_request(
        is_get: bool,
        url_path: String,
        requests: &RequestManager,
        responses: &ResponseManager,
        cookies: &Vec<String>,
        authorizations: &Vec<String>,
    ) -> (r: Dispatch)
        requires
            requests.wf(),
            responses.wf(),
        ensures
            r@ == dispatch_of(
                is_get,
                route_of(requests, url_path@),
                authorization_of(
                    token_candidates(texts(cookies@), texts(authorizations@)),
                    Seq::empty(),
                ),
                response_of_route(responses, route_of(requests, url_path@)),
            ),
    {
        let path = normalize_path(url_path);
        let mut current_user = String::new();
        match requests.get_request(&path) {
            None => Dispatch::NotFound,
            Some(request_info) => {
                if request_info.redirect {
                    Dispatch::Redirect(request_info.name)
                } else if request_info.authorize && !check_authorization(
                    cookies,
                    authorizations,
                    &mut current_user,
                ) {
                    Dispatch::Login
                } else {
                    match responses.get_response(request_info.name.as_str()) {
                        None => Dispatch::NotFound,
                        Some(response_info) => {
                            if request_info.execute {
                                Dispatch::Execute {
                                    request_info,
                                    response_info,
                                    user: current_user,
                                }
                            } else if is_get {
                                Dispatch::Static { request_info, response_info }
                            } else {
                                Dispatch::StaticNeedsGet
                            }
                        },
                    }
                }
            },
        }
    }
}

} // verus!
