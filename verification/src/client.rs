//! The client of one tenant and database: where its requests go, how they
//! authenticate, and the pool of handles that they share.

use crate::auth::ChromaAuthMethod;
use crate::pool::{Acquire, ClientPool, PoolView};
use crate::request::{header_views, prepare, request_headers_of, HttpMethod, PendingRequest};
use crate::text::push_str;
use vstd::prelude::*;

verus! {

/// Whether a path begins with a slash.
pub open spec fn starts_with_slash(path: Seq<char>) -> bool {
    path.len() > 0 && path[0] == '/'
}

/// The root of the current API under a server's address.
pub open spec fn api_root_of(endpoint: Seq<char>) -> Seq<char> {
    endpoint + "/api/v2"@
}

/// The root of the first API under a server's address.
pub open spec fn api_v1_root_of(endpoint: Seq<char>) -> Seq<char> {
    endpoint + "/api/v1"@
}

/// The URL of a path inside one database of one tenant.
pub open spec fn database_url_of(
    api_root: Seq<char>,
    tenant: Seq<char>,
    database: Seq<char>,
    path: Seq<char>,
) -> Seq<char> {
    api_root + "/tenants/"@ + tenant + "/databases/"@ + database + path
}

/// The URL that tells a caller who it is, under a server's address.
pub open spec fn identity_url_of(base: Seq<char>) -> Seq<char> {
    base + "/api/v2/auth/identity"@
}

/// Whether `path` begins with a slash.
pub fn is_rooted(path: &str) -> (rooted: bool)
    ensures
        rooted == starts_with_slash(path@),
{
    path.unicode_len() > 0 && path.get_char(0) == '/'
}

/// The mathematical state of a client.
pub ghost struct ClientView<H> {
    pub api_endpoint: Seq<char>,
    pub api_endpoint_v1: Seq<char>,
    pub auth_method: ChromaAuthMethod,
    pub tenant: Seq<char>,
    pub database: Seq<char>,
    pub pool: PoolView<H>,
}

/// The client of one tenant and database, with its pool of handles of type
/// `H`.
pub struct APIClientAsync<H> {
    pool: ClientPool<H>,
    api_endpoint: String,
    api_endpoint_v1: String,
    auth_method: ChromaAuthMethod,
    tenant: String,
    database: String,
}

impl<H> View for APIClientAsync<H> {
    type V = ClientView<H>;

    closed spec fn view(&self) -> ClientView<H> {
        ClientView {
            api_endpoint: self.api_endpoint@,
            api_endpoint_v1: self.api_endpoint_v1@,
            auth_method: self.auth_method,
            tenant: self.tenant@,
            database: self.database@,
            pool: self.pool@,
        }
    }
}

impl<H> APIClientAsync<H> {
    /// A client for the server at `endpoint`, with an empty pool that may
    /// grow to `connections` handles.
    pub fn new(
        endpoint: String,
        auth_method: ChromaAuthMethod,
        tenant: String,
        database: String,
        connections: usize,
    ) -> (client: Self)
        ensures
            client@ == (ClientView {
                api_endpoint: api_root_of(endpoint@),
                api_endpoint_v1: api_v1_root_of(endpoint@),
                auth_method,
                tenant: tenant@,
                database: database@,
                pool: PoolView::<H>::empty(connections as nat),
            }),
    {
        let mut api_endpoint = endpoint.clone();
        push_str(&mut api_endpoint, "/api/v2");
        let mut api_endpoint_v1 = endpoint;
        push_str(&mut api_endpoint_v1, "/api/v1");
        APIClientAsync {
            pool: ClientPool::new(connections),
            api_endpoint,
            api_endpoint_v1,
            auth_method,
            tenant,
            database,
        }
    }

    /// The URL of `path` inside this client's database.
    pub fn database_url(&self, path: &str) -> (url: String)
        requires
            starts_with_slash(path@),
        ensures
            url@ == database_url_of(self@.api_endpoint, self@.tenant, self@.database, path@),
    {
        let mut url = self.api_endpoint.clone();
        push_str(&mut url, "/tenants/");
        push_str(&mut url, self.tenant.as_str());
        push_str(&mut url, "/databases/");
        push_str(&mut url, self.database.as_str());
        push_str(&mut url, path);
        url
    }

    /// A request of this client: the given method, URL and body, with the
    /// headers that the client's authentication and the body call for.
    pub fn send_request(
        &self,
        method: HttpMethod,
        url: &str,
        json_body: Option<serde_json::Value>,
    ) -> (request: PendingRequest)
        ensures
            request.method == method,
            request.url@ == url@,
            header_views(request.headers@) == request_headers_of(
                self@.auth_method,
                json_body.is_some(),
            ),
            request.json_body == json_body,
    {
        prepare(method, url.to_owned(), &self.auth_method, json_body)
    }

    /// GET from a database-scoped path.
    pub fn get_database(&self, path: &str) -> (request: PendingRequest)
        requires
            starts_with_slash(path@),
        ensures
            request.method == HttpMethod::Get,
            request.url@ == database_url_of(
                self@.api_endpoint,
                self@.tenant,
                self@.database,
                path@,
            ),
            header_views(request.headers@) == request_headers_of(self@.auth_method, false),
            request.json_body.is_none(),
    {
        let url = self.database_url(path);
        self.send_request(HttpMethod::Get, url.as_str(), None)
    }

    /// POST to a database-scoped path.
    pub fn post_database(&self, path: &str, json_body: Option<serde_json::Value>) -> (request:
        PendingRequest)
        requires
            starts_with_slash(path@),
        ensures
            request.method == HttpMethod::Post,
            request.url@ == database_url_of(
                self@.api_endpoint,
                self@.tenant,
                self@.database,
                path@,
            ),
            header_views(request.headers@) == request_headers_of(
                self@.auth_method,
                json_body.is_some(),
            ),
            request.json_body == json_body,
    {
        let url = self.database_url(path);
        self.send_request(HttpMethod::Post, url.as_str(), json_body)
    }

    /// PUT to a database-scoped path.
    pub fn put_database(&self, path: &str, json_body: Option<serde_json::Value>) -> (request:
        PendingRequest)
        requires
            starts_with_slash(path@),
        ensures
            request.method == HttpMethod::Put,
            request.url@ == database_url_of(
                self@.api_endpoint,
                self@.tenant,
                self@.database,
                path@,
            ),
            header_views(request.headers@) == request_headers_of(
                self@.auth_method,
                json_body.is_some(),
            ),
            request.json_body == json_body,
    {
        let url = self.database_url(path);
        self.send_request(HttpMethod::Put, url.as_str(), json_body)
    }

    /// DELETE to a database-scoped path. This does not delete a database.
    pub fn delete_database(&self, path: &str) -> (request: PendingRequest)
        requires
            starts_with_slash(path@),
        ensures
            request.method == HttpMethod::Delete,
            request.url@ == database_url_of(
                self@.api_endpoint,
                self@.tenant,
                self@.database,
                path@,
            ),
            header_views(request.headers@) == request_headers_of(self@.auth_method, false),
            request.json_body.is_none(),
    {
        let url = self.database_url(path);
        self.send_request(HttpMethod::Delete, url.as_str(), None)
    }

    /// GET from a path of the first API.
    pub fn get_v1(&self, path: &str) -> (request: PendingRequest)
        requires
            starts_with_slash(path@),
        ensures
            request.method == HttpMethod::Get,
            request.url@ == self@.api_endpoint_v1 + path@,
            header_views(request.headers@) == request_headers_of(self@.auth_method, false),
            request.json_body.is_none(),
    {
        let mut url = self.api_endpoint_v1.clone();
        push_str(&mut url, path);
        self.send_request(HttpMethod::Get, url.as_str(), None)
    }

    /// The request that asks the server at `url` who the caller is, before
    /// any client exists: it goes out on a handle of its own.
    pub fn get_auth(url: &str, auth: &ChromaAuthMethod) -> (request: PendingRequest)
        ensures
            request.method == HttpMethod::Get,
            request.url@ == identity_url_of(url@),
            header_views(request.headers@) == request_headers_of(*auth, false),
            request.json_body.is_none(),
    {
        let mut target = url.to_owned();
        push_str(&mut target, "/api/v2/auth/identity");
        prepare(HttpMethod::Get, target, auth, None)
    }

    /// Asks the pool for a handle for one request.
    pub fn acquire(&mut self) -> (got: Acquire<H>)
        ensures
            got == old(self)@.pool.acquired(),
            final(self)@ == (ClientView { pool: old(self)@.pool.after_acquire(), ..old(self)@ }),
            old(self)@.pool.wf(),
            final(self)@.pool.wf(),
    {
        self.pool.acquire()
    }

    /// Hands the handle of a finished request back to the pool, whatever came
    /// of the request.
    pub fn release(&mut self, handle: H)
        requires
            old(self)@.pool.on_loan() > 0,
        ensures
            final(self)@ == (ClientView {
                pool: old(self)@.pool.after_release(handle),
                ..old(self)@
            }),
            old(self)@.pool.wf(),
            final(self)@.pool.wf(),
    {
        self.pool.release(handle)
    }

    /// The client's pool.
    pub fn pool(&self) -> (pool: &ClientPool<H>)
        ensures
            pool@ == self@.pool,
    {
        &self.pool
    }
}

} // verus!
