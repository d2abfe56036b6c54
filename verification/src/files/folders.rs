//! Folder operations
//!
//! Directory management and navigation. Folders are listed page by page: each
//! page of a listing names the cursor of the next one in its response headers,
//! and a walk over a whole folder follows these cursors until a page names none.

use vstd::prelude::*;
use crate::client::{is_listing_request, pairs_view, FilesClient, Method, PreparedRequest};
use crate::error::FilesError;
use crate::request::{
    joined_params, opt_i32_view, opt_param, param_text, opt_string_view, push_opt_i32, push_opt_string, query_string,
    query_suffix, ApiCall, FieldSpec, JsonBody, JsonField,
};
use crate::text::{concat, i64_text, int_decimal};
use crate::types::PaginationInfo;
use crate::utils::{encode_path, encoded_path};

verus! {

/// Page size of a walk over a whole folder, and of a stream when none is given.
pub const DEFAULT_PAGE_SIZE: i32 = 1000;

/// The API path of the folder at `path`.
pub open spec fn folder_endpoint(path: &str) -> Seq<char> {
    "/folders"@ + encoded_path(path)
}

/// The query of one page of a listing: the page size, then the cursor.
pub open spec fn listing_query(per_page: Option<i32>, cursor: Option<Seq<char>>) -> Seq<char> {
    query_suffix(opt_param("per_page"@, opt_i32_view(per_page)) + opt_param("cursor"@, cursor))
}

/// The path of one page of the listing of `path`.
pub open spec fn listing_path(path: &str, per_page: Option<i32>, cursor: Option<String>) -> Seq<char> {
    folder_endpoint(path) + listing_query(per_page, opt_string_view(cursor))
}

/// The path of a search for `search` below `path`.
pub open spec fn search_path(path: &str, search: &str, per_page: Option<i32>) -> Seq<char> {
    folder_endpoint(path) + "?search="@ + search@ + match per_page {
        Some(n) => "&per_page="@ + int_decimal(n as int),
        None => Seq::empty(),
    }
}

/// The error of a listing answered with `status` and `body`: none for a
/// success, otherwise an API error with the status and the body as message.
pub open spec fn is_listing_error(e: Option<FilesError>, status: u16, body: Seq<char>) -> bool {
    if 200 <= status < 300 {
        e is None
    } else {
        e matches Some(FilesError::ApiError { code, message, endpoint: None }) && code == status
            && message@ == body
    }
}

/// The page size of a stream: the one given, else `DEFAULT_PAGE_SIZE`.
pub open spec fn spec_stream_page_size(per_page: Option<i32>) -> i32 {
    match per_page {
        Some(p) => p,
        None => DEFAULT_PAGE_SIZE,
    }
}

/// The page size of a stream: the one given, else `DEFAULT_PAGE_SIZE`.
pub fn stream_page_size(per_page: Option<i32>) -> (n: i32)
    ensures
        n == spec_stream_page_size(per_page),
{
    match per_page {
        Some(p) => p,
        None => DEFAULT_PAGE_SIZE,
    }
}

/// The error of a listing answered with `status` and `body`, if it failed.
pub fn listing_error(status: u16, body: String) -> (e: Option<FilesError>)
    ensures
        is_listing_error(e, status, body@),
{
    if 200 <= status && status < 300 {
        None
    } else {
        Some(FilesError::ApiError { code: status, message: body, endpoint: None })
    }
}

/// The query of one page of a listing.
fn listing_query_text(per_page: Option<i32>, cursor: Option<String>) -> (q: String)
    ensures
        q@ == listing_query(per_page, opt_string_view(cursor)),
{
    let ghost c = cursor;
    let mut params: Vec<(String, String)> = Vec::new();
    push_opt_i32(&mut params, "per_page", per_page);
    push_opt_string(&mut params, "cursor", cursor);
    proof {
        assert(pairs_view(params@) =~= opt_param("per_page"@, opt_i32_view(per_page))
            + opt_param("cursor"@, opt_string_view(c)));
    }
    query_string(&params)
}

/// Handler for folder operations
pub struct FolderHandler {
    client: FilesClient,
}

impl FolderHandler {
    /// The client the handler sends its requests with.
    pub closed spec fn spec_client(&self) -> FilesClient {
        self.client
    }

    /// Creates a new handler
    pub fn new(client: FilesClient) -> (h: Self)
        ensures
            h.spec_client() == client,
    {
        Self { client }
    }

    /// The client the handler sends its requests with.
    pub fn client(&self) -> (c: &FilesClient)
        ensures
            *c == self.spec_client(),
    {
        &self.client
    }

    /// The path of the folder at `path` below the API root.
    pub fn folder_path(path: &str) -> (p: String)
        ensures
            p@ == folder_endpoint(path),
    {
        let enc = encode_path(path);
        concat("/folders", enc.as_str())
    }

    /// The path of one page of the listing of `path`.
    pub fn list_folder_path(path: &str, per_page: Option<i32>, cursor: Option<String>) -> (p: String)
        ensures
            p@ == listing_path(path, per_page, cursor),
    {
        let mut endpoint = Self::folder_path(path);
        endpoint.append(listing_query_text(per_page, cursor).as_str());
        endpoint
    }

    /// The path of a search for `search` below `path`.
    pub fn search_folder_path(path: &str, search: &str, per_page: Option<i32>) -> (p: String)
        ensures
            p@ == search_path(path, search, per_page),
    {
        let mut endpoint = Self::folder_path(path);
        endpoint.append("?search=");
        endpoint.append(search);
        match per_page {
            Some(n) => {
                endpoint.append("&per_page=");
                endpoint.append(i64_text(n as i64).as_str());
            },
            None => {},
        }
        proof {
            if per_page is None {
                assert(endpoint@ =~= search_path(path, search, per_page));
            }
        }
        endpoint
    }

    /// The request for one page of the listing of `path`.
    pub fn list_folder_request(&self, path: &str, per_page: Option<i32>, cursor: Option<String>) -> (r: PreparedRequest)
        ensures
            is_listing_request(r, self.spec_client(), listing_path(path, per_page, cursor)),
    {
        let p = Self::list_folder_path(path, per_page, cursor);
        self.client.listing_request(p.as_str())
    }

    /// The request that searches for `search` below `path`.
    pub fn search_folder_request(&self, path: &str, search: &str, per_page: Option<i32>) -> (r: PreparedRequest)
        ensures
            is_listing_request(r, self.spec_client(), search_path(path, search, per_page)),
    {
        let p = Self::search_folder_path(path, search, per_page);
        self.client.listing_request(p.as_str())
    }

    /// The request that creates the folder at `path` (and its parents when
    /// `mkdir_parents`).
    pub fn create_folder_request(path: &str, mkdir_parents: bool) -> (c: ApiCall)
        ensures
            c.has_fields(Method::Post, folder_endpoint(path),
                seq![("path"@, FieldSpec::Str(path@)), ("mkdir_parents"@, FieldSpec::Bool(mkdir_parents))]),
    {
        let mut json = JsonBody::new();
        json.set("path", JsonField::Str(String::from_str(path)));
        json.set("mkdir_parents", JsonField::Bool(mkdir_parents));
        proof {
            assert(json.spec_fields() =~= seq![("path"@, FieldSpec::Str(path@)),
                ("mkdir_parents"@, FieldSpec::Bool(mkdir_parents))]);
        }
        ApiCall::with_fields(Method::Post, Self::folder_path(path), json)
    }

    /// The request that deletes the folder at `path` (its contents too when `recursive`).
    pub fn delete_folder_request(path: &str, recursive: bool) -> (c: ApiCall)
        ensures
            c.is_plain(Method::Delete,
                folder_endpoint(path) + if recursive { "?recursive=true"@ } else { Seq::empty() }),
    {
        let mut endpoint = Self::folder_path(path);
        if recursive {
            endpoint.append("?recursive=true");
        }
        proof {
            if !recursive {
                assert(endpoint@ =~= folder_endpoint(path) + Seq::<char>::empty());
            }
        }
        ApiCall::plain(Method::Delete, endpoint)
    }
}

/// A walk over all pages of the listing of a folder: it asks for the first page
/// without a cursor, then for each page named by the previous one, and ends
/// after a page that names no next page.
pub struct FolderWalk {
    endpoint: String,
    per_page: i32,
    cursor: Option<String>,
    finished: bool,
    pages: Ghost<Seq<Option<Seq<char>>>>,
}

/// The cursor a walk asks with after reading pages that named `nexts` as their
/// next cursors: none before the first page, then the one the last page named.
pub open spec fn walk_cursor(nexts: Seq<Option<Seq<char>>>) -> Option<Seq<char>> {
    if nexts.len() == 0 {
        None
    } else {
        nexts.last()
    }
}

/// Whether a walk has ended after reading pages that named `nexts`: the last
/// page named no next page.
pub open spec fn walk_ended(nexts: Seq<Option<Seq<char>>>) -> bool {
    nexts.len() > 0 && nexts.last() is None
}

impl FolderWalk {
    #[verifier::type_invariant]
    spec fn walk_inv(self) -> bool {
        &&& opt_string_view(self.cursor) == walk_cursor(self.pages@)
        &&& self.finished == walk_ended(self.pages@)
    }

    /// The API path of the folder the walk lists.
    pub closed spec fn spec_endpoint(&self) -> Seq<char> {
        self.endpoint@
    }

    /// The page size the walk asks for.
    pub closed spec fn spec_per_page(&self) -> i32 {
        self.per_page
    }

    /// The next cursors named by the pages read so far, in order.
    pub closed spec fn spec_pages(&self) -> Seq<Option<Seq<char>>> {
        self.pages@
    }

    /// The cursor of the page the walk asks for next.
    pub open spec fn spec_cursor(&self) -> Option<Seq<char>> {
        walk_cursor(self.spec_pages())
    }

    /// Whether the walk has read its last page.
    pub open spec fn spec_finished(&self) -> bool {
        walk_ended(self.spec_pages())
    }

    /// The path of the page the walk asks for next.
    pub open spec fn spec_next_path(&self) -> Seq<char> {
        self.spec_endpoint() + listing_query(Some(self.spec_per_page()), self.spec_cursor())
    }

    /// A walk over the folder at `path` with pages of `per_page` entries,
    /// before its first page.
    pub fn new(path: &str, per_page: i32) -> (w: Self)
        ensures
            w.spec_endpoint() == folder_endpoint(path),
            w.spec_per_page() == per_page,
            w.spec_pages() == Seq::<Option<Seq<char>>>::empty(),
            w.spec_cursor() is None,
            !w.spec_finished(),
    {
        FolderWalk {
            endpoint: FolderHandler::folder_path(path),
            per_page,
            cursor: None,
            finished: false,
            pages: Ghost(Seq::empty()),
        }
    }

    /// The request for the next page; none once the walk has ended.
    pub fn next_request(&self, handler: &FolderHandler) -> (r: Option<PreparedRequest>)
        ensures
            self.spec_finished() ==> r is None,
            !self.spec_finished() ==> (r matches Some(req)
                && is_listing_request(req, handler.spec_client(), self.spec_next_path())),
    {
        proof {
            use_type_invariant(self);
        }
        if self.finished {
            return None;
        }
        let cursor = match &self.cursor {
            Some(c) => Some(c.clone()),
            None => None,
        };
        let q = listing_query_text(Some(self.per_page), cursor);
        let p = concat(self.endpoint.as_str(), q.as_str());
        Some(handler.client().listing_request(p.as_str()))
    }

    /// Takes in the pagination of the page just read: the walk goes on with the
    /// next cursor it names, and ends when it names none.
    pub fn advance(&mut self, pagination: &PaginationInfo)
        ensures
            final(self).spec_endpoint() == old(self).spec_endpoint(),
            final(self).spec_per_page() == old(self).spec_per_page(),
            final(self).spec_pages() == old(self).spec_pages().push(opt_string_view(pagination.cursor_next)),
            final(self).spec_cursor() == opt_string_view(pagination.cursor_next),
            final(self).spec_finished() <==> pagination.cursor_next is None,
    {
        let ghost pages = self.pages@.push(opt_string_view(pagination.cursor_next));
        let endpoint = self.endpoint.clone();
        let per_page = self.per_page;
        let next = match &pagination.cursor_next {
            Some(c) => FolderWalk { endpoint, per_page, cursor: Some(c.clone()), finished: false, pages: Ghost(pages) },
            None => FolderWalk { endpoint, per_page, cursor: None, finished: true, pages: Ghost(pages) },
        };
        *self = next;
    }
}

/// Streaming a folder without a page size walks it as listing it whole does:
/// two walks of the same folder, one with `DEFAULT_PAGE_SIZE` and one with the
/// stream's page size for none given, that have read pages naming the same
/// cursors ask next for the same page and end together.
pub proof fn lemma_stream_walks_as_full_listing(full: FolderWalk, stream: FolderWalk)
    requires
        full.spec_endpoint() == stream.spec_endpoint(),
        full.spec_per_page() == DEFAULT_PAGE_SIZE,
        stream.spec_per_page() == spec_stream_page_size(None),
        full.spec_pages() == stream.spec_pages(),
    ensures
        full.spec_finished() == stream.spec_finished(),
        full.spec_next_path() == stream.spec_next_path(),
{
}

/// A walk asks for its first page with the page size alone.
pub proof fn lemma_walk_first_page(w: FolderWalk)
    requires
        w.spec_cursor() is None,
    ensures
        w.spec_next_path() == w.spec_endpoint() + "?per_page="@ + int_decimal(w.spec_per_page() as int),
{
    let ps = opt_param("per_page"@, opt_i32_view(Some(w.spec_per_page())))
        + opt_param("cursor"@, w.spec_cursor());
    assert(ps =~= seq![("per_page"@, int_decimal(w.spec_per_page() as int))]);
    reveal_strlit("?per_page=");
    reveal_strlit("per_page");
    reveal_strlit("=");
    reveal_strlit("?");
    assert(query_suffix(ps) == "?"@ + param_text(ps[0]));
    assert(w.spec_next_path() =~= w.spec_endpoint() + "?per_page="@ + int_decimal(w.spec_per_page() as int));
}

/// Once a page has named a next cursor, the walk asks for the following page
/// with its page size and that cursor.
pub proof fn lemma_walk_follows_cursor(w: FolderWalk, cursor: Seq<char>)
    requires
        w.spec_cursor() == Some(cursor),
    ensures
        w.spec_next_path() == w.spec_endpoint() + "?per_page="@ + int_decimal(w.spec_per_page() as int)
            + "&cursor="@ + cursor,
{
    let a = ("per_page"@, int_decimal(w.spec_per_page() as int));
    let b = ("cursor"@, cursor);
    let ps = opt_param("per_page"@, opt_i32_view(Some(w.spec_per_page())))
        + opt_param("cursor"@, w.spec_cursor());
    assert(ps =~= seq![a, b]);
    assert(ps.drop_last() =~= seq![a]);
    reveal_strlit("?per_page=");
    reveal_strlit("per_page");
    reveal_strlit("=");
    reveal_strlit("?");
    reveal_strlit("&");
    reveal_strlit("cursor");
    reveal_strlit("&cursor=");
    assert(joined_params(ps.drop_last()) == param_text(a));
    assert(query_suffix(ps) == "?"@ + param_text(a) + "&"@ + param_text(b));
    assert(w.spec_next_path() =~= w.spec_endpoint() + "?per_page="@ + int_decimal(w.spec_per_page() as int)
        + "&cursor="@ + cursor);
}

/// A page of a listing carries exactly the page size and the cursor it is
/// given, in that order: `?per_page=N&cursor=C`, either part left out when not
/// given, and no query at all when neither is.
pub proof fn lemma_listing_query_parts(n: i32, c: Seq<char>)
    ensures
        listing_query(None, None) == Seq::<char>::empty(),
        listing_query(Some(n), None) == "?per_page="@ + int_decimal(n as int),
        listing_query(None, Some(c)) == "?cursor="@ + c,
        listing_query(Some(n), Some(c)) == "?per_page="@ + int_decimal(n as int) + "&cursor="@ + c,
{
    reveal_strlit("?per_page=");
    reveal_strlit("per_page");
    reveal_strlit("?cursor=");
    reveal_strlit("cursor");
    reveal_strlit("&cursor=");
    reveal_strlit("=");
    reveal_strlit("?");
    reveal_strlit("&");
    let a = ("per_page"@, int_decimal(n as int));
    let b = ("cursor"@, c);
    let p0 = opt_param("per_page"@, opt_i32_view(None)) + opt_param("cursor"@, None);
    assert(p0 =~= Seq::<(Seq<char>, Seq<char>)>::empty());
    let p1 = opt_param("per_page"@, opt_i32_view(Some(n))) + opt_param("cursor"@, None);
    assert(p1 =~= seq![a]);
    assert(query_suffix(p1) == "?"@ + param_text(a));
    assert(listing_query(Some(n), None) =~= "?per_page="@ + int_decimal(n as int));
    let p2 = opt_param("per_page"@, opt_i32_view(None)) + opt_param("cursor"@, Some(c));
    assert(p2 =~= seq![b]);
    assert(query_suffix(p2) == "?"@ + param_text(b));
    assert(listing_query(None, Some(c)) =~= "?cursor="@ + c);
    let p3 = opt_param("per_page"@, opt_i32_view(Some(n))) + opt_param("cursor"@, Some(c));
    assert(p3 =~= seq![a, b]);
    assert(p3.drop_last() =~= seq![a]);
    assert(joined_params(p3.drop_last()) == param_text(a));
    assert(query_suffix(p3) == "?"@ + param_text(a) + "&"@ + param_text(b));
    assert(listing_query(Some(n), Some(c)) =~= "?per_page="@ + int_decimal(n as int) + "&cursor="@ + c);
}

/// The path of a listing page is the folder's endpoint followed by the query
/// of its page size and cursor; in particular the next page asked for by
/// cursor alone is `/folders<path>?cursor=C`.
pub proof fn lemma_listing_path_carries_cursor(path: &str, per_page: Option<i32>, cursor: String)
    ensures
        listing_path(path, None, Some(cursor)) == folder_endpoint(path) + "?cursor="@ + cursor@,
        per_page matches Some(n) ==> listing_path(path, per_page, Some(cursor))
            == folder_endpoint(path) + "?per_page="@ + int_decimal(n as int) + "&cursor="@ + cursor@,
{
    lemma_listing_query_parts(0, cursor@);
    assert(listing_path(path, None, Some(cursor)) =~= folder_endpoint(path) + "?cursor="@ + cursor@);
    if let Some(n) = per_page {
        lemma_listing_query_parts(n, cursor@);
        assert(listing_path(path, per_page, Some(cursor)) =~= folder_endpoint(path) + "?per_page="@
            + int_decimal(n as int) + "&cursor="@ + cursor@);
    }
}

/// A search always asks for its term: its path starts with the folder's
/// endpoint, `?search=` and the term, with or without a page size, and is
/// exactly that when no page size is given.
pub proof fn lemma_search_path_holds_term(path: &str, search: &str, per_page: Option<i32>)
    ensures
        ({
            let head = folder_endpoint(path) + "?search="@ + search@;
            &&& search_path(path, search, per_page).len() >= head.len()
            &&& search_path(path, search, per_page).subrange(0, head.len() as int) == head
        }),
        per_page is None ==> search_path(path, search, per_page) == folder_endpoint(path) + "?search="@ + search@,
{
    let head = folder_endpoint(path) + "?search="@ + search@;
    let tail = match per_page {
        Some(n) => "&per_page="@ + int_decimal(n as int),
        None => Seq::<char>::empty(),
    };
    assert(search_path(path, search, per_page) =~= head + tail);
    assert((head + tail).subrange(0, head.len() as int) =~= head);
}

} // verus!
