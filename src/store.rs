use vstd::prelude::*;
use vstd::string::*;

use crate::page::{Page, Space};

verus! {

/// Where the document store is and who is asking.
#[derive(Debug)]
pub struct Api {
    pub confluence_domain: String,
    pub username: String,
    pub token: String,
    /// Only spaces with this label are listed, when given.
    pub label: Option<String>,
}

/// The HTTP method of a request to the store.
#[derive(Clone, Copy, Debug, PartialEq, Eq, Structural)]
pub enum Method {
    Get,
    Put,
    Post,
    Delete,
}

impl Method {
    /// A short name of the method.
    pub fn name(self) -> (r: &'static str)
        ensures
            r@ == match self {
                Method::Get => "GET"@,
                Method::Put => "PUT"@,
                Method::Post => "POST"@,
                Method::Delete => "DEL"@,
            },
    {
        match self {
            Method::Get => "GET",
            Method::Put => "PUT",
            Method::Post => "POST",
            Method::Delete => "DEL",
        }
    }
}

/// A request to the store: a method and an address. The caller sends it,
/// with a body where the method takes one.
#[derive(Debug)]
pub struct StoreRequest {
    pub method: Method,
    pub url: String,
}

/// Why the store turned a request down, or why one could not be made.
#[derive(Clone, Copy, Debug, PartialEq, Eq, Structural)]
pub enum StoreError {
    /// The page carries no version, so it cannot be updated.
    NoVersion,
    /// The page's version number cannot grow any further.
    VersionOverflow,
    /// The credentials were refused.
    Unauthorized,
    /// No such page.
    NotFound,
    /// The store did not understand the request.
    Malformed,
    /// Any other refusal.
    Failed,
}

/// The start of every address of the store's interface.
pub open spec fn api_base(api: &Api) -> Seq<char> {
    "https://"@ + api.confluence_domain@ + "/wiki/api/v2/"@
}

/// `api_base(api)` followed by `path`.
fn url_with(api: &Api, path: &str) -> (r: String)
    ensures
        r@ == api_base(api) + path@,
{
    let mut u = String::from_str("https://");
    u.append(api.confluence_domain.as_str());
    u.append("/wiki/api/v2/");
    u.append(path);
    proof {
        assert(u@ =~= api_base(api) + path@);
    }
    u
}

/// `s` followed by `t`.
fn joined(s: &str, t: &str) -> (r: String)
    ensures
        r@ == s@ + t@,
{
    let mut u = String::from_str(s);
    u.append(t);
    u
}

/// The names joined by commas.
pub open spec fn comma_list(ids: Seq<String>) -> Seq<char>
    decreases ids.len(),
{
    if ids.len() == 0 {
        Seq::empty()
    } else if ids.len() == 1 {
        ids[0]@
    } else {
        comma_list(ids.drop_last()) + ","@ + ids.last()@
    }
}

/// The identifiers joined by commas.
pub fn join_ids(ids: &Vec<String>) -> (r: String)
    ensures
        r@ == comma_list(ids@),
{
    let mut r = String::new();
    let mut i: usize = 0;
    while i < ids.len()
        invariant
            i <= ids@.len(),
            r@ == comma_list(ids@.take(i as int)),
        decreases ids@.len() - i,
    {
        proof {
            assert(ids@.take(i + 1).drop_last() =~= ids@.take(i as int));
        }
        if i > 0 {
            r.append(",");
        }
        r.append(ids[i].as_str());
        i += 1;
        proof {
            if i == 1 {
                assert(r@ =~= ids@[0]@);
            }
        }
    }
    proof {
        assert(ids@.take(i as int) =~= ids@);
    }
    r
}

/// The filter on spaces: their label when the session has one, else global
/// spaces only.
pub open spec fn space_filter(api: &Api) -> Seq<char> {
    match api.label {
        Some(l) => "&labels="@ + l@,
        None => "&type=global"@,
    }
}

fn space_filter_of(api: &Api) -> (r: String)
    ensures
        r@ == space_filter(api),
{
    match &api.label {
        Some(l) => joined("&labels=", l.as_str()),
        None => String::from_str("&type=global"),
    }
}

impl Space {
    /// The request for the spaces of the store, up to 250 of them.
    pub fn get_spaces(api: &Api) -> (r: StoreRequest)
        ensures
            r.method == Method::Get,
            r.url@ == api_base(api) + "spaces?limit=250"@ + space_filter(api),
    {
        let filter = space_filter_of(api);
        let path = joined("spaces?limit=250", filter.as_str());
        proof {
            assert(api_base(api) + path@ =~= api_base(api) + "spaces?limit=250"@ + space_filter(api));
        }
        StoreRequest { method: Method::Get, url: url_with(api, path.as_str()) }
    }

    /// The request for the spaces with the identifiers `ids`.
    pub fn get_spaces_by_ids(api: &Api, ids: &Vec<String>) -> (r: StoreRequest)
        ensures
            r.method == Method::Get,
            r.url@ == api_base(api) + "spaces?limit=250"@ + space_filter(api) + "&ids="@
                + comma_list(ids@),
    {
        let filter = space_filter_of(api);
        let head = joined("spaces?limit=250", filter.as_str());
        let tail = joined("&ids=", join_ids(ids).as_str());
        let path = joined(head.as_str(), tail.as_str());
        proof {
            assert(api_base(api) + path@ =~= api_base(api) + "spaces?limit=250"@ + space_filter(api)
                + "&ids="@ + comma_list(ids@));
        }
        StoreRequest { method: Method::Get, url: url_with(api, path.as_str()) }
    }
}

impl Page {
    /// The request for the page `id`, with its body in storage markup.
    pub fn get_page_by_id(api: &Api, id: &str) -> (r: StoreRequest)
        ensures
            r.method == Method::Get,
            r.url@ == api_base(api) + "pages/"@ + id@ + "?body-format=storage"@,
    {
        let head = joined("pages/", id);
        let path = joined(head.as_str(), "?body-format=storage");
        proof {
            assert(api_base(api) + path@ =~= api_base(api) + "pages/"@ + id@ + "?body-format=storage"@);
        }
        StoreRequest { method: Method::Get, url: url_with(api, path.as_str()) }
    }

    /// The request for the pages titled `title`.
    pub fn get_pages_by_title(api: &Api, title: &str) -> (r: StoreRequest)
        ensures
            r.method == Method::Get,
            r.url@ == api_base(api) + "pages?title="@ + title@ + "&body-format=storage"@,
    {
        let head = joined("pages?title=", title);
        let path = joined(head.as_str(), "&body-format=storage");
        proof {
            assert(api_base(api) + path@ =~= api_base(api) + "pages?title="@ + title@
                + "&body-format=storage"@);
        }
        StoreRequest { method: Method::Get, url: url_with(api, path.as_str()) }
    }

    /// The request for the pages of the space `space_id`, up to 250 of them.
    pub fn get_pages(api: &Api, space_id: &str) -> (r: StoreRequest)
        ensures
            r.method == Method::Get,
            r.url@ == api_base(api) + "pages?space-id="@ + space_id@
                + "&body-format=storage&limit=250"@,
    {
        let head = joined("pages?space-id=", space_id);
        let path = joined(head.as_str(), "&body-format=storage&limit=250");
        proof {
            assert(api_base(api) + path@ =~= api_base(api) + "pages?space-id="@ + space_id@
                + "&body-format=storage&limit=250"@);
        }
        StoreRequest { method: Method::Get, url: url_with(api, path.as_str()) }
    }

    /// Readies the page to be published over its stored version: its version
    /// number goes up by one, and the request is a `PUT` to the page's
    /// address. A page without a version cannot be published this way.
    pub fn update(&mut self, api: &Api) -> (r: Result<StoreRequest, StoreError>)
        ensures
            old(self).version is None ==> r == Err::<StoreRequest, StoreError>(StoreError::NoVersion)
                && *final(self) == *old(self),
            old(self).version is Some && old(self).version->0.number == usize::MAX ==> r == Err::<
                StoreRequest,
                StoreError,
            >(StoreError::VersionOverflow) && *final(self) == *old(self),
            old(self).version is Some && old(self).version->0.number < usize::MAX ==> {
                &&& r is Ok
                &&& r->Ok_0.method == Method::Put
                &&& r->Ok_0.url@ == api_base(api) + "pages/"@ + old(self).id@
                &&& final(self).version is Some
                &&& final(self).version->0.number == old(self).version->0.number + 1
                &&& final(self).version->0.message == old(self).version->0.message
                &&& final(self).id == old(self).id
                &&& final(self).title == old(self).title
                &&& final(self).status == old(self).status
                &&& final(self).space_id == old(self).space_id
                &&& final(self).body == old(self).body
                &&& final(self).created_at == old(self).created_at
            },
    {
        match &mut self.version {
            None => Err(StoreError::NoVersion),
            Some(v) => {
                if v.number == usize::MAX {
                    return Err(StoreError::VersionOverflow);
                }
                v.number = v.number + 1;
                Ok(self.request_to_page(api, Method::Put))
            },
        }
    }

    /// The request to give the page a new title; the caller sends the title
    /// in the body.
    pub fn update_title(&self, api: &Api) -> (r: StoreRequest)
        ensures
            r.method == Method::Put,
            r.url@ == api_base(api) + "pages/"@ + self.id@ + "/title"@,
    {
        let head = joined("pages/", self.id.as_str());
        let path = joined(head.as_str(), "/title");
        proof {
            assert(api_base(api) + path@ =~= api_base(api) + "pages/"@ + self.id@ + "/title"@);
        }
        StoreRequest { method: Method::Put, url: url_with(api, path.as_str()) }
    }

    /// The request to create the page; the caller sends the page in the body.
    pub fn create(api: &Api) -> (r: StoreRequest)
        ensures
            r.method == Method::Post,
            r.url@ == api_base(api) + "pages"@,
    {
        StoreRequest { method: Method::Post, url: url_with(api, "pages") }
    }

    /// The request to delete the page.
    pub fn delete(&self, api: &Api) -> (r: StoreRequest)
        ensures
            r.method == Method::Delete,
            r.url@ == api_base(api) + "pages/"@ + self.id@,
    {
        self.request_to_page(api, Method::Delete)
    }

    /// A request with `method` to the page's own address.
    fn request_to_page(&self, api: &Api, method: Method) -> (r: StoreRequest)
        ensures
            r.method == method,
            r.url@ == api_base(api) + "pages/"@ + self.id@,
    {
        let path = joined("pages/", self.id.as_str());
        proof {
            assert(api_base(api) + path@ =~= api_base(api) + "pages/"@ + self.id@);
        }
        StoreRequest { method, url: url_with(api, path.as_str()) }
    }

    /// What the store's answer to a delete means: `204` is success.
    pub fn delete_outcome(status: u16) -> (r: Result<(), StoreError>)
        ensures
            status == 204 ==> r is Ok,
            status == 401 ==> r == Err::<(), StoreError>(StoreError::Unauthorized),
            status == 404 ==> r == Err::<(), StoreError>(StoreError::NotFound),
            status != 204 && status != 401 && status != 404 ==> r == Err::<(), StoreError>(
                StoreError::Malformed,
            ),
    {
        if status == 204 {
            Ok(())
        } else if status == 401 {
            Err(StoreError::Unauthorized)
        } else if status == 404 {
            Err(StoreError::NotFound)
        } else {
            Err(StoreError::Malformed)
        }
    }

    /// What the store's answer to a request for one page means: `200` is
    /// success; otherwise the error code of its answer tells a missing page
    /// from any other failure.
    pub fn fetch_outcome(status: u16, error_code: &str) -> (r: Result<(), StoreError>)
        ensures
            status == 200 ==> r is Ok,
            status != 200 && error_code@ == "NOT_FOUND"@ ==> r == Err::<(), StoreError>(
                StoreError::NotFound,
            ),
            status != 200 && error_code@ != "NOT_FOUND"@ ==> r == Err::<(), StoreError>(
                StoreError::Failed,
            ),
    {
        if status == 200 {
            Ok(())
        } else if crate::text::same_text(error_code, "NOT_FOUND") {
            Err(StoreError::NotFound)
        } else {
            Err(StoreError::Failed)
        }
    }

    /// What the store's answer to a search by title means.
    pub fn search_outcome(status: u16) -> (r: Result<(), StoreError>)
        ensures
            status == 200 ==> r is Ok,
            status == 400 ==> r == Err::<(), StoreError>(StoreError::Malformed),
            status == 401 ==> r == Err::<(), StoreError>(StoreError::Unauthorized),
            status != 200 && status != 400 && status != 401 ==> r == Err::<(), StoreError>(
                StoreError::Failed,
            ),
    {
        if status == 200 {
            Ok(())
        } else if status == 400 {
            Err(StoreError::Malformed)
        } else if status == 401 {
            Err(StoreError::Unauthorized)
        } else {
            Err(StoreError::Failed)
        }
    }
}

/// The request for the list of spaces.
pub fn load_space_list(api: &Api) -> (r: StoreRequest)
    ensures
        r.method == Method::Get,
        r.url@ == api_base(api) + "spaces?limit=250"@ + space_filter(api),
{
    Space::get_spaces(api)
}

/// The request for the pages of the space `space_id`.
pub fn load_page_list_for_space(api: &Api, space_id: &str) -> (r: StoreRequest)
    ensures
        r.method == Method::Get,
        r.url@ == api_base(api) + "pages?space-id="@ + space_id@ + "&body-format=storage&limit=250"@,
{
    Page::get_pages(api, space_id)
}

/// The request for the page `id`.
pub fn get_page_by_id(api: &Api, id: &str) -> (r: StoreRequest)
    ensures
        r.method == Method::Get,
        r.url@ == api_base(api) + "pages/"@ + id@ + "?body-format=storage"@,
{
    Page::get_page_by_id(api, id)
}

/// A new page titled `title` in `space`, with the request that creates it;
/// the caller fills in the body and sends the page with the request.
pub fn upload_new_page(api: &Api, space: &Space, title: String) -> (r: (Page, StoreRequest))
    ensures
        r.0.id@.len() == 0,
        r.0.title == title,
        r.0.status@ == "current"@,
        r.0.version is None,
        r.0.space_id is Some && r.0.space_id->0@ == space.id@,
        r.0.body.storage.value@.len() == 0,
        r.0.body.storage.representation@ == "storage"@,
        r.0.created_at is None,
        r.1.method == Method::Post,
        r.1.url@ == api_base(api) + "pages"@,
{
    let page = Page::new(title, space.id.clone());
    (page, Page::create(api))
}

/// The request to delete `page`.
pub fn delete_page(api: &Api, page: &Page) -> (r: StoreRequest)
    ensures
        r.method == Method::Delete,
        r.url@ == api_base(api) + "pages/"@ + page.id@,
{
    page.delete(api)
}

} // verus!
