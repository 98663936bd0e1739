use vstd::prelude::*;
use vstd::string::*;

use crate::text::prefix_chars;

verus! {

/// Something that a list shows by a name and knows by an identifier.
pub trait Attr {
    /// The name that a list shows.
    spec fn name_of(&self) -> Seq<char>;

    /// The identifier.
    spec fn id_of(&self) -> Seq<char>;

    fn get_name(&self) -> (r: String)
        ensures
            r@ == self.name_of(),
    ;

    fn get_id(&self) -> (r: String)
        ensures
            r@ == self.id_of(),
    ;
}

/// A page of the document store.
#[derive(Debug)]
pub struct Page {
    pub id: String,
    pub title: String,
    pub status: String,
    pub version: Option<PageVersion>,
    pub space_id: Option<String>,
    pub body: Body,
    pub created_at: Option<String>,
}

/// A page's content and the markup it is written in.
#[derive(Debug)]
pub struct Body {
    pub storage: Storage,
}

#[derive(Debug)]
pub struct Storage {
    pub value: String,
    pub representation: String,
}

/// The version of a page that the store holds.
#[derive(Debug)]
pub struct PageVersion {
    pub number: usize,
    pub message: Option<String>,
}

/// A space of the document store: a named collection of pages.
#[derive(Debug)]
pub struct Space {
    pub id: String,
    pub key: String,
    pub name: String,
}

/// How many characters of a creation timestamp make up its date.
pub const DATE_LEN: usize = 10;

/// The date on which a page was created: the first ten characters of its
/// creation timestamp (all of it when shorter), or nothing when the page has
/// no timestamp.
pub open spec fn date_created(p: Page) -> Seq<char> {
    match p.created_at {
        Some(t) => if DATE_LEN <= t@.len() {
            t@.take(DATE_LEN as int)
        } else {
            t@
        },
        None => Seq::empty(),
    }
}

/// The first `n` characters of a page's body (all of it when shorter).
pub open spec fn body_excerpt(p: Page, n: usize) -> Seq<char> {
    let b = p.body.storage.value@;
    if n <= b.len() {
        b.take(n as int)
    } else {
        b
    }
}

impl Attr for Page {
    open spec fn name_of(&self) -> Seq<char> {
        self.title@
    }

    open spec fn id_of(&self) -> Seq<char> {
        self.id@
    }

    fn get_name(&self) -> (r: String) {
        self.title.clone()
    }

    fn get_id(&self) -> (r: String) {
        self.id.clone()
    }
}

impl Attr for Space {
    open spec fn name_of(&self) -> Seq<char> {
        self.name@
    }

    open spec fn id_of(&self) -> Seq<char> {
        self.id@
    }

    fn get_name(&self) -> (r: String) {
        self.name.clone()
    }

    fn get_id(&self) -> (r: String) {
        self.id.clone()
    }
}

impl Page {
    /// A page that is not in the store yet: no identifier, no version, no
    /// timestamp, an empty body in storage markup, in space `space_id`.
    pub fn new(title: String, space_id: String) -> (p: Page)
        ensures
            p.id@.len() == 0,
            p.title == title,
            p.status@ == "current"@,
            p.version is None,
            p.space_id == Some(space_id),
            p.body.storage.value@.len() == 0,
            p.body.storage.representation@ == "storage"@,
            p.created_at is None,
    {
        Page {
            id: String::new(),
            title,
            status: String::from_str("current"),
            version: None,
            space_id: Some(space_id),
            body: Body {
                storage: Storage {
                    value: String::new(),
                    representation: String::from_str("storage"),
                },
            },
            created_at: None,
        }
    }

    /// The page's content.
    pub fn get_body(&self) -> (r: &str)
        ensures
            r@ == self.body.storage.value@,
    {
        self.body.storage.value.as_str()
    }

    /// Replaces the page's content, and nothing else.
    pub fn set_body(&mut self, body_value: String)
        ensures
            final(self).body.storage.value == body_value,
            final(self).body.storage.representation == old(self).body.storage.representation,
            final(self).id == old(self).id,
            final(self).title == old(self).title,
            final(self).status == old(self).status,
            final(self).version == old(self).version,
            final(self).space_id == old(self).space_id,
            final(self).created_at == old(self).created_at,
    {
        self.body.storage.value = body_value;
    }

    /// The date on which the page was created.
    pub fn get_date_created(&self) -> (r: String)
        ensures
            r@ == date_created(*self),
    {
        match &self.created_at {
            Some(t) => prefix_chars(t.as_str(), DATE_LEN),
            None => String::new(),
        }
    }

    /// The space that the page belongs to, if known.
    pub fn get_space_id(&self) -> (r: Option<String>)
        ensures
            r == self.space_id,
    {
        match &self.space_id {
            Some(s) => Some(s.clone()),
            None => None,
        }
    }
}

/// What a preview of a page shows: the first `preview_length` characters of
/// its body, still in the store's markup. The caller converts them for
/// display.
pub fn get_page_preview(page: &Page, preview_length: usize) -> (r: String)
    ensures
        r@ == body_excerpt(*page, preview_length),
{
    prefix_chars(page.get_body(), preview_length)
}

/// The names of `items`, in order.
pub fn get_name_list<A: Attr>(items: &Vec<A>) -> (r: Vec<String>)
    ensures
        r@.len() == items@.len(),
        forall|i: int| 0 <= i < items@.len() ==> #[trigger] r@[i]@ == items@[i].name_of(),
{
    let mut r: Vec<String> = Vec::new();
    let mut i: usize = 0;
    while i < items.len()
        invariant
            i <= items@.len(),
            r@.len() == i,
            forall|j: int| 0 <= j < i ==> #[trigger] r@[j]@ == items@[j].name_of(),
        decreases items@.len() - i,
    {
        r.push(items[i].get_name());
        i += 1;
    }
    r
}

/// The creation dates of `pages`, in order.
pub fn get_created_on_list(pages: &Vec<Page>) -> (r: Vec<String>)
    ensures
        r@.len() == pages@.len(),
        forall|i: int| 0 <= i < pages@.len() ==> #[trigger] r@[i]@ == date_created(pages@[i]),
{
    let mut r: Vec<String> = Vec::new();
    let mut i: usize = 0;
    while i < pages.len()
        invariant
            i <= pages@.len(),
            r@.len() == i,
            forall|j: int| 0 <= j < i ==> #[trigger] r@[j]@ == date_created(pages@[j]),
        decreases pages@.len() - i,
    {
        r.push(pages[i].get_date_created());
        i += 1;
    }
    r
}

} // verus!
