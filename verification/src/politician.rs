//! The politician queries: one entity by id or by slug through the loader,
//! and the paged list.

use vstd::prelude::*;
use vstd::string::*;
use crate::decimal::{append_signed_decimal, signed_decimal};
use crate::ident::{parse_id, parsed_uuid, InvalidId};
use crate::key::{key_of_identifier, keys_of_identifiers, Key, KeyView};
use crate::loader::Loader;
use crate::pagination::{is_page, page_outcome, query, Connection, PageError, Params};

verus! {

/// How many politicians a page holds where the request names no count.
pub const DEFAULT_PAGE_SIZE: usize = 10;

/// The queries of politicians.
#[derive(Default, Debug)]
pub struct PoliticianQuery;

/// The window of a loader after `k` was asked for.
pub open spec fn asked<V>(loader: Loader<V>, k: KeyView) -> Seq<KeyView> {
    if loader.cached().contains_key(k) {
        loader.pending()
    } else {
        loader.pending().push(k)
    }
}

impl PoliticianQuery {
    /// Asks the loader for the politician with the id that was read from the
    /// request, and gives the key to look the answer up by. An id that could
    /// not be read is refused, and the loader is left as it was.
    pub fn request_by_id<V>(loader: &mut Loader<V>, id: Result<u128, InvalidId>) -> (r: Result<
        Key,
        InvalidId,
    >)
        ensures
            final(loader).cached() == old(loader).cached(),
            match id {
                Ok(v) => r is Ok && r->Ok_0@ == KeyView::ById(v) && final(loader).pending()
                    == asked(*old(loader), KeyView::ById(v)),
                Err(e) => r == Err::<Key, InvalidId>(e) && final(loader).pending() == old(
                    loader,
                ).pending(),
            },
    {
        match id {
            Ok(v) => {
                loader.load(Key::ById(v));
                Ok(Key::ById(v))
            },
            Err(e) => Err(e),
        }
    }

    /// Asks the loader for the politician whose id is written in `id`.
    pub fn politician_by_id<V>(loader: &mut Loader<V>, id: &str) -> (r: Result<Key, InvalidId>)
        ensures
            final(loader).cached() == old(loader).cached(),
            match parsed_uuid(id@) {
                Some(v) => r is Ok && r->Ok_0@ == KeyView::ById(v) && final(loader).pending()
                    == asked(*old(loader), KeyView::ById(v)),
                None => r == Err::<Key, InvalidId>(InvalidId) && final(loader).pending() == old(
                    loader,
                ).pending(),
            },
    {
        let id = parse_id(id);
        Self::request_by_id(loader, id)
    }

    /// Asks the loader for the politician with the slug `slug`.
    pub fn politician_by_slug<V>(loader: &mut Loader<V>, slug: String) -> (key: Key)
        ensures
            final(loader).cached() == old(loader).cached(),
            key@ == KeyView::BySlug(slug@),
            final(loader).pending() == asked(*old(loader), KeyView::BySlug(slug@)),
    {
        let key = Key::BySlug(slug);
        loader.load(key.duplicate());
        key
    }

    /// The page of `records` that the arguments ask for, ten at most where
    /// they name no count.
    pub fn politicians<T>(
        records: Vec<T>,
        after: Option<String>,
        before: Option<String>,
        first: Option<i32>,
        last: Option<i32>,
    ) -> (r: Result<Connection<T>, PageError>)
        ensures
            match page_outcome(
                Params { after, before, first, last },
                records@.len(),
                DEFAULT_PAGE_SIZE as nat,
            ) {
                Ok(w) => r is Ok && is_page(r->Ok_0, records@, w),
                Err(e) => r is Err && r->Err_0 == e,
            },
    {
        query(records, Params::new(after, before, first, last), DEFAULT_PAGE_SIZE)
    }
}

/// The mutations of politicians, as far as they decide anything before
/// storage is reached.
#[derive(Default)]
pub struct PoliticianMutation;

/// The file name under which a politician's picture is stored.
pub open spec fn picture_name(slug: Seq<char>) -> Seq<char> {
    slug + "-400"@
}

/// The address of a stored picture with the time of its last change, so
/// that a changed picture is fetched anew.
pub open spec fn picture_address(url: Seq<char>, last_modified: int) -> Seq<char> {
    url + "?lastmod="@ + signed_decimal(last_modified)
}

impl PoliticianMutation {
    /// The issue tags to connect, by id: the ids that `connect` starts with,
    /// in order, up to the first text that is no id. Where there is such a
    /// text the second part of the result refuses it, and what follows it is
    /// not connected.
    pub fn issue_tag_connections(connect: Option<Vec<String>>) -> (r: (
        Vec<u128>,
        Option<InvalidId>,
    ))
        ensures
            connect is None ==> r.0@.len() == 0 && r.1 is None,
            connect is Some ==> {
                &&& r.0@.len() <= connect->0@.len()
                &&& forall|i: int|
                    0 <= i < r.0@.len() ==> parsed_uuid(connect->0@[i]@) == Some(#[trigger] r.0@[i])
                &&& r.1 is Some <==> r.0@.len() < connect->0@.len()
                &&& r.0@.len() < connect->0@.len() ==> parsed_uuid(
                    connect->0@[r.0@.len() as int]@,
                ) is None
            },
    {
        let mut ids: Vec<u128> = Vec::new();
        let texts = match connect {
            Some(texts) => texts,
            None => {
                return (ids, None);
            },
        };
        let mut i: usize = 0;
        while i < texts.len()
            invariant
                connect == Some(texts),
                0 <= i <= texts@.len(),
                ids@.len() == i,
                forall|j: int| 0 <= j < i ==> parsed_uuid(texts@[j]@) == Some(#[trigger] ids@[j]),
            decreases texts@.len() - i,
        {
            match parse_id(texts[i].as_str()) {
                Ok(id) => {
                    ids.push(id);
                },
                Err(e) => {
                    return (ids, Some(e));
                },
            }
            i = i + 1;
        }
        (ids, None)
    }

    /// The endorsed entities to connect: each identifier as the key it
    /// stands for, in order.
    pub fn endorsement_connections(connect: Option<Vec<String>>) -> (keys: Vec<Key>)
        ensures
            connect is None ==> keys@.len() == 0,
            connect is Some ==> keys@.len() == connect->0@.len() && forall|i: int|
                0 <= i < keys@.len() ==> (#[trigger] keys@[i])@ == key_of_identifier(
                    connect->0@[i]@,
                ),
    {
        match connect {
            Some(identifiers) => keys_of_identifiers(identifiers),
            None => Vec::new(),
        }
    }

    /// The politician that a deletion addresses, or the refusal of an id that
    /// is no id.
    pub fn delete_politician(id: &str) -> (r: Result<u128, InvalidId>)
        ensures
            match parsed_uuid(id@) {
                Some(v) => r == Ok::<u128, InvalidId>(v),
                None => r == Err::<u128, InvalidId>(InvalidId),
            },
    {
        parse_id(id)
    }

    /// The file name under which the picture of the politician with slug
    /// `slug` is stored.
    pub fn picture_filename(slug: &str) -> (name: String)
        ensures
            name@ == picture_name(slug@),
    {
        let mut name = String::from_str(slug);
        name.append("-400");
        name
    }

    /// The address under which a stored picture is published.
    pub fn picture_url(url: &str, last_modified: i64) -> (address: String)
        ensures
            address@ == picture_address(url@, last_modified as int),
    {
        let mut address = String::from_str(url);
        address.append("?lastmod=");
        append_signed_decimal(&mut address, last_modified);
        address
    }
}

} // verus!
