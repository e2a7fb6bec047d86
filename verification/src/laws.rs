use vstd::prelude::*;
use crate::errors::AppError;
use crate::feed::{RawEntryView, FeedItemView, transcode_entry_spec, transcode_page_spec, flac_name};
use crate::urls::{ListingRequestUrlView, UrlPartsView, normalize_spec, is_api_path};

verus! {

/// One listing page, in the abstract: its raw entries and the continuation
/// token it carries, if any.
#[verifier::ext_equal]
pub struct PageView {
    pub entries: Seq<RawEntryView>,
    pub next: Option<Seq<char>>,
}

/// What the pagination walk yields over a sequence of backend pages: each
/// page is transcoded and its items appended in arrival order; the walk
/// stops right after the first page that carries no continuation token; the
/// first malformed page fails the whole walk.
pub open spec fn collect_pages_spec(pages: Seq<PageView>, u: ListingRequestUrlView) -> Result<
    Seq<FeedItemView>,
    AppError,
>
    decreases pages.len(),
{
    if pages.len() == 0 {
        Result::Ok(Seq::empty())
    } else {
        match transcode_page_spec(pages[0].entries, u) {
            Result::Err(e) => Result::Err(e),
            Result::Ok(items) => if pages[0].next is None {
                Result::Ok(items)
            } else {
                match collect_pages_spec(pages.drop_first(), u) {
                    Result::Err(e) => Result::Err(e),
                    Result::Ok(rest) => Result::Ok(items + rest),
                }
            },
        }
    }
}

/// The in-order concatenation of every page's transcoded items.
pub open spec fn concat_pages_items(pages: Seq<PageView>, u: ListingRequestUrlView) -> Seq<
    FeedItemView,
>
    decreases pages.len(),
{
    if pages.len() == 0 {
        Seq::empty()
    } else {
        transcode_page_spec(pages[0].entries, u)->Ok_0 + concat_pages_items(pages.drop_first(), u)
    }
}

/// Pagination completeness: for a backend serving a sequence of pages of
/// which every one but the last carries a continuation token and the last
/// does not, and every one transcodes cleanly, the walk consumes them all
/// and yields the concatenation of all pages' items in arrival order.
pub proof fn lemma_pagination_completeness(pages: Seq<PageView>, u: ListingRequestUrlView)
    requires
        pages.len() > 0,
        forall|i: int| 0 <= i < pages.len() - 1 ==> (#[trigger] pages[i].next) is Some,
        pages[pages.len() - 1].next is None,
        forall|i: int|
            0 <= i < pages.len() ==> (#[trigger] transcode_page_spec(pages[i].entries, u)) is Ok,
    ensures
        collect_pages_spec(pages, u) == Result::<Seq<FeedItemView>, AppError>::Ok(
            concat_pages_items(pages, u),
        ),
    decreases pages.len(),
{
    assert(transcode_page_spec(pages[0].entries, u) is Ok);
    if pages.len() == 1 {
        assert(transcode_page_spec(pages[0].entries, u)->Ok_0 + concat_pages_items(
            pages.drop_first(),
            u,
        ) =~= transcode_page_spec(pages[0].entries, u)->Ok_0);
    } else {
        let rest = pages.drop_first();
        assert forall|i: int| 0 <= i < rest.len() - 1 implies (#[trigger] rest[i].next) is Some by {
            assert(rest[i] == pages[i + 1]);
        }
        assert(rest[rest.len() - 1] == pages[pages.len() - 1]);
        assert forall|i: int|
            0 <= i < rest.len() implies (#[trigger] transcode_page_spec(rest[i].entries, u)) is Ok by {
            assert(rest[i] == pages[i + 1]);
            assert(transcode_page_spec(pages[i + 1].entries, u) is Ok);
        }
        lemma_pagination_completeness(rest, u);
        assert(pages[0].next is Some);
    }
}

/// Termination: a first page that carries no continuation token ends the
/// walk at once — whatever pages would follow are never consumed.
pub proof fn lemma_termination_first_page(pages: Seq<PageView>, u: ListingRequestUrlView)
    requires
        pages.len() > 0,
        pages[0].next is None,
    ensures
        collect_pages_spec(pages, u) == (match transcode_page_spec(pages[0].entries, u) {
            Result::Err(e) => Result::<Seq<FeedItemView>, AppError>::Err(e),
            Result::Ok(items) => Result::<Seq<FeedItemView>, AppError>::Ok(items),
        }),
{
}

/// Folder filtering: inserting an entry that carries the folder marker at
/// any position of a page leaves the page's transcoded items unchanged.
pub proof fn lemma_folder_filtering(
    es: Seq<RawEntryView>,
    i: int,
    folder: RawEntryView,
    u: ListingRequestUrlView,
)
    requires
        0 <= i <= es.len(),
        folder.is_folder,
    ensures
        transcode_page_spec(es.insert(i, folder), u) == transcode_page_spec(es, u),
    decreases es.len(),
{
    let es2 = es.insert(i, folder);
    assert(es2.len() == es.len() + 1);
    if i == 0 {
        assert(es2[0] == folder);
        assert(es2.drop_first() =~= es);
    } else {
        assert(es2[0] == es[0]);
        assert(es2.drop_first() =~= es.drop_first().insert(i - 1, folder));
        lemma_folder_filtering(es.drop_first(), i - 1, folder, u);
    }
}

/// MIME override: a file entry whose name ends in `.flac` or `.FLAC`
/// transcodes — whenever it yields an item at all — with the MIME type
/// `audio/flac`, whatever type the backend reported.
pub proof fn lemma_mime_override(e: RawEntryView, u: ListingRequestUrlView)
    requires
        !e.is_folder,
        e.name matches Some(n) && flac_name(n),
    ensures
        transcode_entry_spec(e, u) matches Result::Ok(oit) ==> oit matches Option::Some(it)
            && it.enclosure_mime_type == "audio/flac"@,
{
}

/// API-endpoint passthrough: a base URL whose path already ends in `/api`
/// or `/api/` is kept as it is by normalization — in particular, no `path`
/// query pair is appended to its query.
pub proof fn lemma_api_passthrough(u: UrlPartsView)
    requires
        is_api_path(u.path),
    ensures
        normalize_spec(u).prefix == u.prefix,
        normalize_spec(u).path == u.path,
        normalize_spec(u).query == u.query,
{
}

} // verus!
