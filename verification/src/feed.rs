use vstd::prelude::*;
use vstd::string::*;
use crate::errors::AppError;
use crate::strutil::{ends_with_spec, str_ends_with, dec_str_spec, u64_to_dec_string};
use crate::urls::{ListingRequestUrl, ListingRequestUrlView, raw_file_url, raw_file_url_spec, opt_string_view};
use crate::timefmt::{rfc2822_of_rfc3339, rfc3339_to_rfc2822};
use crate::jsonio::{parse_json, json_get, json_as_string, json_as_u64, json_as_array, JsonView, json_model, json_parsed};

verus! {

/// One element of a listing page, as far as the backend's JSON exposes it:
/// each field is present only where the page carried it with the right
/// type. The folder marker's value is ignored; only its presence counts.
#[derive(Debug)]
pub struct RawEntry {
    pub is_folder: bool,
    pub name: Option<String>,
    pub last_modified: Option<String>,
    pub size: Option<u64>,
    pub mime_type: Option<String>,
    pub id: Option<String>,
}

/// Mathematical model of [`RawEntry`].
#[verifier::ext_equal]
pub struct RawEntryView {
    pub is_folder: bool,
    pub name: Option<Seq<char>>,
    pub last_modified: Option<Seq<char>>,
    pub size: Option<u64>,
    pub mime_type: Option<Seq<char>>,
    pub id: Option<Seq<char>>,
}

impl View for RawEntry {
    type V = RawEntryView;

    open spec fn view(&self) -> RawEntryView {
        RawEntryView {
            is_folder: self.is_folder,
            name: opt_string_view(self.name),
            last_modified: opt_string_view(self.last_modified),
            size: self.size,
            mime_type: opt_string_view(self.mime_type),
            id: opt_string_view(self.id),
        }
    }
}

/// One transcoded feed item: title, enclosure (direct-download URL, byte
/// length as a decimal string, MIME type), a stable non-permalink
/// identifier, and the publish date in RFC2822 form.
#[derive(Debug)]
pub struct FeedItem {
    pub title: String,
    pub enclosure_url: String,
    pub enclosure_length: String,
    pub enclosure_mime_type: String,
    pub guid: String,
    pub guid_is_permalink: bool,
    pub pub_date: String,
}

/// Mathematical model of [`FeedItem`].
#[verifier::ext_equal]
pub struct FeedItemView {
    pub title: Seq<char>,
    pub enclosure_url: Seq<char>,
    pub enclosure_length: Seq<char>,
    pub enclosure_mime_type: Seq<char>,
    pub guid: Seq<char>,
    pub guid_is_permalink: bool,
    pub pub_date: Seq<char>,
}

impl View for FeedItem {
    type V = FeedItemView;

    open spec fn view(&self) -> FeedItemView {
        FeedItemView {
            title: self.title@,
            enclosure_url: self.enclosure_url@,
            enclosure_length: self.enclosure_length@,
            enclosure_mime_type: self.enclosure_mime_type@,
            guid: self.guid@,
            guid_is_permalink: self.guid_is_permalink,
            pub_date: self.pub_date@,
        }
    }
}

/// Whether a name gets the targeted FLAC MIME override: exactly the
/// suffixes `.flac` and `.FLAC`, case-sensitively.
pub open spec fn flac_name(name: Seq<char>) -> bool {
    ends_with_spec(name, ".flac"@) || ends_with_spec(name, ".FLAC"@)
}

/// What transcoding one listing element yields: folders yield no item; a
/// file entry missing its name, timestamp, size or identifier — or its
/// MIME type, unless the name takes the FLAC override — is a malformed
/// response, as is a timestamp that does not parse as RFC3339; any other
/// file entry yields exactly one item.
pub open spec fn transcode_entry_spec(e: RawEntryView, u: ListingRequestUrlView) -> Result<
    Option<FeedItemView>,
    AppError,
> {
    if e.is_folder {
        Result::Ok(Option::None)
    } else if e.name is None || e.last_modified is None || e.size is None || e.id is None {
        Result::Err(AppError::MalformedResponse)
    } else if !flac_name(e.name->Some_0) && e.mime_type is None {
        Result::Err(AppError::MalformedResponse)
    } else {
        match rfc2822_of_rfc3339(e.last_modified->Some_0) {
            Option::None => Result::Err(AppError::MalformedResponse),
            Option::Some(pd) => Result::Ok(
                Option::Some(
                    FeedItemView {
                        title: e.name->Some_0,
                        enclosure_url: raw_file_url_spec(u, e.name->Some_0),
                        enclosure_length: dec_str_spec(e.size->Some_0 as nat),
                        enclosure_mime_type: if flac_name(e.name->Some_0) {
                            "audio/flac"@
                        } else {
                            e.mime_type->Some_0
                        },
                        guid: e.id->Some_0,
                        guid_is_permalink: false,
                        pub_date: pd,
                    },
                ),
            ),
        }
    }
}

/// The model of a transcoding result.
pub open spec fn transcode_result_view(r: Result<Option<FeedItem>, AppError>) -> Result<
    Option<FeedItemView>,
    AppError,
> {
    match r {
        Result::Ok(Option::None) => Result::Ok(Option::None),
        Result::Ok(Option::Some(it)) => Result::Ok(Option::Some(it@)),
        Result::Err(e) => Result::Err(e),
    }
}

/// Transcodes one listing element against the normalized request URL it
/// came from.
pub fn transcode_entry(e: &RawEntry, u: &ListingRequestUrl) -> (r: Result<
    Option<FeedItem>,
    AppError,
>)
    ensures
        transcode_result_view(r) == transcode_entry_spec(e@, u@),
{
    if e.is_folder {
        return Result::Ok(Option::None);
    }
    let name = match &e.name {
        Option::None => return Result::Err(AppError::MalformedResponse),
        Option::Some(n) => n,
    };
    let lm = match &e.last_modified {
        Option::None => return Result::Err(AppError::MalformedResponse),
        Option::Some(s) => s,
    };
    let size = match &e.size {
        Option::None => return Result::Err(AppError::MalformedResponse),
        Option::Some(s) => *s,
    };
    let id = match &e.id {
        Option::None => return Result::Err(AppError::MalformedResponse),
        Option::Some(s) => s,
    };
    let is_flac = str_ends_with(name.as_str(), ".flac") || str_ends_with(name.as_str(), ".FLAC");
    let mime = if is_flac {
        String::from_str("audio/flac")
    } else {
        match &e.mime_type {
            Option::None => return Result::Err(AppError::MalformedResponse),
            Option::Some(m) => m.clone(),
        }
    };
    let pd = match rfc3339_to_rfc2822(lm.as_str()) {
        Option::None => return Result::Err(AppError::MalformedResponse),
        Option::Some(p) => p,
    };
    Result::Ok(
        Option::Some(
            FeedItem {
                title: name.clone(),
                enclosure_url: raw_file_url(u, name.as_str()),
                enclosure_length: u64_to_dec_string(size),
                enclosure_mime_type: mime,
                guid: id.clone(),
                guid_is_permalink: false,
                pub_date: pd,
            },
        ),
    )
}

/// The models of a sequence of raw entries.
pub open spec fn entries_view(es: Seq<RawEntry>) -> Seq<RawEntryView> {
    es.map_values(|e: RawEntry| e@)
}

/// The models of a sequence of feed items.
pub open spec fn items_view(its: Seq<FeedItem>) -> Seq<FeedItemView> {
    its.map_values(|it: FeedItem| it@)
}

/// What transcoding a whole page yields: the items of its non-folder
/// entries, in page order; the first malformed entry fails the page.
pub open spec fn transcode_page_spec(es: Seq<RawEntryView>, u: ListingRequestUrlView) -> Result<
    Seq<FeedItemView>,
    AppError,
>
    decreases es.len(),
{
    if es.len() == 0 {
        Result::Ok(Seq::empty())
    } else {
        match transcode_entry_spec(es[0], u) {
            Result::Err(e) => Result::Err(e),
            Result::Ok(Option::None) => transcode_page_spec(es.drop_first(), u),
            Result::Ok(Option::Some(it)) => match transcode_page_spec(es.drop_first(), u) {
                Result::Err(e) => Result::Err(e),
                Result::Ok(rest) => Result::Ok(seq![it] + rest),
            },
        }
    }
}

/// Unfolds `transcode_page_spec` at position `i`: the page from `i` on is
/// the entry at `i` combined with the page from `i + 1` on.
pub proof fn lemma_page_step(es: Seq<RawEntryView>, u: ListingRequestUrlView, i: int)
    requires
        0 <= i < es.len(),
    ensures
        transcode_page_spec(es.skip(i), u) == (match transcode_entry_spec(es[i], u) {
            Result::Err(e) => Result::<Seq<FeedItemView>, AppError>::Err(e),
            Result::Ok(Option::None) => transcode_page_spec(es.skip(i + 1), u),
            Result::Ok(Option::Some(it)) => match transcode_page_spec(es.skip(i + 1), u) {
                Result::Err(e) => Result::Err(e),
                Result::Ok(rest) => Result::Ok(seq![it] + rest),
            },
        }),
{
    assert(es.skip(i).len() == es.len() - i);
    assert(es.skip(i)[0] == es[i]);
    assert(es.skip(i).drop_first() =~= es.skip(i + 1));
}

/// Transcodes every entry of one page, in order; the first malformed entry
/// fails the whole page.
pub fn transcode_page(es: &Vec<RawEntry>, u: &ListingRequestUrl) -> (r: Result<
    Vec<FeedItem>,
    AppError,
>)
    ensures
        (match r {
            Result::Ok(items) => transcode_page_spec(entries_view(es@), u@) == Result::<
                Seq<FeedItemView>,
                AppError,
            >::Ok(items_view(items@)),
            Result::Err(e) => transcode_page_spec(entries_view(es@), u@) == Result::<
                Seq<FeedItemView>,
                AppError,
            >::Err(e),
        }),
{
    let ghost ev = entries_view(es@);
    let mut acc: Vec<FeedItem> = Vec::new();
    let mut i: usize = 0;
    proof {
        assert(ev.skip(0) =~= ev);
    }
    while i < es.len()
        invariant
            i <= es.len(),
            ev == entries_view(es@),
            ev.len() == es@.len(),
            (match transcode_page_spec(ev.skip(i as int), u@) {
                Result::Err(e) => transcode_page_spec(ev, u@) == Result::<
                    Seq<FeedItemView>,
                    AppError,
                >::Err(e),
                Result::Ok(rest) => transcode_page_spec(ev, u@) == Result::<
                    Seq<FeedItemView>,
                    AppError,
                >::Ok(items_view(acc@) + rest),
            }),
        decreases es.len() - i,
    {
        proof {
            lemma_page_step(ev, u@, i as int);
            assert(ev[i as int] == es@[i as int]@);
        }
        match transcode_entry(&es[i], u) {
            Result::Err(e) => {
                return Result::Err(e);
            },
            Result::Ok(Option::None) => {
            },
            Result::Ok(Option::Some(it)) => {
                let ghost old_acc = acc@;
                acc.push(it);
                proof {
                    assert(items_view(acc@) =~= items_view(old_acc).push(acc@[old_acc.len() as int]@));
                    assert(forall|rest: Seq<FeedItemView>|
                        items_view(old_acc).push(acc@[old_acc.len() as int]@) + rest
                            =~= items_view(old_acc) + (seq![acc@[old_acc.len() as int]@] + rest));
                }
            },
        }
        i = i + 1;
    }
    proof {
        assert(ev.skip(es@.len() as int) =~= Seq::<RawEntryView>::empty());
        assert(items_view(acc@) + Seq::<FeedItemView>::empty() =~= items_view(acc@));
    }
    Result::Ok(acc)
}

/// The field of a modeled JSON value, present exactly when the value is an
/// object carrying the key.
pub open spec fn obj_field(j: JsonView, k: Seq<char>) -> Option<JsonView> {
    match j {
        JsonView::Obj(m) => if m.contains_key(k) {
            Option::Some(m[k])
        } else {
            Option::None
        },
        _ => Option::None,
    }
}

/// The field of a modeled JSON object, when it is present as a string.
pub open spec fn obj_string_field(j: JsonView, k: Seq<char>) -> Option<Seq<char>> {
    match obj_field(j, k) {
        Option::Some(JsonView::Str(s)) => Option::Some(s),
        _ => Option::None,
    }
}

/// The field of a modeled JSON object, when it is present as an unsigned
/// integer fitting a `u64`.
pub open spec fn obj_u64_field(j: JsonView, k: Seq<char>) -> Option<u64> {
    match obj_field(j, k) {
        Option::Some(JsonView::UInt(n)) => Option::Some(n),
        _ => Option::None,
    }
}

/// The raw entry probed from one element of `folder.value`: each field is
/// present exactly when the element carries it with the right type; the
/// folder marker counts by presence alone.
pub open spec fn probe_entry_spec(j: JsonView) -> RawEntryView {
    RawEntryView {
        is_folder: obj_field(j, "folder"@) is Some,
        name: obj_string_field(j, "name"@),
        last_modified: obj_string_field(j, "lastModifiedDateTime"@),
        size: obj_u64_field(j, "size"@),
        mime_type: match obj_field(j, "file"@) {
            Option::Some(f) => obj_string_field(f, "mimeType"@),
            Option::None => Option::None,
        },
        id: obj_string_field(j, "id"@),
    }
}

/// What reading one page out of its parsed document yields: the probed
/// entries of `folder.value` in order, and the `next` token when the
/// document carries one as a string; nothing when `folder.value` is
/// missing or not an array.
pub open spec fn page_of(j: JsonView) -> Option<(Seq<RawEntryView>, Option<Seq<char>>)> {
    match obj_field(j, "folder"@) {
        Option::None => Option::None,
        Option::Some(f) => match obj_field(f, "value"@) {
            Option::Some(JsonView::Arr(els)) => Option::Some(
                (
                    els.map_values(|e: JsonView| probe_entry_spec(e)),
                    obj_string_field(j, "next"@),
                ),
            ),
            _ => Option::None,
        },
    }
}

/// What parsing one response body into a page yields: a body that is not
/// valid JSON, or whose document has no `folder.value` array, is a
/// malformed response; any other body yields its page.
pub open spec fn read_page_spec(body: Seq<char>) -> Result<
    (Seq<RawEntryView>, Option<Seq<char>>),
    AppError,
> {
    match json_parsed(body) {
        Option::None => Result::Err(AppError::MalformedResponse),
        Option::Some(j) => match page_of(j) {
            Option::None => Result::Err(AppError::MalformedResponse),
            Option::Some(p) => Result::Ok(p),
        },
    }
}

fn probe_string_field(v: &serde_json::Value, key: &str) -> (r: Option<String>)
    ensures
        opt_string_view(r) == obj_string_field(json_model(*v), key@),
{
    match json_get(v, key) {
        Option::None => Option::None,
        Option::Some(x) => json_as_string(x),
    }
}

/// Reads the fields of one listing element out of its JSON value.
fn probe_entry(v: &serde_json::Value) -> (r: RawEntry)
    ensures
        r@ == probe_entry_spec(json_model(*v)),
{
    let size = match json_get(v, "size") {
        Option::None => Option::None,
        Option::Some(x) => json_as_u64(x),
    };
    let mime_type = match json_get(v, "file") {
        Option::None => Option::None,
        Option::Some(f) => probe_string_field(f, "mimeType"),
    };
    let is_folder = match json_get(v, "folder") {
        Option::None => false,
        Option::Some(_) => true,
    };
    RawEntry {
        is_folder,
        name: probe_string_field(v, "name"),
        last_modified: probe_string_field(v, "lastModifiedDateTime"),
        size,
        mime_type,
        id: probe_string_field(v, "id"),
    }
}

/// Parses one listing page's response body: the raw entries of
/// `folder.value`, in page order, and the continuation token of the `next`
/// field, when one is present as a string. A body that is not valid JSON,
/// or misses `folder.value` as an array, is a malformed response.
pub fn read_page(body: &str) -> (r: Result<(Vec<RawEntry>, Option<String>), AppError>)
    ensures
        (match r {
            Result::Ok(p) => read_page_spec(body@) matches Result::Ok(q) && entries_view(p.0@)
                == q.0 && opt_string_view(p.1) == q.1,
            Result::Err(e) => read_page_spec(body@) == Result::<
                (Seq<RawEntryView>, Option<Seq<char>>),
                AppError,
            >::Err(e),
        }),
{
    let d = match parse_json(body) {
        Option::None => return Result::Err(AppError::MalformedResponse),
        Option::Some(d) => d,
    };
    let next = probe_string_field(&d, "next");
    let folder = match json_get(&d, "folder") {
        Option::None => return Result::Err(AppError::MalformedResponse),
        Option::Some(f) => f,
    };
    let value = match json_get(folder, "value") {
        Option::None => return Result::Err(AppError::MalformedResponse),
        Option::Some(x) => x,
    };
    let arr = match json_as_array(value) {
        Option::None => return Result::Err(AppError::MalformedResponse),
        Option::Some(a) => a,
    };
    let ghost els = json_model(*value)->Arr_0;
    let mut entries: Vec<RawEntry> = Vec::new();
    let mut i: usize = 0;
    while i < arr.len()
        invariant
            i <= arr.len(),
            arr@.len() == els.len(),
            forall|k: int| 0 <= k < els.len() ==> json_model(#[trigger] arr@[k]) == els[k],
            entries@.len() == i,
            forall|k: int| 0 <= k < i ==> (#[trigger] entries@[k]@) == probe_entry_spec(els[k]),
        decreases arr.len() - i,
    {
        let e = probe_entry(&arr[i]);
        entries.push(e);
        i = i + 1;
    }
    proof {
        assert(entries_view(entries@) =~= els.map_values(|e: JsonView| probe_entry_spec(e)));
    }
    Result::Ok((entries, next))
}

/// The accumulated feed items of one request. The pagination walk owns one
/// accumulator and appends each page's items to it, in arrival order.
pub struct FeedAccumulator {
    pub items: Vec<FeedItem>,
}

impl FeedAccumulator {
    /// An empty accumulator.
    pub fn new() -> (r: FeedAccumulator)
        ensures
            r.items@ == Seq::<FeedItem>::empty(),
    {
        FeedAccumulator { items: Vec::new() }
    }

    /// Appends one page's items, in order, after everything accumulated so
    /// far.
    pub fn add_page(&mut self, page: Vec<FeedItem>)
        ensures
            final(self).items@ == old(self).items@ + page@,
    {
        let mut p = page;
        self.items.append(&mut p);
    }
}

/// Every failure of page transcoding is a malformed response.
pub proof fn lemma_transcode_err_is_malformed(es: Seq<RawEntryView>, u: ListingRequestUrlView)
    ensures
        transcode_page_spec(es, u) matches Result::Err(e) ==> e == AppError::MalformedResponse,
    decreases es.len(),
{
    if es.len() > 0 {
        lemma_transcode_err_is_malformed(es.drop_first(), u);
    }
}

/// What processing one fetched page yields: the page read out of the body,
/// its entries transcoded; the first failure of either step fails the
/// page.
pub open spec fn process_page_spec(body: Seq<char>, u: ListingRequestUrlView) -> Result<
    (Seq<FeedItemView>, Option<Seq<char>>),
    AppError,
> {
    match read_page_spec(body) {
        Result::Err(e) => Result::Err(e),
        Result::Ok(p) => match transcode_page_spec(p.0, u) {
            Result::Err(e) => Result::Err(e),
            Result::Ok(items) => Result::Ok((items, p.1)),
        },
    }
}

/// Processes one fetched page: parses the body, transcodes its entries, and
/// appends the resulting items to the accumulator, in order. On success the
/// returned continuation token is the page's `next` field — its absence
/// means the walk is over. On failure the accumulator is unchanged and the
/// error is `MalformedResponse`.
pub fn process_page(acc: &mut FeedAccumulator, u: &ListingRequestUrl, body: &str) -> (r: Result<
    Option<String>,
    AppError,
>)
    ensures
        r matches Result::Err(e) ==> final(acc).items@ == old(acc).items@ && e
            == AppError::MalformedResponse && process_page_spec(body@, u@) == Result::<
            (Seq<FeedItemView>, Option<Seq<char>>),
            AppError,
        >::Err(e),
        r matches Result::Ok(next) ==> process_page_spec(body@, u@) matches Result::Ok(pr)
            && opt_string_view(next) == pr.1 && items_view(final(acc).items@) == items_view(
            old(acc).items@,
        ) + pr.0,
        r is Ok ==> old(acc).items@.is_prefix_of(final(acc).items@),
{
    let (entries, next) = match read_page(body) {
        Result::Err(e) => return Result::Err(e),
        Result::Ok(p) => p,
    };
    let items = match transcode_page(&entries, u) {
        Result::Err(e) => {
            proof {
                lemma_transcode_err_is_malformed(entries_view(entries@), u@);
            }
            return Result::Err(e);
        },
        Result::Ok(items) => items,
    };
    let ghost old_items = acc.items@;
    let ghost page_items = items@;
    acc.add_page(items);
    proof {
        assert(items_view(acc.items@) =~= items_view(old_items) + items_view(page_items));
        assert(old_items.is_prefix_of(acc.items@)) by {
            assert(acc.items@.subrange(0, old_items.len() as int) =~= old_items);
        }
    }
    Result::Ok(next)
}

} // verus!
