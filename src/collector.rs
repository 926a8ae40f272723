//! Cursor pagination over one channel's listing.
//!
//! A `Collector` names the page it wants next and is handed each reply. It
//! keeps the items that are ready for download, in the order the pages list
//! them, and stops on an empty page, on a page without a cursor, on the first
//! failure, or when the page limit is reached.

use vstd::prelude::*;
use crate::json::{
    array_elements, find_member, json_elements_of, json_members_of, member_of, object_members,
    string_field, string_member,
};
use crate::twitch::{
    Reply, VideoKind, VideoType, VideoView, videos_from_json, videos_of, videos_view,
};
use crate::util::{ExitCode, ExitMsg, outcome};

verus! {

/// The most pages one listing may take; a server that keeps handing out
/// cursors past it is treated as misbehaving.
pub const MAX_PAGES: usize = 1000;

/// The address of the first page of a channel's listing.
pub open spec fn listing_address(kind: VideoKind, channel_id: Seq<char>) -> Seq<char> {
    match kind {
        VideoKind::Vod => "https://api.twitch.tv/helix/videos?user_id="@ + channel_id
            + "&first=100&type=archive"@,
        VideoKind::Clip => "https://api.twitch.tv/helix/clips?broadcaster_id="@ + channel_id
            + "&first=100"@,
    }
}

/// The address of the page that follows `cursor`, or of the first page.
pub open spec fn page_address(kind: VideoKind, channel_id: Seq<char>, cursor: Option<Seq<char>>) -> Seq<
    char,
> {
    match cursor {
        None => listing_address(kind, channel_id),
        Some(c) => listing_address(kind, channel_id) + "&after="@ + c,
    }
}

/// Builds the address of a listing page.
pub fn page_url(kind: VideoKind, channel_id: &str, cursor: &Option<String>) -> (r: String)
    ensures
        r@ == page_address(kind, channel_id@, cursor.deep_view()),
{
    let mut url = match kind {
        VideoKind::Vod => String::from_str("https://api.twitch.tv/helix/videos?user_id="),
        VideoKind::Clip => String::from_str("https://api.twitch.tv/helix/clips?broadcaster_id="),
    };
    url.append(channel_id);
    match kind {
        VideoKind::Vod => url.append("&first=100&type=archive"),
        VideoKind::Clip => url.append("&first=100"),
    }
    match cursor {
        Some(c) => {
            url.append("&after=");
            url.append(c.as_str());
        },
        None => {},
    }
    url
}

/// One page of a listing: its items and the cursor of the next page, if any.
#[derive(Debug)]
pub struct Page {
    pub items: Vec<VideoType>,
    pub cursor: Option<String>,
}

/// A page as plain values.
pub struct PageView {
    pub items: Seq<VideoView>,
    pub cursor: Option<Seq<char>>,
}

impl View for Page {
    type V = PageView;

    open spec fn view(&self) -> PageView {
        PageView { items: videos_view(self.items@), cursor: self.cursor.deep_view() }
    }
}

/// The cursor of the next page: `pagination.cursor` when it is a string.
pub open spec fn cursor_of(members: Seq<(Seq<char>, Seq<char>)>) -> Option<Seq<char>> {
    match member_of(members, "pagination"@) {
        Some(p) => match json_members_of(p) {
            Some(pm) => string_field(pm, "cursor"@),
            None => None,
        },
        None => None,
    }
}

/// The page that a listing reply body holds: a `data` list whose elements all
/// read as items of `kind`, and the cursor, if any.
pub open spec fn page_of(body: Seq<char>, kind: VideoKind) -> Option<PageView> {
    match json_members_of(body) {
        Some(m) => match member_of(m, "data"@) {
            Some(d) => match json_elements_of(d) {
                Some(e) => match videos_of(e, kind) {
                    Some(items) => Some(PageView { items, cursor: cursor_of(m) }),
                    None => None,
                },
                None => None,
            },
            None => None,
        },
        None => None,
    }
}

/// Reads a listing page.
pub fn read_page(body: &str, kind: VideoKind) -> (r: Option<Page>)
    ensures
        match r {
            Some(p) => page_of(body@, kind) == Some(p@),
            None => page_of(body@, kind) is None,
        },
{
    let m = object_members(body)?;
    let data = find_member(&m, &String::from_str("data"))?;
    let elements = array_elements(data.as_str())?;
    let items = videos_from_json(&elements, kind)?;
    let cursor = match find_member(&m, &String::from_str("pagination")) {
        Some(p) => match object_members(p.as_str()) {
            Some(pm) => string_member(&pm, "cursor"),
            None => None,
        },
        None => None,
    };
    Some(Page { items, cursor })
}

/// What a reply amounts to: a page, or the error that ends the listing.
pub open spec fn reply_page(reply: Reply, kind: VideoKind) -> Result<PageView, ExitCode> {
    match reply {
        Reply::NoConnection(_) => Err(ExitCode::NoConnection),
        Reply::Unreadable(_) => Err(ExitCode::CannotParseResponse),
        Reply::Body(b) => match page_of(b@, kind) {
            Some(p) => Ok(p),
            None => Err(ExitCode::CannotParseResponse),
        },
    }
}

/// The items that are ready for download, in their order.
pub open spec fn ready_only(items: Seq<VideoView>) -> Seq<VideoView> {
    items.filter(|v: VideoView| v.is_ready())
}

/// An item is kept exactly when it is among the input and ready, and the
/// filter works page by page: filtering two pages in turn keeps their order.
pub proof fn lemma_ready_only(items: Seq<VideoView>, more: Seq<VideoView>, x: VideoView)
    ensures
        ready_only(items).contains(x) <==> (items.contains(x) && x.is_ready()),
        ready_only(items + more) == ready_only(items) + ready_only(more),
    decreases items.len(),
{
    broadcast use vstd::seq_lib::group_filter_ensures;

    reveal(Seq::filter);
    if items.len() > 0 {
        lemma_ready_only(items.drop_last(), more, x);
        assert(items.drop_last().push(items.last()) =~= items);
        if ready_only(items).contains(x) {
            let i = choose|i: int| 0 <= i < ready_only(items).len() && ready_only(items)[i] == x;
            if i < ready_only(items.drop_last()).len() {
                assert(ready_only(items.drop_last()).contains(x));
                let j = choose|j: int|
                    0 <= j < items.drop_last().len() && items.drop_last()[j] == x;
                assert(items[j] == x);
            } else {
                assert(items[items.len() - 1] == x);
            }
        }
        if items.contains(x) && x.is_ready() {
            let j = choose|j: int| 0 <= j < items.len() && items[j] == x;
            if j < items.len() - 1 {
                assert(items.drop_last()[j] == x);
                let k = choose|k: int|
                    0 <= k < ready_only(items.drop_last()).len() && ready_only(items.drop_last())[k]
                        == x;
                assert(ready_only(items)[k] == x);
            } else {
                assert(ready_only(items).last() == x);
            }
        }
    } else {
        assert(items + more =~= more);
    }
    Seq::filter_distributes_over_add(items, more, |v: VideoView| v.is_ready());
}

/// Keeps the items that are ready for download, in their order.
pub fn keep_ready(items: Vec<VideoType>) -> (r: Vec<VideoType>)
    ensures
        videos_view(r@) == ready_only(videos_view(items@)),
        forall|i: int| 0 <= i < r.len() ==> (#[trigger] r@[i])@.is_ready(),
{
    let ghost all = videos_view(items@);
    let ghost n = all.len() as int;
    let mut items = items;
    let mut kept: Vec<VideoType> = Vec::new();
    while items.len() > 0
        invariant
            items.len() <= n,
            n == all.len(),
            videos_view(items@) == all.skip(n - items.len()),
            videos_view(kept@) == ready_only(all.take(n - items.len())),
            forall|i: int| 0 <= i < kept.len() ==> (#[trigger] kept@[i])@.is_ready(),
        decreases items.len(),
    {
        let ghost before = items@;
        let ghost done = n - items.len();
        let v = items.remove(0);
        proof {
            assert(videos_view(before)[0] == v@);
            assert(all[done] == v@);
            assert(items@ =~= before.subrange(1, before.len() as int));
            assert forall|j: int| 0 <= j < items.len() implies #[trigger] videos_view(items@)[j]
                == all.skip(n - items.len())[j] by {
                assert(videos_view(before)[j + 1] == all.skip(done)[j + 1]);
            }
            assert(videos_view(items@) =~= all.skip(n - items.len()));
            assert(all.take(done + 1).drop_last() =~= all.take(done));
            reveal(Seq::filter);
        }
        if v.is_ready() {
            kept.push(v);
            assert(videos_view(kept@) =~= ready_only(all.take(n - items.len())));
        } else {
            assert(videos_view(kept@) =~= ready_only(all.take(n - items.len())));
        }
    }
    assert(all.take(n) =~= all);
    kept
}

/// Where a listing stands.
pub struct CollectorView {
    pub kind: VideoKind,
    pub channel_id: Seq<char>,
    /// The cursor of the next page; `None` before the first one.
    pub cursor: Option<Seq<char>>,
    /// The ready items of the pages read so far.
    pub items: Seq<VideoView>,
    /// How many replies have been read.
    pub pages: nat,
    /// No further page is to be fetched.
    pub finished: bool,
}

impl CollectorView {
    /// Every kept item is ready, and the page limit bounds the replies read.
    pub open spec fn wf(self) -> bool {
        &&& self.pages <= MAX_PAGES
        &&& !self.finished ==> self.pages < MAX_PAGES
        &&& forall|i: int| 0 <= i < self.items.len() ==> (#[trigger] self.items[i]).is_ready()
    }

    /// The state after a reply, and what the reply handling returns.
    pub open spec fn after(self, reply: Result<PageView, ExitCode>) -> (CollectorView, Result<
        (),
        ExitCode,
    >) {
        match reply {
            Err(code) => (CollectorView { finished: true, ..self }, Err(code)),
            Ok(p) => {
                let pages = self.pages + 1;
                if p.items.len() == 0 {
                    (CollectorView { pages, finished: true, ..self }, Ok(()))
                } else {
                    let items = self.items + ready_only(p.items);
                    match p.cursor {
                        None => (CollectorView { pages, items, finished: true, ..self }, Ok(())),
                        Some(next) => if pages >= MAX_PAGES {
                            (
                                CollectorView { pages, items, finished: true, ..self },
                                Err(ExitCode::TooManyPages),
                            )
                        } else {
                            (
                                CollectorView {
                                    pages,
                                    items,
                                    cursor: Some(next),
                                    finished: false,
                                    ..self
                                },
                                Ok(()),
                            )
                        },
                    }
                }
            },
        }
    }
}

/// Every reply either ends the listing or raises the page count, and an
/// unfinished listing stays under the page limit: a listing takes at most
/// `MAX_PAGES` requests, whatever the server answers.
pub proof fn lemma_listing_bounded(c: CollectorView, reply: Result<PageView, ExitCode>)
    requires
        c.wf(),
        !c.finished,
    ensures
        c.after(reply).0.wf(),
        c.after(reply).0.finished || c.after(reply).0.pages == c.pages + 1,
        !c.after(reply).0.finished ==> c.after(reply).0.pages < MAX_PAGES,
{
    match reply {
        Ok(p) => {
            broadcast use vstd::seq_lib::group_filter_ensures;

            let items = c.items + ready_only(p.items);
            assert forall|i: int| 0 <= i < items.len() implies (#[trigger] items[i]).is_ready() by {
                if i >= c.items.len() {
                    assert(items[i] == ready_only(p.items)[i - c.items.len()]);
                }
            }
        },
        Err(_) => {},
    }
}

/// The pagination of one channel's listing.
pub struct Collector {
    kind: VideoKind,
    channel_id: String,
    cursor: Option<String>,
    items: Vec<VideoType>,
    pages: usize,
    finished: bool,
}

impl View for Collector {
    type V = CollectorView;

    closed spec fn view(&self) -> CollectorView {
        CollectorView {
            kind: self.kind,
            channel_id: self.channel_id@,
            cursor: self.cursor.deep_view(),
            items: videos_view(self.items@),
            pages: self.pages as nat,
            finished: self.finished,
        }
    }
}

impl Collector {
    /// Starts the listing of `kind` for the channel `channel_id`.
    pub fn new(kind: VideoKind, channel_id: &str) -> (r: Collector)
        ensures
            r@ == (CollectorView {
                kind,
                channel_id: channel_id@,
                cursor: None,
                items: Seq::empty(),
                pages: 0,
                finished: false,
            }),
            r@.wf(),
    {
        let r = Collector {
            kind,
            channel_id: String::from_str(channel_id),
            cursor: None,
            items: Vec::new(),
            pages: 0,
            finished: false,
        };
        assert(videos_view(r.items@) =~= Seq::empty());
        r
    }

    /// The address of the page to fetch next, or `None` once the listing is over.
    pub fn next_url(&self) -> (r: Option<String>)
        ensures
            match r {
                Some(u) => !self@.finished && u@ == page_address(
                    self@.kind,
                    self@.channel_id,
                    self@.cursor,
                ),
                None => self@.finished,
            },
    {
        if self.finished {
            None
        } else {
            Some(page_url(self.kind, self.channel_id.as_str(), &self.cursor))
        }
    }

    /// The listing's kind.
    pub fn kind_of(&self) -> (r: VideoKind)
        ensures
            r == self@.kind,
    {
        self.kind
    }

    /// Whether the listing is over.
    pub fn is_finished(&self) -> (r: bool)
        ensures
            r == self@.finished,
    {
        self.finished
    }

    /// How many replies have been read.
    pub fn pages(&self) -> (r: usize)
        ensures
            r == self@.pages,
    {
        self.pages
    }

    /// The ready items gathered so far.
    pub fn items(&self) -> (r: &Vec<VideoType>)
        ensures
            videos_view(r@) == self@.items,
    {
        &self.items
    }

    /// Hands over the gathered items, ending the listing.
    pub fn into_items(self) -> (r: Vec<VideoType>)
        ensures
            videos_view(r@) == self@.items,
    {
        self.items
    }

    /// Takes the reply to the request that `next_url` named.
    ///
    /// An empty page ends the listing, whatever cursor it carries. Otherwise
    /// its ready items are kept, and its cursor, if any, names the next page.
    /// A failed request or an unreadable page ends the listing with an error.
    pub fn on_reply(&mut self, reply: &Reply) -> (r: Result<(), ExitMsg>)
        requires
            old(self)@.wf(),
            !old(self)@.finished,
        ensures
            final(self)@.wf(),
            (final(self)@, outcome(r)) == old(self)@.after(reply_page(*reply, old(self)@.kind)),
            reply_page(*reply, old(self)@.kind) matches Ok(p) && p.items.len() == 0 ==> {
                &&& r is Ok
                &&& final(self)@.finished
                &&& final(self)@.items == old(self)@.items
            },
    {
        let ghost start = self@;
        let page = match reply {
            Reply::NoConnection(why) => {
                self.finished = true;
                return Err(
                    ExitMsg::with_reason(
                        ExitCode::NoConnection,
                        "No response from Twitch for a listing.",
                        why.as_str(),
                    ),
                );
            },
            Reply::Unreadable(why) => {
                self.finished = true;
                return Err(
                    ExitMsg::with_reason(
                        ExitCode::CannotParseResponse,
                        "Cannot read response from Twitch for a listing.",
                        why.as_str(),
                    ),
                );
            },
            Reply::Body(body) => match read_page(body.as_str(), self.kind) {
                Some(p) => p,
                None => {
                    self.finished = true;
                    return Err(
                        ExitMsg::new(
                            ExitCode::CannotParseResponse,
                            "Cannot parse a listing page from Twitch.",
                        ),
                    );
                },
            },
        };
        self.pages = self.pages + 1;
        if page.items.len() == 0 {
            self.finished = true;
            return Ok(());
        }
        let Page { items, cursor } = page;
        let mut ready = keep_ready(items);
        self.items.append(&mut ready);
        assert(videos_view(self.items@) =~= start.items + ready_only(
            videos_view(page.items@),
        ));
        match cursor {
            None => {
                self.finished = true;
                Ok(())
            },
            Some(next) => {
                if self.pages >= MAX_PAGES {
                    self.finished = true;
                    Err(
                        ExitMsg::new(
                            ExitCode::TooManyPages,
                            "A listing from Twitch did not end within the page limit.",
                        ),
                    )
                } else {
                    self.cursor = Some(next);
                    Ok(())
                }
            },
        }
    }
}

} // verus!
