use vstd::prelude::*;
use vstd::string::*;
use crate::error::{Error, ErrorView, HttpFailureView};
use crate::http::{
    bearer, mutation_request, spec_authorization, spec_is_success, spec_mutation_request,
    spec_payload, Body, BodyView, HttpReply, HttpReplyView, Method, MutationRequest, ReplyFault,
    ReplyFaultView,
};
use crate::model::{error_view, result_view};
use crate::text::{join, spec_join};

verus! {

/// Where the signed-in user's profile is read.
pub const PROFILE_URL: &'static str = "https://api.spotify.com/v1/me";

/// Where the signed-in user's saved tracks are listed, saved and removed.
pub const SAVED_TRACKS_URL: &'static str = "https://api.spotify.com/v1/me/tracks";

/// Where the signed-in user's playlists are listed.
pub const PLAYLISTS_URL: &'static str = "https://api.spotify.com/v1/me/playlists";

/// One page of a cursor-paginated collection: its items in provider order,
/// and the URL of the page that follows, if one does.
pub struct Page<T> {
    pub items: Vec<T>,
    pub next: Option<String>,
}

/// The model of a [`Page`].
pub struct PageView<T> {
    pub items: Seq<T>,
    pub next: Option<Seq<char>>,
}

impl<T> DeepView for Page<T> {
    type V = PageView<T>;

    open spec fn deep_view(&self) -> PageView<T> {
        PageView { items: self.items@, next: self.next.deep_view() }
    }
}

/// A bearer-authenticated request for one resource.
pub struct ApiRequest {
    pub url: String,
    /// The value of the `Authorization` header.
    pub authorization: String,
}

/// The model of an [`ApiRequest`].
pub struct ApiRequestView {
    pub url: Seq<char>,
    pub authorization: Seq<char>,
}

impl DeepView for ApiRequest {
    type V = ApiRequestView;

    open spec fn deep_view(&self) -> ApiRequestView {
        ApiRequestView { url: self.url@, authorization: self.authorization@ }
    }
}

/// A walk over a cursor-paginated collection, between two pages: what has
/// been gathered so far, and the request for the page to fetch now.
pub struct PageWalk<T> {
    pub items: Vec<T>,
    pub request: ApiRequest,
}

/// The model of a [`PageWalk`].
pub struct PageWalkView<T> {
    pub items: Seq<T>,
    pub request: ApiRequestView,
}

impl<T> DeepView for PageWalk<T> {
    type V = PageWalkView<T>;

    open spec fn deep_view(&self) -> PageWalkView<T> {
        PageWalkView { items: self.items@, request: self.request.deep_view() }
    }
}

/// How a walk goes on after a page request has been answered.
pub enum WalkStep<T> {
    /// Another page follows: fetch the walk's request.
    Fetch(PageWalk<T>),
    /// The last page has been read; these are all the items, in order.
    Done(Vec<T>),
    /// The walk is abandoned; what had been gathered is dropped.
    Failed(Error),
}

/// The model of a [`WalkStep`].
pub enum WalkStepView<T> {
    Fetch(PageWalkView<T>),
    Done(Seq<T>),
    Failed(ErrorView),
}

impl<T> DeepView for WalkStep<T> {
    type V = WalkStepView<T>;

    open spec fn deep_view(&self) -> WalkStepView<T> {
        match *self {
            WalkStep::Fetch(walk) => WalkStepView::Fetch(walk.deep_view()),
            WalkStep::Done(items) => WalkStepView::Done(items@),
            WalkStep::Failed(error) => WalkStepView::Failed(error.deep_view()),
        }
    }
}

/// The error that a fault in reading a resource amounts to.
pub open spec fn spec_read_error(fault: ReplyFaultView) -> ErrorView {
    match fault {
        ReplyFaultView::Http(failure) => ErrorView::PaginationHttpError(failure),
        ReplyFaultView::Decode => ErrorView::PaginationDecodeError,
    }
}

/// What the answer to a request for one resource amounts to: the resource,
/// or the error for the fault.
pub open spec fn spec_read_reply<T>(reply: HttpReplyView<T>) -> Result<T, ErrorView> {
    match spec_payload(reply) {
        Ok(resource) => Ok(resource),
        Err(fault) => Err(spec_read_error(fault)),
    }
}

/// Judges the answer to a request for one resource.
pub fn read_reply<T>(reply: HttpReply<T>) -> (out: Result<T, Error>)
    ensures
        error_view(out) == spec_read_reply(reply.shallow_view()),
{
    match reply.payload() {
        Ok(resource) => Ok(resource),
        Err(ReplyFault::Http(failure)) => Err(Error::PaginationHttpError(failure)),
        Err(ReplyFault::Decode) => Err(Error::PaginationDecodeError),
    }
}

/// The request for one resource at `url`, or `InvalidAccessToken` if the
/// token cannot stand in a header.
pub open spec fn spec_api_request(access_token: Seq<char>, url: Seq<char>) -> Result<
    ApiRequestView,
    ErrorView,
> {
    match spec_authorization(access_token) {
        Ok(authorization) => Ok(ApiRequestView { url, authorization }),
        Err(error) => Err(error),
    }
}

fn api_request(access_token: &str, url: &str) -> (out: Result<ApiRequest, Error>)
    ensures
        result_view(out) == spec_api_request(access_token@, url@),
{
    match bearer(access_token) {
        Ok(authorization) => Ok(ApiRequest { url: String::from_str(url), authorization }),
        Err(error) => Err(error),
    }
}

/// The request for the signed-in user's profile, whose `id` is the user
/// identifier. Its answer is judged by [`read_reply`]. A token that cannot
/// stand in a header is refused, and no request is made.
pub fn get_user_id(access_token: &str) -> (request: Result<ApiRequest, Error>)
    ensures
        result_view(request) == spec_api_request(access_token@, PROFILE_URL@),
{
    api_request(access_token, PROFILE_URL)
}

/// The request that deletes whatever `url` names. Its answer is judged by
/// [`check_mutation`](crate::bulk::check_mutation): the deletion went
/// through exactly if the status is in the success range, and a refused
/// deletion fails with the text of the answer. A token that cannot stand in
/// a header is refused, and no request is made.
pub fn delete_spotify(access_token: &str, url: &str) -> (request: Result<MutationRequest, Error>)
    ensures
        result_view(request) == spec_mutation_request(
            access_token@,
            Method::Delete,
            url@,
            BodyView::Empty,
        ),
{
    mutation_request(access_token, Method::Delete, String::from_str(url), Body::Empty)
}

/// The URL of a playlist's track list.
pub open spec fn spec_playlist_tracks_url(playlist_id: Seq<char>) -> Seq<char> {
    "https://api.spotify.com/v1/playlists/"@ + playlist_id + "/tracks"@
}

/// The URL of a playlist's track list, which is read page by page on export
/// and added to on import.
pub fn playlist_tracks_url(playlist_id: &str) -> (url: String)
    ensures
        url@ == spec_playlist_tracks_url(playlist_id@),
{
    let mut url = String::from_str("https://api.spotify.com/v1/playlists/");
    url.append(playlist_id);
    url.append("/tracks");
    url
}

/// The URL that names a chunk of library tracks: the identifiers, joined by
/// commas, as the `ids` query parameter.
pub open spec fn spec_library_tracks_url(track_ids: Seq<Seq<char>>) -> Seq<char> {
    SAVED_TRACKS_URL@ + "?ids="@ + spec_join(track_ids, ","@)
}

/// The URL that names a chunk of library tracks.
pub fn library_tracks_url(track_ids: &Vec<String>) -> (url: String)
    ensures
        url@ == spec_library_tracks_url(track_ids.deep_view()),
{
    let mut url = String::from_str(SAVED_TRACKS_URL);
    url.append("?ids=");
    let ids = join(track_ids, ",");
    url.append(ids.as_str());
    url
}

/// The walk at its start: nothing gathered, the first page to be fetched
/// from `url` with the token as bearer. There is no walk for a token that
/// cannot stand in a header.
pub open spec fn spec_get_all_items<T>(access_token: Seq<char>, url: Seq<char>) -> Result<
    PageWalkView<T>,
    ErrorView,
> {
    match spec_api_request(access_token, url) {
        Ok(request) => Ok(PageWalkView { items: Seq::empty(), request }),
        Err(error) => Err(error),
    }
}

/// The walk's transition on the answer to its request. A page's items are
/// appended to what was gathered. If the page names a successor, that URL is
/// fetched next, with the same authorization; if not, the walk is done. Any
/// fault abandons the walk and all it had gathered.
pub open spec fn spec_walk_step<T>(
    walk: PageWalkView<T>,
    reply: HttpReplyView<PageView<T>>,
) -> WalkStepView<T> {
    match spec_payload(reply) {
        Ok(page) => match page.next {
            Some(url) => WalkStepView::Fetch(
                PageWalkView {
                    items: walk.items + page.items,
                    request: ApiRequestView { url, authorization: walk.request.authorization },
                },
            ),
            None => WalkStepView::Done(walk.items + page.items),
        },
        Err(fault) => WalkStepView::Failed(spec_read_error(fault)),
    }
}

/// Starts a walk over the collection at `url`. A token that cannot stand in
/// a header is refused, and no request is made.
pub fn get_all_items<T>(access_token: &str, url: &str) -> (walk: Result<PageWalk<T>, Error>)
    ensures
        result_view(walk) == spec_get_all_items::<T>(access_token@, url@),
{
    match api_request(access_token, url) {
        Ok(request) => Ok(PageWalk { items: Vec::new(), request }),
        Err(error) => Err(error),
    }
}

impl<T> PageWalk<T> {
    /// Takes the walk one page further, given the answer to its request.
    pub fn step(self, reply: HttpReply<Page<T>>) -> (out: WalkStep<T>)
        ensures
            out.deep_view() == spec_walk_step(self.deep_view(), reply.deep_view()),
    {
        let PageWalk { items, request } = self;
        match read_reply(reply) {
            Ok(page) => {
                let Page { items: page_items, next } = page;
                let mut items = items;
                let mut page_items = page_items;
                items.append(&mut page_items);
                match next {
                    Some(url) => WalkStep::Fetch(
                        PageWalk {
                            items,
                            request: ApiRequest { url, authorization: request.authorization },
                        },
                    ),
                    None => WalkStep::Done(items),
                }
            },
            Err(error) => WalkStep::Failed(error),
        }
    }
}

/// How a walk ends when its requests are answered by `replies` in turn:
/// with all items, with an error, or not yet (`None`) if the replies run out
/// while another page is still to be fetched. Replies past the end of the
/// walk are never asked for and play no part.
pub open spec fn spec_walk<T>(
    walk: PageWalkView<T>,
    replies: Seq<HttpReplyView<PageView<T>>>,
) -> Option<Result<Seq<T>, ErrorView>>
    decreases replies.len(),
{
    if replies.len() == 0 {
        None
    } else {
        match spec_walk_step(walk, replies[0]) {
            WalkStepView::Fetch(next) => spec_walk(next, replies.drop_first()),
            WalkStepView::Done(items) => Some(Ok(items)),
            WalkStepView::Failed(error) => Some(Err(error)),
        }
    }
}

/// The URLs a walk asks for, one per reply it gets to see, the first being
/// the URL the walk starts at.
pub open spec fn spec_requested_urls<T>(
    walk: PageWalkView<T>,
    replies: Seq<HttpReplyView<PageView<T>>>,
) -> Seq<Seq<char>>
    decreases replies.len(),
{
    if replies.len() == 0 {
        Seq::empty()
    } else {
        seq![walk.request.url] + match spec_walk_step(walk, replies[0]) {
            WalkStepView::Fetch(next) => spec_requested_urls(next, replies.drop_first()),
            _ => Seq::empty(),
        }
    }
}

/// The items of the pages, laid end to end in page order.
pub open spec fn spec_concat_items<T>(pages: Seq<PageView<T>>) -> Seq<T>
    decreases pages.len(),
{
    if pages.len() == 0 {
        Seq::empty()
    } else {
        pages[0].items + spec_concat_items(pages.drop_first())
    }
}

/// Whether the pages form one complete collection: there is at least one,
/// each but the last names a successor, and the last names none.
pub open spec fn is_page_chain<T>(pages: Seq<PageView<T>>) -> bool {
    &&& pages.len() > 0
    &&& forall|i: int| 0 <= i < pages.len() - 1 ==> (#[trigger] pages[i]).next is Some
    &&& pages.last().next is None
}

/// A walk whose requests are answered, successfully, with the pages of one
/// complete collection returns exactly the items of those pages in page
/// order, after whatever it had gathered before. It asks for one URL per
/// page: first its own, then each page's successor.
pub proof fn lemma_walk_returns_all_pages<T>(
    walk: PageWalkView<T>,
    replies: Seq<HttpReplyView<PageView<T>>>,
    pages: Seq<PageView<T>>,
)
    requires
        is_page_chain(pages),
        replies.len() == pages.len(),
        forall|i: int| 0 <= i < replies.len() ==> spec_payload(#[trigger] replies[i]) == Ok::<
            PageView<T>,
            ReplyFaultView,
        >(pages[i]),
    ensures
        spec_walk(walk, replies) == Some(
            Ok::<Seq<T>, ErrorView>(walk.items + spec_concat_items(pages)),
        ),
        spec_requested_urls(walk, replies).len() == pages.len(),
        spec_requested_urls(walk, replies)[0] == walk.request.url,
        forall|i: int|
            0 <= i < pages.len() - 1 ==> #[trigger] spec_requested_urls(walk, replies)[i + 1]
                == pages[i].next->0,
    decreases replies.len(),
{
    let first = pages[0];
    assert(spec_payload(replies[0]) == Ok::<PageView<T>, ReplyFaultView>(first));
    if pages.len() == 1 {
        assert(spec_concat_items(pages.drop_first()) =~= Seq::<T>::empty());
        assert(spec_concat_items(pages) =~= first.items);
        assert(first.next is None);
    } else {
        assert(first.next is Some);
        let next = PageWalkView {
            items: walk.items + first.items,
            request: ApiRequestView {
                url: first.next->0,
                authorization: walk.request.authorization,
            },
        };
        let rest_replies = replies.drop_first();
        let rest_pages = pages.drop_first();
        assert forall|i: int| 0 <= i < rest_replies.len() implies spec_payload(
            #[trigger] rest_replies[i],
        ) == Ok::<PageView<T>, ReplyFaultView>(rest_pages[i]) by {
            assert(rest_replies[i] == replies[i + 1]);
            assert(rest_pages[i] == pages[i + 1]);
        }
        assert forall|i: int| 0 <= i < rest_pages.len() - 1 implies (
        #[trigger] rest_pages[i]).next is Some by {
            assert(rest_pages[i] == pages[i + 1]);
        }
        assert(rest_pages.last() == pages.last());
        lemma_walk_returns_all_pages(next, rest_replies, rest_pages);
        assert(walk.items + spec_concat_items(pages) =~= next.items + spec_concat_items(
            rest_pages,
        ));
        let urls = spec_requested_urls(walk, replies);
        let rest_urls = spec_requested_urls(next, rest_replies);
        assert(urls =~= seq![walk.request.url] + rest_urls);
        assert forall|i: int| 0 <= i < pages.len() - 1 implies #[trigger] urls[i + 1]
            == pages[i].next->0 by {
            if i == 0 {
                assert(urls[1] == rest_urls[0]);
            } else {
                assert(urls[i + 1] == rest_urls[i]);
                assert(rest_urls[(i - 1) + 1] == rest_pages[i - 1].next->0);
                assert(rest_pages[i - 1] == pages[i]);
            }
        }
    }
}

/// A walk that is refused at any page fails as a whole: if the first `k`
/// requests are answered with pages that name a successor and the next one
/// cannot be sent or is refused, the walk ends with the pagination HTTP
/// error for that failure, and none of the items gathered is returned.
/// It has then asked for `k + 1` URLs and asks for no more.
pub proof fn lemma_walk_aborts_on_failure<T>(
    walk: PageWalkView<T>,
    replies: Seq<HttpReplyView<PageView<T>>>,
    k: int,
    failure: HttpFailureView,
)
    requires
        0 <= k < replies.len(),
        forall|i: int|
            0 <= i < k ==> spec_payload(#[trigger] replies[i]) is Ok && spec_payload(
                replies[i],
            )->Ok_0.next is Some,
        spec_payload(replies[k]) == Err::<PageView<T>, ReplyFaultView>(
            ReplyFaultView::Http(failure),
        ),
    ensures
        spec_walk(walk, replies) == Some(
            Err::<Seq<T>, ErrorView>(ErrorView::PaginationHttpError(failure)),
        ),
        spec_requested_urls(walk, replies).len() == k + 1,
    decreases k,
{
    if k > 0 {
        let page = spec_payload(replies[0])->Ok_0;
        let next = PageWalkView {
            items: walk.items + page.items,
            request: ApiRequestView {
                url: page.next->0,
                authorization: walk.request.authorization,
            },
        };
        let rest = replies.drop_first();
        assert forall|i: int| 0 <= i < k - 1 implies spec_payload(#[trigger] rest[i]) is Ok
            && spec_payload(rest[i])->Ok_0.next is Some by {
            assert(rest[i] == replies[i + 1]);
        }
        assert(rest[k - 1] == replies[k]);
        lemma_walk_aborts_on_failure(next, rest, k - 1, failure);
    }
}

/// A response with a status outside 200..=299 at any page index aborts the
/// walk with the pagination HTTP error that carries that status and the
/// text of the response, whatever that text decodes to.
pub proof fn lemma_walk_aborts_on_status<T>(
    walk: PageWalkView<T>,
    replies: Seq<HttpReplyView<PageView<T>>>,
    k: int,
    status: u16,
    body: Option<PageView<T>>,
    text: Seq<char>,
)
    requires
        0 <= k < replies.len(),
        forall|i: int|
            0 <= i < k ==> spec_payload(#[trigger] replies[i]) is Ok && spec_payload(
                replies[i],
            )->Ok_0.next is Some,
        replies[k] == (HttpReplyView::Response { status, body, text }),
        !spec_is_success(status),
    ensures
        spec_walk(walk, replies) == Some(
            Err::<Seq<T>, ErrorView>(
                ErrorView::PaginationHttpError(HttpFailureView::Status { status, response: text }),
            ),
        ),
        spec_requested_urls(walk, replies).len() == k + 1,
{
    lemma_walk_aborts_on_failure(
        walk,
        replies,
        k,
        HttpFailureView::Status { status, response: text },
    );
}

} // verus!
