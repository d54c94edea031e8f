use vstd::prelude::*;
use vstd::arithmetic::div_mod::{lemma_fundamental_div_mod, lemma_fundamental_div_mod_converse};
use crate::error::{Error, ErrorView, HttpFailure, HttpFailureView};
use crate::http::{
    is_success, spec_authorization, spec_failure, spec_mutation_request, BodyView, HttpReply,
    Method, MutationRequest, MutationRequestView,
};
use crate::import::saved_tracks::save_tracks;
use crate::model::{error_view, result_view};
use crate::purge::playlists::{spec_unfollow_url, unfollow_url};
use crate::text::{join, spec_join};
use crate::utils::{delete_spotify, library_tracks_url, spec_library_tracks_url};

verus! {

/// How many tracks one request may add to a playlist.
pub const PLAYLIST_CHUNK_SIZE: usize = 100;

/// How many tracks one request may save to, or remove from, the library.
pub const LIBRARY_CHUNK_SIZE: usize = 50;

/// How many chunks of at most `size` items a sequence of `len` items makes.
pub open spec fn spec_chunk_count(len: nat, size: nat) -> nat
    recommends
        size > 0,
{
    ((len + size - 1) / (size as int)) as nat
}

/// The `i`-th chunk: the items from position `i * size` up to, and not
/// including, position `(i + 1) * size`, or up to the end if that comes
/// first.
pub open spec fn spec_chunk<A>(items: Seq<A>, size: nat, i: int) -> Seq<A> {
    items.subrange(
        i * size,
        if (i + 1) * size <= items.len() {
            (i + 1) * size
        } else {
            items.len() as int
        },
    )
}

/// The partition of `items` into chunks of `size`, in order. Every chunk but
/// the last has exactly `size` items; the last has what is left, at least
/// one.
pub open spec fn spec_chunks<A>(items: Seq<A>, size: nat) -> Seq<Seq<A>> {
    Seq::new(spec_chunk_count(items.len(), size), |i: int| spec_chunk(items, size, i))
}

proof fn lemma_chunk_count_step(len: nat, size: nat, k: nat)
    requires
        size > 0,
        k * size < len,
    ensures
        k < spec_chunk_count(len, size),
        len <= (k + 1) * size ==> spec_chunk_count(len, size) == k + 1,
        (k + 1) * size == k * size + size,
{
    assert((k + 1) * size == k * size + size) by (nonlinear_arith);
    let x = (len + size - 1) as int;
    let q = x / (size as int);
    assert(x == q * size + x % (size as int) && 0 <= x % (size as int) < size) by {
        lemma_fundamental_div_mod(x, size as int);
        assert(size * q == q * size) by (nonlinear_arith);
    }
    assert(k < q) by (nonlinear_arith)
        requires
            x == q * size + x % (size as int),
            0 <= x % (size as int) < size,
            k * size < len,
            x == len + size - 1,
            size > 0,
    ;
    if len <= (k + 1) * size {
        let r = x - (k + 1) * size;
        assert(0 <= r < size);
        lemma_fundamental_div_mod_converse(x, size as int, (k + 1) as int, r);
    }
}

proof fn lemma_chunk_count_zero(size: nat)
    requires
        size > 0,
    ensures
        spec_chunk_count(0, size) == 0,
{
    lemma_fundamental_div_mod_converse((size - 1) as int, size as int, 0, (size - 1) as int);
}

proof fn lemma_count_bound(len: nat, size: nat, k: nat)
    requires
        size > 0,
        len <= k * size,
    ensures
        spec_chunk_count(len, size) <= k,
{
    let x = (len + size - 1) as int;
    let q = x / (size as int);
    lemma_fundamental_div_mod(x, size as int);
    assert(size * q == q * size) by (nonlinear_arith);
    assert(q <= k) by (nonlinear_arith)
        requires
            x == q * size + x % (size as int),
            0 <= x % (size as int) < size,
            x <= k * size + size - 1,
            size > 0,
    ;
}

proof fn lemma_chunk_starts_within(len: nat, size: nat, i: nat)
    requires
        size > 0,
        i < spec_chunk_count(len, size),
    ensures
        i * size < len,
{
    if i * size >= len {
        lemma_count_bound(len, size, i);
    }
}

/// Splits `ids` into chunks of at most `size`, keeping their order.
pub fn chunks(ids: &Vec<String>, size: usize) -> (out: Vec<Vec<String>>)
    requires
        size > 0,
    ensures
        out.deep_view() == spec_chunks(ids.deep_view(), size as nat),
{
    let ghost all = ids.deep_view();
    let mut out: Vec<Vec<String>> = Vec::new();
    let mut start: usize = 0;
    proof {
        if ids.len() == 0 {
            lemma_chunk_count_zero(size as nat);
        }
        assert(out.len() * size == 0) by (nonlinear_arith)
            requires
                out.len() == 0,
        ;
    }
    while start < ids.len()
        invariant
            size > 0,
            all == ids.deep_view(),
            start <= ids.len(),
            start < ids.len() ==> start == out.len() * size,
            start == ids.len() ==> out.len() == spec_chunk_count(all.len(), size as nat),
            out.len() <= spec_chunk_count(all.len(), size as nat),
            forall|i: int|
                0 <= i < out.len() ==> (#[trigger] out.deep_view()[i]) == spec_chunk(
                    all,
                    size as nat,
                    i,
                ),
        decreases ids.len() - start,
    {
        let ghost k = out.len() as nat;
        proof {
            lemma_chunk_count_step(all.len(), size as nat, k);
        }
        let end: usize = if ids.len() - start <= size {
            ids.len()
        } else {
            start + size
        };
        let mut chunk: Vec<String> = Vec::new();
        let mut j: usize = start;
        while j < end
            invariant
                start <= j <= end <= ids.len(),
                all == ids.deep_view(),
                chunk.deep_view() == all.subrange(start as int, j as int),
            decreases end - j,
        {
            let ghost before = chunk.deep_view();
            chunk.push(ids[j].clone());
            assert(chunk.deep_view() =~= before.push(ids[j as int]@));
            assert(all.subrange(start as int, j + 1) =~= all.subrange(start as int, j as int).push(
                all[j as int],
            ));
            j += 1;
        }
        assert(chunk.deep_view() == spec_chunk(all, size as nat, k as int));
        let ghost before = out.deep_view();
        out.push(chunk);
        assert(out.deep_view() =~= before.push(spec_chunk(all, size as nat, k as int)));
        start = end;
    }
    assert(out.deep_view() =~= spec_chunks(all, size as nat));
    out
}

/// Whether the item at position `p` is found where the partition has to put
/// it: in chunk `p / size`, at position `p % size`.
pub open spec fn spec_kept_in_place<A>(items: Seq<A>, size: nat, p: int) -> bool {
    let i = p / (size as int);
    let r = p % (size as int);
    &&& 0 <= i < spec_chunks(items, size).len()
    &&& 0 <= r < spec_chunks(items, size)[i].len()
    &&& spec_chunks(items, size)[i][r] == items[p]
}

/// The chunks partition the items and keep their order: every chunk but the
/// last is full, the last holds between one and `size` items, and every
/// item is kept in place.
pub proof fn lemma_chunks_partition<A>(items: Seq<A>, size: nat)
    requires
        size > 0,
    ensures
        forall|i: int|
            0 <= i < spec_chunks(items, size).len() - 1 ==> (#[trigger] spec_chunks(
                items,
                size,
            )[i]).len() == size,
        spec_chunks(items, size).len() > 0 ==> 0 < spec_chunks(items, size).last().len() <= size,
        items.len() == 0 <==> spec_chunks(items, size).len() == 0,
        forall|p: int| 0 <= p < items.len() ==> #[trigger] spec_kept_in_place(items, size, p),
{
    let count = spec_chunk_count(items.len(), size);
    let all = spec_chunks(items, size);
    if items.len() == 0 {
        lemma_chunk_count_zero(size);
    } else {
        lemma_chunk_count_step(items.len(), size, 0);
    }
    assert forall|i: int| 0 <= i < all.len() - 1 implies (#[trigger] all[i]).len() == size by {
        lemma_chunk_starts_within(items.len(), size, (i + 1) as nat);
        assert((i + 1) * size == i * size + size) by (nonlinear_arith);
        assert(0 <= i * size) by (nonlinear_arith)
            requires
                i >= 0,
                size > 0,
        ;
    }
    if all.len() > 0 {
        let i = all.len() - 1;
        lemma_chunk_starts_within(items.len(), size, i as nat);
        assert(0 <= i * size) by (nonlinear_arith)
            requires
                i >= 0,
                size > 0,
        ;
        assert((i + 1) * size == i * size + size) by (nonlinear_arith);
        if (i + 1) * size < items.len() {
            lemma_chunk_count_step(items.len(), size, (i + 1) as nat);
        }
    }
    assert forall|p: int| 0 <= p < items.len() implies #[trigger] spec_kept_in_place(
        items,
        size,
        p,
    ) by {
        let i = p / (size as int);
        let r = p % (size as int);
        lemma_fundamental_div_mod(p, size as int);
        assert(size * i == i * size) by (nonlinear_arith);
        assert(0 <= i) by (nonlinear_arith)
            requires
                p == i * size + r,
                0 <= r < size,
                p >= 0,
                size > 0,
        ;
        assert((i + 1) * size == i * size + size) by (nonlinear_arith);
        lemma_chunk_count_step(items.len(), size, i as nat);
        assert(i < all.len());
        let chunk = spec_chunk(items, size, i);
        assert(all[i] == chunk);
        assert(r < chunk.len());
        assert(chunk[r] == items[i * size + r]);
    }
}

/// A batched mutation in progress: the chunks that have not been sent yet,
/// in the order they are to be sent. One request is made per chunk, each
/// only after the one before has succeeded.
pub struct BulkMutation {
    pub pending: Vec<Vec<String>>,
}

impl DeepView for BulkMutation {
    type V = Seq<Seq<Seq<char>>>;

    open spec fn deep_view(&self) -> Seq<Seq<Seq<char>>> {
        self.pending.deep_view()
    }
}

/// How a batched mutation goes on.
pub enum BulkStep {
    /// Send one request for `chunk`; `rest` is what remains after it.
    Send { chunk: Vec<String>, rest: BulkMutation },
    /// Every chunk has been applied.
    Done,
    /// A request failed. Chunks applied before stay applied; the remaining
    /// ones are not sent.
    Failed(Error),
}

/// The model of a [`BulkStep`].
pub enum BulkStepView {
    Send { chunk: Seq<Seq<char>>, rest: Seq<Seq<Seq<char>>> },
    Done,
    Failed(ErrorView),
}

impl DeepView for BulkStep {
    type V = BulkStepView;

    open spec fn deep_view(&self) -> BulkStepView {
        match *self {
            BulkStep::Send { chunk, rest } => BulkStepView::Send {
                chunk: chunk.deep_view(),
                rest: rest.deep_view(),
            },
            BulkStep::Done => BulkStepView::Done,
            BulkStep::Failed(error) => BulkStepView::Failed(error.deep_view()),
        }
    }
}

/// What is to be done with the chunks that are pending: send the first, or
/// stop if there is none.
pub open spec fn spec_next(pending: Seq<Seq<Seq<char>>>) -> BulkStepView {
    if pending.len() == 0 {
        BulkStepView::Done
    } else {
        BulkStepView::Send { chunk: pending[0], rest: pending.drop_first() }
    }
}

/// What follows the answer to a chunk's request: a failure ends the
/// mutation; otherwise the next chunk is due.
pub open spec fn spec_bulk_step(
    pending: Seq<Seq<Seq<char>>>,
    failure: Option<HttpFailureView>,
) -> BulkStepView {
    match failure {
        Some(failure) => BulkStepView::Failed(ErrorView::BulkMutationHttpError(failure)),
        None => spec_next(pending),
    }
}

/// What the answer to a single mutation request amounts to: nothing to
/// report, or the error for the failure.
pub open spec fn spec_check_mutation(failure: Option<HttpFailureView>) -> Result<(), ErrorView> {
    match failure {
        Some(failure) => Err(ErrorView::BulkMutationHttpError(failure)),
        None => Ok(()),
    }
}

/// Judges the answer to a single mutation request. A refused request fails
/// with the status and the text of the answer.
pub fn check_mutation<T>(reply: &HttpReply<T>) -> (out: Result<(), Error>)
    ensures
        error_view(out) == spec_check_mutation(spec_failure(reply.shallow_view())),
{
    match reply {
        HttpReply::Unreachable => Err(Error::BulkMutationHttpError(HttpFailure::Transport)),
        HttpReply::Response { status, text, .. } => {
            if is_success(*status) {
                Ok(())
            } else {
                Err(
                    Error::BulkMutationHttpError(
                        HttpFailure::Status { status: *status, response: text.clone() },
                    ),
                )
            }
        },
    }
}

impl BulkMutation {
    /// Plans the mutation of `ids` in chunks of at most `chunk_size`.
    pub fn new(ids: &Vec<String>, chunk_size: usize) -> (plan: BulkMutation)
        requires
            chunk_size > 0,
        ensures
            plan.deep_view() == spec_chunks(ids.deep_view(), chunk_size as nat),
    {
        BulkMutation { pending: chunks(ids, chunk_size) }
    }

    /// Says what is due now: the first pending chunk, or nothing more.
    pub fn next(self) -> (out: BulkStep)
        ensures
            out.deep_view() == spec_next(self.deep_view()),
    {
        let mut pending = self.pending;
        if pending.len() == 0 {
            BulkStep::Done
        } else {
            let ghost before = pending.deep_view();
            let chunk = pending.remove(0);
            assert(pending.deep_view() =~= before.drop_first());
            BulkStep::Send { chunk, rest: BulkMutation { pending } }
        }
    }

    /// Takes the mutation one step further, given the answer to the request
    /// for the chunk sent last.
    pub fn step<T>(self, reply: &HttpReply<T>) -> (out: BulkStep)
        ensures
            out.deep_view() == spec_bulk_step(
                self.deep_view(),
                spec_failure(reply.shallow_view()),
            ),
    {
        match check_mutation(reply) {
            Ok(()) => self.next(),
            Err(error) => BulkStep::Failed(error),
        }
    }
}

/// What a batch request is for.
#[derive(Clone, Copy, Debug, PartialEq, Eq, Structural)]
pub enum BulkKind {
    /// Save the tracks of the chunk to the library.
    SaveTracks,
    /// Remove the tracks of the chunk from the library.
    RemoveTracks,
    /// Unfollow the playlist the chunk names; such a chunk holds one
    /// identifier.
    UnfollowPlaylist,
}

/// The request of the given kind for one chunk of identifiers, or
/// `InvalidAccessToken` if the token cannot stand in a header.
pub open spec fn spec_bulk_request(
    kind: BulkKind,
    access_token: Seq<char>,
    chunk: Seq<Seq<char>>,
) -> Result<MutationRequestView, ErrorView> {
    match kind {
        BulkKind::SaveTracks => spec_mutation_request(
            access_token,
            Method::Put,
            spec_library_tracks_url(chunk),
            BodyView::Ids(chunk),
        ),
        BulkKind::RemoveTracks => spec_mutation_request(
            access_token,
            Method::Delete,
            spec_library_tracks_url(chunk),
            BodyView::Empty,
        ),
        BulkKind::UnfollowPlaylist => spec_mutation_request(
            access_token,
            Method::Delete,
            spec_unfollow_url(spec_join(chunk, ","@)),
            BodyView::Empty,
        ),
    }
}

/// Makes the request of the given kind for one chunk of identifiers.
pub fn bulk_request(kind: BulkKind, access_token: &str, chunk: &Vec<String>) -> (out: Result<
    MutationRequest,
    Error,
>)
    ensures
        result_view(out) == spec_bulk_request(kind, access_token@, chunk.deep_view()),
{
    match kind {
        BulkKind::SaveTracks => save_tracks(access_token, chunk),
        BulkKind::RemoveTracks => {
            let url = library_tracks_url(chunk);
            delete_spotify(access_token, url.as_str())
        },
        BulkKind::UnfollowPlaylist => {
            let id = join(chunk, ",");
            let url = unfollow_url(id.as_str());
            delete_spotify(access_token, url.as_str())
        },
    }
}

/// Requests that wait to be sent, in the order they are to be sent, each
/// only after the one before has succeeded.
pub struct RequestQueue {
    pub pending: Vec<MutationRequest>,
}

impl DeepView for RequestQueue {
    type V = Seq<MutationRequestView>;

    open spec fn deep_view(&self) -> Seq<MutationRequestView> {
        self.pending.deep_view()
    }
}

/// How a queue of requests goes on.
pub enum QueueStep {
    /// Send `request`; `rest` is what remains after it.
    Send { request: MutationRequest, rest: RequestQueue },
    /// Every request has been accepted.
    Done,
    /// A request failed. What was applied before stays applied; the
    /// remaining requests are not sent.
    Failed(Error),
}

/// The model of a [`QueueStep`].
pub enum QueueStepView {
    Send { request: MutationRequestView, rest: Seq<MutationRequestView> },
    Done,
    Failed(ErrorView),
}

impl DeepView for QueueStep {
    type V = QueueStepView;

    open spec fn deep_view(&self) -> QueueStepView {
        match *self {
            QueueStep::Send { request, rest } => QueueStepView::Send {
                request: request.deep_view(),
                rest: rest.deep_view(),
            },
            QueueStep::Done => QueueStepView::Done,
            QueueStep::Failed(error) => QueueStepView::Failed(error.deep_view()),
        }
    }
}

/// What is to be done with the requests that are pending: send the first,
/// or stop if there is none.
pub open spec fn spec_queue_next(pending: Seq<MutationRequestView>) -> QueueStepView {
    if pending.len() == 0 {
        QueueStepView::Done
    } else {
        QueueStepView::Send { request: pending[0], rest: pending.drop_first() }
    }
}

/// What follows the answer to a request: a failure ends the queue;
/// otherwise the next request is due.
pub open spec fn spec_queue_step(
    pending: Seq<MutationRequestView>,
    failure: Option<HttpFailureView>,
) -> QueueStepView {
    match failure {
        Some(failure) => QueueStepView::Failed(ErrorView::BulkMutationHttpError(failure)),
        None => spec_queue_next(pending),
    }
}

/// The requests of the given kind for the chunks, one per chunk and in
/// their order. A token that cannot stand in a header is refused as soon as
/// there is a request to make.
pub open spec fn spec_bulk_requests(
    kind: BulkKind,
    access_token: Seq<char>,
    chunks: Seq<Seq<Seq<char>>>,
) -> Result<Seq<MutationRequestView>, ErrorView> {
    if chunks.len() == 0 {
        Ok(Seq::empty())
    } else {
        match spec_authorization(access_token) {
            Ok(_) => Ok(
                Seq::new(
                    chunks.len(),
                    |i: int| spec_bulk_request(kind, access_token, chunks[i])->Ok_0,
                ),
            ),
            Err(error) => Err(error),
        }
    }
}

/// Makes the requests of the given kind for the chunks.
pub fn bulk_requests(kind: BulkKind, access_token: &str, chunks: &Vec<Vec<String>>) -> (out: Result<
    RequestQueue,
    Error,
>)
    ensures
        result_view(out) == spec_bulk_requests(kind, access_token@, chunks.deep_view()),
{
    let mut pending: Vec<MutationRequest> = Vec::new();
    let mut i: usize = 0;
    while i < chunks.len()
        invariant
            i <= chunks.len(),
            pending.len() == i,
            i > 0 ==> spec_authorization(access_token@) is Ok,
            forall|k: int|
                0 <= k < i ==> Ok::<MutationRequestView, ErrorView>(
                    #[trigger] pending.deep_view()[k],
                ) == spec_bulk_request(kind, access_token@, chunks.deep_view()[k]),
        decreases chunks.len() - i,
    {
        match bulk_request(kind, access_token, &chunks[i]) {
            Ok(request) => {
                let ghost before = pending.deep_view();
                let ghost added = request.deep_view();
                pending.push(request);
                assert(pending.deep_view() =~= before.push(added));
            },
            Err(error) => {
                return Err(error);
            },
        }
        i += 1;
    }
    assert(pending.deep_view() =~= spec_bulk_requests(
        kind,
        access_token@,
        chunks.deep_view(),
    )->Ok_0);
    Ok(RequestQueue { pending })
}

impl RequestQueue {
    /// Says what is due now: the first pending request, or nothing more.
    pub fn next(self) -> (out: QueueStep)
        ensures
            out.deep_view() == spec_queue_next(self.deep_view()),
    {
        let mut pending = self.pending;
        if pending.len() == 0 {
            QueueStep::Done
        } else {
            let ghost before = pending.deep_view();
            let request = pending.remove(0);
            assert(pending.deep_view() =~= before.drop_first());
            QueueStep::Send { request, rest: RequestQueue { pending } }
        }
    }

    /// Takes the queue one step further, given the answer to the request
    /// sent last.
    pub fn step<T>(self, reply: &HttpReply<T>) -> (out: QueueStep)
        ensures
            out.deep_view() == spec_queue_step(
                self.deep_view(),
                spec_failure(reply.shallow_view()),
            ),
    {
        match check_mutation(reply) {
            Ok(()) => self.next(),
            Err(error) => QueueStep::Failed(error),
        }
    }
}

/// What is sent, in order, of the pending chunks or requests when the
/// requests are answered by `outcomes` in turn (`None` for success). The
/// first is sent unasked; each further one only after a success.
pub open spec fn spec_calls<A>(pending: Seq<A>, outcomes: Seq<Option<HttpFailureView>>) -> Seq<A>
    decreases pending.len(),
{
    if pending.len() == 0 {
        Seq::empty()
    } else if outcomes.len() > 0 && outcomes[0] is None {
        seq![pending[0]] + spec_calls(pending.drop_first(), outcomes.drop_first())
    } else {
        seq![pending[0]]
    }
}

/// If every request succeeds, everything pending is sent, in order.
pub proof fn lemma_all_chunks_are_sent<A>(pending: Seq<A>, outcomes: Seq<Option<HttpFailureView>>)
    requires
        outcomes.len() >= pending.len(),
        forall|i: int| 0 <= i < pending.len() ==> #[trigger] outcomes[i] is None,
    ensures
        spec_calls(pending, outcomes) == pending,
    decreases pending.len(),
{
    if pending.len() > 0 {
        let rest = pending.drop_first();
        let later = outcomes.drop_first();
        assert forall|i: int| 0 <= i < rest.len() implies #[trigger] later[i] is None by {
            assert(later[i] == outcomes[i + 1]);
        }
        lemma_all_chunks_are_sent(rest, later);
        assert(spec_calls(pending, outcomes) =~= pending);
    } else {
        assert(spec_calls(pending, outcomes) =~= pending);
    }
}

/// A failed request is the last one made: if the first `j` requests
/// succeed and the one after them fails, what is sent is what was pending
/// up to and including position `j`, and nothing after it.
pub proof fn lemma_failure_stops_the_mutation<A>(
    pending: Seq<A>,
    outcomes: Seq<Option<HttpFailureView>>,
    j: int,
)
    requires
        0 <= j < pending.len(),
        j < outcomes.len(),
        forall|i: int| 0 <= i < j ==> #[trigger] outcomes[i] is None,
        outcomes[j] is Some,
    ensures
        spec_calls(pending, outcomes) == pending.take(j + 1),
    decreases j,
{
    if j > 0 {
        let rest = pending.drop_first();
        let later = outcomes.drop_first();
        assert forall|i: int| 0 <= i < j - 1 implies #[trigger] later[i] is None by {
            assert(later[i] == outcomes[i + 1]);
        }
        assert(later[j - 1] == outcomes[j]);
        lemma_failure_stops_the_mutation(rest, later, j - 1);
        assert(spec_calls(pending, outcomes) =~= pending.take(j + 1));
    } else {
        assert(spec_calls(pending, outcomes) =~= pending.take(1));
    }
}

} // verus!
