//! Properties that relate several operations of the repository and the
//! service, stated over the views their contracts use.
use vstd::prelude::*;
use crate::errors::{ApiError, api_error_text, error_code_of, status_of};
use crate::ids::{ChannelId, MessageId};
use crate::message::{InsertMessageInput, MessageView};
use crate::pagination::{GetPaginated, page_of, page_skip, page_take};
use crate::repository::{
    has_id,
    ids_unique,
    in_channel,
    inserted_newest_first,
    lookup,
    new_record,
    newest_first,
    position_of,
    updated_record,
};

verus! {

/// A message that was just created is found by its id, and the record found
/// holds exactly the fields of the request, with the id it was given and its
/// creation time.
pub proof fn created_message_is_found(
    before: Seq<MessageView>,
    after: Seq<MessageView>,
    input: InsertMessageInput,
    created_at: i64,
)
    requires
        ids_unique(before),
        !has_id(before, input.id),
        inserted_newest_first(before, new_record(input, created_at), after),
    ensures
        has_id(after, input.id),
        lookup(after, input.id) == Some(new_record(input, created_at)),
{
    let m = new_record(input, created_at);
    let k = choose|k: int|
        0 <= k <= before.len() && after == before.insert(k, m) && (forall|i: int|
            0 <= i < k ==> before[i].created_at > m.created_at) && (forall|i: int|
            k <= i < before.len() ==> before[i].created_at <= m.created_at);
    assert(after[k] == m);
    assert(has_id(after, input.id));
    let p = position_of(after, input.id);
    if p < k {
        assert(after[p] == before[p]);
    } else if p > k {
        assert(after[p] == before[p - 1]);
    }
}

/// A filter keeps records newest first.
pub proof fn filter_keeps_newest_first(s: Seq<MessageView>, pred: spec_fn(MessageView) -> bool)
    requires
        newest_first(s),
    ensures
        newest_first(s.filter(pred)),
    decreases s.len(),
{
    reveal(Seq::filter);
    if s.len() > 0 {
        let rest = s.drop_last();
        assert(newest_first(rest));
        filter_keeps_newest_first(rest, pred);
        if pred(s.last()) {
            let f = rest.filter(pred);
            assert forall|i: int| 0 <= i < f.len() implies f[i].created_at >= s.last().created_at by {
                assert(f.contains(f[i]));
                rest.lemma_filter_contains_rev(pred, f[i]);
                let j = choose|j: int| 0 <= j < rest.len() && rest[j] == f[i];
                assert(s[j] == rest[j]);
            }
        }
    }
}

/// A page of a channel's messages is ordered newest first.
pub proof fn listed_page_is_newest_first(
    records: Seq<MessageView>,
    channel: ChannelId,
    pagination: GetPaginated,
)
    requires
        newest_first(records),
    ensures
        newest_first(
            page_of(
                records.filter(in_channel(channel)),
                page_skip(pagination),
                page_take(pagination),
            ),
        ),
{
    filter_keeps_newest_first(records, in_channel(channel));
}

/// A page holds `take` records when enough follow its start, the rest when
/// fewer do, and none when it starts past the end.
pub proof fn page_size<T>(s: Seq<T>, skip: int, take: int)
    requires
        0 <= skip,
        0 <= take,
    ensures
        page_of(s, skip, take).len() == (if skip >= s.len() {
            0
        } else if skip + take <= s.len() {
            take
        } else {
            s.len() - skip
        }),
{
}

/// An update changes only the fields it gives, and sets the update time.
pub proof fn update_changes_only_given_fields(
    m: MessageView,
    content: Option<Seq<char>>,
    is_pinned: Option<bool>,
    now: i64,
)
    ensures
        ({
            let u = updated_record(m, content, is_pinned, now);
            &&& u.id == m.id
            &&& u.channel_id == m.channel_id
            &&& u.author_id == m.author_id
            &&& u.reply_to_message_id == m.reply_to_message_id
            &&& u.attachments == m.attachments
            &&& u.created_at == m.created_at
            &&& u.content == (match content {
                Some(c) => c,
                None => m.content,
            })
            &&& u.is_pinned == (match is_pinned {
                Some(p) => p,
                None => m.is_pinned,
            })
            &&& u.updated_at == Some(now)
        }),
{
}

/// After a message is deleted its id is found no more.
pub proof fn deleted_message_is_gone(before: Seq<MessageView>, id: MessageId)
    requires
        ids_unique(before),
        has_id(before, id),
    ensures
        !has_id(before.remove(position_of(before, id)), id),
        lookup(before.remove(position_of(before, id)), id) is None,
{
    let p = position_of(before, id);
    let after = before.remove(p);
    if has_id(after, id) {
        let q = choose|q: int| 0 <= q < after.len() && after[q].id == id;
        if q < p {
            assert(after[q] == before[q]);
        } else {
            assert(after[q] == before[q + 1]);
        }
    }
}

/// The error that every route gives an unauthenticated caller is sent as 401
/// with the standard body: the text "Unauthorized access" and no error code.
pub proof fn unauthenticated_error_body(e: ApiError)
    requires
        e is Unauthorized,
    ensures
        status_of(e) == 401,
        api_error_text(e) == "Unauthorized access"@,
        error_code_of(e) is None,
{
}

/// The error that a caller gets for another author's message is sent as 403.
pub proof fn forbidden_error_body(e: ApiError)
    requires
        e is Forbidden,
    ensures
        status_of(e) == 403,
        api_error_text(e) == "Forbidden"@,
        error_code_of(e) is None,
{
}

/// The first `k` pages of size `take`, one after another.
pub open spec fn first_pages<T>(s: Seq<T>, take: int, k: nat) -> Seq<T>
    decreases k,
{
    if k == 0 {
        Seq::empty()
    } else {
        first_pages(s, take, (k - 1) as nat) + page_of(s, (k - 1) * take, take)
    }
}

/// Pages of one size, one after another, are the start of the sequence: no
/// record is skipped or repeated.
pub proof fn pages_tile<T>(s: Seq<T>, take: int, k: nat)
    requires
        take >= 1,
    ensures
        first_pages(s, take, k) == s.take(
            if k * take <= s.len() {
                k * take
            } else {
                s.len() as int
            },
        ),
    decreases k,
{
    if k == 0 {
        assert(s.take(0) =~= Seq::<T>::empty());
    } else {
        let j = (k - 1) as nat;
        pages_tile(s, take, j);
        assert(k * take == j * take + take) by (nonlinear_arith)
            requires
                k == j + 1,
        ;
        assert(j * take >= 0) by (nonlinear_arith)
            requires
                take >= 1,
        ;
        let lo = if j * take <= s.len() {
            j * take
        } else {
            s.len() as int
        };
        let hi = if k * take <= s.len() {
            k * take
        } else {
            s.len() as int
        };
        assert(s.take(lo) + s.subrange(lo, hi) =~= s.take(hi));
    }
}

/// Listing a channel page after page with one limit between 1 and 50 returns
/// each of its records exactly once, newest first: once the pages reach the
/// total, their concatenation is the channel's records.
pub proof fn listed_pages_cover_channel(
    records: Seq<MessageView>,
    channel: ChannelId,
    limit: u32,
    k: nat,
)
    requires
        newest_first(records),
        1 <= limit <= 50,
        k * limit >= records.filter(in_channel(channel)).len(),
    ensures
        forall|p: u32|
            1 <= p ==> page_of(
                records.filter(in_channel(channel)),
                page_skip(GetPaginated { page: p, limit }),
                page_take(GetPaginated { page: p, limit }),
            ) == page_of(records.filter(in_channel(channel)), (p - 1) * limit, limit as int),
        first_pages(records.filter(in_channel(channel)), limit as int, k) == records.filter(
            in_channel(channel),
        ),
        newest_first(first_pages(records.filter(in_channel(channel)), limit as int, k)),
{
    let matching = records.filter(in_channel(channel));
    pages_tile(matching, limit as int, k);
    assert(matching.take(matching.len() as int) =~= matching);
    filter_keeps_newest_first(records, in_channel(channel));
}

} // verus!
