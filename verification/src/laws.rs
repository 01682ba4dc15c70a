//! What holds of the crate as a whole, stated over the models that the
//! contracts of its functions use.

use vstd::prelude::*;
use vstd::utf8::{decode_utf8, valid_utf8};
use crate::charset::utf8_label;
use crate::codec::gzip_inflated;
use crate::config::ConfigModel;
use crate::dispatch::{
    count, distinct_urls, done, fresh, in_flight, inv, lemma_count_none, lemma_count_total,
    warning_text, BatchKind, Discipline, DispatchModel, Slot,
};
use crate::error::Failure;
use crate::headers::{normalized, overlaid};
use crate::method::Method;
use crate::plan::{Outcome, PayloadModel};
use crate::response::{
    br_label, content_of, decompressed, gzip_label, json_of, json_of_text, received, resolved,
    settled, text_of, ResponseModel,
};
use crate::session::{
    bumped, counted_once, plan_of, with_headers, with_more_headers, with_proxy, with_timeout,
    without_proxy, SessionModel,
};
use crate::text::ascii_lower;

verus! {

/// A request that follows a change of the configuration is planned under
/// the new configuration: the new timeout, the new headers, the new proxy.
pub proof fn law_request_uses_new_configuration(
    m: SessionModel,
    timeout: u64,
    headers: Seq<(String, String)>,
    address: Seq<char>,
    method: Method,
    url: Seq<char>,
    payload: PayloadModel,
    destination: Option<Seq<char>>,
)
    ensures
        plan_of(with_timeout(m, timeout), method, url, payload, destination).config == (ConfigModel {
            timeout,
            ..m.config
        }),
        plan_of(with_headers(m, headers), method, url, payload, destination).config == (
        ConfigModel { headers: normalized(headers), ..m.config }),
        plan_of(with_more_headers(m, headers), method, url, payload, destination).config == (
        ConfigModel { headers: overlaid(m.config.headers, headers), ..m.config }),
        plan_of(with_proxy(m, address), method, url, payload, destination).config == (ConfigModel {
            proxy: Some(address),
            ..m.config
        }),
        plan_of(without_proxy(m), method, url, payload, destination).config == (ConfigModel {
            proxy: None,
            ..m.config
        }),
{
}

/// A batch that follows a change of the configuration runs under the new
/// configuration.
pub proof fn law_batch_uses_new_configuration(
    m: SessionModel,
    timeout: u64,
    headers: Seq<(String, String)>,
    address: Seq<char>,
    discipline: Discipline,
    kind: BatchKind,
    urls: Seq<Seq<char>>,
    files: Seq<Seq<char>>,
    limit: nat,
    warn: bool,
)
    ensures
        fresh(with_timeout(m, timeout).config, discipline, kind, urls, files, limit, warn).config.timeout
            == timeout,
        fresh(with_headers(m, headers).config, discipline, kind, urls, files, limit, warn).config.headers
            == normalized(headers),
        fresh(with_proxy(m, address).config, discipline, kind, urls, files, limit, warn).config.proxy
            == Some(address),
{
}

/// The request counter never goes down.
pub proof fn law_counter_is_monotonic(m: SessionModel, by: nat)
    requires
        m.requests <= usize::MAX,
    ensures
        bumped(m.requests, by) >= m.requests,
        counted_once(m).requests >= m.requests,
        counted_once(m).config == m.config,
{
}

/// Every key of the result map of a batch is the URL of one of its requests.
pub proof fn law_result_keys_are_urls(m: DispatchModel)
    requires
        inv(m),
    ensures
        forall|key: Seq<char>| #[trigger] m.results.contains_key(key) ==> m.urls.contains(key),
{
    assert forall|key: Seq<char>| #[trigger] m.results.contains_key(key) implies m.urls.contains(
        key,
    ) by {
        let j = choose|j: int|
            0 <= j < m.slots.len() && #[trigger] m.slots[j] == Slot::Answered && m.urls[j] == key;
    }
}

/// When every request of a batch was answered, the keys of the result map
/// are exactly the URLs of the batch.
pub proof fn law_all_answered_keys_are_all_urls(m: DispatchModel)
    requires
        inv(m),
        forall|j: int| 0 <= j < m.slots.len() ==> #[trigger] m.slots[j] == Slot::Answered,
    ensures
        forall|key: Seq<char>| #[trigger] m.results.contains_key(key) <==> m.urls.contains(key),
{
    law_result_keys_are_urls(m);
    assert forall|key: Seq<char>| m.urls.contains(key) implies #[trigger] m.results.contains_key(
        key,
    ) by {
        let j = choose|j: int| 0 <= j < m.urls.len() && m.urls[j] == key;
        assert(m.slots[j] == Slot::Answered);
    }
}

/// When a batch of requests with distinct URLs is over and none of them was
/// a download, the result map has one entry for each request that did not
/// fail.
pub proof fn law_result_count(m: DispatchModel)
    requires
        inv(m),
        done(m),
        distinct_urls(m.urls),
        count(m.slots, Slot::Written) == 0,
    ensures
        m.results.dom().len() + count(m.slots, Slot::Failed) == m.urls.len(),
{
    lemma_count_total(m.slots);
    assert(count(m.slots, Slot::Waiting) == 0) by {
        lemma_count_none(m.slots, Slot::Waiting);
    }
}

/// At no time are more requests of a batch in flight than its limit allows.
pub proof fn law_in_flight_within_limit(m: DispatchModel)
    requires
        inv(m),
    ensures
        in_flight(m) <= m.limit,
{
}

/// The warning that a failed request leaves names the URL of the request,
/// but for a download, run all at once, whose body could not be written:
/// that one names the file.
pub proof fn law_warning_names_the_url(
    discipline: Discipline,
    kind: BatchKind,
    url: Seq<char>,
    file: Seq<char>,
    outcome: Outcome,
)
    requires
        !(discipline == Discipline::AllAtOnce && kind == BatchKind::Download
            && outcome is WriteFailed),
    ensures
        exists|before: Seq<char>, after: Seq<char>|
            warning_text(discipline, kind, url, file, outcome) == before + url + after,
{
    let text = warning_text(discipline, kind, url, file, outcome);
    let cause = match outcome {
        Outcome::FetchFailed(c) => c@,
        Outcome::ReadFailed(c) => c@,
        Outcome::WriteFailed(c) => c@,
        _ => Seq::empty(),
    };
    let (before, after) = match discipline {
        Discipline::Waves => match kind {
            BatchKind::Get => ("Request Failed for "@, ": "@ + cause),
            BatchKind::Download => ("Download Failed for "@, Seq::empty()),
            _ => ("POST Request Failed for "@, ": "@ + cause),
        },
        Discipline::AllAtOnce => match kind {
            BatchKind::Get => ("Error grabbing `"@, "`"@),
            BatchKind::Download => match outcome {
                Outcome::ReadFailed(_) => ("Error extracting contents from "@, Seq::empty()),
                _ => ("Error downloading `"@, "`"@),
            },
            _ => ("Error posting to `"@, "`"@),
        },
    };
    assert(text =~= before + url + after);
}

/// A label that resolution yields is not resolved again to another.
pub proof fn law_resolution_is_stable(m: ResponseModel)
    ensures
        resolved(ResponseModel { encoding: resolved(m), ..m }) == resolved(m),
{
}

/// Decompression is idempotent: what was decompressed once stays as it is,
/// and hands out the same content again.
pub proof fn law_decompression_is_idempotent(m: ResponseModel)
    ensures
        settled(settled(m)) == settled(m),
        decompressed(m) is Some ==> decompressed(settled(m)) == Some(settled(m)),
        decompressed(m) is Some ==> content_of(settled(m)) == content_of(m),
        decompressed(m) is Some ==> text_of(settled(m)) == text_of(m),
{
}

/// A response whose `content-encoding` header says `gzip`, in any case, and
/// whose body is the gzip form of a text, decodes to the JSON value of that
/// text.
pub proof fn law_gzip_json_round_trip(
    status_code: u16,
    headers: Seq<(String, String)>,
    body: Seq<u8>,
    plain: Seq<u8>,
)
    requires
        normalized(headers).contains_key("content-encoding"@),
        ascii_lower(normalized(headers)["content-encoding"@]) == gzip_label(),
        gzip_inflated(body) == Some(plain),
        valid_utf8(plain),
    ensures
        json_of(received(status_code, headers, body)) == json_of_text(decode_utf8(plain)),
        text_of(received(status_code, headers, body)) == Ok::<Seq<char>, Failure>(
            decode_utf8(plain),
        ),
{
}

} // verus!
