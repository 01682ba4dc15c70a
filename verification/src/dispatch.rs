//! Batch dispatch in waves.
//!
//! A batch is a list of independent requests. The dispatcher hands them to
//! the driver in waves: a wave holds at most as many requests as the limit
//! allows, and the next wave is not handed out before every request of the
//! current one has been reported. A failed request is left out of the
//! results and, where warnings are on, leaves a warning; it never fails the
//! batch.
//!
//! The dispatcher performs no exchange. The driver asks for a wave, performs
//! its requests in any order and with any parallelism, and reports what came
//! of each.

use vstd::prelude::*;
use crate::config::{ClientConfig, ConfigModel};
use crate::plan::Outcome;
use crate::response::{received, HttpResponse, ResponseModel};
use crate::strmap::{distinct_keys, has_key, index_of, lemma_stored, map_of, stored, StrMap};

verus! {

/// Where one request of a batch stands.
#[derive(Clone, Copy, PartialEq, Eq, Structural, Debug)]
pub enum Slot {
    /// Not handed out yet.
    Waiting,
    /// Handed out and not reported yet.
    Pending,
    /// A response came and stands in the results.
    Answered,
    /// The body was written to its destination.
    Written,
    /// The request failed.
    Failed,
}

/// What the requests of a batch do.
#[derive(Clone, Copy, PartialEq, Eq, Structural, Debug)]
pub enum BatchKind {
    Get,
    Post,
    PostJson,
    Download,
}

/// How the requests of a batch are run.
#[derive(Clone, Copy, PartialEq, Eq, Structural, Debug)]
pub enum Discipline {
    /// In waves of threads, bounded by a limit.
    Waves,
    /// All at once on a cooperative scheduler.
    AllAtOnce,
}

/// Number of slots in the given state.
pub open spec fn count(slots: Seq<Slot>, what: Slot) -> nat
    decreases slots.len(),
{
    if slots.len() == 0 {
        0
    } else {
        count(slots.drop_last(), what) + if slots.last() == what {
            1nat
        } else {
            0nat
        }
    }
}

/// Whether no URL occurs twice.
pub open spec fn distinct_urls(urls: Seq<Seq<char>>) -> bool {
    forall|i: int, j: int| 0 <= i < j < urls.len() ==> #[trigger] urls[i] != #[trigger] urls[j]
}

/// No state is the state of more slots than there are.
pub proof fn lemma_count_bound(slots: Seq<Slot>, what: Slot)
    ensures
        count(slots, what) <= slots.len(),
    decreases slots.len(),
{
    if slots.len() > 0 {
        lemma_count_bound(slots.drop_last(), what);
    }
}

/// Changing one slot changes each count by what the slot leaves and enters.
pub proof fn lemma_count_update(slots: Seq<Slot>, j: int, to: Slot, what: Slot)
    requires
        0 <= j < slots.len(),
    ensures
        count(slots.update(j, to), what) + (if slots[j] == what {
            1nat
        } else {
            0nat
        }) == count(slots, what) + (if to == what {
            1nat
        } else {
            0nat
        }),
    decreases slots.len(),
{
    let after = slots.update(j, to);
    if j == slots.len() - 1 {
        assert(after.drop_last() =~= slots.drop_last());
    } else {
        lemma_count_update(slots.drop_last(), j, to, what);
        assert(after.drop_last() =~= slots.drop_last().update(j, to));
    }
}

/// A state that no slot is in has count zero.
pub proof fn lemma_count_none(slots: Seq<Slot>, what: Slot)
    requires
        forall|i: int| 0 <= i < slots.len() ==> #[trigger] slots[i] != what,
    ensures
        count(slots, what) == 0,
    decreases slots.len(),
{
    if slots.len() > 0 {
        lemma_count_none(slots.drop_last(), what);
    }
}

/// A state with count zero is the state of no slot.
pub proof fn lemma_count_zero(slots: Seq<Slot>, what: Slot)
    requires
        count(slots, what) == 0,
    ensures
        forall|i: int| 0 <= i < slots.len() ==> #[trigger] slots[i] != what,
    decreases slots.len(),
{
    if slots.len() > 0 {
        lemma_count_zero(slots.drop_last(), what);
        assert forall|i: int| 0 <= i < slots.len() implies #[trigger] slots[i] != what by {
            if i < slots.len() - 1 {
                assert(slots.drop_last()[i] == slots[i]);
            }
        }
    }
}

/// Every slot is in one of the five states.
pub proof fn lemma_count_total(slots: Seq<Slot>)
    ensures
        count(slots, Slot::Waiting) + count(slots, Slot::Pending) + count(slots, Slot::Answered)
            + count(slots, Slot::Written) + count(slots, Slot::Failed) == slots.len(),
    decreases slots.len(),
{
    if slots.len() > 0 {
        lemma_count_total(slots.drop_last());
    }
}

/// The text of the warning that a failed request leaves.
pub open spec fn warning_text(
    discipline: Discipline,
    kind: BatchKind,
    url: Seq<char>,
    file: Seq<char>,
    outcome: Outcome,
) -> Seq<char> {
    let cause = match outcome {
        Outcome::FetchFailed(c) => c@,
        Outcome::ReadFailed(c) => c@,
        Outcome::WriteFailed(c) => c@,
        _ => Seq::empty(),
    };
    match discipline {
        Discipline::Waves => match kind {
            BatchKind::Get => "Request Failed for "@ + url + ": "@ + cause,
            BatchKind::Download => "Download Failed for "@ + url,
            _ => "POST Request Failed for "@ + url + ": "@ + cause,
        },
        Discipline::AllAtOnce => match kind {
            BatchKind::Get => "Error grabbing `"@ + url + "`"@,
            BatchKind::Download => match outcome {
                Outcome::ReadFailed(_) => "Error extracting contents from "@ + url,
                Outcome::WriteFailed(_) => "Error writing to file `"@ + file + "`: "@ + cause,
                _ => "Error downloading `"@ + url + "`"@,
            },
            _ => "Error posting to `"@ + url + "`"@,
        },
    }
}

/// By how much a finished batch raises the request counter of its session.
/// In waves, a batch of downloads counts nothing, a batch of `GET`s its
/// answered requests, any other batch the requests it handed out. All at
/// once, a batch of downloads counts its requests, any other batch the
/// entries of its result map.
pub open spec fn counted(
    discipline: Discipline,
    kind: BatchKind,
    requests: nat,
    started: nat,
    answered: nat,
    entries: nat,
) -> nat {
    match discipline {
        Discipline::Waves => match kind {
            BatchKind::Get => answered,
            BatchKind::Download => 0,
            _ => started,
        },
        Discipline::AllAtOnce => match kind {
            BatchKind::Download => requests,
            _ => entries,
        },
    }
}

/// Whether the bodies of a batch go out as JSON: the mappings of a batch of
/// JSON posts always, the bytes of a batch of posts when it runs in waves.
pub open spec fn sends_json(discipline: Discipline, kind: BatchKind) -> bool {
    kind == BatchKind::PostJson || (kind == BatchKind::Post && discipline == Discipline::Waves)
}

/// The views of a list of strings.
pub open spec fn texts(list: Seq<String>) -> Seq<Seq<char>> {
    Seq::new(list.len(), |i: int| list[i]@)
}

/// `a` followed by `b`.
fn join2(a: &str, b: &str) -> (s: String)
    ensures
        s@ == a@ + b@,
{
    let mut s = a.to_owned();
    s.append(b);
    s
}

/// `a` followed by `b` and `c`.
fn join3(a: &str, b: &str, c: &str) -> (s: String)
    ensures
        s@ == a@ + b@ + c@,
{
    let mut s = a.to_owned();
    s.append(b);
    s.append(c);
    s
}

/// `a` followed by `b`, `c` and `d`.
fn join4(a: &str, b: &str, c: &str, d: &str) -> (s: String)
    ensures
        s@ == a@ + b@ + c@ + d@,
{
    let mut s = a.to_owned();
    s.append(b);
    s.append(c);
    s.append(d);
    s
}

/// Writes the warning that a failed request leaves.
pub fn write_warning(
    discipline: Discipline,
    kind: BatchKind,
    url: &str,
    file: &str,
    outcome: &Outcome,
) -> (text: String)
    ensures
        text@ == warning_text(discipline, kind, url@, file@, *outcome),
{
    let empty = String::new();
    let cause: &str = match outcome {
        Outcome::FetchFailed(c) => c.as_str(),
        Outcome::ReadFailed(c) => c.as_str(),
        Outcome::WriteFailed(c) => c.as_str(),
        _ => empty.as_str(),
    };
    match discipline {
        Discipline::Waves => match kind {
            BatchKind::Get => join4("Request Failed for ", url, ": ", cause),
            BatchKind::Download => join2("Download Failed for ", url),
            _ => join4("POST Request Failed for ", url, ": ", cause),
        },
        Discipline::AllAtOnce => match kind {
            BatchKind::Get => join3("Error grabbing `", url, "`"),
            BatchKind::Download => match outcome {
                Outcome::ReadFailed(_) => join2("Error extracting contents from ", url),
                Outcome::WriteFailed(_) => join4("Error writing to file `", file, "`: ", cause),
                _ => join3("Error downloading `", url, "`"),
            },
            _ => join3("Error posting to `", url, "`"),
        },
    }
}

/// A batch under dispatch as a mathematical value.
pub struct DispatchModel {
    pub config: ConfigModel,
    pub discipline: Discipline,
    pub kind: BatchKind,
    pub urls: Seq<Seq<char>>,
    pub files: Seq<Seq<char>>,
    pub limit: nat,
    pub warn: bool,
    pub slots: Seq<Slot>,
    pub wave_start: nat,
    pub started: nat,
    pub results: Map<Seq<char>, ResponseModel>,
    pub entries: nat,
    pub warnings: Seq<Seq<char>>,
}

/// The file that the request at `slot` writes to; empty where the batch has
/// no files.
pub open spec fn file_of(m: DispatchModel, slot: int) -> Seq<char> {
    if 0 <= slot < m.files.len() {
        m.files[slot]
    } else {
        Seq::empty()
    }
}

/// Number of requests that are handed out and not reported yet.
pub open spec fn in_flight(m: DispatchModel) -> nat {
    count(m.slots, Slot::Pending)
}

/// Whether every request has been handed out and reported.
pub open spec fn done(m: DispatchModel) -> bool {
    m.started == m.urls.len() && in_flight(m) == 0
}

/// What holds of a batch in every state.
pub open spec fn inv(m: DispatchModel) -> bool {
    &&& m.slots.len() == m.urls.len()
    &&& m.wave_start <= m.started <= m.urls.len()
    &&& m.started - m.wave_start <= m.limit
    &&& forall|j: int|
        0 <= j < m.slots.len() ==> (j >= m.started) == (#[trigger] m.slots[j] == Slot::Waiting)
    &&& in_flight(m) <= m.started - m.wave_start
    &&& forall|key: Seq<char>| #[trigger]
        m.results.contains_key(key) <==> exists|j: int|
            0 <= j < m.slots.len() && #[trigger] m.slots[j] == Slot::Answered && m.urls[j] == key
    &&& m.results.dom().finite()
    &&& m.entries == m.results.dom().len()
    &&& distinct_urls(m.urls) ==> m.entries == count(m.slots, Slot::Answered)
    &&& m.warnings.len() == if m.warn {
        count(m.slots, Slot::Failed)
    } else {
        0
    }
}

/// A batch before its first wave.
pub open spec fn fresh(
    config: ConfigModel,
    discipline: Discipline,
    kind: BatchKind,
    urls: Seq<Seq<char>>,
    files: Seq<Seq<char>>,
    limit: nat,
    warn: bool,
) -> DispatchModel {
    DispatchModel {
        config,
        discipline,
        kind,
        urls,
        files,
        limit,
        warn,
        slots: Seq::new(urls.len(), |j: int| Slot::Waiting),
        wave_start: 0,
        started: 0,
        results: Map::empty(),
        entries: 0,
        warnings: Seq::empty(),
    }
}

/// Where the next wave ends: after as many requests as the limit allows, or
/// with the last request. While a request is in flight no wave begins.
pub open spec fn wave_end(m: DispatchModel) -> nat {
    if in_flight(m) != 0 {
        m.started
    } else if m.urls.len() - m.started < m.limit {
        m.urls.len()
    } else {
        m.started + m.limit
    }
}

/// The batch after the next wave was handed out.
pub open spec fn wave_started(m: DispatchModel) -> DispatchModel {
    if wave_end(m) == m.started {
        m
    } else {
        DispatchModel {
            slots: Seq::new(
                m.slots.len(),
                |j: int|
                    if m.started <= j < wave_end(m) {
                        Slot::Pending
                    } else {
                        m.slots[j]
                    },
            ),
            wave_start: m.started,
            started: wave_end(m),
            ..m
        }
    }
}

/// Whether the request at `slot` is handed out and not reported yet.
pub open spec fn awaited(m: DispatchModel, slot: int) -> bool {
    0 <= slot < m.slots.len() && m.slots[slot] == Slot::Pending
}

/// The state that an outcome puts a request in.
pub open spec fn state_after(outcome: Outcome) -> Slot {
    match outcome {
        Outcome::Response(_) => Slot::Answered,
        Outcome::Written => Slot::Written,
        _ => Slot::Failed,
    }
}

/// The batch after the outcome of the request at `slot` was reported. A
/// report for a request that is not awaited changes nothing.
pub open spec fn reported(m: DispatchModel, slot: int, outcome: Outcome) -> DispatchModel {
    if !awaited(m, slot) {
        m
    } else {
        let slots = m.slots.update(slot, state_after(outcome));
        match outcome {
            Outcome::Response(raw) => DispatchModel {
                slots,
                results: m.results.insert(
                    m.urls[slot],
                    received(
                        raw.status_code,
                        raw.headers@,
                        match raw.body {
                            Some(bytes) => bytes@,
                            None => Seq::empty(),
                        },
                    ),
                ),
                entries: if m.results.contains_key(m.urls[slot]) {
                    m.entries
                } else {
                    m.entries + 1
                },
                ..m
            },
            Outcome::Written => DispatchModel { slots, ..m },
            _ => DispatchModel {
                slots,
                warnings: if m.warn {
                    m.warnings.push(
                        warning_text(m.discipline, m.kind, m.urls[slot], file_of(m, slot), outcome),
                    )
                } else {
                    m.warnings
                },
                ..m
            },
        }
    }
}

/// A state that exactly the slots of a range are in has the length of the
/// range as its count.
pub proof fn lemma_count_range(slots: Seq<Slot>, lo: int, hi: int, what: Slot)
    requires
        0 <= lo <= hi <= slots.len(),
        forall|j: int| 0 <= j < slots.len() ==> (lo <= j < hi) == (#[trigger] slots[j] == what),
    ensures
        count(slots, what) == hi - lo,
    decreases slots.len(),
{
    if slots.len() > 0 {
        let front = slots.drop_last();
        let n = slots.len() - 1;
        lemma_count_range(
            front,
            if lo <= n {
                lo
            } else {
                n
            },
            if hi <= n {
                hi
            } else {
                n
            },
            what,
        );
    }
}

/// A state outside a range keeps its count when the range is set to
/// another state, as long as the range was in neither.
pub proof fn lemma_count_outside(slots: Seq<Slot>, after: Seq<Slot>, what: Slot)
    requires
        slots.len() == after.len(),
        forall|j: int| 0 <= j < slots.len() ==> (#[trigger] slots[j] == what) == (after[j] == what),
    ensures
        count(slots, what) == count(after, what),
    decreases slots.len(),
{
    if slots.len() > 0 {
        lemma_count_outside(slots.drop_last(), after.drop_last(), what);
    }
}

/// A batch before its first wave is in a valid state.
pub proof fn lemma_fresh_inv(
    config: ConfigModel,
    discipline: Discipline,
    kind: BatchKind,
    urls: Seq<Seq<char>>,
    files: Seq<Seq<char>>,
    limit: nat,
    warn: bool,
)
    ensures
        inv(fresh(config, discipline, kind, urls, files, limit, warn)),
        in_flight(fresh(config, discipline, kind, urls, files, limit, warn)) == 0,
{
    let m = fresh(config, discipline, kind, urls, files, limit, warn);
    lemma_count_none(m.slots, Slot::Pending);
    lemma_count_none(m.slots, Slot::Answered);
    lemma_count_none(m.slots, Slot::Failed);
}

/// Handing out a wave keeps the batch in a valid state.
pub proof fn lemma_wave_inv(m: DispatchModel)
    requires
        inv(m),
    ensures
        inv(wave_started(m)),
        in_flight(wave_started(m)) == in_flight(m) + wave_end(m) - m.started,
        wave_end(m) - m.started <= m.limit,
        m.started <= wave_end(m) <= m.urls.len(),
{
    let after = wave_started(m);
    if wave_end(m) != m.started {
        lemma_count_zero(m.slots, Slot::Pending);
        lemma_count_range(after.slots, m.started as int, wave_end(m) as int, Slot::Pending);
        lemma_count_outside(m.slots, after.slots, Slot::Answered);
        lemma_count_outside(m.slots, after.slots, Slot::Failed);
        assert forall|key: Seq<char>| #[trigger]
            after.results.contains_key(key) <==> exists|j: int|
                0 <= j < after.slots.len() && #[trigger] after.slots[j] == Slot::Answered
                    && after.urls[j] == key by {
            if m.results.contains_key(key) {
                let j = choose|j: int|
                    0 <= j < m.slots.len() && #[trigger] m.slots[j] == Slot::Answered && m.urls[j]
                        == key;
                assert(after.slots[j] == Slot::Answered);
            }
            if exists|j: int|
                0 <= j < after.slots.len() && #[trigger] after.slots[j] == Slot::Answered
                    && after.urls[j] == key {
                let j = choose|j: int|
                    0 <= j < after.slots.len() && #[trigger] after.slots[j] == Slot::Answered
                        && after.urls[j] == key;
            }
        }
    }
}

/// A report keeps the batch in a valid state, and an accepted report takes
/// one request out of flight.
pub proof fn lemma_report_inv(m: DispatchModel, slot: int, outcome: Outcome)
    requires
        inv(m),
    ensures
        inv(reported(m, slot, outcome)),
        awaited(m, slot) ==> in_flight(reported(m, slot, outcome)) + 1 == in_flight(m),
        !awaited(m, slot) ==> reported(m, slot, outcome) == m,
{
    let after = reported(m, slot, outcome);
    if awaited(m, slot) {
        let to = state_after(outcome);
        lemma_count_update(m.slots, slot, to, Slot::Pending);
        lemma_count_update(m.slots, slot, to, Slot::Answered);
        lemma_count_update(m.slots, slot, to, Slot::Failed);
        let url = m.urls[slot];
        assert forall|key: Seq<char>| #[trigger]
            after.results.contains_key(key) <==> exists|j: int|
                0 <= j < after.slots.len() && #[trigger] after.slots[j] == Slot::Answered
                    && after.urls[j] == key by {
            if m.results.contains_key(key) {
                let j = choose|j: int|
                    0 <= j < m.slots.len() && #[trigger] m.slots[j] == Slot::Answered && m.urls[j]
                        == key;
                assert(after.slots[j] == Slot::Answered);
            }
            if to == Slot::Answered && key == url {
                assert(after.slots[slot] == Slot::Answered && after.urls[slot] == key);
            }
            if exists|j: int|
                0 <= j < after.slots.len() && #[trigger] after.slots[j] == Slot::Answered
                    && after.urls[j] == key {
                let j = choose|j: int|
                    0 <= j < after.slots.len() && #[trigger] after.slots[j] == Slot::Answered
                        && after.urls[j] == key;
                assert(j == slot || m.slots[j] == Slot::Answered);
            }
        }
        if distinct_urls(m.urls) && to == Slot::Answered {
            if m.results.contains_key(url) {
                let j = choose|j: int|
                    0 <= j < m.slots.len() && #[trigger] m.slots[j] == Slot::Answered && m.urls[j]
                        == url;
                if j < slot {
                } else {
                }
            }
        }
    }
}

/// The responses of a result map as mathematical values.
pub open spec fn response_models(entries: Seq<(String, HttpResponse)>) -> Map<
    Seq<char>,
    ResponseModel,
> {
    Map::new(
        |key: Seq<char>| has_key(entries, key),
        |key: Seq<char>| entries[index_of(entries, key)].1@,
    )
}

/// Whether every response of a result map is valid.
pub open spec fn valid_responses(entries: Seq<(String, HttpResponse)>) -> bool {
    forall|i: int| 0 <= i < entries.len() ==> (#[trigger] entries[i]).1.wf()
}

/// A batch under dispatch.
pub struct Dispatch {
    config: ClientConfig,
    discipline: Discipline,
    kind: BatchKind,
    urls: Vec<String>,
    bodies: Vec<Vec<u8>>,
    forms: Vec<StrMap<String>>,
    files: Vec<String>,
    limit: usize,
    warn: bool,
    slots: Vec<Slot>,
    wave_start: usize,
    started: usize,
    pending: usize,
    answered: usize,
    results: StrMap<HttpResponse>,
    warnings: Vec<String>,
}

/// What a batch leaves when it is over.
pub struct BatchReport {
    /// The responses, each under the URL of its request.
    pub results: StrMap<HttpResponse>,
    /// The warnings of the failed requests, in the order of the reports.
    pub warnings: Vec<String>,
    /// By how much the batch raises the request counter of its session.
    pub counted: usize,
}

impl Dispatch {
    /// The batch as a mathematical value.
    pub closed spec fn view(&self) -> DispatchModel {
        DispatchModel {
            config: self.config@,
            discipline: self.discipline,
            kind: self.kind,
            urls: texts(self.urls@),
            files: texts(self.files@),
            limit: self.limit as nat,
            warn: self.warn,
            slots: self.slots@,
            wave_start: self.wave_start as nat,
            started: self.started as nat,
            results: response_models(self.results.entries()),
            entries: self.results.entries().len(),
            warnings: texts(self.warnings@),
        }
    }

    /// The bodies of the requests, where the batch has bodies.
    pub closed spec fn bodies(&self) -> Seq<Vec<u8>> {
        self.bodies@
    }

    /// The JSON mappings of the requests, where the batch has them.
    pub closed spec fn forms(&self) -> Seq<StrMap<String>> {
        self.forms@
    }

    /// The result map as it stands.
    pub closed spec fn results(&self) -> StrMap<HttpResponse> {
        self.results
    }

    /// Validity.
    pub closed spec fn wf(&self) -> bool {
        &&& self.config.wf()
        &&& self.bodies@.len() == 0 || self.bodies@.len() == self.urls@.len()
        &&& self.forms@.len() == 0 || self.forms@.len() == self.urls@.len()
        &&& self.files@.len() == 0 || self.files@.len() == self.urls@.len()
        &&& self.pending == count(self.slots@, Slot::Pending)
        &&& self.answered == count(self.slots@, Slot::Answered)
        &&& self.results.wf()
        &&& valid_responses(self.results.entries())
        &&& inv(self@)
    }

    /// A valid batch is in a state that `inv` admits.
    pub proof fn lemma_inv(self)
        requires
            self.wf(),
        ensures
            inv(self@),
            self.results().wf(),
            valid_responses(self.results().entries()),
            self@.results == response_models(self.results().entries()),
            self@.entries == self.results().entries().len(),
    {
    }

    /// A batch of the given requests before its first wave. Each of
    /// `bodies`, `forms` and `files` is empty or pairs with `urls`.
    pub fn new(
        config: ClientConfig,
        discipline: Discipline,
        kind: BatchKind,
        urls: Vec<String>,
        bodies: Vec<Vec<u8>>,
        forms: Vec<StrMap<String>>,
        files: Vec<String>,
        limit: usize,
        warn: bool,
    ) -> (d: Dispatch)
        requires
            config.wf(),
            bodies.len() == 0 || bodies.len() == urls.len(),
            forms.len() == 0 || forms.len() == urls.len(),
            files.len() == 0 || files.len() == urls.len(),
        ensures
            d.wf(),
            d@ == fresh(config@, discipline, kind, texts(urls@), texts(files@), limit as nat, warn),
            in_flight(d@) == 0,
            d.bodies() == bodies@,
            d.forms() == forms@,
    {
        let mut slots: Vec<Slot> = Vec::new();
        let mut i: usize = 0;
        while i < urls.len()
            invariant
                0 <= i <= urls.len(),
                slots@.len() == i,
                forall|j: int| 0 <= j < i ==> slots@[j] == Slot::Waiting,
            decreases urls.len() - i,
        {
            slots.push(Slot::Waiting);
            i += 1;
        }
        let d = Dispatch {
            config,
            discipline,
            kind,
            urls,
            bodies,
            forms,
            files,
            limit,
            warn,
            slots,
            wave_start: 0,
            started: 0,
            pending: 0,
            answered: 0,
            results: StrMap::new(),
            warnings: Vec::new(),
        };
        proof {
            let m = fresh(
                config@,
                discipline,
                kind,
                texts(urls@),
                texts(files@),
                limit as nat,
                warn,
            );
            lemma_fresh_inv(
                config@,
                discipline,
                kind,
                texts(urls@),
                texts(files@),
                limit as nat,
                warn,
            );
            assert(d@.slots =~= m.slots);
            assert(d@.results =~= m.results);
            assert(d@.warnings =~= m.warnings);
            lemma_count_none(d.slots@, Slot::Answered);
        }
        d
    }

    /// Number of requests in the batch.
    pub fn len(&self) -> (n: usize)
        ensures
            n == self@.urls.len(),
    {
        self.urls.len()
    }

    /// The configuration under which the batch runs.
    pub fn config(&self) -> (config: &ClientConfig)
        ensures
            config@ == self@.config,
            self.wf() ==> config.wf(),
    {
        &self.config
    }

    /// What the requests of the batch do.
    pub fn kind(&self) -> (kind: BatchKind)
        ensures
            kind == self@.kind,
    {
        self.kind
    }

    /// How the requests of the batch are run.
    pub fn discipline(&self) -> (discipline: Discipline)
        ensures
            discipline == self@.discipline,
    {
        self.discipline
    }

    /// Whether the bodies of the batch go out as JSON.
    pub fn json_bodies(&self) -> (b: bool)
        ensures
            b == sends_json(self@.discipline, self@.kind),
    {
        match self.kind {
            BatchKind::PostJson => true,
            BatchKind::Post => match self.discipline {
                Discipline::Waves => true,
                Discipline::AllAtOnce => false,
            },
            _ => false,
        }
    }

    /// The most requests that a wave holds.
    pub fn limit(&self) -> (limit: usize)
        ensures
            limit == self@.limit,
    {
        self.limit
    }

    /// The URL of the request at `slot`.
    pub fn url(&self, slot: usize) -> (url: &String)
        requires
            slot < self@.urls.len(),
        ensures
            url@ == self@.urls[slot as int],
    {
        &self.urls[slot]
    }

    /// The body of the request at `slot`, where the batch has bodies.
    pub fn body(&self, slot: usize) -> (body: Option<&Vec<u8>>)
        ensures
            match body {
                Some(bytes) => slot < self.bodies().len() && *bytes == self.bodies()[slot as int],
                None => slot >= self.bodies().len(),
            },
    {
        if slot < self.bodies.len() {
            Some(&self.bodies[slot])
        } else {
            None
        }
    }

    /// The JSON mapping of the request at `slot`, where the batch has them.
    pub fn form(&self, slot: usize) -> (form: Option<&StrMap<String>>)
        ensures
            match form {
                Some(map) => slot < self.forms().len() && *map == self.forms()[slot as int],
                None => slot >= self.forms().len(),
            },
    {
        if slot < self.forms.len() {
            Some(&self.forms[slot])
        } else {
            None
        }
    }

    /// The file that the request at `slot` writes to, where the batch has files.
    pub fn file(&self, slot: usize) -> (file: Option<&String>)
        ensures
            match file {
                Some(path) => slot < self@.files.len() && path@ == self@.files[slot as int],
                None => slot >= self@.files.len(),
            },
    {
        if slot < self.files.len() {
            Some(&self.files[slot])
        } else {
            None
        }
    }

    /// Where the request at `slot` stands.
    pub fn slot(&self, slot: usize) -> (state: Slot)
        requires
            slot < self@.slots.len(),
        ensures
            state == self@.slots[slot as int],
    {
        self.slots[slot]
    }

    /// Number of requests that are handed out and not reported yet.
    pub fn in_flight(&self) -> (n: usize)
        requires
            self.wf(),
        ensures
            n == in_flight(self@),
            n <= self@.limit,
    {
        self.pending
    }

    /// Whether every request has been handed out and reported.
    pub fn is_done(&self) -> (b: bool)
        requires
            self.wf(),
        ensures
            b == done(self@),
    {
        self.started == self.urls.len() && self.pending == 0
    }

    /// Hands out the next wave: the requests at the slots from `lo` up to
    /// `hi`. The wave is empty while a request is in flight, when every
    /// request has been handed out, and under a limit of zero.
    pub fn next_wave(&mut self) -> (wave: (usize, usize))
        requires
            old(self).wf(),
        ensures
            final(self).wf(),
            final(self)@ == wave_started(old(self)@),
            final(self).bodies() == old(self).bodies(),
            final(self).forms() == old(self).forms(),
            final(self).results() == old(self).results(),
            wave.0 == old(self)@.started,
            wave.1 == wave_end(old(self)@),
            wave.1 - wave.0 <= old(self)@.limit,
            in_flight(final(self)@) == in_flight(old(self)@) + wave.1 - wave.0,
    {
        proof {
            lemma_wave_inv(self@);
        }
        let n = self.urls.len();
        let lo = self.started;
        if self.pending != 0 {
            return (lo, lo);
        }
        let hi = if n - lo < self.limit {
            n
        } else {
            lo + self.limit
        };
        if hi == lo {
            return (lo, lo);
        }
        let ghost before = self@;
        let ghost target = wave_started(before);
        let mut j: usize = lo;
        while j < hi
            invariant
                lo <= j <= hi <= n,
                n == self.slots@.len() == before.slots.len(),
                forall|k: int|
                    0 <= k < n ==> #[trigger] self.slots@[k] == (if lo <= k < j {
                        Slot::Pending
                    } else {
                        before.slots[k]
                    }),
                self.config == old(self).config,
                self.discipline == old(self).discipline,
                self.kind == old(self).kind,
                self.urls == old(self).urls,
                self.bodies == old(self).bodies,
                self.forms == old(self).forms,
                self.files == old(self).files,
                self.limit == old(self).limit,
                self.warn == old(self).warn,
                self.wave_start == old(self).wave_start,
                self.started == old(self).started,
                self.pending == old(self).pending,
                self.answered == old(self).answered,
                self.results == old(self).results,
                self.warnings == old(self).warnings,
            decreases hi - j,
        {
            self.slots.set(j, Slot::Pending);
            j += 1;
        }
        self.wave_start = lo;
        self.started = hi;
        self.pending = hi - lo;
        proof {
            assert(self@.slots =~= target.slots);
            lemma_count_outside(before.slots, target.slots, Slot::Answered);
        }
        (lo, hi)
    }

    /// Takes the report of what came of the request at `slot`. A response
    /// goes into the results under the URL of the request; a failure leaves
    /// a warning where warnings are on. A report for a request that is not
    /// awaited is refused and changes nothing.
    pub fn report(&mut self, slot: usize, outcome: Outcome) -> (accepted: bool)
        requires
            old(self).wf(),
        ensures
            final(self).wf(),
            accepted == awaited(old(self)@, slot as int),
            final(self)@ == reported(old(self)@, slot as int, outcome),
            accepted ==> in_flight(final(self)@) + 1 == in_flight(old(self)@),
            final(self).bodies() == old(self).bodies(),
            final(self).forms() == old(self).forms(),
    {
        proof {
            lemma_report_inv(self@, slot as int, outcome);
        }
        if slot >= self.slots.len() {
            return false;
        }
        if self.slots[slot] != Slot::Pending {
            return false;
        }
        let ghost before = self@;
        let ghost target = reported(before, slot as int, outcome);
        proof {
            lemma_count_update(self.slots@, slot as int, state_after(outcome), Slot::Pending);
            lemma_count_update(self.slots@, slot as int, state_after(outcome), Slot::Answered);
            lemma_count_bound(self.slots@.update(slot as int, state_after(outcome)), Slot::Answered);
        }
        match outcome {
            Outcome::Response(raw) => {
                let envelope = HttpResponse::from_reqwest(raw.status_code, &raw.headers, raw.body);
                let key = self.urls[slot].clone();
                proof {
                    lemma_stored(self.results.entries(), key, envelope);
                    lemma_stored_models(self.results.entries(), key, envelope);
                }
                self.results.insert(key, envelope);
                self.slots.set(slot, Slot::Answered);
                self.answered = self.answered + 1;
                self.pending = self.pending - 1;
            },
            Outcome::Written => {
                self.slots.set(slot, Slot::Written);
                self.pending = self.pending - 1;
            },
            _ => {
                if self.warn {
                    let empty = String::new();
                    let file: &str = if slot < self.files.len() {
                        self.files[slot].as_str()
                    } else {
                        empty.as_str()
                    };
                    let text = write_warning(
                        self.discipline,
                        self.kind,
                        self.urls[slot].as_str(),
                        file,
                        &outcome,
                    );
                    self.warnings.push(text);
                }
                self.slots.set(slot, Slot::Failed);
                self.pending = self.pending - 1;
                proof {
                    assert(self@.warnings =~= target.warnings);
                }
            },
        }
        true
    }

    /// Ends the batch and hands out what it leaves.
    pub fn finish(self) -> (report: BatchReport)
        requires
            self.wf(),
        ensures
            report.results == self.results(),
            texts(report.warnings@) == self@.warnings,
            report.counted == counted(
                self@.discipline,
                self@.kind,
                self@.urls.len(),
                self@.started,
                count(self@.slots, Slot::Answered),
                self@.entries,
            ),
    {
        let counted = match self.discipline {
            Discipline::Waves => match self.kind {
                BatchKind::Get => self.answered,
                BatchKind::Download => 0,
                _ => self.started,
            },
            Discipline::AllAtOnce => match self.kind {
                BatchKind::Download => self.urls.len(),
                _ => self.results.len(),
            },
        };
        BatchReport { results: self.results, warnings: self.warnings, counted }
    }
}

/// Storing a response acts on the models of a result map as `Map::insert`,
/// and keeps every response valid.
pub proof fn lemma_stored_models(entries: Seq<(String, HttpResponse)>, key: String, value: HttpResponse)
    requires
        distinct_keys(entries),
        valid_responses(entries),
        value.wf(),
    ensures
        response_models(stored(entries, key, value)) == response_models(entries).insert(
            key@,
            value@,
        ),
        valid_responses(stored(entries, key, value)),
        stored(entries, key, value).len() == if response_models(entries).contains_key(key@) {
            entries.len()
        } else {
            entries.len() + 1
        },
{
    lemma_stored(entries, key, value);
    let after = stored(entries, key, value);
    assert forall|i: int| 0 <= i < after.len() implies (#[trigger] after[i]).1.wf() by {
        assert(after[i] == (key, value) || after[i] == entries[i]);
    }
    assert(response_models(after) =~= response_models(entries).insert(key@, value@)) by {
        assert forall|k: Seq<char>| has_key(after, k) implies #[trigger] response_models(after)[k]
            == response_models(entries).insert(key@, value@)[k] by {
            assert(map_of(after)[k] == map_of(entries).insert(
                key@,
                value,
            )[k]);
        }
        assert forall|k: Seq<char>|
            has_key(after, k) == response_models(entries).insert(key@, value@).contains_key(
                k,
            ) by {
            assert(map_of(after).contains_key(k) == map_of(
                entries,
            ).insert(key@, value).contains_key(k));
        }
    }
}

} // verus!
