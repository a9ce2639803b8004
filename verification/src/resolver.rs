//! The cache resolver: look up, fetch on a miss, store what was fetched.
//!
//! A request is answered from the store whenever a record lies inside the
//! tolerance window, however old it is; eviction alone removes stale
//! records. Only a miss leads to a call to the provider, and to one call
//! only. What the provider returns is stored under the coordinates that the
//! client asked for, and returned even if the store refuses it.

use crate::config::{lemma_last_config_wins, ConfigWatcher, ServiceConfig};
use crate::http::HandlerError;
use crate::record::{answers, CacheQuery, WeatherInfo, WeatherRecord, DEFAULT_TOLERANCE};
use crate::store::{
    answering, lemma_filter_front, lemma_filter_push, matching, near, table_full,
    CoordinateStore, StorageError,
};
use crate::upstream::{FetchRequest, UpstreamError};
use vstd::prelude::*;
use vstd::string::StringExecFns;

verus! {

/// Why a request could not be answered.
#[derive(Clone, Debug, PartialEq, Eq)]
pub enum ResolveError {
    /// The store could not be searched.
    Storage(StorageError),
    /// The provider could not be asked, or gave no usable answer.
    Upstream(UpstreamError),
}

impl ResolveError {
    /// The message that the client gets: what the store said, marked as a
    /// failed retrieval, or what the provider's client said, as it is.
    pub open spec fn text(self) -> Seq<char> {
        match self {
            ResolveError::Storage(error) => "failed to retrieve data: "@ + error.detail@,
            ResolveError::Upstream(error) => error.detail@,
        }
    }

    /// The message that the client gets.
    pub fn message(&self) -> (text: String)
        ensures
            text@ == self.text(),
    {
        match self {
            ResolveError::Storage(error) => String::from_str("failed to retrieve data: ").concat(
                error.detail.as_str(),
            ),
            ResolveError::Upstream(error) => error.detail.clone(),
        }
    }

    /// The failure as the HTTP boundary reports it.
    pub fn into_handler_error(self) -> (error: HandlerError)
        ensures
            error.message@ == self.text(),
    {
        HandlerError { message: self.message() }
    }
}

/// The search that a request begins with.
#[derive(Clone, Copy, Debug, PartialEq, Eq)]
pub struct LookupRequest {
    /// Latitude in microdegrees.
    pub latitude: i64,
    /// Longitude in microdegrees.
    pub longitude: i64,
    /// Half-width of the window, in microdegrees.
    pub tolerance: i64,
}

/// What a search leads to.
#[derive(Clone, Copy, Debug, PartialEq, Eq)]
pub enum Lookup {
    /// A stored record answers the request; the provider is not asked.
    Hit(WeatherRecord),
    /// Nothing stored answers the request; the provider is asked once.
    Miss(FetchRequest),
}

/// An answered request whose record was offered to the store.
#[derive(Clone, Debug, PartialEq, Eq)]
pub struct Resolved {
    /// The answer.
    pub record: WeatherRecord,
    /// Why the store did not take the record, if it did not.
    pub cache_failure: Option<StorageError>,
}

/// The search for `query`.
pub open spec fn lookup_for(query: CacheQuery) -> LookupRequest {
    LookupRequest {
        latitude: query.latitude,
        longitude: query.longitude,
        tolerance: DEFAULT_TOLERANCE,
    }
}

/// The call to the provider for `query` under `config`.
pub open spec fn fetch_for(query: CacheQuery, config: ServiceConfig) -> FetchRequest {
    FetchRequest {
        latitude: query.latitude,
        longitude: query.longitude,
        timeout_secs: config.request_timeout,
    }
}

/// What the records found lead to: the first of them, or a fetch.
pub open spec fn decide(found: Seq<WeatherRecord>, query: CacheQuery, config: ServiceConfig)
    -> Lookup {
    if found.len() > 0 {
        Lookup::Hit(found[0])
    } else {
        Lookup::Miss(fetch_for(query, config))
    }
}

/// The records of `table` that answer `query`.
pub open spec fn candidates(table: Seq<WeatherRecord>, query: CacheQuery) -> Seq<WeatherRecord> {
    matching(table, query.latitude as int, query.longitude as int, DEFAULT_TOLERANCE as int)
}

/// The record made of the provider's answer: the coordinates are the
/// client's, not the provider's grid point, and the stamp is `now`.
pub open spec fn fetched_record(query: CacheQuery, info: WeatherInfo, now: i64) -> WeatherRecord {
    WeatherRecord {
        id: None,
        latitude: query.latitude,
        longitude: query.longitude,
        temperature: info.current.temperature_2m,
        created_at: now,
    }
}

/// `table` after `record` was offered to a store with room for `capacity`
/// records.
pub open spec fn offered(table: Seq<WeatherRecord>, capacity: nat, record: WeatherRecord) -> Seq<
    WeatherRecord,
> {
    if table.len() < capacity {
        table.push(record)
    } else {
        table
    }
}

impl LookupRequest {
    /// Holds the rows that a table returned to the rule of this search:
    /// those that lie inside its window stay, in their order.
    pub fn screen(&self, rows: &Vec<WeatherRecord>) -> (found: Vec<WeatherRecord>)
        ensures
            found@ == matching(
                rows@,
                self.latitude as int,
                self.longitude as int,
                self.tolerance as int,
            ),
    {
        near(rows, self.latitude, self.longitude, self.tolerance)
    }
}

/// The search that `query` begins with.
pub fn lookup_request(query: CacheQuery) -> (request: LookupRequest)
    ensures
        request == lookup_for(query),
{
    LookupRequest {
        latitude: query.latitude,
        longitude: query.longitude,
        tolerance: DEFAULT_TOLERANCE,
    }
}

/// Takes the outcome of the search. A failed search fails the request; a
/// search that found something answers it with the first record found; an
/// empty one asks for a fetch with the configured timeout.
pub fn after_lookup(
    query: CacheQuery,
    config: ServiceConfig,
    found: Result<Vec<WeatherRecord>, StorageError>,
) -> (next: Result<Lookup, ResolveError>)
    ensures
        match found {
            Ok(records) => next matches Ok(lookup) && lookup == decide(records@, query, config),
            Err(error) => next matches Err(ResolveError::Storage(cause)) && cause == error,
        },
{
    match found {
        Ok(records) => {
            if records.len() > 0 {
                Ok(Lookup::Hit(records[0]))
            } else {
                Ok(
                    Lookup::Miss(
                        FetchRequest {
                            latitude: query.latitude,
                            longitude: query.longitude,
                            timeout_secs: config.request_timeout,
                        },
                    ),
                )
            }
        },
        Err(error) => Err(ResolveError::Storage(error)),
    }
}

/// Takes the outcome of the fetch. A failed fetch fails the request, with
/// no value in its place; an answer becomes the record to store and return.
pub fn after_fetch(query: CacheQuery, fetched: Result<WeatherInfo, UpstreamError>, now: i64) -> (next:
    Result<WeatherRecord, ResolveError>)
    ensures
        match fetched {
            Ok(info) => next matches Ok(record) && record == fetched_record(query, info, now),
            Err(error) => next matches Err(ResolveError::Upstream(cause)) && cause == error,
        },
{
    match fetched {
        Ok(info) => Ok(
            WeatherRecord {
                id: None,
                latitude: query.latitude,
                longitude: query.longitude,
                temperature: info.current.temperature_2m,
                created_at: now,
            },
        ),
        Err(error) => Err(ResolveError::Upstream(error)),
    }
}

/// Takes the outcome of the write. The record is the answer either way; a
/// refusal by the store is handed on beside it.
pub fn after_insert(record: WeatherRecord, stored: Result<(), StorageError>) -> (done: Resolved)
    ensures
        done.record == record,
        match stored {
            Ok(_) => done.cache_failure is None,
            Err(error) => done.cache_failure == Some(error),
        },
{
    match stored {
        Ok(_) => Resolved { record, cache_failure: None },
        Err(error) => Resolved { record, cache_failure: Some(error) },
    }
}

/// Whether `after` and `outcome` are the table and the answer once a
/// miss on `table` has been settled with `fetched`: a fetched record is
/// the answer, and it is the table's last record unless the table was
/// full, which is then told beside the answer; a failed fetch is handed on
/// and leaves the table as it was.
pub open spec fn settles(
    table: Seq<WeatherRecord>,
    capacity: nat,
    query: CacheQuery,
    fetched: Result<WeatherInfo, UpstreamError>,
    now: i64,
    after: Seq<WeatherRecord>,
    outcome: Result<Resolved, ResolveError>,
) -> bool {
    match fetched {
        Ok(info) => {
            &&& after == offered(table, capacity, fetched_record(query, info, now))
            &&& outcome matches Ok(done)
            &&& done.record == fetched_record(query, info, now)
            &&& table.len() < capacity ==> done.cache_failure is None
            &&& table.len() >= capacity ==> (done.cache_failure matches Some(refusal)
                && refusal.detail@ == table_full())
        },
        Err(error) => after == table && outcome == Err::<Resolved, ResolveError>(
            ResolveError::Upstream(error),
        ),
    }
}

/// Settles a miss on `store`: a fetched answer is stored if there is room
/// and returned in any case, with the store's refusal beside it; a failed
/// fetch leaves the store as it was.
pub fn settle(
    store: &mut CoordinateStore,
    query: CacheQuery,
    fetched: Result<WeatherInfo, UpstreamError>,
    now: i64,
) -> (outcome: Result<Resolved, ResolveError>)
    requires
        old(store).wf(),
    ensures
        final(store).wf(),
        final(store).capacity() == old(store).capacity(),
        settles(
            old(store)@,
            old(store).capacity(),
            query,
            fetched,
            now,
            final(store)@,
            outcome,
        ),
{
    match after_fetch(query, fetched, now) {
        Ok(record) => {
            let stored = store.insert(record);
            Ok(after_insert(record, stored))
        },
        Err(error) => Err(error),
    }
}

/// Answers `query` from `store`. On a hit the first matching record is
/// returned and `fetch` is dropped uncalled: nothing is asked of it, so it
/// need not even accept the request. On a miss `fetch` is called once, with
/// the client's coordinates and the configured timeout, and the miss is
/// settled with what it returns.
pub fn resolve<F>(
    store: &mut CoordinateStore,
    query: CacheQuery,
    config: ServiceConfig,
    now: i64,
    fetch: F,
) -> (outcome: Result<Resolved, ResolveError>) where
    F: FnOnce(FetchRequest) -> Result<WeatherInfo, UpstreamError>,

    requires
        old(store).wf(),
        decide(candidates(old(store)@, query), query, config) is Miss ==> call_requires(
            fetch,
            (fetch_for(query, config),),
        ),
    ensures
        final(store).wf(),
        final(store).capacity() == old(store).capacity(),
        match decide(candidates(old(store)@, query), query, config) {
            Lookup::Hit(record) => {
                &&& outcome matches Ok(done)
                &&& done.record == record
                &&& done.cache_failure is None
                &&& final(store)@ == old(store)@
            },
            Lookup::Miss(request) => exists|fetched: Result<WeatherInfo, UpstreamError>|
                #[trigger] call_ensures(fetch, (request,), fetched) && settles(
                    old(store)@,
                    old(store).capacity(),
                    query,
                    fetched,
                    now,
                    final(store)@,
                    outcome,
                ),
        },
{
    let request = lookup_request(query);
    let found = store.find_near(request.latitude, request.longitude, request.tolerance);
    match after_lookup(query, config, Ok(found)) {
        Ok(Lookup::Hit(record)) => Ok(Resolved { record, cache_failure: None }),
        Ok(Lookup::Miss(request)) => {
            let fetched = fetch(request);
            settle(store, query, fetched, now)
        },
        Err(error) => Err(error),
    }
}

/// What a filter keeps, seen from the front: it keeps nothing exactly when
/// no element passes, and otherwise its first element is the first that
/// passes.
pub proof fn lemma_first_kept(table: Seq<WeatherRecord>, keep: spec_fn(WeatherRecord) -> bool)
    ensures
        table.filter(keep).len() == 0 <==> forall|i: int|
            0 <= i < table.len() ==> !keep(#[trigger] table[i]),
        table.filter(keep).len() > 0 ==> exists|first: int|
            {
                &&& 0 <= first < table.len()
                &&& keep(#[trigger] table[first])
                &&& table[first] == table.filter(keep)[0]
                &&& forall|earlier: int| 0 <= earlier < first ==> !keep(#[trigger] table[earlier])
            },
    decreases table.len(),
{
    if table.len() == 0 {
        reveal(Seq::filter);
    } else {
        let rest = table.drop_first();
        lemma_filter_front(table, keep);
        lemma_first_kept(rest, keep);
        if keep(table[0]) {
            assert(table.filter(keep)[0] == table[0]);
        } else {
            assert forall|i: int| 0 <= i < rest.len() implies rest[i] == table[i + 1] by {}
            if rest.filter(keep).len() == 0 {
                assert forall|i: int| 0 <= i < table.len() implies !keep(#[trigger] table[i]) by {
                    if i > 0 {
                        assert(rest[i - 1] == table[i]);
                    }
                }
            } else {
                let inner = choose|first: int|
                    {
                        &&& 0 <= first < rest.len()
                        &&& keep(#[trigger] rest[first])
                        &&& rest[first] == rest.filter(keep)[0]
                        &&& forall|earlier: int|
                            0 <= earlier < first ==> !keep(#[trigger] rest[earlier])
                    };
                let first = inner + 1;
                assert(table[first] == rest[inner]);
                assert forall|earlier: int| 0 <= earlier < first implies !keep(
                    #[trigger] table[earlier],
                ) by {
                    if earlier > 0 {
                        assert(rest[earlier - 1] == table[earlier]);
                    }
                }
                assert(keep(table[first]));
            }
        }
    }
}

/// Whenever some stored record lies inside the tolerance window of a
/// request, the request is a hit: no fetch is asked for, and the answer is
/// the first such record of the table.
pub proof fn lemma_hit_needs_no_fetch(
    table: Seq<WeatherRecord>,
    query: CacheQuery,
    config: ServiceConfig,
    at: int,
)
    requires
        0 <= at < table.len(),
        answers(
            table[at],
            query.latitude as int,
            query.longitude as int,
            DEFAULT_TOLERANCE as int,
        ),
    ensures
        decide(candidates(table, query), query, config) matches Lookup::Hit(record) && exists|
            first: int,
        |
            {
                &&& 0 <= first <= at
                &&& #[trigger] table[first] == record
                &&& answers(
                    record,
                    query.latitude as int,
                    query.longitude as int,
                    DEFAULT_TOLERANCE as int,
                )
                &&& forall|earlier: int|
                    0 <= earlier < first ==> !answers(
                        #[trigger] table[earlier],
                        query.latitude as int,
                        query.longitude as int,
                        DEFAULT_TOLERANCE as int,
                    )
            },
{
    let keep = answering(
        query.latitude as int,
        query.longitude as int,
        DEFAULT_TOLERANCE as int,
    );
    lemma_first_kept(table, keep);
    assert(keep(table[at]));
    let first = choose|first: int|
        {
            &&& 0 <= first < table.len()
            &&& keep(#[trigger] table[first])
            &&& table[first] == table.filter(keep)[0]
            &&& forall|earlier: int| 0 <= earlier < first ==> !keep(#[trigger] table[earlier])
        };
    if first > at {
        assert(!keep(table[at]));
    }
    assert forall|earlier: int| 0 <= earlier < first implies !answers(
        #[trigger] table[earlier],
        query.latitude as int,
        query.longitude as int,
        DEFAULT_TOLERANCE as int,
    ) by {
        assert(!keep(table[earlier]));
    }
    assert(table[first] == candidates(table, query)[0]);
}

/// Whenever no stored record lies inside the tolerance window of a request,
/// the request is a miss: exactly one fetch is asked for, with the client's
/// coordinates and the configured timeout, and once it has succeeded the
/// fetched record is the answer and a store with room holds one record
/// more, the last, under those coordinates.
pub proof fn lemma_miss_fetches_and_stores(
    table: Seq<WeatherRecord>,
    capacity: nat,
    query: CacheQuery,
    config: ServiceConfig,
    info: WeatherInfo,
    now: i64,
    after: Seq<WeatherRecord>,
    outcome: Result<Resolved, ResolveError>,
)
    requires
        forall|i: int|
            0 <= i < table.len() ==> !answers(
                #[trigger] table[i],
                query.latitude as int,
                query.longitude as int,
                DEFAULT_TOLERANCE as int,
            ),
        settles(table, capacity, query, Ok(info), now, after, outcome),
    ensures
        decide(candidates(table, query), query, config) == Lookup::Miss(fetch_for(query, config)),
        outcome matches Ok(done) && done.record == fetched_record(query, info, now),
        table.len() < capacity ==> after == table.push(fetched_record(query, info, now)),
        table.len() >= capacity ==> after == table,
        fetched_record(query, info, now).latitude == query.latitude,
        fetched_record(query, info, now).longitude == query.longitude,
        fetched_record(query, info, now).temperature == info.current.temperature_2m,
        fetched_record(query, info, now).created_at == now,
{
    let keep = answering(
        query.latitude as int,
        query.longitude as int,
        DEFAULT_TOLERANCE as int,
    );
    lemma_first_kept(table, keep);
    assert forall|i: int| 0 <= i < table.len() implies !keep(#[trigger] table[i]) by {}
}

/// Resolving the same place twice asks the provider once: after a miss
/// whose fetch succeeded and whose record the store took, the same request
/// is a hit, and its answer is the record that was fetched.
pub proof fn lemma_second_resolve_hits(
    table: Seq<WeatherRecord>,
    capacity: nat,
    query: CacheQuery,
    config: ServiceConfig,
    info: WeatherInfo,
    now: i64,
    after: Seq<WeatherRecord>,
    outcome: Result<Resolved, ResolveError>,
)
    requires
        decide(candidates(table, query), query, config) is Miss,
        table.len() < capacity,
        settles(table, capacity, query, Ok(info), now, after, outcome),
    ensures
        decide(candidates(after, query), query, config) == Lookup::Hit(
            fetched_record(query, info, now),
        ),
        outcome matches Ok(done) && decide(candidates(after, query), query, config)
            == Lookup::Hit(done.record),
{
    let keep = answering(
        query.latitude as int,
        query.longitude as int,
        DEFAULT_TOLERANCE as int,
    );
    let record = fetched_record(query, info, now);
    lemma_filter_push(table, record, keep);
    assert(keep(record));
    assert(table.filter(keep).len() == 0);
    assert(table.push(record).filter(keep) =~= seq![record]);
}

/// After two configurations were applied in a row, the next miss is
/// fetched under the second one's timeout, and a hit is answered as before:
/// the store, not the configuration, decides between the two.
pub proof fn lemma_swap_governs_next_fetch(
    watcher: ConfigWatcher,
    first: ServiceConfig,
    second: ServiceConfig,
    found: Seq<WeatherRecord>,
    query: CacheQuery,
)
    ensures
        found.len() == 0 ==> decide(found, query, watcher.applied(first).applied(second).config())
            == Lookup::Miss(
            FetchRequest {
                latitude: query.latitude,
                longitude: query.longitude,
                timeout_secs: second.request_timeout,
            },
        ),
        found.len() > 0 ==> decide(found, query, watcher.applied(first).applied(second).config())
            == Lookup::Hit(found[0]),
{
    lemma_last_config_wins(watcher, first, second);
}

} // verus!
