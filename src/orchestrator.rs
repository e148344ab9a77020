use vstd::prelude::*;
use crate::auth::Method;
use crate::client::{method_for, Client};
use crate::error::{AuthErrorKind, Error, Kind};
use crate::query::{
    copy_optional_strings, copy_strings, lowered, query_text, QueryRequest, QueryResponse,
    DEFAULT_PAGE_SIZE,
};
use crate::text::{lower_of, to_lower};
use crate::vm::VirtualMachine;

verus! {

/// What the driver of a query session is to do next.
#[derive(Debug)]
pub enum Step {
    /// Send this page request with the client's current token, classify the
    /// answer, cache its records, and hand the outcome to `on_page`.
    Fetch(QueryRequest),
    /// Log in again by the client's method (`Client::reauth`), persist the new
    /// record, and hand the outcome to `on_recovered`.
    Reauth,
    /// Exchange the refresh token (`Client::exchange_refresh_token`), persist
    /// the new record, and hand the outcome to `on_recovered`.
    Refresh,
    /// The query is over, with this result.
    Finished(Result<QueryResponse, Error>),
}

/// Where a query session stands.
#[derive(Debug, Clone, Copy, PartialEq, Eq, Structural)]
pub enum Phase {
    /// Waiting for the results of the cache lookups.
    Lookup,
    /// Waiting for the outcome of a page request.
    Awaiting,
    /// Waiting for the outcome of a re-authentication or a refresh.
    Recovering,
    /// Finished.
    Done,
}

/// The records found by the cache lookups, in operand order.
pub open spec fn hits(lookups: Seq<Option<VirtualMachine>>) -> Seq<VirtualMachine>
    decreases lookups.len(),
{
    if lookups.len() == 0 {
        Seq::empty()
    } else {
        let prev = hits(lookups.drop_last());
        match lookups.last() {
            Some(vm) => prev.push(vm),
            None => prev,
        }
    }
}

/// The operands whose cache lookup missed, in operand order.
pub open spec fn misses(ops: Seq<String>, lookups: Seq<Option<VirtualMachine>>) -> Seq<String>
    decreases lookups.len(),
{
    if lookups.len() == 0 || ops.len() == 0 {
        Seq::empty()
    } else {
        let prev = misses(ops.drop_last(), lookups.drop_last());
        match lookups.last() {
            Some(_) => prev,
            None => prev.push(ops.last()),
        }
    }
}

/// Whether the cache takes part in a query: a cache is configured, it was not
/// declined, and the operand is not a regular expression (which is no key).
pub open spec fn cache_eligible(caching: bool, nocache: bool, match_regexp: bool) -> bool {
    caching && !nocache && !match_regexp
}

/// A page holding exactly the given records, counted by their number.
pub open spec fn page_of(r: QueryResponse, records: Seq<VirtualMachine>) -> bool {
    r.total_results == records.len() && r.data@ == records
}

/// One query: its operands and options, and its progress through cache
/// lookups, page requests and recovery from authentication failures.
#[derive(Debug)]
pub struct QuerySession {
    /// The operands as given.
    pub operands: Vec<String>,
    /// Whether the first operand is a regular expression.
    pub match_regexp: bool,
    /// Whether extensions are asked for.
    pub show_extensions: bool,
    /// Whether tags are asked for.
    pub show_tags: bool,
    /// Whether the cache is consulted.
    pub consult_cache: bool,
    /// The page size.
    pub page_size: u16,
    /// The subscriptions the query is restricted to, if any.
    pub subscriptions: Option<Vec<String>>,
    /// The authentication method of the client.
    pub method: Method,
    /// The operands left for the remote API.
    pub remaining: Vec<String>,
    /// The records the cache supplied.
    pub cached: Vec<VirtualMachine>,
    /// The records gathered so far.
    pub collected: Vec<VirtualMachine>,
    /// The total the remote API reported on the first page.
    pub total: u64,
    /// The offset of the page in flight.
    pub skip: u64,
    /// Whether the page in flight has already been retried.
    pub retried: bool,
    /// Where the session stands.
    pub phase: Phase,
}

/// Whether `req` asks for the page at `skip` of the session's remaining operands.
pub open spec fn requests_page(s: QuerySession, req: QueryRequest, skip: u64) -> bool {
    &&& req.query@ == query_text(
        lowered(s.remaining@),
        s.match_regexp,
        s.show_extensions,
        s.show_tags,
    )
    &&& req.options.skip == skip
    &&& req.options.top == s.page_size
    &&& req.options.skip_token is None
    &&& (req.subscriptions is Some <==> s.subscriptions is Some)
    &&& req.subscriptions is Some ==> req.subscriptions->Some_0@ == s.subscriptions->Some_0@
}

/// Whether the session stays the same query: the same operands, options and
/// cache outcome.
pub open spec fn same_query(a: QuerySession, b: QuerySession) -> bool {
    &&& a.operands == b.operands
    &&& a.match_regexp == b.match_regexp
    &&& a.show_extensions == b.show_extensions
    &&& a.show_tags == b.show_tags
    &&& a.consult_cache == b.consult_cache
    &&& a.page_size == b.page_size
    &&& a.subscriptions == b.subscriptions
    &&& a.method == b.method
}

impl QuerySession {
    /// The session's invariant.
    pub open spec fn wf(&self) -> bool {
        &&& 1 <= self.page_size <= DEFAULT_PAGE_SIZE
        &&& self.consult_cache ==> !self.match_regexp
        &&& (self.phase == Phase::Awaiting || self.phase == Phase::Recovering) ==> {
            &&& self.remaining@.len() > 0
            &&& (self.skip == 0 || self.skip < self.total)
        }
        &&& self.phase == Phase::Recovering ==> self.retried
    }

    /// The keys to look up in the cache, in operand order: each operand in
    /// lower case when the cache takes part, none otherwise (in particular none
    /// for a regular expression).
    pub fn cache_keys(&self) -> (r: Vec<String>)
        requires
            self.wf(),
        ensures
            self.consult_cache ==> r@.len() == self.operands@.len() && forall|i: int|
                0 <= i < r@.len() ==> #[trigger] r@[i]@ == lower_of(self.operands@[i]@),
            !self.consult_cache ==> r@.len() == 0,
            self.match_regexp ==> r@.len() == 0,
    {
        let mut r: Vec<String> = Vec::new();
        if !self.consult_cache {
            return r;
        }
        let mut i: usize = 0;
        while i < self.operands.len()
            invariant
                i <= self.operands@.len(),
                r@.len() == i,
                forall|j: int| 0 <= j < i ==> #[trigger] r@[j]@ == lower_of(self.operands@[j]@),
            decreases self.operands@.len() - i,
        {
            r.push(to_lower(self.operands[i].as_str()));
            i = i + 1;
        }
        r
    }

    /// The request for the page at `skip`.
    fn page_request(&self, skip: u64) -> (r: QueryRequest)
        requires
            self.match_regexp ==> self.remaining@.len() > 0,
        ensures
            requests_page(*self, r, skip),
    {
        QueryRequest::make(
            &self.remaining,
            self.match_regexp,
            self.show_extensions,
            self.show_tags,
            Some(skip),
            Some(self.page_size),
            &self.subscriptions,
        )
    }
}


/// What the session does with the outcome of a page request.
///
/// A page extends the records: the first page comes before the cached records,
/// later pages after them, and the first page's total decides the paging: the
/// next page is requested while its offset is below the total; otherwise the
/// query finishes with the total and all records.
///
/// A failure of a page not yet retried with a missing token asks for a new
/// login; with an expired token it asks for a new login under the
/// client-credentials method and for a refresh under the device-code method.
/// A first page not yet retried that found nothing yields the cached records
/// alone, if there are any. Any other failure ends the query with that failure.
pub open spec fn page_outcome(
    s: QuerySession,
    outcome: Result<QueryResponse, Error>,
    t: QuerySession,
    r: Step,
) -> bool {
    match outcome {
        Ok(resp) => {
            let first = s.skip == 0;
            let acc = if first {
                resp.data@ + s.cached@
            } else {
                s.collected@ + resp.data@
            };
            let tot = if first {
                resp.total_results
            } else {
                s.total
            };
            if s.skip + s.page_size < tot {
                &&& r is Fetch
                &&& requests_page(t, r->Fetch_0, (s.skip + s.page_size) as u64)
                &&& t.phase == Phase::Awaiting
                &&& t.skip == s.skip + s.page_size
                &&& !t.retried
                &&& t.total == tot
                &&& t.collected@ == acc
            } else {
                &&& t.phase == Phase::Done
                &&& r is Finished
                &&& r->Finished_0 is Ok
                &&& r->Finished_0->Ok_0.total_results == tot
                &&& r->Finished_0->Ok_0.data@ == acc
            }
        },
        Err(e) => {
            if !s.retried && e.kind == Kind::AuthenticationError(AuthErrorKind::MissingToken) {
                &&& r is Reauth
                &&& t.phase == Phase::Recovering
                &&& t.skip == s.skip
                &&& t.total == s.total
                &&& t.collected == s.collected
                &&& t.cached == s.cached
            } else if !s.retried && e.kind == Kind::AuthenticationError(
                AuthErrorKind::TokenExpired,
            ) {
                &&& (if s.method == Method::ClientCredentials {
                    r is Reauth
                } else {
                    r is Refresh
                })
                &&& t.phase == Phase::Recovering
                &&& t.skip == s.skip
                &&& t.total == s.total
                &&& t.collected == s.collected
                &&& t.cached == s.cached
            } else if !s.retried && s.skip == 0 && e.kind == Kind::NoneFoundError
                && s.cached@.len() > 0 {
                &&& t.phase == Phase::Done
                &&& r is Finished
                &&& r->Finished_0 is Ok
                &&& page_of(r->Finished_0->Ok_0, s.cached@)
            } else {
                &&& t.phase == Phase::Done
                &&& r == Step::Finished(Err(e))
            }
        },
    }
}

/// What the session does with the cache lookups: the operands missed (all of
/// them when the cache takes no part) remain for the remote API. With none
/// remaining the query finishes with the records found, counted by their
/// number, and no remote request; otherwise the first page is requested.
pub open spec fn begin_outcome(
    s: QuerySession,
    lookups: Seq<Option<VirtualMachine>>,
    t: QuerySession,
    r: Step,
) -> bool {
    &&& same_query(t, s)
    &&& t.remaining@ == (if s.consult_cache {
        misses(s.operands@, lookups)
    } else {
        s.operands@
    })
    &&& t.remaining@.len() == 0 ==> {
        &&& t.phase == Phase::Done
        &&& r is Finished
        &&& r->Finished_0 is Ok
        &&& page_of(r->Finished_0->Ok_0, hits(lookups))
    }
    &&& t.remaining@.len() > 0 ==> {
        &&& t.phase == Phase::Awaiting
        &&& t.cached@ == hits(lookups)
        &&& t.skip == 0
        &&& !t.retried
        &&& r is Fetch
        &&& requests_page(t, r->Fetch_0, 0)
    }
}

/// What the session does with the outcome of a re-authentication or a
/// refresh: on success the same page is requested once more, with the retry
/// spent; on failure the query ends with that failure.
pub open spec fn recovery_outcome(s: QuerySession, outcome: Result<(), Error>, t: QuerySession, r: Step) -> bool {
    &&& same_query(t, s)
    &&& t.remaining == s.remaining
    &&& match outcome {
        Ok(_) => {
            &&& r is Fetch
            &&& requests_page(t, r->Fetch_0, s.skip)
            &&& t.phase == Phase::Awaiting
            &&& t.skip == s.skip
            &&& t.retried
            &&& t.total == s.total
            &&& t.collected == s.collected
            &&& t.cached == s.cached
        },
        Err(e) => t.phase == Phase::Done && r == Step::Finished(Err(e)),
    }
}

impl QuerySession {
    /// Takes in the cache lookups, one per key of `cache_keys` and in that
    /// order, a record for a hit and nothing for a miss (any cache error is a
    /// miss). The records found are kept; the operands missed remain for the
    /// remote API. With none remaining the query finishes with the cached
    /// records, counted by their number, and no remote request; otherwise the
    /// first page is requested.
    pub fn begin(&mut self, lookups: Vec<Option<VirtualMachine>>) -> (r: Step)
        requires
            old(self).wf(),
            old(self).phase == Phase::Lookup,
            lookups@.len() == (if old(self).consult_cache {
                old(self).operands@.len()
            } else {
                0
            }),
        ensures
            final(self).wf(),
            begin_outcome(*old(self), lookups@, *final(self), r),
    {
        let ghost ls = lookups@;
        let ghost ops = self.operands@;
        let mut lookups = lookups;
        let mut cached: Vec<VirtualMachine> = Vec::new();
        let mut remaining: Vec<String> = Vec::new();
        if self.consult_cache {
            let mut i: usize = 0;
            while i < lookups.len()
                invariant
                    lookups@.len() == ls.len(),
                    ls.len() == ops.len(),
                    ops == self.operands@,
                    i <= ls.len(),
                    forall|j: int| i <= j < ls.len() ==> lookups@[j] == ls[j],
                    cached@ == hits(ls.subrange(0, i as int)),
                    remaining@ == misses(ops.subrange(0, i as int), ls.subrange(0, i as int)),
                decreases ls.len() - i,
            {
                let mut slot: Option<VirtualMachine> = None;
                lookups.set_and_swap(i, &mut slot);
                proof {
                    assert(ls.subrange(0, i as int + 1).drop_last() =~= ls.subrange(0, i as int));
                    assert(ops.subrange(0, i as int + 1).drop_last() =~= ops.subrange(0, i as int));
                }
                match slot {
                    Some(vm) => cached.push(vm),
                    None => remaining.push(self.operands[i].clone()),
                }
                i = i + 1;
            }
            proof {
                assert(ls.subrange(0, ls.len() as int) =~= ls);
                assert(ops.subrange(0, ops.len() as int) =~= ops);
            }
        } else {
            remaining = copy_strings(&self.operands);
        }
        self.cached = cached;
        self.remaining = remaining;
        if self.remaining.len() == 0 {
            self.phase = Phase::Done;
            let mut data: Vec<VirtualMachine> = Vec::new();
            std::mem::swap(&mut data, &mut self.cached);
            let n: u64 = data.len() as u64;
            Step::Finished(Ok(QueryResponse { total_results: n, data }))
        } else {
            self.phase = Phase::Awaiting;
            self.skip = 0;
            self.retried = false;
            Step::Fetch(self.page_request(0))
        }
    }

    /// Takes in the outcome of the page request in flight and says what comes
    /// next, as `page_outcome` describes.
    pub fn on_page(&mut self, outcome: Result<QueryResponse, Error>) -> (r: Step)
        requires
            old(self).wf(),
            old(self).phase == Phase::Awaiting,
        ensures
            final(self).wf(),
            same_query(*final(self), *old(self)),
            final(self).remaining == old(self).remaining,
            page_outcome(*old(self), outcome, *final(self), r),
    {
        match outcome {
            Ok(resp) => {
                let mut resp = resp;
                if self.skip == 0 {
                    let mut acc: Vec<VirtualMachine> = Vec::new();
                    std::mem::swap(&mut acc, &mut resp.data);
                    acc.append(&mut self.cached);
                    self.collected = acc;
                    self.total = resp.total_results;
                } else {
                    self.collected.append(&mut resp.data);
                }
                let ps: u64 = self.page_size as u64;
                if self.skip < self.total && self.total - self.skip > ps {
                    self.skip = self.skip + ps;
                    self.retried = false;
                    Step::Fetch(self.page_request(self.skip))
                } else {
                    self.phase = Phase::Done;
                    let mut data: Vec<VirtualMachine> = Vec::new();
                    std::mem::swap(&mut data, &mut self.collected);
                    Step::Finished(Ok(QueryResponse { total_results: self.total, data }))
                }
            },
            Err(e) => {
                let kind = e.kind();
                if !self.retried && kind == Kind::AuthenticationError(AuthErrorKind::MissingToken) {
                    self.retried = true;
                    self.phase = Phase::Recovering;
                    Step::Reauth
                } else if !self.retried && kind == Kind::AuthenticationError(
                    AuthErrorKind::TokenExpired,
                ) {
                    self.retried = true;
                    self.phase = Phase::Recovering;
                    match self.method {
                        Method::ClientCredentials => Step::Reauth,
                        Method::DeviceCode => Step::Refresh,
                    }
                } else if !self.retried && self.skip == 0 && kind == Kind::NoneFoundError
                    && self.cached.len() > 0 {
                    self.phase = Phase::Done;
                    let mut data: Vec<VirtualMachine> = Vec::new();
                    std::mem::swap(&mut data, &mut self.cached);
                    let n: u64 = data.len() as u64;
                    Step::Finished(Ok(QueryResponse { total_results: n, data }))
                } else {
                    self.phase = Phase::Done;
                    Step::Finished(Err(e))
                }
            },
        }
    }

    /// Takes in the outcome of a re-authentication or a refresh: on success the
    /// same page is requested once more; on failure the query ends with that
    /// failure.
    pub fn on_recovered(&mut self, outcome: Result<(), Error>) -> (r: Step)
        requires
            old(self).wf(),
            old(self).phase == Phase::Recovering,
        ensures
            final(self).wf(),
            recovery_outcome(*old(self), outcome, *final(self), r),
    {
        match outcome {
            Ok(_) => {
                self.phase = Phase::Awaiting;
                Step::Fetch(self.page_request(self.skip))
            },
            Err(e) => {
                self.phase = Phase::Done;
                Step::Finished(Err(e))
            },
        }
    }
}

impl Client {
    /// Starts a query for `query_operand`: host names, or with `match_regexp` a
    /// regular expression in the first operand. The cache takes part when one
    /// is configured, `nocache` is false and the operand is not a regular
    /// expression. Pages hold `top` records, 1000 when not given.
    pub fn query_vminfo(
        &self,
        query_operand: &Vec<String>,
        match_regexp: bool,
        show_extensions: bool,
        show_tags: bool,
        nocache: bool,
        top: Option<u16>,
    ) -> (r: QuerySession)
        requires
            top is Some ==> 1 <= top->Some_0 <= DEFAULT_PAGE_SIZE,
        ensures
            r.wf(),
            r.phase == Phase::Lookup,
            r.operands@ == query_operand@,
            r.match_regexp == match_regexp,
            r.show_extensions == show_extensions,
            r.show_tags == show_tags,
            r.consult_cache == cache_eligible(self.caching, nocache, match_regexp),
            r.page_size == (match top {
                Some(t) => t,
                None => DEFAULT_PAGE_SIZE,
            }),
            r.method == method_for(self.client_secret),
            r.subscriptions is Some <==> self.subscriptions is Some,
            r.subscriptions is Some ==> r.subscriptions->Some_0@ == self.subscriptions->Some_0@,
            r.remaining@.len() == 0,
            r.cached@.len() == 0,
            r.collected@.len() == 0,
            r.skip == 0,
            !r.retried,
    {
        let page_size: u16 = match top {
            Some(t) => t,
            None => DEFAULT_PAGE_SIZE,
        };
        QuerySession {
            operands: copy_strings(query_operand),
            match_regexp,
            show_extensions,
            show_tags,
            consult_cache: self.caching && !nocache && !match_regexp,
            page_size,
            subscriptions: copy_optional_strings(&self.subscriptions),
            method: self.auth_method(),
            remaining: Vec::new(),
            cached: Vec::new(),
            collected: Vec::new(),
            total: 0,
            skip: 0,
            retried: false,
            phase: Phase::Lookup,
        }
    }
}

/// When every cache lookup hits, no operand is left for the remote API and
/// the records found are the lookups' records, one per operand, in order.
pub proof fn lemma_all_cached_stays_local(ops: Seq<String>, lookups: Seq<Option<VirtualMachine>>)
    requires
        ops.len() == lookups.len(),
        forall|i: int| 0 <= i < lookups.len() ==> #[trigger] lookups[i] is Some,
    ensures
        misses(ops, lookups).len() == 0,
        hits(lookups).len() == lookups.len(),
        forall|i: int| 0 <= i < lookups.len() ==> #[trigger] hits(lookups)[i] == lookups[i]->Some_0,
    decreases lookups.len(),
{
    if lookups.len() > 0 {
        let l = lookups.drop_last();
        assert forall|i: int| 0 <= i < l.len() implies #[trigger] l[i] is Some by {
            assert(l[i] == lookups[i]);
        }
        assert(lookups.last() == lookups[lookups.len() - 1]);
        lemma_all_cached_stays_local(ops.drop_last(), l);
        assert forall|i: int| 0 <= i < lookups.len() implies #[trigger] hits(lookups)[i]
            == lookups[i]->Some_0 by {
            if i < l.len() {
                assert(l[i] == lookups[i]);
            }
        }
    }
}

/// A query whose every operand is found in the cache finishes at once, with no
/// page request, login or refresh: its result holds the cached records in
/// operand order and counts as many results as there are operands.
pub proof fn lemma_fully_cached_query(
    s: QuerySession,
    lookups: Seq<Option<VirtualMachine>>,
    t: QuerySession,
    r: Step,
)
    requires
        s.consult_cache,
        lookups.len() == s.operands@.len(),
        forall|i: int| 0 <= i < lookups.len() ==> #[trigger] lookups[i] is Some,
        begin_outcome(s, lookups, t, r),
    ensures
        t.phase == Phase::Done,
        r is Finished,
        r->Finished_0 is Ok,
        r->Finished_0->Ok_0.total_results == s.operands@.len(),
        r->Finished_0->Ok_0.data@.len() == s.operands@.len(),
        forall|i: int|
            0 <= i < lookups.len() ==> #[trigger] r->Finished_0->Ok_0.data@[i]
                == lookups[i]->Some_0,
{
    lemma_all_cached_stays_local(s.operands@, lookups);
}

/// A regular-expression query takes nothing from the cache: with the (empty)
/// lookups taken in, every operand remains for the remote API, no record is
/// cached, and the first page is requested for all of them.
pub proof fn lemma_regex_query_is_remote(
    s: QuerySession,
    lookups: Seq<Option<VirtualMachine>>,
    t: QuerySession,
    r: Step,
)
    requires
        s.wf(),
        s.match_regexp,
        s.operands@.len() > 0,
        lookups.len() == 0,
        begin_outcome(s, lookups, t, r),
    ensures
        t.remaining@ == s.operands@,
        t.cached@.len() == 0,
        r is Fetch,
        requests_page(t, r->Fetch_0, 0),
{
}

/// With a total above two pages and at most three, three pages are requested,
/// at offsets 0, one page and two pages, and the query finishes with the
/// server's total and the records of all three pages in the order fetched
/// (the cached records right after the first page).
pub proof fn lemma_three_pages(
    s: QuerySession,
    first_page: QueryResponse,
    t1: QuerySession,
    r1: Step,
    second_page: QueryResponse,
    t2: QuerySession,
    r2: Step,
    third_page: QueryResponse,
    t3: QuerySession,
    r3: Step,
)
    requires
        s.wf(),
        s.phase == Phase::Awaiting,
        s.skip == 0,
        2 * s.page_size < first_page.total_results <= 3 * s.page_size,
        page_outcome(s, Ok(first_page), t1, r1),
        same_query(t1, s),
        page_outcome(t1, Ok(second_page), t2, r2),
        same_query(t2, t1),
        page_outcome(t2, Ok(third_page), t3, r3),
    ensures
        r1 is Fetch,
        r1->Fetch_0.options.skip == s.page_size,
        r2 is Fetch,
        r2->Fetch_0.options.skip == 2 * s.page_size,
        r3 is Finished,
        r3->Finished_0 is Ok,
        r3->Finished_0->Ok_0.total_results == first_page.total_results,
        r3->Finished_0->Ok_0.data@ == first_page.data@ + s.cached@ + second_page.data@ + third_page.data@,
{
    assert(r3->Finished_0->Ok_0.data@ =~= first_page.data@ + s.cached@ + second_page.data@ + third_page.data@);
}

/// A page request that fails for a missing token asks for a new login; once it
/// succeeds the same page of the same operands is requested exactly once more,
/// and whatever failure that retry meets ends the query unchanged, with no
/// further login or refresh. A failed login ends the query with its failure.
pub proof fn lemma_missing_token_retries_once(
    s: QuerySession,
    e1: Error,
    t1: QuerySession,
    r1: Step,
    login: Result<(), Error>,
    t2: QuerySession,
    r2: Step,
    retry: Result<QueryResponse, Error>,
    t3: QuerySession,
    r3: Step,
)
    requires
        !s.retried,
        e1.kind == Kind::AuthenticationError(AuthErrorKind::MissingToken),
        page_outcome(s, Err(e1), t1, r1),
        same_query(t1, s),
        t1.remaining == s.remaining,
        recovery_outcome(t1, login, t2, r2),
        login is Ok ==> page_outcome(t2, retry, t3, r3),
    ensures
        r1 is Reauth,
        login is Err ==> r2 == Step::Finished(Err(login->Err_0)),
        login is Ok ==> {
            &&& r2 is Fetch
            &&& requests_page(t2, r2->Fetch_0, s.skip)
            &&& t2.remaining == s.remaining
            &&& same_query(t2, s)
            &&& !(r3 is Reauth)
            &&& !(r3 is Refresh)
            &&& retry is Err ==> r3 == Step::Finished(Err(retry->Err_0))
        },
{
}

/// Under the device-code method a page request that fails for an expired token
/// asks for a refresh, not a new login; when the refresh fails (a missing
/// refresh token among others) the query ends with that failure and no page is
/// requested again.
pub proof fn lemma_expired_device_code_refreshes(
    s: QuerySession,
    e1: Error,
    t1: QuerySession,
    r1: Step,
    e2: Error,
    t2: QuerySession,
    r2: Step,
)
    requires
        !s.retried,
        s.method == Method::DeviceCode,
        e1.kind == Kind::AuthenticationError(AuthErrorKind::TokenExpired),
        page_outcome(s, Err(e1), t1, r1),
        recovery_outcome(t1, Err(e2), t2, r2),
    ensures
        r1 is Refresh,
        t2.phase == Phase::Done,
        r2 == Step::Finished(Err(e2)),
{
}

/// When the first page finds nothing but some operands were found in the
/// cache, the query succeeds with exactly the cached records, counted by their
/// number.
pub proof fn lemma_none_found_falls_back_to_cache(
    s0: QuerySession,
    lookups: Seq<Option<VirtualMachine>>,
    s: QuerySession,
    r0: Step,
    e: Error,
    t: QuerySession,
    r: Step,
)
    requires
        begin_outcome(s0, lookups, s, r0),
        s.remaining@.len() > 0,
        hits(lookups).len() > 0,
        e.kind == Kind::NoneFoundError,
        page_outcome(s, Err(e), t, r),
    ensures
        r is Finished,
        r->Finished_0 is Ok,
        page_of(r->Finished_0->Ok_0, hits(lookups)),
        r->Finished_0->Ok_0.total_results == hits(lookups).len(),
{
}

/// A regular-expression operand is never looked up in the cache, whether or
/// not a cache is configured and whether or not the cache was declined.
pub proof fn lemma_regex_bypasses_cache(caching: bool, nocache: bool)
    ensures
        !cache_eligible(caching, nocache, true),
{
}

/// Recovery happens at most once per page request: a page request that was
/// already retried never asks for another login or refresh, whatever its
/// outcome, so a query cannot loop on authentication failures.
pub proof fn lemma_retried_page_never_recovers_again(
    s: QuerySession,
    outcome: Result<QueryResponse, Error>,
    t: QuerySession,
    r: Step,
)
    requires
        page_outcome(s, outcome, t, r),
        s.retried,
    ensures
        !(r is Reauth),
        !(r is Refresh),
{
}

} // verus!
