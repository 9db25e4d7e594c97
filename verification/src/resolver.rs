//! The object resolver's cache discipline.
//!
//! An identifier is resolved in steps. `Resolver::resolve` decides from the
//! caches alone whether the object can be returned at once, whether the
//! request fails, or which outside work is needed: a lookup in local
//! storage, a fetch from the remote server, or waiting for a fetch that is
//! already under way. `Resolver::complete_fetch` judges what a fetch
//! brought back, and `Resolver::store` caches an object once it has been
//! written to local storage.

use vstd::prelude::*;
use crate::error::ResolveError;
use crate::keyed::KeyedList;

verus! {

/// The kinds of domain object.
#[derive(Clone, Copy, PartialEq, Eq, Structural, Debug)]
pub enum ObjectKind {
    Person,
    Community,
    Post,
    Comment,
    PrivateMessage,
}

/// How long a cached object of a kind is served: actors and content age
/// differently.
#[derive(Clone, Copy, PartialEq, Eq, Structural, Debug)]
pub enum TtlClass {
    Actor,
    Content,
}

/// A domain object: its kind, its row in local storage, its globally
/// unique remote identity, and whether this server is its home.
#[derive(Clone, PartialEq, Eq, Debug)]
pub struct DomainObject {
    pub kind: ObjectKind,
    pub id: i32,
    pub remote_id: String,
    pub local: bool,
}

/// What a caller asks the resolver for.
#[derive(Clone, PartialEq, Eq, Debug)]
pub enum Identifier {
    LocalHandle { name: String, kind: ObjectKind },
    RemoteReference(String),
}

/// A cached object with the time it was fetched at.
#[derive(PartialEq, Eq, Debug)]
pub struct CacheEntry {
    pub object: DomainObject,
    pub fetched_at: u64,
    pub ttl_class: TtlClass,
}

/// Lifetimes of cache entries, in the unit of the caller's clock. Negative
/// entries are meant to live shorter than positive ones.
#[derive(Clone, Copy, PartialEq, Eq, Structural, Debug)]
pub struct CachePolicy {
    pub actor_ttl: u64,
    pub content_ttl: u64,
    pub negative_ttl: u64,
}

/// What a remote fetch brought back.
#[derive(Clone, PartialEq, Eq, Debug)]
pub enum FetchOutcome {
    /// No answer: the network failed or the time ran out.
    Unreachable,
    /// An answer that is too large, of the wrong content type, or that
    /// cannot be read.
    Malformed,
    /// A readable object, with the identity and kind it declares.
    Object { declared_id: String, kind: ObjectKind },
}

/// What the resolver decides on a request.
#[derive(PartialEq, Eq, Debug)]
pub enum ResolveStep {
    /// The object was cached and live: here it is.
    Return(DomainObject),
    Fail(ResolveError),
    /// Look the handle up in local storage.
    LookupLocal,
    /// Fetch the reference from its server; no other fetch of it is under
    /// way.
    Fetch,
    /// A fetch of the reference is under way: wait for its result.
    Await,
}

/// The class an object of a kind is cached under.
pub open spec fn ttl_class_of(kind: ObjectKind) -> TtlClass {
    match kind {
        ObjectKind::Person | ObjectKind::Community => TtlClass::Actor,
        _ => TtlClass::Content,
    }
}

/// An entry recorded at `since` with lifetime `ttl` is live at `now` until
/// the lifetime has passed.
pub open spec fn is_live(since: u64, ttl: u64, now: u64) -> bool {
    now < since + ttl
}

/// The verdict on what a fetch of `requested` brought back: the declared
/// identity must be the requested one, exactly, and the kind the expected
/// one.
pub open spec fn fetch_verdict(
    requested: Seq<char>,
    expected_kind: ObjectKind,
    outcome: FetchOutcome,
) -> Result<(), ResolveError> {
    match outcome {
        FetchOutcome::Unreachable => Err(ResolveError::RemoteUnreachable),
        FetchOutcome::Malformed => Err(ResolveError::InvalidPayload),
        FetchOutcome::Object { declared_id, kind } => {
            if declared_id@ != requested {
                Err(ResolveError::InvalidPayload)
            } else if kind != expected_kind {
                Err(ResolveError::WrongType)
            } else {
                Ok(())
            }
        },
    }
}

/// The resolver as a mathematical object: the positive cache, the negative
/// cache (the time each reference was found invalid), and the references
/// with a fetch under way.
pub struct ResolverModel {
    pub cache: Map<Seq<char>, CacheEntry>,
    pub negative: Map<Seq<char>, u64>,
    pub in_flight: Set<Seq<char>>,
    pub policy: CachePolicy,
}

impl ResolverModel {
    /// Every cached object is filed under its own remote identity.
    pub open spec fn wf(self) -> bool {
        forall|k: Seq<char>| #[trigger]
            self.cache.contains_key(k) ==> self.cache[k].object.remote_id@ == k
    }

    pub open spec fn ttl(self, class: TtlClass) -> u64 {
        match class {
            TtlClass::Actor => self.policy.actor_ttl,
            TtlClass::Content => self.policy.content_ttl,
        }
    }

    /// The cache holds an entry for `url` that has not expired at `now`.
    pub open spec fn live_entry(self, url: Seq<char>, now: u64) -> bool {
        self.cache.contains_key(url) && is_live(
            self.cache[url].fetched_at,
            self.ttl(self.cache[url].ttl_class),
            now,
        )
    }

    /// `url` was found invalid and that finding has not expired at `now`.
    pub open spec fn live_negative(self, url: Seq<char>, now: u64) -> bool {
        self.negative.contains_key(url) && is_live(
            self.negative[url],
            self.policy.negative_ttl,
            now,
        )
    }

    /// The decision on a remote reference. A live entry answers the
    /// request without a fetch; one of another kind than expected is a
    /// type error. A reference lately found invalid fails without a fetch.
    /// Otherwise a fetch is needed: it is refused where the caller forbade
    /// it, awaited where one is under way, and started where none is.
    pub open spec fn remote_step(
        self,
        url: Seq<char>,
        expected_kind: ObjectKind,
        allow_remote_fetch: bool,
        now: u64,
    ) -> ResolveStep {
        if self.live_entry(url, now) {
            if self.cache[url].object.kind == expected_kind {
                ResolveStep::Return(self.cache[url].object)
            } else {
                ResolveStep::Fail(ResolveError::WrongType)
            }
        } else if self.live_negative(url, now) {
            ResolveStep::Fail(ResolveError::InvalidPayload)
        } else if !allow_remote_fetch {
            ResolveStep::Fail(ResolveError::ResolutionDisabled)
        } else if self.in_flight.contains(url) {
            ResolveStep::Await
        } else {
            ResolveStep::Fetch
        }
    }

    /// The decision on an identifier. A local handle is looked up in the
    /// table of its kind, which must be the expected one.
    pub open spec fn step(
        self,
        identifier: Identifier,
        expected_kind: ObjectKind,
        allow_remote_fetch: bool,
        now: u64,
    ) -> ResolveStep {
        match identifier {
            Identifier::LocalHandle { name, kind } => {
                if kind == expected_kind {
                    ResolveStep::LookupLocal
                } else {
                    ResolveStep::Fail(ResolveError::WrongType)
                }
            },
            Identifier::RemoteReference(url) => self.remote_step(
                url@,
                expected_kind,
                allow_remote_fetch,
                now,
            ),
        }
    }

    /// The resolver after a request: a started fetch is noted as under
    /// way, and nothing else changes.
    pub open spec fn after_resolve(
        self,
        identifier: Identifier,
        expected_kind: ObjectKind,
        allow_remote_fetch: bool,
        now: u64,
    ) -> ResolverModel {
        if self.step(identifier, expected_kind, allow_remote_fetch, now) is Fetch {
            ResolverModel {
                in_flight: self.in_flight.insert(identifier->RemoteReference_0@),
                ..self
            }
        } else {
            self
        }
    }

    /// The resolver after the verdict on a fetch of `requested`. Only an
    /// unreadable answer is remembered, as a negative entry; an accepted
    /// object stays under way until it is stored; every refusal ends the
    /// fetch. The positive cache is never touched.
    pub open spec fn after_fetch(
        self,
        requested: Seq<char>,
        expected_kind: ObjectKind,
        outcome: FetchOutcome,
        now: u64,
    ) -> ResolverModel {
        ResolverModel {
            negative: if outcome is Malformed {
                self.negative.insert(requested, now)
            } else {
                self.negative
            },
            in_flight: if fetch_verdict(requested, expected_kind, outcome) is Ok {
                self.in_flight
            } else {
                self.in_flight.remove(requested)
            },
            ..self
        }
    }

    /// The resolver after `object` has been stored at `now`: the object
    /// is cached under its own remote identity, an earlier finding that
    /// the identity is invalid is dropped, and its fetch is over.
    pub open spec fn after_store(self, object: DomainObject, now: u64) -> ResolverModel {
        ResolverModel {
            cache: self.cache.insert(
                object.remote_id@,
                CacheEntry { object, fetched_at: now, ttl_class: ttl_class_of(object.kind) },
            ),
            negative: self.negative.remove(object.remote_id@),
            in_flight: self.in_flight.remove(object.remote_id@),
            ..self
        }
    }
}

impl DomainObject {
    /// A copy of the object, handed out as a value of its own.
    pub fn snapshot(&self) -> (r: DomainObject)
        ensures
            r == *self,
    {
        DomainObject {
            kind: self.kind,
            id: self.id,
            remote_id: self.remote_id.clone(),
            local: self.local,
        }
    }
}

/// The class an object of a kind is cached under.
pub fn ttl_class(kind: ObjectKind) -> (c: TtlClass)
    ensures
        c == ttl_class_of(kind),
{
    match kind {
        ObjectKind::Person => TtlClass::Actor,
        ObjectKind::Community => TtlClass::Actor,
        _ => TtlClass::Content,
    }
}

/// Whether an entry recorded at `since` with lifetime `ttl` is live at
/// `now`.
pub fn live(since: u64, ttl: u64, now: u64) -> (b: bool)
    ensures
        b == is_live(since, ttl, now),
{
    now < since || now - since < ttl
}

/// The ceilings a remote answer is held to.
#[derive(Clone, Copy, PartialEq, Eq, Structural, Debug)]
pub struct FetchLimits {
    /// The most bytes an answer may have.
    pub max_bytes: u64,
    /// The most redirects followed for one fetch.
    pub max_redirects: u32,
}

/// What a remote server answered, before it is judged.
#[derive(Clone, PartialEq, Eq, Debug)]
pub struct FetchResponse {
    /// The number of redirects that led to the answer.
    pub redirects: u32,
    /// Whether the answer's content type is one of the protocol's.
    pub content_type_accepted: bool,
    /// The size of the answer's body in bytes.
    pub size: u64,
    /// The identity and kind that the body declares, where it can be read.
    pub declared: Option<(String, ObjectKind)>,
}

/// The outcome that an answer amounts to: one reached by too many
/// redirects counts as no answer; one of the wrong content type, too
/// large or unreadable is malformed; any other is the object it declares.
pub open spec fn response_outcome(response: FetchResponse, limits: FetchLimits) -> FetchOutcome {
    if response.redirects > limits.max_redirects {
        FetchOutcome::Unreachable
    } else if !response.content_type_accepted || response.size > limits.max_bytes {
        FetchOutcome::Malformed
    } else {
        match response.declared {
            None => FetchOutcome::Malformed,
            Some(d) => FetchOutcome::Object { declared_id: d.0, kind: d.1 },
        }
    }
}

/// Holds a remote answer to the ceilings.
pub fn judge_response(response: FetchResponse, limits: &FetchLimits) -> (o: FetchOutcome)
    ensures
        o == response_outcome(response, *limits),
{
    if response.redirects > limits.max_redirects {
        FetchOutcome::Unreachable
    } else if !response.content_type_accepted || response.size > limits.max_bytes {
        FetchOutcome::Malformed
    } else {
        match response.declared {
            None => FetchOutcome::Malformed,
            Some((declared_id, kind)) => FetchOutcome::Object { declared_id, kind },
        }
    }
}

/// The redirects followed for one fetch: at most one.
pub fn default_limits(max_bytes: u64) -> (l: FetchLimits)
    ensures
        l == (FetchLimits { max_bytes, max_redirects: 1 }),
{
    FetchLimits { max_bytes, max_redirects: 1 }
}

/// The verdict on what a fetch of `requested` brought back. It is reached
/// before anything is written: an object is only stored after `Ok`.
pub fn check_payload(requested: &String, expected_kind: ObjectKind, outcome: &FetchOutcome) -> (r:
    Result<(), ResolveError>)
    ensures
        r == fetch_verdict(requested@, expected_kind, *outcome),
{
    match outcome {
        FetchOutcome::Unreachable => Err(ResolveError::RemoteUnreachable),
        FetchOutcome::Malformed => Err(ResolveError::InvalidPayload),
        FetchOutcome::Object { declared_id, kind } => {
            if *declared_id != *requested {
                Err(ResolveError::InvalidPayload)
            } else if *kind != expected_kind {
                Err(ResolveError::WrongType)
            } else {
                Ok(())
            }
        },
    }
}

/// The outcome of a lookup in local storage: a handle that names nothing
/// is not found.
pub fn resolve_local(found: Option<DomainObject>) -> (r: Result<DomainObject, ResolveError>)
    ensures
        r == match found {
            Some(object) => Ok::<DomainObject, ResolveError>(object),
            None => Err::<DomainObject, ResolveError>(ResolveError::NotFound),
        },
{
    match found {
        Some(object) => Ok(object),
        None => Err(ResolveError::NotFound),
    }
}

/// What a caller that waited for a fetch is handed: the fetch's own result,
/// object or error, except that an object of another kind than the caller
/// expects is a type error for that caller.
pub open spec fn result_for(
    result: Result<DomainObject, ResolveError>,
    expected_kind: ObjectKind,
) -> Result<DomainObject, ResolveError> {
    match result {
        Ok(object) => if object.kind == expected_kind {
            Ok(object)
        } else {
            Err(ResolveError::WrongType)
        },
        Err(e) => Err(e),
    }
}

/// Hands the result of a fetch to one of the callers that waited for it,
/// as a value of the caller's own.
pub fn shared_result(result: &Result<DomainObject, ResolveError>, expected_kind: ObjectKind) -> (r:
    Result<DomainObject, ResolveError>)
    ensures
        r == result_for(*result, expected_kind),
{
    match result {
        Ok(object) => {
            if object.kind == expected_kind {
                Ok(object.snapshot())
            } else {
                Err(ResolveError::WrongType)
            }
        },
        Err(e) => Err(*e),
    }
}

/// The resolver's caches and the set of fetches under way.
pub struct Resolver {
    cache: KeyedList<CacheEntry>,
    negative: KeyedList<u64>,
    in_flight: KeyedList<()>,
    policy: CachePolicy,
}

impl Resolver {
    /// What the resolver stands for.
    pub closed spec fn view(self) -> ResolverModel {
        ResolverModel {
            cache: self.cache@,
            negative: self.negative@,
            in_flight: self.in_flight@.dom(),
            policy: self.policy,
        }
    }

    /// The tables are sound and every cached object is filed under its
    /// own remote identity.
    pub closed spec fn wf(self) -> bool {
        self.cache.wf() && self.negative.wf() && self.in_flight.wf() && self@.wf()
    }

    /// A resolver with empty caches.
    pub fn new(policy: CachePolicy) -> (r: Resolver)
        ensures
            r.wf(),
            r@ == (ResolverModel {
                cache: Map::empty(),
                negative: Map::empty(),
                in_flight: Set::empty(),
                policy,
            }),
    {
        let r = Resolver {
            cache: KeyedList::new(),
            negative: KeyedList::new(),
            in_flight: KeyedList::new(),
            policy,
        };
        assert(r@.in_flight =~= Set::empty());
        r
    }

    fn resolve_remote(
        &mut self,
        url: &String,
        expected_kind: ObjectKind,
        allow_remote_fetch: bool,
        now: u64,
    ) -> (step: ResolveStep)
        requires
            old(self).wf(),
        ensures
            final(self).wf(),
            step == old(self)@.remote_step(url@, expected_kind, allow_remote_fetch, now),
            final(self)@ == old(self)@.after_resolve(
                Identifier::RemoteReference(*url),
                expected_kind,
                allow_remote_fetch,
                now,
            ),
    {
        match self.cache.get(url) {
            Some(entry) => {
                let ttl = match entry.ttl_class {
                    TtlClass::Actor => self.policy.actor_ttl,
                    TtlClass::Content => self.policy.content_ttl,
                };
                if live(entry.fetched_at, ttl, now) {
                    if entry.object.kind == expected_kind {
                        return ResolveStep::Return(entry.object.snapshot());
                    } else {
                        return ResolveStep::Fail(ResolveError::WrongType);
                    }
                }
            },
            None => {},
        }
        match self.negative.get(url) {
            Some(since) => {
                if live(*since, self.policy.negative_ttl, now) {
                    return ResolveStep::Fail(ResolveError::InvalidPayload);
                }
            },
            None => {},
        }
        if !allow_remote_fetch {
            return ResolveStep::Fail(ResolveError::ResolutionDisabled);
        }
        if self.in_flight.contains(url) {
            return ResolveStep::Await;
        }
        self.in_flight.put(url.clone(), ());
        proof {
            assert(final(self)@.in_flight =~= old(self)@.in_flight.insert(url@));
        }
        ResolveStep::Fetch
    }

    /// Decides how a request is served, from the caches alone and without
    /// waiting for anything. A fetch is started for a reference only while
    /// none is under way for it.
    pub fn resolve(
        &mut self,
        identifier: &Identifier,
        expected_kind: ObjectKind,
        allow_remote_fetch: bool,
        now: u64,
    ) -> (step: ResolveStep)
        requires
            old(self).wf(),
        ensures
            final(self).wf(),
            step == old(self)@.step(*identifier, expected_kind, allow_remote_fetch, now),
            final(self)@ == old(self)@.after_resolve(
                *identifier,
                expected_kind,
                allow_remote_fetch,
                now,
            ),
    {
        match identifier {
            Identifier::LocalHandle { name: _, kind } => {
                if *kind == expected_kind {
                    ResolveStep::LookupLocal
                } else {
                    ResolveStep::Fail(ResolveError::WrongType)
                }
            },
            Identifier::RemoteReference(url) => self.resolve_remote(
                url,
                expected_kind,
                allow_remote_fetch,
                now,
            ),
        }
    }

    /// Judges what the fetch of `requested` brought back. On `Ok` the
    /// caller writes the object to local storage and then calls `store`.
    pub fn complete_fetch(
        &mut self,
        requested: &String,
        expected_kind: ObjectKind,
        outcome: &FetchOutcome,
        now: u64,
    ) -> (r: Result<(), ResolveError>)
        requires
            old(self).wf(),
        ensures
            final(self).wf(),
            r == fetch_verdict(requested@, expected_kind, *outcome),
            final(self)@ == old(self)@.after_fetch(requested@, expected_kind, *outcome, now),
    {
        let verdict = check_payload(requested, expected_kind, outcome);
        match outcome {
            FetchOutcome::Malformed => {
                self.negative.put(requested.clone(), now);
            },
            _ => {},
        }
        if verdict.is_err() {
            self.in_flight.remove(requested);
        }
        proof {
            assert(final(self)@.in_flight =~= old(self)@.after_fetch(
                requested@,
                expected_kind,
                *outcome,
                now,
            ).in_flight);
        }
        verdict
    }

    /// Caches an object that has been written to local storage, and ends
    /// its fetch.
    pub fn store(&mut self, object: DomainObject, now: u64)
        requires
            old(self).wf(),
        ensures
            final(self).wf(),
            final(self)@ == old(self)@.after_store(object, now),
    {
        let key = object.remote_id.clone();
        self.negative.remove(&key);
        self.in_flight.remove(&key);
        let class = ttl_class(object.kind);
        self.cache.put(key, CacheEntry { object, fetched_at: now, ttl_class: class });
        proof {
            assert(final(self)@.in_flight =~= old(self)@.in_flight.remove(object.remote_id@));
        }
    }

    /// Caches the object that the fetch of `requested` led to, once it has
    /// been written to local storage, and hands it back. An object that
    /// is not filed under the requested identity is never cached: the
    /// fetch ends without a result and the caches stay as they were.
    pub fn store_fetched(&mut self, requested: &String, object: DomainObject, now: u64) -> (r: Result<
        DomainObject,
        ResolveError,
    >)
        requires
            old(self).wf(),
        ensures
            final(self).wf(),
            object.remote_id@ == requested@ ==> r == Ok::<DomainObject, ResolveError>(object)
                && final(self)@ == old(self)@.after_store(object, now),
            object.remote_id@ != requested@ ==> r == Err::<DomainObject, ResolveError>(
                ResolveError::InvalidPayload,
            ) && final(self)@ == (ResolverModel {
                in_flight: old(self)@.in_flight.remove(requested@),
                ..old(self)@
            }),
    {
        if object.remote_id == *requested {
            let copy = object.snapshot();
            self.store(object, now);
            Ok(copy)
        } else {
            self.abandon(requested);
            Err(ResolveError::InvalidPayload)
        }
    }

    /// Ends the fetch of `url` without a result, as when local storage
    /// refused the object.
    pub fn abandon(&mut self, url: &String)
        requires
            old(self).wf(),
        ensures
            final(self).wf(),
            final(self)@ == (ResolverModel {
                in_flight: old(self)@.in_flight.remove(url@),
                ..old(self)@
            }),
    {
        self.in_flight.remove(url);
        proof {
            assert(final(self)@.in_flight =~= old(self)@.in_flight.remove(url@));
        }
    }

    /// Drops the cached object of `url`, so that the next request fetches
    /// it anew.
    pub fn invalidate(&mut self, url: &String)
        requires
            old(self).wf(),
        ensures
            final(self).wf(),
            final(self)@ == (ResolverModel {
                cache: old(self)@.cache.remove(url@),
                ..old(self)@
            }),
    {
        self.cache.remove(url);
    }
}

/// While a fetch of a reference is under way, no request for that
/// reference starts another: after a request that started a fetch, every
/// later request for the same reference, whatever it expects and whenever
/// it comes, is served from the cache, fails, or waits, until the fetch
/// has ended.
pub proof fn one_fetch_in_flight(
    m: ResolverModel,
    url: String,
    kind_a: ObjectKind,
    allow_a: bool,
    now_a: u64,
    kind_b: ObjectKind,
    allow_b: bool,
    now_b: u64,
)
    requires
        m.step(Identifier::RemoteReference(url), kind_a, allow_a, now_a) is Fetch,
    ensures
        !m.in_flight.contains(url@),
        !(m.after_resolve(Identifier::RemoteReference(url), kind_a, allow_a, now_a).step(
            Identifier::RemoteReference(url),
            kind_b,
            allow_b,
            now_b,
        ) is Fetch),
        allow_b && !m.live_entry(url@, now_b) && !m.live_negative(url@, now_b) ==> m.after_resolve(
            Identifier::RemoteReference(url),
            kind_a,
            allow_a,
            now_a,
        ).step(Identifier::RemoteReference(url), kind_b, allow_b, now_b) is Await,
{
}

/// Everyone who asks for a reference after its object has been stored, and
/// before the entry expires, is handed that very object.
pub proof fn stored_object_is_served(
    m: ResolverModel,
    object: DomainObject,
    stored_at: u64,
    allow: bool,
    now: u64,
)
    requires
        is_live(stored_at, m.ttl(ttl_class_of(object.kind)), now),
    ensures
        m.after_store(object, stored_at).remote_step(object.remote_id@, object.kind, allow, now)
            == ResolveStep::Return(object),
{
}

/// The cache never serves an object under another identity than its own:
/// what a request for a reference returns declares that reference.
pub proof fn served_identity_is_requested(
    m: ResolverModel,
    url: Seq<char>,
    expected_kind: ObjectKind,
    allow: bool,
    now: u64,
)
    requires
        m.wf(),
        m.remote_step(url, expected_kind, allow, now) is Return,
    ensures
        m.remote_step(url, expected_kind, allow, now)->Return_0.remote_id@ == url,
        m.remote_step(url, expected_kind, allow, now)->Return_0.kind == expected_kind,
{
}

/// An answer is accepted only if it declares the requested identity and is
/// of the expected kind; a refused answer leaves the positive cache as it
/// was, and the discipline of the cache is kept by every operation.
pub proof fn refused_answer_is_not_cached(
    m: ResolverModel,
    requested: Seq<char>,
    expected_kind: ObjectKind,
    outcome: FetchOutcome,
    now: u64,
)
    requires
        m.wf(),
    ensures
        fetch_verdict(requested, expected_kind, outcome) is Ok ==> outcome is Object
            && outcome->Object_declared_id@ == requested && outcome->Object_kind == expected_kind,
        m.after_fetch(requested, expected_kind, outcome, now).cache == m.cache,
        m.after_fetch(requested, expected_kind, outcome, now).wf(),
        outcome is Object ==> m.after_fetch(requested, expected_kind, outcome, now).negative
            == m.negative,
{
}

/// Storing an object keeps every cached object filed under its own
/// identity.
pub proof fn store_keeps_discipline(m: ResolverModel, object: DomainObject, now: u64)
    requires
        m.wf(),
    ensures
        m.after_store(object, now).wf(),
{
}

/// All callers that waited for one fetch and expect the same kind are
/// handed the same thing: the same object, or the same error.
pub proof fn waiters_agree(
    result: Result<DomainObject, ResolveError>,
    kind_a: ObjectKind,
    kind_b: ObjectKind,
)
    ensures
        kind_a == kind_b ==> result_for(result, kind_a) == result_for(result, kind_b),
        result is Err ==> result_for(result, kind_a) == result && result_for(result, kind_b)
            == result,
        result_for(result, kind_a) is Ok && result_for(result, kind_b) is Ok ==> result_for(
            result,
            kind_a,
        ) == result_for(result, kind_b),
{
}

} // verus!
