//! Resolving one asset: a fresh enough record from the cache, or a new one
//! from the service that is then written through to the cache.
//!
//! The resolver itself touches neither disk nor network. It says what is to
//! be done next, is told what came of it, and says what follows; whoever
//! drives it does the work in between.

use crate::cache::{
    cache_file_name, entry_content, entry_model, file_name_of, fresh, is_fresh, lookup_outcome,
    read_entry, write_entry, CacheEntry, CacheEntryModel, CacheReply, CacheReplyModel,
};
use crate::codec::outcome_model;
use crate::error::{ErrorModel, TickerError};
use crate::fetch::{interpret_reply, reply_outcome, request_url, url_of, HttpReply, HttpReplyModel};
use crate::record::{Currency, CurrencyModel};
use vstd::prelude::*;

verus! {

/// Work that the resolver asks its driver to do.
#[derive(Debug, Clone)]
pub enum Request {
    /// Read the cache file of this name, and find out its age.
    ReadCache { file_name: String },
    /// Ask the service at this address.
    Fetch { url: String },
    /// Create the cache file of this name, or empty it, and write this to it.
    WriteCache { file_name: String, content: Vec<u8> },
}

/// The mathematical value of a [`Request`].
pub ghost enum RequestModel {
    ReadCache { file_name: Seq<char> },
    Fetch { url: Seq<char> },
    WriteCache { file_name: Seq<char>, content: Seq<u8> },
}

impl View for Request {
    type V = RequestModel;

    open spec fn view(&self) -> RequestModel {
        match self {
            Request::ReadCache { file_name } => RequestModel::ReadCache { file_name: file_name@ },
            Request::Fetch { url } => RequestModel::Fetch { url: url@ },
            Request::WriteCache { file_name, content } => RequestModel::WriteCache {
                file_name: file_name@,
                content: content@,
            },
        }
    }
}

/// What came of writing a cache file.
#[derive(Debug, Clone)]
pub enum StoreReply {
    /// The file holds what was to be written.
    Stored,
    /// The file could not be created or written.
    Failed { message: String },
}

/// The mathematical value of a [`StoreReply`].
pub ghost enum StoreReplyModel {
    Stored,
    Failed { message: Seq<char> },
}

impl View for StoreReply {
    type V = StoreReplyModel;

    open spec fn view(&self) -> StoreReplyModel {
        match self {
            StoreReply::Stored => StoreReplyModel::Stored,
            StoreReply::Failed { message } => StoreReplyModel::Failed { message: message@ },
        }
    }
}

/// What came of a request, by its kind.
#[derive(Debug, Clone)]
pub enum Reply {
    /// The answer to [`Request::ReadCache`].
    Cache(CacheReply),
    /// The answer to [`Request::Fetch`].
    Answer(HttpReply),
    /// The answer to [`Request::WriteCache`].
    Store(StoreReply),
}

/// The mathematical value of a [`Reply`].
pub ghost enum ReplyModel {
    Cache(CacheReplyModel),
    Answer(HttpReplyModel),
    Store(StoreReplyModel),
}

impl View for Reply {
    type V = ReplyModel;

    open spec fn view(&self) -> ReplyModel {
        match self {
            Reply::Cache(reply) => ReplyModel::Cache(reply@),
            Reply::Answer(reply) => ReplyModel::Answer(reply@),
            Reply::Store(reply) => ReplyModel::Store(reply@),
        }
    }
}

/// Where a resolver stands: what it is waiting for.
#[derive(Debug, Clone)]
pub enum Stage {
    /// Waiting for the cache file.
    ReadingCache,
    /// Waiting for the service; `store` says whether its record goes to the
    /// cache afterwards.
    Fetching { store: bool },
    /// Waiting for the cache file to be written with this content, which
    /// reads back as this record.
    Storing { record: Currency, content: Vec<u8> },
}

/// The mathematical value of a [`Stage`].
pub ghost enum StageModel {
    ReadingCache,
    Fetching { store: bool },
    Storing { record: CurrencyModel, content: Seq<u8> },
}

impl View for Stage {
    type V = StageModel;

    open spec fn view(&self) -> StageModel {
        match self {
            Stage::ReadingCache => StageModel::ReadingCache,
            Stage::Fetching { store } => StageModel::Fetching { store: *store },
            Stage::Storing { record, content } => StageModel::Storing {
                record: record@,
                content: content@,
            },
        }
    }
}

/// The resolution of one asset, under way. A resolver always has one
/// request pending.
#[derive(Debug, Clone)]
pub struct Resolver {
    pub asset_id: String,
    pub ttl_secs: u64,
    pub stage: Stage,
}

/// The mathematical value of a [`Resolver`].
pub ghost struct ResolverModel {
    pub asset_id: Seq<char>,
    pub ttl_secs: u64,
    pub stage: StageModel,
}

impl View for Resolver {
    type V = ResolverModel;

    open spec fn view(&self) -> ResolverModel {
        ResolverModel { asset_id: self.asset_id@, ttl_secs: self.ttl_secs, stage: self.stage@ }
    }
}

/// A resolution after one more reply: still under way, or finished with a
/// record or an error.
#[derive(Debug)]
pub enum Progress {
    Pending(Resolver),
    Finished(Result<Currency, TickerError>),
}

/// The mathematical value of a [`Progress`].
pub ghost enum ProgressModel {
    Pending(ResolverModel),
    Finished(Result<CurrencyModel, ErrorModel>),
}

impl View for Progress {
    type V = ProgressModel;

    open spec fn view(&self) -> ProgressModel {
        match self {
            Progress::Pending(resolver) => ProgressModel::Pending(resolver@),
            Progress::Finished(outcome) => ProgressModel::Finished(outcome_model(*outcome)),
        }
    }
}

/// A resolver at its start: with the cache in use it reads the cache first;
/// without, it asks the service at once and stores nothing.
pub open spec fn begin(asset_id: Seq<char>, use_cache: bool, ttl_secs: u64) -> ResolverModel {
    ResolverModel {
        asset_id,
        ttl_secs,
        stage: if use_cache {
            StageModel::ReadingCache
        } else {
            StageModel::Fetching { store: false }
        },
    }
}

/// The request that a resolver has pending.
pub open spec fn pending(resolver: ResolverModel) -> RequestModel {
    match resolver.stage {
        StageModel::ReadingCache => RequestModel::ReadCache {
            file_name: file_name_of(resolver.asset_id),
        },
        StageModel::Fetching { .. } => RequestModel::Fetch { url: url_of(resolver.asset_id) },
        StageModel::Storing { content, .. } => RequestModel::WriteCache {
            file_name: file_name_of(resolver.asset_id),
            content,
        },
    }
}

/// The record that the cache offers, where it holds one that decodes and is
/// fresh.
pub open spec fn cache_hit(asset_id: Seq<char>, ttl_secs: u64, reply: CacheReplyModel) -> Option<
    CurrencyModel,
> {
    match lookup_outcome(asset_id, reply) {
        Ok(entry) => if fresh(entry.age, ttl_secs) {
            Some(entry.record)
        } else {
            None
        },
        Err(_) => None,
    }
}

/// What follows the reading of the cache, given what it came to: a record
/// that decodes and is fresh is the result. Anything else (no file, no
/// readable file, a file from the future, a corrupt one, a stale one) sends
/// the resolver to the service, with the record to be stored afterwards.
/// Nothing changes for a resolver that is not waiting for the cache.
pub open spec fn looked_up(
    resolver: ResolverModel,
    entry: Result<CacheEntryModel, ErrorModel>,
) -> ProgressModel {
    match resolver.stage {
        StageModel::ReadingCache => match entry {
            Ok(entry) if fresh(entry.age, resolver.ttl_secs) => ProgressModel::Finished(
                Ok(entry.record),
            ),
            _ => ProgressModel::Pending(
                ResolverModel { stage: StageModel::Fetching { store: true }, ..resolver },
            ),
        },
        _ => ProgressModel::Pending(resolver),
    }
}

/// What follows the service's reply, given what it came to: an error is the
/// result. A record is the result where nothing is to be stored. Otherwise
/// it is stored first; where there is nothing to write for it, because what
/// would be written does not read back as the record, that refusal is the
/// result. Nothing changes for a resolver that is not waiting for the
/// service.
pub open spec fn answered(resolver: ResolverModel, outcome: Result<CurrencyModel, ErrorModel>)
    -> ProgressModel {
    match resolver.stage {
        StageModel::Fetching { store } => match outcome {
            Err(error) => ProgressModel::Finished(Err(error)),
            Ok(record) => if store {
                match entry_content(resolver.asset_id, record) {
                    Ok(content) => ProgressModel::Pending(
                        ResolverModel {
                            stage: StageModel::Storing { record, content },
                            ..resolver
                        },
                    ),
                    Err(error) => ProgressModel::Finished(Err(error)),
                }
            } else {
                ProgressModel::Finished(Ok(record))
            },
        },
        _ => ProgressModel::Pending(resolver),
    }
}

/// What follows the writing of the cache: the record that was written is
/// the result; a failure to write is the result in its place. Nothing
/// changes for a resolver that is not waiting for the cache to be written.
pub open spec fn stored(resolver: ResolverModel, reply: StoreReplyModel) -> ProgressModel {
    match resolver.stage {
        StageModel::Storing { record, .. } => match reply {
            StoreReplyModel::Stored => ProgressModel::Finished(Ok(record)),
            StoreReplyModel::Failed { message } => ProgressModel::Finished(
                Err(ErrorModel::IOFailure { asset_id: resolver.asset_id, message }),
            ),
        },
        _ => ProgressModel::Pending(resolver),
    }
}

/// What follows when a resolver is told what came of a request: the reply
/// is read for what it comes to, and the resolver goes on from there. A
/// reply to another kind of request than the pending one changes nothing.
pub open spec fn advanced(resolver: ResolverModel, reply: ReplyModel) -> ProgressModel {
    match reply {
        ReplyModel::Cache(cache) => looked_up(resolver, lookup_outcome(resolver.asset_id, cache)),
        ReplyModel::Answer(answer) => answered(
            resolver,
            reply_outcome(resolver.asset_id, answer),
        ),
        ReplyModel::Store(reply) => stored(resolver, reply),
    }
}

impl Resolver {
    /// Starts the resolution of an asset. With `use_cache` a record from the
    /// cache is used while it is younger than `ttl_secs` seconds.
    pub fn new(asset_id: &str, use_cache: bool, ttl_secs: u64) -> (resolver: Resolver)
        ensures
            resolver@ == begin(asset_id@, use_cache, ttl_secs),
    {
        Resolver {
            asset_id: String::from_str(asset_id),
            ttl_secs,
            stage: if use_cache {
                Stage::ReadingCache
            } else {
                Stage::Fetching { store: false }
            },
        }
    }

    /// The work to be done next.
    pub fn request(&self) -> (request: Request)
        ensures
            request@ == pending(self@),
    {
        match &self.stage {
            Stage::ReadingCache => Request::ReadCache {
                file_name: cache_file_name(self.asset_id.as_str()),
            },
            Stage::Fetching { .. } => Request::Fetch { url: request_url(self.asset_id.as_str()) },
            Stage::Storing { content, .. } => Request::WriteCache {
                file_name: cache_file_name(self.asset_id.as_str()),
                content: content.clone(),
            },
        }
    }

    /// Goes on after the cache was read, given what reading it came to.
    pub fn after_lookup(self, entry: Result<CacheEntry, TickerError>) -> (progress: Progress)
        ensures
            progress@ == looked_up(self@, entry_model(entry)),
    {
        match self.stage {
            Stage::ReadingCache => match entry {
                Ok(entry) => {
                    if is_fresh(entry.age, self.ttl_secs) {
                        Progress::Finished(Ok(entry.record))
                    } else {
                        Progress::Pending(
                            Resolver {
                                asset_id: self.asset_id,
                                ttl_secs: self.ttl_secs,
                                stage: Stage::Fetching { store: true },
                            },
                        )
                    }
                },
                Err(_) => Progress::Pending(
                    Resolver {
                        asset_id: self.asset_id,
                        ttl_secs: self.ttl_secs,
                        stage: Stage::Fetching { store: true },
                    },
                ),
            },
            _ => Progress::Pending(self),
        }
    }

    /// Goes on after the service was asked, given what its reply came to.
    pub fn after_answer(self, outcome: Result<Currency, TickerError>) -> (progress: Progress)
        ensures
            progress@ == answered(self@, outcome_model(outcome)),
    {
        match self.stage {
            Stage::Fetching { store } => match outcome {
                Err(error) => Progress::Finished(Err(error)),
                Ok(record) => {
                    if store {
                        match write_entry(self.asset_id.as_str(), &record) {
                            Ok(content) => Progress::Pending(
                                Resolver {
                                    asset_id: self.asset_id,
                                    ttl_secs: self.ttl_secs,
                                    stage: Stage::Storing { record, content },
                                },
                            ),
                            Err(error) => Progress::Finished(Err(error)),
                        }
                    } else {
                        Progress::Finished(Ok(record))
                    }
                },
            },
            _ => Progress::Pending(self),
        }
    }

    /// Ends the resolution after the record was to be written to the cache.
    pub fn after_store(self, reply: StoreReply) -> (progress: Progress)
        ensures
            progress@ == stored(self@, reply@),
    {
        let Resolver { asset_id, ttl_secs, stage } = self;
        match stage {
            Stage::Storing { record, content: _ } => match reply {
                StoreReply::Stored => Progress::Finished(Ok(record)),
                StoreReply::Failed { message } => Progress::Finished(
                    Err(TickerError::IOFailure { asset_id, message }),
                ),
            },
            other => Progress::Pending(Resolver { asset_id, ttl_secs, stage: other }),
        }
    }

    /// Takes what came of a request, and says what follows.
    pub fn advance(self, reply: Reply) -> (progress: Progress)
        ensures
            progress@ == advanced(self@, reply@),
    {
        match reply {
            Reply::Cache(cache) => {
                let entry = read_entry(self.asset_id.as_str(), cache);
                self.after_lookup(entry)
            },
            Reply::Answer(answer) => {
                let outcome = interpret_reply(self.asset_id.as_str(), answer);
                self.after_answer(outcome)
            },
            Reply::Store(reply) => self.after_store(reply),
        }
    }
}

/// What the world outside would answer to each kind of request.
pub ghost struct World {
    pub cache: CacheReplyModel,
    pub answer: HttpReplyModel,
    pub store: StoreReplyModel,
}

/// The world's answer to a request.
pub open spec fn reply_of(world: World, request: RequestModel) -> ReplyModel {
    match request {
        RequestModel::ReadCache { .. } => ReplyModel::Cache(world.cache),
        RequestModel::Fetch { .. } => ReplyModel::Answer(world.answer),
        RequestModel::WriteCache { .. } => ReplyModel::Store(world.store),
    }
}

/// A resolution from start to end: the requests that were made, in order,
/// and what came of it, where it has ended.
pub ghost struct Resolution {
    pub requests: Seq<RequestModel>,
    pub outcome: Option<Result<CurrencyModel, ErrorModel>>,
}

/// The request to read an asset's cache file.
pub open spec fn read_request(asset_id: Seq<char>) -> RequestModel {
    RequestModel::ReadCache { file_name: file_name_of(asset_id) }
}

/// The request to ask the service for an asset.
pub open spec fn fetch_request(asset_id: Seq<char>) -> RequestModel {
    RequestModel::Fetch { url: url_of(asset_id) }
}

/// The request to write a content to an asset's cache file.
pub open spec fn write_request(asset_id: Seq<char>, content: Seq<u8>) -> RequestModel {
    RequestModel::WriteCache { file_name: file_name_of(asset_id), content }
}

/// What resolving an asset is to do and to return in a given world.
///
/// Without the cache: one request to the service, whose outcome is the
/// result. With the cache: the cache is read; a fresh record in it is the
/// result and nothing else is done; otherwise the service is asked once,
/// its error is the result, or its record is written to the cache and is
/// the result, unless there was nothing to write for it or writing failed.
pub open spec fn resolved(asset_id: Seq<char>, use_cache: bool, ttl_secs: u64, world: World)
    -> Resolution {
    if !use_cache {
        Resolution {
            requests: seq![fetch_request(asset_id)],
            outcome: Some(reply_outcome(asset_id, world.answer)),
        }
    } else {
        match cache_hit(asset_id, ttl_secs, world.cache) {
            Some(record) => Resolution {
                requests: seq![read_request(asset_id)],
                outcome: Some(Ok(record)),
            },
            None => match reply_outcome(asset_id, world.answer) {
                Err(error) => Resolution {
                    requests: seq![read_request(asset_id), fetch_request(asset_id)],
                    outcome: Some(Err(error)),
                },
                Ok(record) => match entry_content(asset_id, record) {
                    Err(error) => Resolution {
                        requests: seq![read_request(asset_id), fetch_request(asset_id)],
                        outcome: Some(Err(error)),
                    },
                    Ok(content) => Resolution {
                        requests: seq![
                            read_request(asset_id),
                            fetch_request(asset_id),
                            write_request(asset_id, content),
                        ],
                        outcome: Some(
                            match world.store {
                                StoreReplyModel::Stored => Ok(record),
                                StoreReplyModel::Failed { message } => Err(
                                    ErrorModel::IOFailure { asset_id, message },
                                ),
                            },
                        ),
                    },
                },
            },
        }
    }
}

/// A resolver driven in a given world, for `steps` requests at most: each
/// pending request is answered as the world answers it.
pub open spec fn driven(resolver: ResolverModel, world: World, steps: nat) -> Resolution
    decreases steps,
{
    if steps == 0 {
        Resolution { requests: seq![], outcome: None }
    } else {
        let request = pending(resolver);
        match advanced(resolver, reply_of(world, request)) {
            ProgressModel::Finished(outcome) => Resolution {
                requests: seq![request],
                outcome: Some(outcome),
            },
            ProgressModel::Pending(next) => {
                let rest = driven(next, world, (steps - 1) as nat);
                Resolution { requests: seq![request] + rest.requests, outcome: rest.outcome }
            },
        }
    }
}

/// A resolver that is driven from its start makes the requests, and comes to
/// the result, that resolving an asset asks for; three requests are the
/// most it ever makes.
pub proof fn law_resolver_resolves(
    asset_id: Seq<char>,
    use_cache: bool,
    ttl_secs: u64,
    world: World,
)
    ensures
        driven(begin(asset_id, use_cache, ttl_secs), world, 3) == resolved(
            asset_id,
            use_cache,
            ttl_secs,
            world,
        ),
{
    reveal_with_fuel(driven, 4);
    let start = begin(asset_id, use_cache, ttl_secs);
    let run = driven(start, world, 3);
    let goal = resolved(asset_id, use_cache, ttl_secs, world);
    assert(run.requests =~= goal.requests);
}

/// With the cache switched off, resolving asks the service once and touches
/// no cache file; what the service's reply comes to is the result. Where
/// the reply is a success whose body is an array of records, the result is
/// the record that the first object of the array stands for, field by
/// field.
pub proof fn law_cache_disabled(asset_id: Seq<char>, ttl_secs: u64, world: World)
    ensures
        driven(begin(asset_id, false, ttl_secs), world, 3).requests == seq![
            fetch_request(asset_id),
        ],
        driven(begin(asset_id, false, ttl_secs), world, 3).outcome == Some(
            reply_outcome(asset_id, world.answer),
        ),
        forall|status: u16, body: Seq<char>|
            world.answer == (HttpReplyModel::Answered { status, body })
                && crate::fetch::success(status)
                && crate::fetch::answer_outcome(asset_id, crate::json::parsed_array(body)) is Ok
                ==> reply_outcome(asset_id, world.answer) == Ok::<CurrencyModel, ErrorModel>(
                crate::codec::record_of(crate::json::parsed_array(body)->Ok_0[0]),
            ),
{
    law_resolver_resolves(asset_id, false, ttl_secs, world);
}

/// A cache hit: where the cache file holds a record and is younger than the
/// time to live, resolving with the cache returns that record, reads the
/// cache and does nothing else. The service is not asked.
pub proof fn law_cache_hit(
    asset_id: Seq<char>,
    ttl_secs: u64,
    world: World,
    age: crate::cache::Age,
    content: Seq<u8>,
)
    requires
        world.cache == (CacheReplyModel::Found { age, content }),
        fresh(age, ttl_secs),
        crate::cache::content_outcome(asset_id, age, crate::json::parsed_object(content)) is Ok,
    ensures
        driven(begin(asset_id, true, ttl_secs), world, 3).requests == seq![
            read_request(asset_id),
        ],
        driven(begin(asset_id, true, ttl_secs), world, 3).outcome == Some(
            Ok::<CurrencyModel, ErrorModel>(
                crate::codec::decoded(crate::json::parsed_object(content)->Ok_0)->Ok_0,
            ),
        ),
{
    law_resolver_resolves(asset_id, true, ttl_secs, world);
}

/// Whether the cache has nothing to offer: the file is missing, unreadable,
/// from the future or corrupt, or its age has reached the time to live.
pub open spec fn cache_miss(asset_id: Seq<char>, ttl_secs: u64, reply: CacheReplyModel) -> bool {
    match reply {
        CacheReplyModel::Missing => true,
        CacheReplyModel::Unreadable { .. } => true,
        CacheReplyModel::FromFuture { .. } => true,
        CacheReplyModel::Found { age, content } => !fresh(age, ttl_secs)
            || crate::cache::content_outcome(
            asset_id,
            age,
            crate::json::parsed_object(content),
        ) is Err,
    }
}

/// A cache miss: where the cache has nothing to offer, resolving with the
/// cache reads it and asks the service exactly once. An error of the
/// service is returned as it is. A record of the service is written to the
/// asset's cache file, as a content that reads back as that record, and is
/// returned; a failure to write is returned in its place, and so is the
/// refusal to write a content that would not read back.
pub proof fn law_cache_refresh(asset_id: Seq<char>, ttl_secs: u64, world: World)
    requires
        cache_miss(asset_id, ttl_secs, world.cache),
    ensures
        cache_hit(asset_id, ttl_secs, world.cache) is None,
        match reply_outcome(asset_id, world.answer) {
            Ok(record) => match entry_content(asset_id, record) {
                Ok(content) => {
                    &&& crate::cache::read_as(crate::json::parsed_object(content), record)
                    &&& driven(begin(asset_id, true, ttl_secs), world, 3).requests == seq![
                        read_request(asset_id),
                        fetch_request(asset_id),
                        write_request(asset_id, content),
                    ]
                    &&& driven(begin(asset_id, true, ttl_secs), world, 3).outcome == Some(
                        match world.store {
                            StoreReplyModel::Stored => Ok::<CurrencyModel, ErrorModel>(record),
                            StoreReplyModel::Failed { message } => Err(
                                ErrorModel::IOFailure { asset_id, message },
                            ),
                        },
                    )
                },
                Err(error) => {
                    &&& driven(begin(asset_id, true, ttl_secs), world, 3).requests == seq![
                        read_request(asset_id),
                        fetch_request(asset_id),
                    ]
                    &&& driven(begin(asset_id, true, ttl_secs), world, 3).outcome == Some(
                        Err::<CurrencyModel, ErrorModel>(error),
                    )
                },
            },
            Err(error) => {
                &&& driven(begin(asset_id, true, ttl_secs), world, 3).requests == seq![
                    read_request(asset_id),
                    fetch_request(asset_id),
                ]
                &&& driven(begin(asset_id, true, ttl_secs), world, 3).outcome == Some(
                    Err::<CurrencyModel, ErrorModel>(error),
                )
            },
        },
{
    law_resolver_resolves(asset_id, true, ttl_secs, world);
}

/// What was written on a miss is a hit afterwards: where one resolution
/// wrote a content to the cache and returned a record, a later resolution
/// that finds this content in the cache, younger than the time to live,
/// returns the same record and does not ask the service.
pub proof fn law_refresh_feeds_hit(
    asset_id: Seq<char>,
    ttl_secs: u64,
    first: World,
    later: World,
    content: Seq<u8>,
    record: CurrencyModel,
    age: crate::cache::Age,
)
    requires
        driven(begin(asset_id, true, ttl_secs), first, 3).requests.len() == 3,
        driven(begin(asset_id, true, ttl_secs), first, 3).requests[2] == write_request(
            asset_id,
            content,
        ),
        driven(begin(asset_id, true, ttl_secs), first, 3).outcome == Some(
            Ok::<CurrencyModel, ErrorModel>(record),
        ),
        later.cache == (CacheReplyModel::Found { age, content }),
        fresh(age, ttl_secs),
    ensures
        driven(begin(asset_id, true, ttl_secs), later, 3).requests == seq![
            read_request(asset_id),
        ],
        driven(begin(asset_id, true, ttl_secs), later, 3).outcome == Some(
            Ok::<CurrencyModel, ErrorModel>(record),
        ),
{
    law_resolver_resolves(asset_id, true, ttl_secs, first);
    law_resolver_resolves(asset_id, true, ttl_secs, later);
}

} // verus!
