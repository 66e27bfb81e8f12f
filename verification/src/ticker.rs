//! The render loop: resolve every asset of the list in turn, draw the line,
//! and either stop or sleep and start over.
//!
//! Like the resolver, the ticker does no work of its own. It names the next
//! action, is told what came of it, and moves on; a failure on one asset
//! puts a placeholder on the line and never ends the pass.

use crate::cache::CACHE_TTL_SECS;
use crate::render::{token, token_of};
use crate::codec::outcome_model;
use crate::error::{ErrorModel, TickerError};
use crate::record::{Currency, CurrencyModel};
use crate::resolver::{
    advanced, begin, driven, law_resolver_resolves, pending, reply_of, resolved, Progress,
    ProgressModel, Reply, ReplyModel, Request, RequestModel, Resolver, ResolverModel, World,
};
use vstd::prelude::*;

verus! {

/// What the ticker asks its driver to do.
#[derive(Debug, Clone)]
pub enum Action {
    /// Do this work for the asset that is being resolved.
    Ask(Request),
    /// Write this text to the terminal and flush it.
    Draw { text: String },
    /// Sleep for this many seconds.
    Sleep { secs: u64 },
    /// End the program.
    Stop,
}

/// The mathematical value of an [`Action`].
pub ghost enum ActionModel {
    Ask(RequestModel),
    Draw { text: Seq<char> },
    Sleep { secs: u64 },
    Stop,
}

impl View for Action {
    type V = ActionModel;

    open spec fn view(&self) -> ActionModel {
        match self {
            Action::Ask(request) => ActionModel::Ask(request@),
            Action::Draw { text } => ActionModel::Draw { text: text@ },
            Action::Sleep { secs } => ActionModel::Sleep { secs: *secs },
            Action::Stop => ActionModel::Stop,
        }
    }
}

/// What came of an action.
#[derive(Debug, Clone)]
pub enum Event {
    /// What came of the work that was asked for.
    Replied(Reply),
    /// The line is drawn, or the sleep is over.
    Done,
}

/// The mathematical value of an [`Event`].
pub ghost enum EventModel {
    Replied(ReplyModel),
    Done,
}

impl View for Event {
    type V = EventModel;

    open spec fn view(&self) -> EventModel {
        match self {
            Event::Replied(reply) => EventModel::Replied(reply@),
            Event::Done => EventModel::Done,
        }
    }
}

/// Where the ticker stands within a pass.
#[derive(Debug, Clone)]
pub enum Phase {
    /// An asset is being resolved.
    Resolving(Resolver),
    /// Every asset of the list has its token on the line, which is to be
    /// drawn.
    Drawing,
    /// The line is drawn, and the next pass is due after the interval.
    Sleeping,
    /// The one pass that was asked for is over.
    Stopped,
}

/// The mathematical value of a [`Phase`].
pub ghost enum PhaseModel {
    Resolving(ResolverModel),
    Drawing,
    Sleeping,
    Stopped,
}

impl View for Phase {
    type V = PhaseModel;

    open spec fn view(&self) -> PhaseModel {
        match self {
            Phase::Resolving(resolver) => PhaseModel::Resolving(resolver@),
            Phase::Drawing => PhaseModel::Drawing,
            Phase::Sleeping => PhaseModel::Sleeping,
            Phase::Stopped => PhaseModel::Stopped,
        }
    }
}

/// A ticker: its settings, and how far it has come.
#[derive(Debug, Clone)]
pub struct Ticker {
    /// The assets to show, in the order of the line.
    pub assets: Vec<String>,
    /// Whether to start over after each pass.
    pub repeat: bool,
    /// The seconds to sleep between two passes.
    pub interval_secs: u64,
    /// Whether errors are reported in detail.
    pub debug: bool,
    /// The place in the list of the asset that comes after the one being
    /// resolved.
    pub next: usize,
    /// What this pass has put on the line so far.
    pub line: String,
    /// Where the ticker stands.
    pub phase: Phase,
}

/// The mathematical value of a [`Ticker`].
pub ghost struct TickerModel {
    pub assets: Seq<Seq<char>>,
    pub repeat: bool,
    pub interval_secs: u64,
    pub debug: bool,
    pub next: nat,
    pub line: Seq<char>,
    pub phase: PhaseModel,
}

/// The mathematical value of a list of identifiers.
pub open spec fn names_model(assets: Seq<String>) -> Seq<Seq<char>> {
    Seq::new(assets.len(), |i: int| assets[i]@)
}

impl View for Ticker {
    type V = TickerModel;

    open spec fn view(&self) -> TickerModel {
        TickerModel {
            assets: names_model(self.assets@),
            repeat: self.repeat,
            interval_secs: self.interval_secs,
            debug: self.debug,
            next: self.next as nat,
            line: self.line@,
            phase: self.phase@,
        }
    }
}

/// Whether the cache is in use: exactly when the ticker repeats. A ticker
/// that repeats would otherwise ask the service anew on every pass; a single
/// pass asks it once and leaves the cache alone.
pub open spec fn caching(repeat: bool) -> bool {
    repeat
}

/// The ticker on its way to the asset at place `next`, with `line` drawn so
/// far: resolving that asset, or ready to draw where the list has no such
/// place.
pub open spec fn moved_on(ticker: TickerModel, line: Seq<char>) -> TickerModel {
    if ticker.next < ticker.assets.len() {
        TickerModel {
            next: ticker.next + 1,
            line,
            phase: PhaseModel::Resolving(
                begin(ticker.assets[ticker.next as int], caching(ticker.repeat), CACHE_TTL_SECS),
            ),
            ..ticker
        }
    } else {
        TickerModel { line, phase: PhaseModel::Drawing, ..ticker }
    }
}

/// A ticker at its start: on its way to the first asset, with nothing on
/// the line.
pub open spec fn started(assets: Seq<Seq<char>>, repeat: bool, interval_secs: u64, debug: bool)
    -> TickerModel {
    moved_on(
        TickerModel {
            assets,
            repeat,
            interval_secs,
            debug,
            next: 0,
            line: Seq::empty(),
            phase: PhaseModel::Drawing,
        },
        Seq::empty(),
    )
}

/// The action that a ticker has pending: the resolver's request; the line
/// with a backspace at its end, to be drawn; the sleep of the interval; or
/// the end.
pub open spec fn action_of(ticker: TickerModel) -> ActionModel {
    match ticker.phase {
        PhaseModel::Resolving(resolver) => ActionModel::Ask(pending(resolver)),
        PhaseModel::Drawing => ActionModel::Draw { text: ticker.line + "\x08"@ },
        PhaseModel::Sleeping => ActionModel::Sleep { secs: ticker.interval_secs },
        PhaseModel::Stopped => ActionModel::Stop,
    }
}

/// The ticker after an asset is resolved: the asset's token, for what
/// resolving it came to, is on the line, and the ticker is on its way to the
/// next asset.
pub open spec fn shown(
    ticker: TickerModel,
    asset_id: Seq<char>,
    outcome: Result<CurrencyModel, ErrorModel>,
) -> TickerModel {
    moved_on(ticker, ticker.line + token_of(asset_id, outcome, ticker.debug))
}

/// What follows when a ticker is told what came of its action.
///
/// - While an asset is being resolved, a reply goes to its resolver. When
///   that ends, with a record or with an error, the asset's token is put on
///   the line and the ticker moves on to the next asset, or to drawing
///   after the last.
/// - When the line is drawn, a ticker that repeats goes to sleep and any
///   other stops.
/// - When the sleep is over, the next pass starts at the first asset, on a
///   line that begins with a carriage return, so that it is drawn over the
///   last one.
/// - An event that does not answer the pending action changes nothing.
pub open spec fn stepped(ticker: TickerModel, event: EventModel) -> TickerModel {
    match (ticker.phase, event) {
        (PhaseModel::Resolving(resolver), EventModel::Replied(reply)) => match advanced(
            resolver,
            reply,
        ) {
            ProgressModel::Pending(next) => TickerModel {
                phase: PhaseModel::Resolving(next),
                ..ticker
            },
            ProgressModel::Finished(outcome) => shown(ticker, resolver.asset_id, outcome),
        },
        (PhaseModel::Drawing, EventModel::Done) => TickerModel {
            phase: if ticker.repeat {
                PhaseModel::Sleeping
            } else {
                PhaseModel::Stopped
            },
            ..ticker
        },
        (PhaseModel::Sleeping, EventModel::Done) => moved_on(
            TickerModel { next: 0, ..ticker },
            "\r"@,
        ),
        _ => ticker,
    }
}

/// Whether the cache is in use for a ticker that repeats or does not.
pub fn use_cache(repeat: bool) -> (yes: bool)
    ensures
        yes == caching(repeat),
{
    repeat
}

impl Ticker {
    /// Puts `line` on the ticker and sends it to the asset at place `next`.
    fn move_on(self, line: String) -> (ticker: Ticker)
        ensures
            ticker@ == moved_on(self@, line@),
    {
        let Ticker { assets, repeat, interval_secs, debug, next, line: _, phase: _ } = self;
        if next < assets.len() {
            let resolver = Resolver::new(assets[next].as_str(), use_cache(repeat), CACHE_TTL_SECS);
            Ticker {
                assets,
                repeat,
                interval_secs,
                debug,
                next: next + 1,
                line,
                phase: Phase::Resolving(resolver),
            }
        } else {
            Ticker { assets, repeat, interval_secs, debug, next, line, phase: Phase::Drawing }
        }
    }

    /// Puts the token of an asset on the line, for what resolving it came
    /// to, and moves on to the next asset.
    pub fn show(self, asset_id: &str, outcome: &Result<Currency, TickerError>) -> (ticker: Ticker)
        ensures
            ticker@ == shown(self@, asset_id@, outcome_model(*outcome)),
    {
        let shown = token(asset_id, outcome, self.debug);
        let longer = self.line.clone().concat(shown.as_str());
        self.move_on(longer)
    }

    /// A ticker for a list of assets, at the start of its first pass.
    pub fn new(assets: Vec<String>, repeat: bool, interval_secs: u64, debug: bool) -> (ticker:
        Ticker)
        ensures
            ticker@ == started(names_model(assets@), repeat, interval_secs, debug),
    {
        let fresh = Ticker {
            assets,
            repeat,
            interval_secs,
            debug,
            next: 0,
            line: String::new(),
            phase: Phase::Drawing,
        };
        fresh.move_on(String::new())
    }

    /// The action to take next.
    pub fn action(&self) -> (action: Action)
        ensures
            action@ == action_of(self@),
    {
        match &self.phase {
            Phase::Resolving(resolver) => Action::Ask(resolver.request()),
            Phase::Drawing => Action::Draw { text: self.line.clone().concat("\x08") },
            Phase::Sleeping => Action::Sleep { secs: self.interval_secs },
            Phase::Stopped => Action::Stop,
        }
    }

    /// Takes what came of the pending action, and moves on.
    pub fn step(self, event: Event) -> (ticker: Ticker)
        ensures
            ticker@ == stepped(self@, event@),
    {
        let Ticker { assets, repeat, interval_secs, debug, next, line, phase } = self;
        match phase {
            Phase::Resolving(resolver) => match event {
                Event::Replied(reply) => {
                    let asset_id = resolver.asset_id.clone();
                    match resolver.advance(reply) {
                        Progress::Pending(resolver) => Ticker {
                            assets,
                            repeat,
                            interval_secs,
                            debug,
                            next,
                            line,
                            phase: Phase::Resolving(resolver),
                        },
                        Progress::Finished(outcome) => {
                            let ticker = Ticker {
                                assets,
                                repeat,
                                interval_secs,
                                debug,
                                next,
                                line,
                                phase: Phase::Drawing,
                            };
                            ticker.show(asset_id.as_str(), &outcome)
                        },
                    }
                },
                Event::Done => Ticker {
                    assets,
                    repeat,
                    interval_secs,
                    debug,
                    next,
                    line,
                    phase: Phase::Resolving(resolver),
                },
            },
            Phase::Drawing => match event {
                Event::Done => Ticker {
                    assets,
                    repeat,
                    interval_secs,
                    debug,
                    next,
                    line,
                    phase: if repeat {
                        Phase::Sleeping
                    } else {
                        Phase::Stopped
                    },
                },
                Event::Replied(_) => Ticker {
                    assets,
                    repeat,
                    interval_secs,
                    debug,
                    next,
                    line,
                    phase: Phase::Drawing,
                },
            },
            Phase::Sleeping => match event {
                Event::Done => {
                    let ticker = Ticker {
                        assets,
                        repeat,
                        interval_secs,
                        debug,
                        next: 0,
                        line,
                        phase: Phase::Sleeping,
                    };
                    ticker.move_on(String::from_str("\r"))
                },
                Event::Replied(_) => Ticker {
                    assets,
                    repeat,
                    interval_secs,
                    debug,
                    next,
                    line,
                    phase: Phase::Sleeping,
                },
            },
            Phase::Stopped => Ticker {
                assets,
                repeat,
                interval_secs,
                debug,
                next,
                line,
                phase: Phase::Stopped,
            },
        }
    }
}

/// What the world answers to a ticker's pending action. Each asset of the
/// list has a world of its own, at the asset's place.
pub open spec fn answer_of(ticker: TickerModel, worlds: Seq<World>) -> EventModel {
    match ticker.phase {
        PhaseModel::Resolving(resolver) => EventModel::Replied(
            reply_of(worlds[ticker.next - 1], pending(resolver)),
        ),
        _ => EventModel::Done,
    }
}

/// A ticker driven until it has resolved the last asset of its pass, for
/// `steps` actions at most.
pub open spec fn pass_driven(ticker: TickerModel, worlds: Seq<World>, steps: nat) -> TickerModel
    decreases steps,
{
    if steps == 0 || !(ticker.phase is Resolving) {
        ticker
    } else {
        pass_driven(stepped(ticker, answer_of(ticker, worlds)), worlds, (steps - 1) as nat)
    }
}

/// What resolving the asset at a place of the list comes to in its world.
pub open spec fn outcome_at(ticker: TickerModel, worlds: Seq<World>, place: int) -> Result<
    CurrencyModel,
    ErrorModel,
> {
    resolved(
        ticker.assets[place],
        caching(ticker.repeat),
        CACHE_TTL_SECS,
        worlds[place],
    ).outcome->Some_0
}

/// The tokens of the first `count` assets of the list, one after the other.
pub open spec fn tokens_of(ticker: TickerModel, worlds: Seq<World>, count: nat) -> Seq<char>
    decreases count,
{
    if count == 0 {
        Seq::empty()
    } else {
        tokens_of(ticker, worlds, (count - 1) as nat) + token_of(
            ticker.assets[count - 1],
            outcome_at(ticker, worlds, count - 1),
            ticker.debug,
        )
    }
}

/// The ticker within a pass whose line began with `prefix`, when `count`
/// assets have their tokens on the line.
pub open spec fn ticker_after(
    ticker: TickerModel,
    worlds: Seq<World>,
    prefix: Seq<char>,
    count: nat,
) -> TickerModel {
    moved_on(TickerModel { next: count, ..ticker }, prefix + tokens_of(ticker, worlds, count))
}

proof fn lemma_asset_is_resolved(ticker: TickerModel, worlds: Seq<World>, steps: nat) -> (used:
    nat)
    requires
        1 <= ticker.next <= ticker.assets.len(),
        ticker.phase == PhaseModel::Resolving(
            begin(ticker.assets[ticker.next - 1], caching(ticker.repeat), CACHE_TTL_SECS),
        ),
        steps >= 3,
    ensures
        1 <= used <= 3,
        pass_driven(ticker, worlds, steps) == pass_driven(
            moved_on(
                ticker,
                ticker.line + token_of(
                    ticker.assets[ticker.next - 1],
                    outcome_at(ticker, worlds, ticker.next - 1),
                    ticker.debug,
                ),
            ),
            worlds,
            (steps - used) as nat,
        ),
{
    let asset = ticker.assets[ticker.next - 1];
    let world = worlds[ticker.next - 1];
    let first = begin(asset, caching(ticker.repeat), CACHE_TTL_SECS);
    law_resolver_resolves(asset, caching(ticker.repeat), CACHE_TTL_SECS, world);
    reveal_with_fuel(driven, 4);
    reveal_with_fuel(pass_driven, 4);
    match advanced(first, reply_of(world, pending(first))) {
        ProgressModel::Finished(_) => 1,
        ProgressModel::Pending(second) => match advanced(
            second,
            reply_of(world, pending(second)),
        ) {
            ProgressModel::Finished(_) => 2,
            ProgressModel::Pending(_) => 3,
        },
    }
}

proof fn lemma_pass_from(
    ticker: TickerModel,
    worlds: Seq<World>,
    prefix: Seq<char>,
    count: nat,
    steps: nat,
)
    requires
        count <= ticker.assets.len(),
        steps >= 3 * (ticker.assets.len() - count),
    ensures
        pass_driven(ticker_after(ticker, worlds, prefix, count), worlds, steps) == ticker_after(
            ticker,
            worlds,
            prefix,
            ticker.assets.len(),
        ),
    decreases ticker.assets.len() - count,
{
    let now = ticker_after(ticker, worlds, prefix, count);
    if count < ticker.assets.len() {
        let used = lemma_asset_is_resolved(now, worlds, steps);
        let token = token_of(
            now.assets[now.next - 1],
            outcome_at(now, worlds, now.next - 1),
            now.debug,
        );
        assert(tokens_of(ticker, worlds, count + 1) == tokens_of(ticker, worlds, count) + token);
        assert(now.line + token =~= prefix + tokens_of(ticker, worlds, count + 1));
        assert(moved_on(now, now.line + token) == ticker_after(
            ticker,
            worlds,
            prefix,
            count + 1,
        ));
        lemma_pass_from(ticker, worlds, prefix, count + 1, (steps - used) as nat);
    }
}

/// A pass puts the token of every asset on the line, in the order of the
/// list, whatever came of resolving each: a ticker that starts a pass at
/// the first asset, on a line that begins with `prefix`, comes to draw in
/// three actions for each asset at most, and draws the prefix, every
/// asset's token for what resolving it came to in its world, and a
/// backspace.
pub proof fn law_pass_shows_every_asset(
    ticker: TickerModel,
    worlds: Seq<World>,
    prefix: Seq<char>,
)
    ensures
        ({
            let start = moved_on(TickerModel { next: 0, ..ticker }, prefix);
            let end = pass_driven(start, worlds, 3 * ticker.assets.len());
            &&& end == TickerModel {
                next: ticker.assets.len(),
                line: prefix + tokens_of(ticker, worlds, ticker.assets.len()),
                phase: PhaseModel::Drawing,
                ..ticker
            }
            &&& action_of(end) == ActionModel::Draw {
                text: prefix + tokens_of(ticker, worlds, ticker.assets.len()) + "\x08"@,
            }
        }),
{
    lemma_pass_from(ticker, worlds, prefix, 0, 3 * ticker.assets.len());
}

/// The first pass draws the tokens alone; after the sleep, the next pass
/// draws a carriage return and the tokens.
pub proof fn law_passes_begin_at_the_first_asset(ticker: TickerModel)
    ensures
        started(ticker.assets, ticker.repeat, ticker.interval_secs, ticker.debug) == moved_on(
            TickerModel {
                next: 0,
                line: Seq::empty(),
                phase: PhaseModel::Drawing,
                ..ticker
            },
            Seq::empty(),
        ),
        ticker.phase is Sleeping ==> stepped(ticker, EventModel::Done) == moved_on(
            TickerModel { next: 0, ..ticker },
            "\r"@,
        ),
        ticker.phase is Drawing ==> stepped(ticker, EventModel::Done).phase == if ticker.repeat {
            PhaseModel::Sleeping
        } else {
            PhaseModel::Stopped
        },
{
}

} // verus!
