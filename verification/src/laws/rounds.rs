//! Laws of the rounds of the bot.

use vstd::prelude::*;

use crate::account::AccountId;
use crate::bot::{lemma_distinct, run_bot, texts, Bot, Round, RoundStart, RoundStep};
use crate::error::RpcResult;

verus! {

/// Whether an account is among some.
pub open spec fn among(account: Seq<char>, accounts: Seq<AccountId>) -> bool {
    exists|i: int| 0 <= i < accounts.len() && #[trigger] accounts[i]@ == account
}

/// Whether no account occurs twice.
pub open spec fn each_once(accounts: Seq<AccountId>) -> bool {
    forall|i: int, j: int|
        #![trigger accounts[i], accounts[j]]
        0 <= i < j < accounts.len() ==> accounts[i]@ != accounts[j]@
}

proof fn lemma_among(account: Seq<char>, accounts: Seq<AccountId>)
    ensures
        among(account, accounts) <==> texts(accounts).contains(account),
{
    if among(account, accounts) {
        let i = choose|i: int| 0 <= i < accounts.len() && #[trigger] accounts[i]@ == account;
        assert(texts(accounts)[i] == account);
    }
    if texts(accounts).contains(account) {
        let i = choose|i: int| 0 <= i < texts(accounts).len() && texts(accounts)[i] == account;
        assert(accounts[i]@ == account);
    }
}

proof fn lemma_each_once(accounts: Seq<AccountId>)
    requires
        texts(accounts).no_duplicates(),
    ensures
        each_once(accounts),
{
    assert forall|i: int, j: int|
        #![trigger accounts[i], accounts[j]]
        0 <= i < j < accounts.len() implies accounts[i]@ != accounts[j]@ by {
        assert(texts(accounts)[i] == accounts[i]@);
        assert(texts(accounts)[j] == accounts[j]@);
    }
}

/// The bot starts with the intervals that it was given and no market, and whenever it wakes
/// first, at the time of its start or later, it reads the registries before anything else.
pub proof fn law_start(
    registry_refresh_interval: u64,
    interval: u64,
    now: u128,
    bot: Bot,
    later: u128,
    start: RoundStart,
)
    requires
        call_ensures(run_bot, (registry_refresh_interval, interval, now), bot),
        call_ensures(Bot::wake, (bot, later), start),
        now <= later,
    ensures
        bot.registry_refresh_interval == registry_refresh_interval,
        bot.interval == interval,
        bot.markets@.len() == 0,
        start == RoundStart::Refresh(bot),
{
}

/// A bot that wakes reads the registries exactly where they are due; where they are not, it
/// starts over with the first of the markets that it knows.
pub proof fn law_wake(bot: Bot, now: u128, start: RoundStart)
    requires
        call_ensures(Bot::wake, (bot, now), start),
    ensures
        start is Refresh <==> bot.next_refresh <= now,
        start matches RoundStart::Refresh(same) ==> same == bot,
        start matches RoundStart::Liquidate(round) ==> round.bot == bot && round.visited == 0,
{
}

/// The markets of a round are exactly the accounts that the registries deployed, each once,
/// however many and whichever they are. They replace those known before. The registries are
/// due again a refresh interval later, and the intervals stay.
pub proof fn law_listed(bot: Bot, all: Vec<AccountId>, now: u128, round: RpcResult<Round>)
    requires
        call_ensures(Bot::on_listed, (bot, Ok(all), now), round),
    ensures
        round matches Ok(round) && {
            &&& forall|account: Seq<char>| #[trigger]
                among(account, round.bot.markets@) <==> among(account, all@)
            &&& each_once(round.bot.markets@)
            &&& round.visited == 0
            &&& round.bot.registry_refresh_interval == bot.registry_refresh_interval
            &&& round.bot.interval == bot.interval
            &&& round.bot.next_refresh - now == bot.registry_refresh_interval * 1_000_000_000
        },
{
    let markets = round->Ok_0.bot.markets@;
    lemma_distinct(texts(all@));
    lemma_each_once(markets);
    assert forall|account: Seq<char>| #[trigger]
        among(account, markets) <==> among(account, all@) by {
        lemma_among(account, markets);
        lemma_among(account, all@);
    }
}

/// A failure to list the markets ends the bot with just that failure.
pub proof fn law_failed_listing(
    bot: Bot,
    listed: RpcResult<Vec<AccountId>>,
    now: u128,
    round: RpcResult<Round>,
)
    requires
        call_ensures(Bot::on_listed, (bot, listed, now), round),
        listed is Err,
    ensures
        round is Err && round->Err_0 == listed->Err_0,
{
}

/// A round goes on with the next market that was not visited yet and counts it, and sleeps for
/// the interval of the bot once none is left; the bot itself stays as it is. A market whose
/// liquidations failed ends the bot with just that failure.
pub proof fn law_next<E>(
    round: Round,
    previous: Result<(), E>,
    step: Result<RoundStep, E>,
)
    requires
        call_ensures(Round::next::<E>, (round, previous), step),
    ensures
        previous is Ok <==> step is Ok,
        previous matches Err(error) ==> step == Err::<RoundStep, E>(error),
        step matches Ok(step) ==> match step {
            RoundStep::Liquidate { market, round: next } => {
                &&& round.visited < round.bot.markets@.len()
                &&& market@ == round.bot.markets@[round.visited as int]@
                &&& next.bot == round.bot
                &&& next.visited == round.visited + 1
            },
            RoundStep::Sleep { seconds, bot } => {
                &&& round.visited >= round.bot.markets@.len()
                &&& seconds == round.bot.interval
                &&& bot == round.bot
            },
        },
{
}

/// A run through a round: the call after a success in `rounds[i]` gives the market `visits[i]`
/// and the round `rounds[i + 1]`.
pub open spec fn visiting(rounds: Seq<Round>, visits: Seq<AccountId>) -> bool {
    &&& rounds.len() == visits.len() + 1
    &&& forall|i: int|
        #![trigger visits[i]]
        0 <= i < visits.len() ==> call_ensures(
            Round::next::<()>,
            (rounds[i], Ok(())),
            Ok(RoundStep::Liquidate { market: visits[i], round: rounds[i + 1] }),
        )
}

proof fn lemma_visiting(rounds: Seq<Round>, visits: Seq<AccountId>, k: int)
    requires
        visiting(rounds, visits),
        rounds[0].visited == 0,
        0 <= k < rounds.len(),
    ensures
        rounds[k].bot == rounds[0].bot,
        rounds[k].visited == k,
        k <= rounds[0].bot.markets@.len(),
        forall|i: int| 0 <= i < k ==> #[trigger] visits[i]@ == rounds[0].bot.markets@[i]@,
    decreases k,
{
    if k > 0 {
        lemma_visiting(rounds, visits, k - 1);
        let _ = visits[k - 1];
    }
}

/// A round that runs to its sleep visits every market of the bot, in the order in which the
/// bot knows them and each exactly once, and leaves the bot as it was.
pub proof fn law_round(
    rounds: Seq<Round>,
    visits: Seq<AccountId>,
    seconds: u64,
    bot: Bot,
)
    requires
        visiting(rounds, visits),
        rounds[0].visited == 0,
        call_ensures(
            Round::next::<()>,
            (rounds.last(), Ok(())),
            Ok(RoundStep::Sleep { seconds, bot }),
        ),
    ensures
        visits.len() == rounds[0].bot.markets@.len(),
        forall|i: int|
            0 <= i < visits.len() ==> #[trigger] visits[i]@ == rounds[0].bot.markets@[i]@,
        seconds == rounds[0].bot.interval,
        bot == rounds[0].bot,
{
    lemma_visiting(rounds, visits, rounds.len() - 1);
}

/// What the registries deployed is what the bot liquidates: in a round that took in what they
/// deployed and ran to its sleep, the accounts visited are exactly those deployed, each once.
/// The bot that sleeps then is due to read the registries a refresh interval after it took
/// them in.
pub proof fn law_deployed_is_visited(
    before: Bot,
    all: Vec<AccountId>,
    now: u128,
    rounds: Seq<Round>,
    visits: Seq<AccountId>,
    seconds: u64,
    bot: Bot,
)
    requires
        call_ensures(Bot::on_listed, (before, Ok(all), now), Ok(rounds[0])),
        visiting(rounds, visits),
        call_ensures(
            Round::next::<()>,
            (rounds.last(), Ok(())),
            Ok(RoundStep::Sleep { seconds, bot }),
        ),
    ensures
        forall|account: Seq<char>| #[trigger] among(account, visits) <==> among(account, all@),
        each_once(visits),
        seconds == before.interval,
        bot.next_refresh == now + before.registry_refresh_interval * 1_000_000_000,
        bot.interval == before.interval,
        bot.registry_refresh_interval == before.registry_refresh_interval,
{
    law_listed(before, all, now, Ok(rounds[0]));
    law_round(rounds, visits, seconds, bot);
    let markets = rounds[0].bot.markets@;
    assert forall|account: Seq<char>| #[trigger]
        among(account, visits) <==> among(account, all@) by {
        if among(account, visits) {
            let i = choose|i: int| 0 <= i < visits.len() && #[trigger] visits[i]@ == account;
            assert(markets[i]@ == account);
            assert(among(account, markets));
        }
        if among(account, all@) {
            assert(among(account, markets));
            let i = choose|i: int| 0 <= i < markets.len() && #[trigger] markets[i]@ == account;
            assert(visits[i]@ == account);
        }
    }
}

/// Until the registries are due again, every round visits the same accounts: a bot that slept
/// and wakes before that visits exactly what was deployed when it last read them, and a bot
/// that wakes from then on reads them.
pub proof fn law_later_round(
    before: Bot,
    all: Vec<AccountId>,
    listed_at: u128,
    first: Seq<Round>,
    first_visits: Seq<AccountId>,
    seconds: u64,
    bot: Bot,
    now: u128,
    start: RoundStart,
    rounds: Seq<Round>,
    visits: Seq<AccountId>,
    end: RoundStep,
)
    requires
        call_ensures(Bot::on_listed, (before, Ok(all), listed_at), Ok(first[0])),
        visiting(first, first_visits),
        call_ensures(
            Round::next::<()>,
            (first.last(), Ok(())),
            Ok(RoundStep::Sleep { seconds, bot }),
        ),
        call_ensures(Bot::wake, (bot, now), start),
    ensures
        start is Refresh <==> now - listed_at >= before.registry_refresh_interval * 1_000_000_000,
        start matches RoundStart::Liquidate(round) ==> visiting(rounds, visits) && rounds[0] == round
            && end is Sleep && call_ensures(Round::next::<()>, (rounds.last(), Ok(())), Ok(end)) ==> {
            &&& forall|account: Seq<char>| #[trigger]
                among(account, visits) <==> among(account, all@)
            &&& each_once(visits)
        },
{
    law_deployed_is_visited(before, all, listed_at, first, first_visits, seconds, bot);
    law_listed(before, all, listed_at, Ok(first[0]));
    law_round(first, first_visits, seconds, bot);
    law_wake(bot, now, start);
    if start is Liquidate && visiting(rounds, visits) && rounds[0] == start->Liquidate_0
        && end is Sleep && call_ensures(Round::next::<()>, (rounds.last(), Ok(())), Ok(end)) {
        law_round(rounds, visits, end->seconds, end->bot);
        let markets = bot.markets@;
        assert forall|account: Seq<char>| #[trigger]
            among(account, visits) <==> among(account, all@) by {
            if among(account, visits) {
                let i = choose|i: int| 0 <= i < visits.len() && #[trigger] visits[i]@ == account;
                assert(markets[i]@ == account);
                assert(among(account, markets));
            }
            if among(account, all@) {
                assert(among(account, markets));
                let i = choose|i: int| 0 <= i < markets.len() && #[trigger] markets[i]@ == account;
                assert(visits[i]@ == account);
            }
        }
    }
}

} // verus!
