use near_sdk::serde_json;
use templar_bots::account::AccountId;
use templar_bots::bot::{run_bot, Bot, Round, RoundStart, RoundStep};
use templar_bots::deployments::{
    list_all_deployments, list_deployments, ListDeployments, ListDeploymentsStep,
};
use templar_bots::near::RpcError;

const SECOND: u128 = 1_000_000_000;

fn account(text: &str) -> AccountId {
    AccountId::parse(text).unwrap()
}

fn markets(count: usize) -> Vec<AccountId> {
    (0..count).map(|i| account(&format!("market-{i}.near"))).collect()
}

fn accounts(texts: &[&str]) -> Vec<AccountId> {
    texts.iter().map(|text| account(text)).collect()
}

fn failure() -> RpcError {
    RpcError::ViewMethodError("unreachable".to_string())
}

/// Lists a registry that answers with five hundred deployments at a time.
fn list(deployed: &[AccountId]) -> (Vec<AccountId>, usize) {
    let mut state = list_deployments(account("registry.near"), None, None);
    let mut requests = 0;
    loop {
        requests += 1;
        let offset = state.found.len();
        let page = deployed[offset..deployed.len().min(offset + 500)].to_vec();
        match state.on_page(Ok(page)).unwrap() {
            ListDeploymentsStep::More(next) => state = next,
            ListDeploymentsStep::Done(found) => return (found, requests),
        }
    }
}

fn visits(mut round: Round) -> (Vec<AccountId>, u64, Bot) {
    let mut visited = vec![];
    loop {
        match round.next(Ok::<(), RpcError>(())).unwrap() {
            RoundStep::Liquidate { market, round: next } => {
                visited.push(market);
                round = next;
            }
            RoundStep::Sleep { seconds, bot } => return (visited, seconds, bot),
        }
    }
}

#[test]
fn pages_are_asked_for_by_offset() {
    let state = list_deployments(account("registry.near"), Some(3), Some(4));
    assert_eq!(state, ListDeployments { registry: account("registry.near"), found: vec![] });
    let request = state.request();
    assert_eq!(request.account_id.as_str(), "registry.near");
    assert_eq!(request.method_name, "list_deployments");
    assert_eq!(
        request.args,
        templar_bots::near::serialize_and_encode("{\"count\":500,\"offset\":0}")
    );

    let Ok(ListDeploymentsStep::More(state)) = state.on_page(Ok(markets(500))) else {
        panic!("a full page is not the last one");
    };
    let args = "{\"count\":500,\"offset\":500}";
    assert_eq!(state.request().args, templar_bots::near::serialize_and_encode(args));
    let value: serde_json::Value = serde_json::from_str(args).unwrap();
    assert_eq!(value["offset"], 500);
    assert_eq!(value["count"], 500);
}

#[test]
fn a_page_that_is_not_full_is_the_last_one() {
    let state = list_deployments(account("registry.near"), None, None);
    assert_eq!(state.on_page(Ok(markets(3))), Ok(ListDeploymentsStep::Done(markets(3))));
    let state = list_deployments(account("registry.near"), None, None);
    assert_eq!(state.on_page(Ok(vec![])), Ok(ListDeploymentsStep::Done(vec![])));
    let state = list_deployments(account("registry.near"), None, None);
    assert!(matches!(state.on_page(Ok(markets(501))), Ok(ListDeploymentsStep::More(_))));
}

#[test]
fn a_failed_page_ends_the_listing() {
    let state = list_deployments(account("registry.near"), None, None);
    assert_eq!(state.on_page(Err(failure())), Err(failure()));
}

#[test]
fn a_listing_finds_every_deployment_once() {
    for (count, requests) in [(0, 1), (1, 1), (499, 1), (500, 2), (501, 2), (1_234, 3)] {
        let deployed = markets(count);
        assert_eq!(list(&deployed), (deployed, requests));
    }
}

#[test]
fn registries_are_collected_in_the_order_of_their_answers() {
    let all = list_all_deployments(vec![], Ok(accounts(&["b.near", "a.near"]))).unwrap();
    let all = list_all_deployments(all, Ok(vec![])).unwrap();
    let all = list_all_deployments(all, Ok(accounts(&["a.near"]))).unwrap();
    assert_eq!(all, accounts(&["b.near", "a.near", "a.near"]));
    assert_eq!(list_all_deployments(all, Err(failure())), Err(failure()));
}

#[test]
fn the_first_round_reads_the_registries() {
    let bot = run_bot(600, 60, 5);
    assert_eq!(
        bot,
        Bot { registry_refresh_interval: 600, interval: 60, next_refresh: 5, markets: vec![] }
    );
    assert!(matches!(bot.wake(5), RoundStart::Refresh(_)));
}

#[test]
fn a_round_visits_every_market_once() {
    let listed = accounts(&["b.near", "a.near", "b.near", "c.near", "a.near"]);
    let round = run_bot(600, 60, 0).on_listed(Ok(listed), SECOND).unwrap();
    let (visited, seconds, bot) = visits(round);
    assert_eq!(visited, accounts(&["b.near", "a.near", "c.near"]));
    assert_eq!(seconds, 60);
    assert_eq!(bot.next_refresh, 601 * SECOND);
    assert_eq!(bot.markets, visited);
}

#[test]
fn a_round_without_markets_only_sleeps() {
    let round = run_bot(600, 60, 0).on_listed(Ok(vec![]), SECOND).unwrap();
    let (visited, seconds, _) = visits(round);
    assert_eq!((visited, seconds), (vec![], 60));
}

#[test]
fn the_registries_are_read_again_after_the_interval() {
    let round = run_bot(600, 60, 0).on_listed(Ok(accounts(&["a.near"])), 2 * SECOND).unwrap();
    let (_, _, bot) = visits(round);
    let RoundStart::Liquidate(round) = bot.wake(602 * SECOND - 1) else {
        panic!("the markets are fresh");
    };
    let (visited, _, bot) = visits(round);
    assert_eq!(visited, accounts(&["a.near"]));
    let RoundStart::Refresh(bot) = bot.wake(602 * SECOND) else {
        panic!("the markets are due");
    };
    let round = bot.on_listed(Ok(accounts(&["z.near"])), 700 * SECOND).unwrap();
    let (visited, _, bot) = visits(round);
    assert_eq!(visited, accounts(&["z.near"]));
    assert_eq!(bot.next_refresh, 1_300 * SECOND);
}

#[test]
fn failures_end_the_bot() {
    assert_eq!(run_bot(600, 60, 0).on_listed(Err(failure()), 0), Err(failure()));
    let round = run_bot(600, 60, 0).on_listed(Ok(accounts(&["a.near"])), 0).unwrap();
    assert_eq!(round.next(Err("liquidation failed")), Err("liquidation failed"));
}
