//! Listing the markets that registries have deployed.

use vstd::prelude::*;
use vstd::utf8::encode_utf8;

use crate::account::AccountId;
use crate::encoding::base64;
use crate::error::RpcResult;
use crate::json::json_string;
use crate::json_read::{
    lemma_first_member, lemma_key, lemma_last_member, lemma_number_reads_back, lemma_object,
    lemma_regroup, read_value, Json,
};
use crate::near::{view_request, ViewRequest};
use crate::text::{decimal, decimal_text};

verus! {

/// How many deployments a registry is asked for at a time.
pub const PAGE_SIZE: usize = 500;

/// A registry whose deployments are being listed.
#[derive(Debug, PartialEq, Eq)]
pub struct ListDeployments {
    pub registry: AccountId,
    /// The deployments that the pages so far held.
    pub found: Vec<AccountId>,
}

/// What to do after a page.
#[derive(Debug, PartialEq, Eq)]
pub enum ListDeploymentsStep {
    /// Ask for the next page.
    More(ListDeployments),
    /// The list is complete.
    Done(Vec<AccountId>),
}

/// The JSON of the arguments that ask for a page.
pub open spec fn page_args(offset: nat) -> Seq<char> {
    "{\"count\":500,\"offset\":"@ + decimal(offset) + "}"@
}

/// Starts to list the deployments of a registry. All of them are listed, from the first on,
/// whatever `count` and `offset` say.
#[allow(unused_variables)]
pub fn list_deployments(registry: AccountId, count: Option<u32>, offset: Option<u32>) -> (state:
    ListDeployments)
    ensures
        state.registry == registry,
        state.found@ == Seq::<AccountId>::empty(),
{
    ListDeployments { registry, found: Vec::new() }
}

impl ListDeployments {
    /// Whether a step is the one to take after a page: the page is added to what was found,
    /// and a page that is not full is the last one.
    pub open spec fn follows(self, page: Seq<AccountId>, step: ListDeploymentsStep) -> bool {
        if page.len() >= PAGE_SIZE {
            &&& step matches ListDeploymentsStep::More(state)
            &&& state.registry == self.registry
            &&& state.found@ == self.found@ + page
        } else {
            &&& step matches ListDeploymentsStep::Done(found)
            &&& found@ == self.found@ + page
        }
    }

    /// The view call that asks for the next page.
    pub fn request(&self) -> (request: ViewRequest)
        ensures
            request.account_id == self.registry,
            request.method_name@ == "list_deployments"@,
            request.args@ == base64(encode_utf8(page_args(self.found@.len()))),
    {
        let args = "{\"count\":500,\"offset\":".to_owned().concat(
            decimal_text(self.found.len() as u128).as_str(),
        ).concat("}");
        view_request(self.registry.clone(), "list_deployments", args.as_str())
    }

    /// Takes in a page. A failure to get it ends the listing.
    pub fn on_page(self, page: RpcResult<Vec<AccountId>>) -> (step: RpcResult<ListDeploymentsStep>)
        ensures
            match page {
                Ok(page) => step matches Ok(step) && self.follows(page@, step),
                Err(error) => step == Err::<ListDeploymentsStep, _>(error),
            },
    {
        let mut page = match page {
            Ok(page) => page,
            Err(error) => return Err(error),
        };
        let fetched: usize = page.len();
        let mut found = self.found;
        found.append(&mut page);
        if fetched < PAGE_SIZE {
            Ok(ListDeploymentsStep::Done(found))
        } else {
            Ok(ListDeploymentsStep::More(ListDeployments { registry: self.registry, found }))
        }
    }
}

/// Whether a total is what comes of taking in the answer of one more registry: the
/// deployments of all, or the failure.
pub open spec fn collects(
    all: Seq<AccountId>,
    listed: RpcResult<Vec<AccountId>>,
    total: RpcResult<Vec<AccountId>>,
) -> bool {
    match listed {
        Ok(found) => total matches Ok(total) && total@ == all + found@,
        Err(error) => total == Err::<Vec<AccountId>, _>(error),
    }
}

/// Takes in the deployments of one more registry, in the order in which the registries
/// answer. The first failure ends the listing.
pub fn list_all_deployments(all: Vec<AccountId>, listed: RpcResult<Vec<AccountId>>) -> (result:
    RpcResult<Vec<AccountId>>)
    ensures
        collects(all@, listed, result),
{
    let mut found = listed?;
    let mut all = all;
    all.append(&mut found);
    Ok(all)
}

/// The arguments that ask for a page read back as an object of the most entries of a page and
/// the offset, whatever its size.
pub proof fn lemma_page_args_read_back(offset: nat)
    ensures
        read_value(page_args(offset)) == Some(
            (
                Json::Object(
                    seq![("count"@, Json::Number(500)), ("offset"@, Json::Number(offset))],
                ),
                Seq::<char>::empty(),
            ),
        ),
{
    let none = Seq::<char>::empty();
    let count = decimal(500);
    let b = decimal(offset) + (seq!['}'] + none);
    let b_member = json_string("offset"@) + (seq![':'] + b);
    let a = count + (seq![','] + b_member);
    let a_member = json_string("count"@) + (seq![':'] + a);
    assert("{\"count\":500,\"offset\":"@ == "{\"count\":"@ + count + ",\"offset\":"@) by {
        reveal_strlit("{\"count\":500,\"offset\":");
        reveal_strlit("{\"count\":");
        reveal_strlit(",\"offset\":");
        reveal_with_fuel(decimal, 4);
        assert(count =~= seq!['5', '0', '0']);
        assert("{\"count\":500,\"offset\":"@ =~= "{\"count\":"@ + count + ",\"offset\":"@);
    }
    assert("}"@ == seq!['}'] + none) by {
        reveal_strlit("}");
        assert("}"@ =~= seq!['}'] + none);
    }
    assert(page_args(offset) == "{\"count\":"@ + (count + (",\"offset\":"@ + b))) by {
        lemma_regroup("{\"count\":"@ + count + ",\"offset\":"@, decimal(offset), "}"@);
        lemma_regroup("{\"count\":"@ + count, ",\"offset\":"@, b);
        lemma_regroup("{\"count\":"@, count, ",\"offset\":"@ + b);
    }
    assert({
        &&& "{\"count\":"@ + a == seq!['{'] + a_member
        &&& ",\"offset\":"@ + b == seq![','] + b_member
    }) by {
        reveal_strlit("{\"count\":");
        reveal_strlit("count");
        assert("{\"count\":"@ =~= seq!['{', '"'] + "count"@ + seq!['"', ':']);
        lemma_key("{\"count\":"@, '{', "count"@, a);
        reveal_strlit(",\"offset\":");
        reveal_strlit("offset");
        assert(",\"offset\":"@ =~= seq![',', '"'] + "offset"@ + seq!['"', ':']);
        lemma_key(",\"offset\":"@, ',', "offset"@, b);
    }
    let m2 = seq![("offset"@, Json::Number(offset))];
    let m1 = seq![("count"@, Json::Number(500))] + m2;
    assert((seq!['}'] + none)[0] == '}');
    lemma_number_reads_back(offset, seq!['}'] + none);
    lemma_last_member("offset"@, Json::Number(offset), decimal(offset), none);
    assert((seq![','] + b_member)[0] == ',');
    lemma_number_reads_back(500, seq![','] + b_member);
    lemma_first_member("count"@, Json::Number(500), count, b_member, m2, none);
    assert(a_member[0] == '"');
    lemma_object(a_member, m1, none);
    assert(m1 =~= seq![("count"@, Json::Number(500)), ("offset"@, Json::Number(offset))]);
}

/// The page that a registry of some deployments answers with, from an offset on.
pub open spec fn registry_page(deployments: Seq<AccountId>, offset: nat) -> Seq<AccountId> {
    if offset + PAGE_SIZE <= deployments.len() {
        deployments.subrange(offset as int, offset + PAGE_SIZE)
    } else if offset <= deployments.len() {
        deployments.skip(offset as int)
    } else {
        Seq::empty()
    }
}

/// A run of requests to a registry of some deployments: each page is the answer to the
/// request that the state before it makes, and another request follows it.
pub open spec fn list_run(deployments: Seq<AccountId>, states: Seq<ListDeployments>) -> bool {
    &&& states.len() > 0
    &&& forall|i: int, j: int|
        #![trigger states[i], states[j]]
        0 <= i && j == i + 1 && j < states.len() ==> states[i].follows(
            registry_page(deployments, states[i].found@.len()),
            ListDeploymentsStep::More(states[j]),
        )
}

/// At every moment of a listing, what was found is the beginning of what is deployed, a
/// whole number of pages, and the registry is the one that the listing started with.
pub proof fn lemma_list_run(deployments: Seq<AccountId>, states: Seq<ListDeployments>, k: int)
    requires
        list_run(deployments, states),
        states[0].found@.len() == 0,
        0 <= k < states.len(),
    ensures
        states[k].registry == states[0].registry,
        states[k].found@.len() == k * PAGE_SIZE,
        states[k].found@.len() <= deployments.len(),
        states[k].found@ == deployments.take(k * PAGE_SIZE),
    decreases k,
{
    if k == 0 {
        assert(states[0].found@ =~= deployments.take(0));
    } else {
        lemma_list_run(deployments, states, k - 1);
        assert(states[k - 1].follows(
            registry_page(deployments, states[k - 1].found@.len()),
            ListDeploymentsStep::More(states[k]),
        ));
        assert(k * PAGE_SIZE == (k - 1) * PAGE_SIZE + PAGE_SIZE);
        assert(states[k].found@ =~= deployments.take(k * PAGE_SIZE));
    }
}

/// A listing ends with everything that the registry deployed, in its order and each entry
/// once, after one request more than there are full pages.
pub proof fn lemma_listing_complete(
    deployments: Seq<AccountId>,
    states: Seq<ListDeployments>,
    found: Vec<AccountId>,
)
    requires
        list_run(deployments, states),
        states[0].found@.len() == 0,
        states.last().follows(
            registry_page(deployments, states.last().found@.len()),
            ListDeploymentsStep::Done(found),
        ),
    ensures
        found@ == deployments,
        states.len() == deployments.len() / PAGE_SIZE as nat + 1,
{
    let k = states.len() - 1;
    lemma_list_run(deployments, states, k);
    assert(found@ =~= deployments);
    assert(deployments.len() == k * PAGE_SIZE + registry_page(
        deployments,
        states.last().found@.len(),
    ).len());
}

/// A listing ends: it asks for no more pages than there are full ones, and one.
pub proof fn lemma_listing_ends(deployments: Seq<AccountId>, states: Seq<ListDeployments>)
    requires
        list_run(deployments, states),
        states[0].found@.len() == 0,
    ensures
        states.len() <= deployments.len() / PAGE_SIZE as nat + 1,
{
    lemma_list_run(deployments, states, states.len() - 1);
}

/// What the registries that answered so far deployed, one after the other.
pub open spec fn concatenated(answers: Seq<Seq<AccountId>>) -> Seq<AccountId>
    decreases answers.len(),
{
    if answers.len() == 0 {
        Seq::empty()
    } else {
        concatenated(answers.drop_last()) + answers.last()
    }
}

/// One step of a run of answers: there was no failure before, and the answer is taken in.
pub open spec fn collect_step(
    answers: Seq<RpcResult<Vec<AccountId>>>,
    totals: Seq<RpcResult<Vec<AccountId>>>,
    i: int,
) -> bool {
    totals[i] is Ok && collects(totals[i]->Ok_0@, answers[i], totals[i + 1])
}

/// A run of answers of registries: each is taken in by [`list_all_deployments`].
pub open spec fn collect_run(
    answers: Seq<RpcResult<Vec<AccountId>>>,
    totals: Seq<RpcResult<Vec<AccountId>>>,
) -> bool {
    &&& totals.len() == answers.len() + 1
    &&& totals[0] matches Ok(all) && all@ == Seq::<AccountId>::empty()
    &&& forall|i: int| 0 <= i < answers.len() ==> #[trigger] collect_step(answers, totals, i)
}

/// Where every registry answered, the total is all that they answered, in the order of the
/// answers; where one failed, the total is its failure, and it was the last to be heard.
pub proof fn lemma_collected(
    answers: Seq<RpcResult<Vec<AccountId>>>,
    totals: Seq<RpcResult<Vec<AccountId>>>,
)
    requires
        collect_run(answers, totals),
    ensures
        forall|i: int| 0 <= i < answers.len() - 1 ==> #[trigger] answers[i] is Ok,
        match totals.last() {
            Ok(all) => {
                &&& forall|i: int| 0 <= i < answers.len() ==> #[trigger] answers[i] is Ok
                &&& all@ == concatenated(
                    answers.map_values(|answer: RpcResult<Vec<AccountId>>| answer->Ok_0@),
                )
            },
            Err(error) => answers.len() > 0 && answers.last() == Err::<Vec<AccountId>, _>(error),
        },
    decreases answers.len(),
{
    let view = |answer: RpcResult<Vec<AccountId>>| answer->Ok_0@;
    if answers.len() > 0 {
        let last = answers.len() - 1;
        assert(collect_step(answers, totals, last));
        assert forall|i: int| 0 <= i < last implies #[trigger] collect_step(
            answers.drop_last(),
            totals.drop_last(),
            i,
        ) by {
            assert(collect_step(answers, totals, i));
        }
        lemma_collected(answers.drop_last(), totals.drop_last());
        assert(totals.drop_last().last() == totals[last]);
        assert forall|i: int| 0 <= i < last implies #[trigger] answers[i] is Ok by {
            assert(answers.drop_last()[i] is Ok);
        }
        assert(answers.map_values(view).drop_last() =~= answers.drop_last().map_values(view));
    } else {
        assert(answers.map_values(view) =~= Seq::empty());
    }
}

} // verus!
