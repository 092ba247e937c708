//! Laws of listing what registries have deployed.

use vstd::prelude::*;
use vstd::utf8::encode_utf8;

use crate::account::AccountId;
use crate::deployments::{
    lemma_page_args_read_back, list_all_deployments, list_deployments, page_args, ListDeployments,
    ListDeploymentsStep,
};
use crate::encoding::base64;
use crate::error::RpcResult;
use crate::json_read::{read_value, Json};
use crate::near::ViewRequest;

verus! {

/// A listing starts at the registry that was named, with nothing found.
pub proof fn law_listing_starts(
    registry: AccountId,
    count: Option<u32>,
    offset: Option<u32>,
    state: ListDeployments,
)
    requires
        call_ensures(list_deployments, (registry, count, offset), state),
    ensures
        state.registry == registry,
        state.found@.len() == 0,
{
}

/// A page is asked of the registry, by the method that lists deployments, with a JSON object
/// that asks for five hundred entries behind all that were found, however many they are.
pub proof fn law_page_request(state: ListDeployments, request: ViewRequest)
    requires
        call_ensures(ListDeployments::request, (&state,), request),
    ensures
        request.account_id == state.registry,
        request.method_name@ == "list_deployments"@,
        exists|args: Seq<char>|
            {
                &&& request.args@ == #[trigger] base64(encode_utf8(args))
                &&& read_value(args) == Some(
                    (
                        Json::Object(
                            seq![
                                ("count"@, Json::Number(500)),
                                ("offset"@, Json::Number(state.found@.len())),
                            ],
                        ),
                        Seq::<char>::empty(),
                    ),
                )
            },
{
    lemma_page_args_read_back(state.found@.len());
    assert(request.args@ == base64(encode_utf8(page_args(state.found@.len()))));
}

/// A page is kept whole and in its order behind what was found. The listing goes on exactly
/// where the page holds five hundred entries or more.
pub proof fn law_page(
    state: ListDeployments,
    page: Vec<AccountId>,
    step: RpcResult<ListDeploymentsStep>,
)
    requires
        call_ensures(ListDeployments::on_page, (state, Ok(page)), step),
    ensures
        match step {
            Ok(ListDeploymentsStep::More(next)) => {
                &&& page@.len() >= 500
                &&& next.registry == state.registry
                &&& next.found@.len() == state.found@.len() + page@.len()
                &&& forall|i: int|
                    0 <= i < state.found@.len() ==> next.found@[i] == state.found@[i]
                &&& forall|i: int|
                    #![trigger page@[i]]
                    0 <= i < page@.len() ==> next.found@[state.found@.len() + i] == page@[i]
            },
            Ok(ListDeploymentsStep::Done(found)) => {
                &&& page@.len() < 500
                &&& found@.len() == state.found@.len() + page@.len()
                &&& forall|i: int| 0 <= i < state.found@.len() ==> found@[i] == state.found@[i]
                &&& forall|i: int|
                    #![trigger page@[i]]
                    0 <= i < page@.len() ==> found@[state.found@.len() + i] == page@[i]
            },
            Err(_) => false,
        },
{
}

/// A page that could not be had ends the listing with just that failure.
pub proof fn law_failed_page(
    state: ListDeployments,
    page: RpcResult<Vec<AccountId>>,
    step: RpcResult<ListDeploymentsStep>,
)
    requires
        call_ensures(ListDeployments::on_page, (state, page), step),
        page is Err,
    ensures
        step is Err && step->Err_0 == page->Err_0,
{
}

/// What one more registry deployed is kept whole and in its order behind what the others
/// deployed; a registry that failed ends the listing with just its failure.
pub proof fn law_total(
    all: Vec<AccountId>,
    listed: RpcResult<Vec<AccountId>>,
    total: RpcResult<Vec<AccountId>>,
)
    requires
        call_ensures(list_all_deployments, (all, listed), total),
    ensures
        listed is Ok <==> total is Ok,
        listed matches Ok(found) ==> total matches Ok(total) && {
            &&& total@.len() == all@.len() + found@.len()
            &&& forall|i: int| 0 <= i < all@.len() ==> total@[i] == all@[i]
            &&& forall|i: int|
                #![trigger found@[i]]
                0 <= i < found@.len() ==> total@[all@.len() + i] == found@[i]
        },
        listed matches Err(error) ==> total == Err::<Vec<AccountId>, _>(error),
{
}

} // verus!
