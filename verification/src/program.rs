use vstd::prelude::*;
use crate::cpi::{AssetTransfer, AssetTransferView, TokenMint, TokenMintView};
use crate::errors::Errors;
use crate::instructions::buy::{buy_asset_transfer, buy_payment, buy_rewards, Buy, SolPayment};

verus! {

/// Everything a purchase does, in order: the payment, the asset transfer and
/// the reward mint.
#[derive(Clone, Debug, PartialEq, Eq)]
pub struct BuyPlan {
    pub payment: SolPayment,
    pub nft: AssetTransfer,
    pub rewards: TokenMint,
}

pub struct BuyPlanView {
    pub payment: SolPayment,
    pub nft: AssetTransferView,
    pub rewards: TokenMintView,
}

impl View for BuyPlan {
    type V = BuyPlanView;

    open spec fn view(&self) -> BuyPlanView {
        BuyPlanView { payment: self.payment, nft: self.nft@, rewards: self.rewards@ }
    }
}

/// The plan of a purchase, or the error that stops it before anything moves.
pub open spec fn buy_plan(b: Buy) -> Result<BuyPlanView, Errors> {
    match buy_payment(b) {
        Ok(payment) => Ok(
            BuyPlanView { payment: payment, nft: buy_asset_transfer(b), rewards: buy_rewards(b) },
        ),
        Err(e) => Err(e),
    }
}

/// Buys a listed asset: pays the seller and the treasury, moves the asset to
/// the buyer and rewards the buyer.
pub fn buy(accounts: &Buy) -> (r: Result<BuyPlan, Errors>)
    ensures
        match r {
            Ok(plan) => buy_plan(*accounts) == Ok::<BuyPlanView, Errors>(plan@),
            Err(e) => buy_plan(*accounts) == Err::<BuyPlanView, Errors>(e),
        },
{
    let payment = accounts.send_sol()?;
    let nft = accounts.receive_nft();
    let rewards = accounts.receive_rewards();
    Ok(BuyPlan { payment, nft, rewards })
}

} // verus!
