use vstd::prelude::*;

use crate::identity::Identity;

verus! {

/// The record that a campaign keeps: who may withdraw, what it is called,
/// and how much has been donated to it in all.
#[derive(Clone, Debug)]
pub struct Campaign {
    pub admin: Identity,
    pub name: String,
    pub description: String,
    pub amount_donated: u64,
}

/// A campaign record together with the native balance of the account that
/// stores it.
#[derive(Clone, Debug)]
pub struct CampaignAccount {
    pub data: Campaign,
    pub lamports: u64,
}

/// The signing party of an operation and its native balance.
#[derive(Clone, Copy, Debug)]
pub struct UserAccount {
    pub key: Identity,
    pub lamports: u64,
}

/// Why an operation was refused. A refused operation changes nothing.
#[derive(Clone, Copy, Debug, PartialEq, Eq, Structural)]
pub enum CrowdfundingError {
    /// `create` found a record already stored for this admin.
    AlreadyInitialized,
    /// `withhdraw` was signed by someone other than the campaign's admin.
    Unauthorized,
    /// `withhdraw` would take the campaign's balance below its rent floor.
    InsufficientFunds,
    /// The donor's balance does not cover the donation.
    TransferFailed,
}

/// The accounts that `create` works on: the record slot derived from the
/// user's key (empty until a campaign is created there) and the user.
#[derive(Clone, Debug)]
pub struct Create {
    pub campaign: Option<Campaign>,
    pub user: Identity,
}

/// The accounts that `withhdraw` works on.
#[derive(Clone, Debug)]
pub struct Withdraw {
    pub campaign: CampaignAccount,
    pub user: UserAccount,
}

/// The accounts that `donate` works on.
#[derive(Clone, Debug)]
pub struct Donate {
    pub campaign: CampaignAccount,
    pub user: UserAccount,
}

/// The two balances together fit in a `u64`, as all native currency does.
pub open spec fn balances_fit(campaign: CampaignAccount, user: UserAccount) -> bool {
    campaign.lamports + user.lamports <= u64::MAX
}

impl Withdraw {
    pub open spec fn wf(self) -> bool {
        balances_fit(self.campaign, self.user)
    }
}

impl Donate {
    pub open spec fn wf(self) -> bool {
        balances_fit(self.campaign, self.user)
    }
}

/// The record that `create` stores for `user`.
pub open spec fn fresh_campaign(user: Identity, name: String, description: String) -> Campaign {
    Campaign { admin: user, name, description, amount_donated: 0 }
}

pub open spec fn create_result(ctx: Create) -> Result<(), CrowdfundingError> {
    if ctx.campaign is Some {
        Err(CrowdfundingError::AlreadyInitialized)
    } else {
        Ok(())
    }
}

/// The accounts after `create`: unchanged when it is refused.
pub open spec fn create_state(ctx: Create, name: String, description: String) -> Create {
    if ctx.campaign is Some {
        ctx
    } else {
        Create { campaign: Some(fresh_campaign(ctx.user, name, description)), user: ctx.user }
    }
}

pub open spec fn donate_result(ctx: Donate, amount: u64) -> Result<(), CrowdfundingError> {
    if ctx.user.lamports < amount {
        Err(CrowdfundingError::TransferFailed)
    } else {
        Ok(())
    }
}

/// The accounts after `donate`: `amount` moves from the donor to the
/// campaign and is added to `amount_donated`; unchanged when refused.
pub open spec fn donate_state(ctx: Donate, amount: u64) -> Donate {
    if ctx.user.lamports < amount {
        ctx
    } else {
        Donate {
            campaign: CampaignAccount {
                data: Campaign {
                    amount_donated: (ctx.campaign.data.amount_donated + amount) as u64,
                    ..ctx.campaign.data
                },
                lamports: (ctx.campaign.lamports + amount) as u64,
            },
            user: UserAccount { lamports: (ctx.user.lamports - amount) as u64, ..ctx.user },
        }
    }
}

/// What a campaign account can pay out above its rent floor covers `amount`.
pub open spec fn can_pay_out(balance: u64, rent_floor: u64, amount: u64) -> bool {
    balance - rent_floor >= amount
}

pub open spec fn withdraw_result(ctx: Withdraw, amount: u64, rent_floor: u64)
    -> Result<(), CrowdfundingError> {
    if ctx.campaign.data.admin@ != ctx.user.key@ {
        Err(CrowdfundingError::Unauthorized)
    } else if !can_pay_out(ctx.campaign.lamports, rent_floor, amount) {
        Err(CrowdfundingError::InsufficientFunds)
    } else {
        Ok(())
    }
}

/// The accounts after `withhdraw`: `amount` moves from the campaign to the
/// admin, the record is untouched; unchanged when refused.
pub open spec fn withdraw_state(ctx: Withdraw, amount: u64, rent_floor: u64) -> Withdraw {
    if withdraw_result(ctx, amount, rent_floor) is Err {
        ctx
    } else {
        Withdraw {
            campaign: CampaignAccount {
                lamports: (ctx.campaign.lamports - amount) as u64,
                ..ctx.campaign
            },
            user: UserAccount { lamports: (ctx.user.lamports + amount) as u64, ..ctx.user },
        }
    }
}

/// Moves `amount` from the signer to the campaign and counts it as donated.
/// Anyone may donate, any amount their balance covers, zero included.
pub fn donate(ctx: &mut Donate, amount: u64) -> (r: Result<(), CrowdfundingError>)
    requires
        old(ctx).wf(),
        old(ctx).campaign.data.amount_donated + amount <= u64::MAX,
    ensures
        r == donate_result(*old(ctx), amount),
        *final(ctx) == donate_state(*old(ctx), amount),
        final(ctx).wf(),
{
    if ctx.user.lamports < amount {
        return Err(CrowdfundingError::TransferFailed);
    }
    ctx.user.lamports = ctx.user.lamports - amount;
    ctx.campaign.lamports = ctx.campaign.lamports + amount;
    ctx.campaign.data.amount_donated = ctx.campaign.data.amount_donated + amount;
    Ok(())
}

/// Pays `amount` from the campaign to its admin, keeping at least
/// `rent_floor` (the minimum balance the host asks of the record's account)
/// in the campaign. `amount_donated` is left as it is.
pub fn withhdraw(ctx: &mut Withdraw, amount: u64, rent_floor: u64) -> (r: Result<(), CrowdfundingError>)
    requires
        old(ctx).wf(),
    ensures
        r == withdraw_result(*old(ctx), amount, rent_floor),
        *final(ctx) == withdraw_state(*old(ctx), amount, rent_floor),
        final(ctx).wf(),
{
    if !ctx.campaign.data.admin.same_as(&ctx.user.key) {
        return Err(CrowdfundingError::Unauthorized);
    }
    if ctx.campaign.lamports < rent_floor || ctx.campaign.lamports - rent_floor < amount {
        return Err(CrowdfundingError::InsufficientFunds);
    }
    ctx.campaign.lamports = ctx.campaign.lamports - amount;
    ctx.user.lamports = ctx.user.lamports + amount;
    Ok(())
}

/// Stores a new campaign, administered by the signer, in the signer's slot.
pub fn create(ctx: &mut Create, name: String, description: String) -> (r: Result<(), CrowdfundingError>)
    ensures
        r == create_result(*old(ctx)),
        *final(ctx) == create_state(*old(ctx), name, description),
{
    if ctx.campaign.is_some() {
        return Err(CrowdfundingError::AlreadyInitialized);
    }
    ctx.campaign = Some(Campaign { admin: ctx.user, name, description, amount_donated: 0 });
    Ok(())
}

} // verus!
