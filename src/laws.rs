use vstd::prelude::*;

use crate::campaign::{
    can_pay_out, create_result, create_state, donate_result, donate_state, fresh_campaign,
    withdraw_result, withdraw_state, Create, CrowdfundingError, Donate, UserAccount, Withdraw,
};
use crate::identity::Identity;

verus! {

/// `create` on an empty slot succeeds and stores a record whose admin is the
/// signer and whose donated amount is zero; a second `create` on that slot,
/// whatever its name and description, is refused with `AlreadyInitialized`
/// and keeps the first record.
pub proof fn create_succeeds_once(
    ctx: Create,
    name: String,
    description: String,
    name2: String,
    description2: String,
)
    requires
        ctx.campaign is None,
    ensures
        create_result(ctx) is Ok,
        create_state(ctx, name, description).campaign == Some(
            fresh_campaign(ctx.user, name, description),
        ),
        fresh_campaign(ctx.user, name, description).admin == ctx.user,
        fresh_campaign(ctx.user, name, description).amount_donated == 0,
        create_result(create_state(ctx, name, description)) == Err::<(), CrowdfundingError>(
            CrowdfundingError::AlreadyInitialized,
        ),
        create_state(create_state(ctx, name, description), name2, description2) == create_state(
            ctx,
            name,
            description,
        ),
{
}

/// A successful `donate` raises `amount_donated` by exactly `amount`; no
/// `donate` lowers it; and it succeeds exactly when the donor's balance
/// covers `amount`.
pub proof fn donate_adds_amount(ctx: Donate, amount: u64)
    requires
        ctx.wf(),
        ctx.campaign.data.amount_donated + amount <= u64::MAX,
    ensures
        donate_result(ctx, amount) is Ok <==> ctx.user.lamports >= amount,
        donate_result(ctx, amount) is Ok ==> donate_state(ctx, amount).campaign.data.amount_donated
            == ctx.campaign.data.amount_donated + amount,
        donate_state(ctx, amount).campaign.data.amount_donated
            >= ctx.campaign.data.amount_donated,
{
}

/// Whether `donate` succeeds does not depend on who signs it: it is never
/// refused as `Unauthorized`.
pub proof fn donate_open_to_anyone(ctx: Donate, amount: u64, donor: Identity)
    ensures
        donate_result((Donate { user: (UserAccount { key: donor, ..ctx.user }), ..ctx }), amount)
            == donate_result(ctx, amount),
        donate_result(ctx, amount) != Err::<(), CrowdfundingError>(
            CrowdfundingError::Unauthorized,
        ),
{
}

/// `withhdraw` signed by anyone but the campaign's admin is refused with
/// `Unauthorized`, whatever the amount and the rent floor.
pub proof fn withdraw_by_other_refused(ctx: Withdraw, amount: u64, rent_floor: u64)
    requires
        ctx.user.key@ != ctx.campaign.data.admin@,
    ensures
        withdraw_result(ctx, amount, rent_floor) == Err::<(), CrowdfundingError>(
            CrowdfundingError::Unauthorized,
        ),
{
}

/// `withhdraw` signed by the admin succeeds exactly when the balance less
/// the rent floor covers `amount`. Then the campaign's balance falls by
/// `amount`, the admin's rises by `amount`, and the record stays as it was;
/// otherwise no balance changes.
pub proof fn withdraw_by_admin(ctx: Withdraw, amount: u64, rent_floor: u64)
    requires
        ctx.wf(),
        ctx.user.key@ == ctx.campaign.data.admin@,
    ensures
        withdraw_result(ctx, amount, rent_floor) is Ok <==> ctx.campaign.lamports - rent_floor
            >= amount,
        withdraw_result(ctx, amount, rent_floor) is Ok ==> {
            &&& withdraw_state(ctx, amount, rent_floor).campaign.lamports == ctx.campaign.lamports
                - amount
            &&& withdraw_state(ctx, amount, rent_floor).user.lamports == ctx.user.lamports + amount
            &&& withdraw_state(ctx, amount, rent_floor).campaign.data == ctx.campaign.data
            &&& withdraw_state(ctx, amount, rent_floor).user.key == ctx.user.key
        },
        withdraw_result(ctx, amount, rent_floor) is Err ==> withdraw_state(ctx, amount, rent_floor)
            == ctx,
{
    assert(can_pay_out(ctx.campaign.lamports, rent_floor, amount) <==> ctx.campaign.lamports
        - rent_floor >= amount);
}

/// A refused `donate` leaves the record and both balances as they were.
pub proof fn failed_donate_changes_nothing(ctx: Donate, amount: u64)
    ensures
        donate_result(ctx, amount) is Err ==> donate_state(ctx, amount) == ctx,
{
}

/// A refused `withhdraw` leaves the record and both balances as they were.
pub proof fn failed_withdraw_changes_nothing(ctx: Withdraw, amount: u64, rent_floor: u64)
    ensures
        withdraw_result(ctx, amount, rent_floor) is Err ==> withdraw_state(ctx, amount, rent_floor)
            == ctx,
{
}

} // verus!
