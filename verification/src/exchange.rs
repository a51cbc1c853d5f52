use vstd::prelude::*;

verus! {

/// The price of an exchange option in base units of the native currency: the standard price,
/// or the lower one for holders. Every option from 3 on counts as the largest.
pub open spec fn exchange_cost(exchange_option: u8, is_holder: bool) -> u64 {
    if is_holder {
        if exchange_option == 0 {
            400_000_000
        } else if exchange_option == 1 {
            600_000_000
        } else if exchange_option == 2 {
            1_000_000_000
        } else {
            1_600_000_000
        }
    } else {
        if exchange_option == 0 {
            500_000_000
        } else if exchange_option == 1 {
            700_000_000
        } else if exchange_option == 2 {
            1_200_000_000
        } else {
            1_800_000_000
        }
    }
}

/// The token units that an exchange option grants.
pub open spec fn exchange_grant(exchange_option: u8) -> u64 {
    if exchange_option == 0 {
        70_000_000_000
    } else if exchange_option == 1 {
        140_000_000_000
    } else if exchange_option == 2 {
        320_000_000_000
    } else {
        500_000_000_000
    }
}

/// Looks up the price of an exchange option.
pub fn sol_amount_for(exchange_option: u8, is_holder: bool) -> (sol_amount: u64)
    ensures
        sol_amount == exchange_cost(exchange_option, is_holder),
{
    match is_holder {
        false => match exchange_option {
            0 => 500_000_000,
            1 => 700_000_000,
            2 => 1_200_000_000,
            _ => 1_800_000_000,
        },
        true => match exchange_option {
            0 => 400_000_000,
            1 => 600_000_000,
            2 => 1_000_000_000,
            _ => 1_600_000_000,
        },
    }
}

/// Looks up the token units that an exchange option grants.
pub fn skt_amount_for(exchange_option: u8) -> (skt_amount: u64)
    ensures
        skt_amount == exchange_grant(exchange_option),
{
    match exchange_option {
        0 => 70_000_000_000,
        1 => 140_000_000_000,
        2 => 320_000_000_000,
        _ => 500_000_000_000,
    }
}

} // verus!
