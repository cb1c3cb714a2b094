use payme::address::Address;
use payme::payme_token::TokenContract;

fn setup(admin: &Address) -> TokenContract {
    let name = String::from("PaymeToken");
    let symbol = String::from("PMT");

    TokenContract::new(admin.clone(), name.clone(), symbol.clone(), 18_u32)
}

#[test]
fn test() {
    let admin = Address::from_str("admin");
    let user1 = Address::from_str("user-1");
    let user2 = Address::from_str("user-2");
    let user3 = Address::from_str("user-3");
    let user4 = Address::from_str("user-4");

    let mut payme_token = setup(&admin);

    let total_supply = payme_token.get_total_supply();
    assert_eq!(total_supply, 0);

    let name = String::from("PaymeToken");
    let symbol = String::from("PMT");

    // test getting metadata
    let token_name = payme_token.name();
    let token_symbol = payme_token.symbol();
    let decimals = payme_token.decimals();

    assert_eq!(token_name, name);
    assert_eq!(token_symbol, symbol);
    assert_eq!(decimals, 18_u32);

    // Testing Minting
    let amount: i128 = 1_000_000;
    payme_token.mint(&admin, &user1, amount).unwrap();
    payme_token.mint(&admin, &user2, amount).unwrap();

    let user1_balance = payme_token.balance(&user1);
    let user2_balance = payme_token.balance(&user2);
    let total_supply = payme_token.get_total_supply();

    assert_eq!(user1_balance, amount);
    assert_eq!(user2_balance, amount);
    assert_eq!(total_supply, (amount + amount));

    // Testing Burning
    let burn_amount: i128 = 500_000;
    payme_token.burn(&user1, burn_amount).unwrap();
    let user1_balance_after_burn = payme_token.balance(&user1);
    let total_supply = payme_token.get_total_supply();

    assert_eq!(user1_balance_after_burn, amount - burn_amount);
    assert_eq!(total_supply, (amount + amount - burn_amount));

    // Testing Transfer
    let transfer_amount: i128 = 500_000;
    payme_token.transfer(&user2, &user3, transfer_amount).unwrap();
    let user2_balance_after_transfer = payme_token.balance(&user2);
    let user3_balance_after_transfer = payme_token.balance(&user3);

    assert_eq!(user2_balance_after_transfer, amount - transfer_amount);
    assert_eq!(user3_balance_after_transfer, transfer_amount);

    // Testing Approve, Allowance, TransferFrom, BurnFrom
    let transfer_from_amount: i128 = 250_000;
    let expiration_ledger = 100_u32;

    payme_token
        .approve(&user2, &user3, transfer_from_amount, expiration_ledger)
        .unwrap();

    let allowed_amount = payme_token.allowance(&user2, &user3);
    assert_eq!(allowed_amount, transfer_from_amount);

    let burn_from_amount: i128 = 50_000;
    payme_token
        .burn_from(&user3, &user2, burn_from_amount)
        .unwrap();

    let allowed_amount_after_burn = payme_token.allowance(&user2, &user3);
    assert_eq!(
        allowed_amount_after_burn,
        transfer_from_amount - burn_from_amount
    );

    let total_supply = payme_token.get_total_supply();
    assert_eq!(
        total_supply,
        (amount + amount - burn_amount - burn_from_amount)
    );

    payme_token
        .transfer_from(&user3, &user2, &user4, allowed_amount_after_burn)
        .unwrap();

    let user2_balance_after_transfer_from = payme_token.balance(&user2);
    let user4_balance_after_transfer_from = payme_token.balance(&user4);

    assert_eq!(user2_balance_after_transfer_from, transfer_from_amount);
    assert_eq!(user4_balance_after_transfer_from, allowed_amount_after_burn);
}
