use time_market::ledger::LedgerError;
use time_market::ledger::TimeMarketplace;

#[test]
fn mints_return_sequential_ids() {
    let mut market = TimeMarketplace::new();
    let mut ids = Vec::new();
    for i in 0..5u32 {
        ids.push(market.mint_time_token(String::from("GA"), 10, i, String::from("slot")));
    }
    assert_eq!(ids, vec![1, 2, 3, 4, 5]);
    assert_eq!(market.get_token_count(), 5);
}

#[test]
fn ids_are_not_reused_after_delete() {
    let mut market = TimeMarketplace::new();
    let seller = String::from("GA");
    let first = market.mint_time_token(seller.clone(), 10, 1, String::from("a"));
    assert!(market.delete_token(first, &seller));
    let second = market.mint_time_token(seller.clone(), 10, 1, String::from("b"));
    assert_eq!(second, 2);
    assert!(market.get_token(first).is_none());
}

#[test]
fn purchase_moves_rate_times_hours() {
    let mut market = TimeMarketplace::new();
    let seller = String::from("GSELLER");
    let buyer = String::from("GBUYER");
    let id = market.mint_time_token(seller.clone(), 100, 40, String::from("Design Work"));
    let payment = market.plan_purchase(id, &buyer, 10).unwrap();
    assert_eq!(payment.from, buyer);
    assert_eq!(payment.to, seller);
    assert_eq!(payment.amount, 1000);
    assert!(market.purchase_token(id, 10, true));
    assert_eq!(market.get_token(id).unwrap().hours_available, 30);
}

#[test]
fn failed_transfer_leaves_balance() {
    let mut market = TimeMarketplace::new();
    let id = market.mint_time_token(String::from("GSELLER"), 100, 40, String::from("Design Work"));
    assert!(market.plan_purchase(id, &String::from("GBUYER"), 10).is_ok());
    assert!(!market.purchase_token(id, 10, false));
    assert_eq!(market.get_token(id).unwrap().hours_available, 40);
}

#[test]
fn purchase_of_whole_balance_leaves_zero() {
    let mut market = TimeMarketplace::new();
    let id = market.mint_time_token(String::from("GSELLER"), 7, 3, String::from("x"));
    assert_eq!(market.plan_purchase(id, &String::from("GBUYER"), 3).unwrap().amount, 21);
    assert!(market.purchase_token(id, 3, true));
    assert_eq!(market.get_token(id).unwrap().hours_available, 0);
    assert!(!market.purchase_token(id, 1, true));
}

#[test]
fn purchase_of_missing_token_fails() {
    let mut market = TimeMarketplace::new();
    let plan = market.plan_purchase(9, &String::from("GBUYER"), 1);
    assert_eq!(plan.unwrap_err(), LedgerError::NotFound);
    assert!(!market.purchase_token(9, 1, true));
}

#[test]
fn purchase_whose_price_overflows_fails() {
    let mut market = TimeMarketplace::new();
    let id = market.mint_time_token(String::from("GSELLER"), i128::MAX, 10, String::from("x"));
    let plan = market.plan_purchase(id, &String::from("GBUYER"), 2);
    assert_eq!(plan.unwrap_err(), LedgerError::AmountOverflow);
    assert!(!market.purchase_token(id, 2, true));
    assert_eq!(market.get_token(id).unwrap().hours_available, 10);
}

#[test]
fn negative_rate_is_accepted() {
    let mut market = TimeMarketplace::new();
    let id = market.mint_time_token(String::from("GSELLER"), -5, 10, String::from("x"));
    assert_eq!(market.plan_purchase(id, &String::from("GBUYER"), 4).unwrap().amount, -20);
}

#[test]
fn other_seller_cannot_update_or_delete() {
    let mut market = TimeMarketplace::new();
    let owner = String::from("GOWNER");
    let other = String::from("GOTHER");
    let id = market.mint_time_token(owner.clone(), 100, 40, String::from("x"));
    assert!(!market.update_availability(id, &other, 1));
    assert!(!market.delete_token(id, &other));
    let token = market.get_token(id).unwrap();
    assert_eq!(token.seller, owner);
    assert_eq!(token.hours_available, 40);
    assert_eq!(token.description, String::from("x"));
}

#[test]
fn update_of_missing_token_fails() {
    let mut market = TimeMarketplace::new();
    assert!(!market.update_availability(3, &String::from("GA"), 5));
    assert!(!market.delete_token(3, &String::from("GA")));
}

#[test]
fn second_delete_fails() {
    let mut market = TimeMarketplace::new();
    let seller = String::from("GA");
    let id = market.mint_time_token(seller.clone(), 100, 40, String::from("x"));
    assert!(market.delete_token(id, &seller));
    assert!(market.get_token(id).is_none());
    assert!(!market.delete_token(id, &seller));
    assert!(!market.update_availability(id, &seller, 3));
}

#[test]
fn deleted_ids_stay_in_seller_list() {
    let mut market = TimeMarketplace::new();
    let seller = String::from("GA");
    let id = market.mint_time_token(seller.clone(), 100, 40, String::from("x"));
    assert!(market.delete_token(id, &seller));
    assert_eq!(market.get_seller_tokens(&seller), vec![id]);
}

#[test]
fn same_seller_list_keeps_mint_order() {
    let mut market = TimeMarketplace::new();
    let seller = String::from("GA");
    let a = market.mint_time_token(seller.clone(), 100, 40, String::from("Service 1"));
    let b = market.mint_time_token(seller.clone(), 150, 20, String::from("Service 2"));
    assert_eq!(market.get_seller_tokens(&seller), vec![a, b]);
    assert_eq!(market.get_seller_tokens(&seller), vec![1, 2]);
}

#[test]
fn different_sellers_lists_are_disjoint() {
    let mut market = TimeMarketplace::new();
    let a = String::from("GA");
    let b = String::from("GB");
    market.mint_time_token(a.clone(), 100, 40, String::from("Service 1"));
    market.mint_time_token(b.clone(), 150, 20, String::from("Service 2"));
    assert_eq!(market.get_seller_tokens(&a), vec![1]);
    assert_eq!(market.get_seller_tokens(&b), vec![2]);
    assert_eq!(market.get_token_count(), 2);
}

#[test]
fn unknown_seller_has_no_tokens() {
    let market = TimeMarketplace::new();
    assert!(market.get_seller_tokens(&String::from("GNOBODY")).is_empty());
    assert!(market.get_token(1).is_none());
}

#[test]
fn initialize_resets_counter_only() {
    let mut market = TimeMarketplace::new();
    let id = market.mint_time_token(String::from("GA"), 1, 2, String::from("x"));
    market.initialize();
    assert_eq!(market.get_token_count(), 0);
    assert_eq!(market.get_token(id).unwrap().hours_available, 2);
}

#[test]
fn duplicate_copies_every_field() {
    let mut market = TimeMarketplace::new();
    let id = market.mint_time_token(String::from("GA"), 12, 34, String::from("desc"));
    let token = market.get_token(id).unwrap();
    let copy = token.duplicate();
    assert_eq!(copy.seller, token.seller);
    assert_eq!(copy.hourly_rate, 12);
    assert_eq!(copy.hours_available, 34);
    assert_eq!(copy.description, String::from("desc"));
}
