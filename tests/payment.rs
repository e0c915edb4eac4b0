use lessons::decimal::Decimal;
use lessons::payment::{describe, DebitData, PaymentMethod};

#[test]
fn describe_cash() {
    let r = describe(PaymentMethod::Cash(Decimal::new(5902, 2)));
    assert_eq!(r, "Paying with Cash... in the amount of 59.02");
}

#[test]
fn describe_credit_card_leaves_out_amount() {
    let r = describe(PaymentMethod::CreditCard("shitcard".to_string(), Decimal::new(3902, 2)));
    assert_eq!(r, "Paying with Credit card.. some_string shitcard");
}

#[test]
fn describe_debit_card() {
    let r = describe(PaymentMethod::DebitCard(DebitData {
        card_number: "Debit Num".to_string(),
        amount: Decimal::new(25553, 2),
    }));
    assert_eq!(r, "Paying with debit card.. card_number Debit Num, amount 255.53");
}

#[test]
fn describe_crypto() {
    let r = describe(PaymentMethod::Crypto {
        account_id: "ABC 123".to_string(),
        amount: Decimal::new(99903, 2),
    });
    assert_eq!(r, "Paying with cryptocurrency.. amount_id ABC 123 amount 999.03");
}

#[test]
fn describe_unused() {
    assert_eq!(describe(PaymentMethod::Unused), "Invalid payment method");
}

#[test]
fn describe_twice_gives_same_text() {
    let make = || PaymentMethod::Crypto {
        account_id: "ABC 123".to_string(),
        amount: Decimal::new(-1, 3),
    };
    let first = describe(make());
    let second = describe(make());
    assert_eq!(first, second);
    assert_eq!(first, "Paying with cryptocurrency.. amount_id ABC 123 amount -0.001");
}

#[test]
fn describe_empty_label_and_whole_amount() {
    let r = describe(PaymentMethod::DebitCard(DebitData {
        card_number: String::new(),
        amount: Decimal::new(7, 0),
    }));
    assert_eq!(r, "Paying with debit card.. card_number , amount 7");
}
