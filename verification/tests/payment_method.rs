use finance_tracker::domain::payment::payment_method::{
    BankTransfer, CreditCard, DigitalMoney, DigitalWallet, MobilePayment, PaymentMethodName, PaymentMethodNameError, BNPL,
};

#[test]
fn test_payment_method_name_from_str() {
    let test_case = vec![
        ("Visa", PaymentMethodName::CreditCard(CreditCard::Visa)),
        ("MasterCard", PaymentMethodName::CreditCard(CreditCard::MasterCard)),
        ("American Express", PaymentMethodName::CreditCard(CreditCard::AmericanExpress)),
        ("JCB", PaymentMethodName::CreditCard(CreditCard::JCB)),
        ("Discover", PaymentMethodName::CreditCard(CreditCard::Discover)),
        ("Diners Club", PaymentMethodName::CreditCard(CreditCard::DinersClub)),
        ("Suica", PaymentMethodName::DigitalMoney(DigitalMoney::Suica)),
        ("PASMO", PaymentMethodName::DigitalMoney(DigitalMoney::Pasmo)),
        ("nanaco", PaymentMethodName::DigitalMoney(DigitalMoney::Nanaco)),
        ("WAON", PaymentMethodName::DigitalMoney(DigitalMoney::Waon)),
        ("楽天Edy", PaymentMethodName::DigitalMoney(DigitalMoney::RakutenEdy)),
        ("PayPay", PaymentMethodName::MobilePayment(MobilePayment::PayPay)),
        ("LinePay", PaymentMethodName::MobilePayment(MobilePayment::LinePay)),
        ("MerPay", PaymentMethodName::MobilePayment(MobilePayment::MerPay)),
        ("RakutenPay", PaymentMethodName::MobilePayment(MobilePayment::RakutenPay)),
        ("DBarai", PaymentMethodName::MobilePayment(MobilePayment::DBarai)),
        ("Venmo", PaymentMethodName::MobilePayment(MobilePayment::Venmo)),
        ("CashApp", PaymentMethodName::MobilePayment(MobilePayment::CashApp)),
        ("Zelle", PaymentMethodName::MobilePayment(MobilePayment::Zelle)),
        ("PayPal", PaymentMethodName::MobilePayment(MobilePayment::PayPal)),
        ("ApplePay", PaymentMethodName::DigitalWallet(DigitalWallet::ApplePay)),
        ("GooglePay", PaymentMethodName::DigitalWallet(DigitalWallet::GooglePay)),
        ("AmazonPay", PaymentMethodName::DigitalWallet(DigitalWallet::AmazonPay)),
        ("JapaneseBankTransfer", PaymentMethodName::BankTransfer(BankTransfer::JapaneseBankTransfer)),
        ("JapaneseDirectDebit", PaymentMethodName::BankTransfer(BankTransfer::JapaneseDirectDebit)),
        ("ACH", PaymentMethodName::BankTransfer(BankTransfer::ACH)),
        ("Affirm", PaymentMethodName::BNPL(BNPL::Affirm)),
        ("Klarna", PaymentMethodName::BNPL(BNPL::Klarna)),
        ("Afterpay", PaymentMethodName::BNPL(BNPL::Afterpay)),
    ];

    for i in test_case {
        let result = PaymentMethodName::from_str(i.0).unwrap();
        assert_eq!(result, i.1, "input: {}", i.1.to_string())
    }
}

#[test]
fn test_payment_method_name_from_str_error() {
    let error_cases = vec!["", "Invalid", "visa", "VISA", "mastercard", "apple pay", "suica"];

    for input in error_cases {
        assert!(PaymentMethodName::from_str(input).is_err(), "input: {}", input)
    }
}

#[test]
fn payment_method_test_credit_card_fmt() {
    let test_case = vec![
        ("Visa", CreditCard::Visa.to_string()),
        ("MasterCard", CreditCard::MasterCard.to_string()),
        ("American Express", CreditCard::AmericanExpress.to_string()),
        ("JCB", CreditCard::JCB.to_string()),
        ("Discover", CreditCard::Discover.to_string()),
        ("Diners Club", CreditCard::DinersClub.to_string()),
    ];

    for (expected, actual) in test_case {
        assert_eq!(expected.to_string(), actual);
    }
}

#[test]
fn payment_method_test_digital_money_fmt() {
    let test_case = vec![
        ("Suica", DigitalMoney::Suica.to_string()),
        ("PASMO", DigitalMoney::Pasmo.to_string()),
        ("nanaco", DigitalMoney::Nanaco.to_string()),
        ("WAON", DigitalMoney::Waon.to_string()),
        ("楽天Edy", DigitalMoney::RakutenEdy.to_string()),
    ];

    for (expected, actual) in test_case {
        assert_eq!(expected.to_string(), actual);
    }
}

#[test]
fn payment_method_test_mobile_payment_fmt() {
    let test_case = vec![
        ("PayPay", MobilePayment::PayPay.to_string()),
        ("LINE Pay", MobilePayment::LinePay.to_string()),
        ("メルペイ", MobilePayment::MerPay.to_string()),
        ("楽天ペイ", MobilePayment::RakutenPay.to_string()),
        ("d払い", MobilePayment::DBarai.to_string()),
        ("Venmo", MobilePayment::Venmo.to_string()),
        ("Cash App", MobilePayment::CashApp.to_string()),
        ("Zelle", MobilePayment::Zelle.to_string()),
        ("PayPal", MobilePayment::PayPal.to_string()),
    ];

    for (expected, actual) in test_case {
        assert_eq!(expected.to_string(), actual);
    }
}

#[test]
fn payment_method_test_digital_wallet_fmt() {
    let test_case = vec![
        ("ApplePay", DigitalWallet::ApplePay.to_string()),
        ("GooglePay", DigitalWallet::GooglePay.to_string()),
        ("AmazonPay", DigitalWallet::AmazonPay.to_string()),
    ];

    for (expected, actual) in test_case {
        assert_eq!(expected.to_string(), actual);
    }
}

#[test]
fn payment_method_test_bank_transfer_fmt() {
    let test_case = vec![
        ("Japanese BankTransfer", BankTransfer::JapaneseBankTransfer.to_string()),
        ("Japanese DirectDebit", BankTransfer::JapaneseDirectDebit.to_string()),
        ("ACH", BankTransfer::ACH.to_string()),
    ];

    for (expected, actual) in test_case {
        assert_eq!(expected.to_string(), actual);
    }
}

#[test]
fn payment_method_test_bnpl_fmt() {
    let test_case = vec![
        ("Affirm", BNPL::Affirm.to_string()),
        ("Klarna", BNPL::Klarna.to_string()),
        ("Afterpay", BNPL::Afterpay.to_string()),
    ];

    for (expected, actual) in test_case {
        assert_eq!(expected.to_string(), actual);
    }
}

#[test]
fn test_payment_method_name_category() {
    let test_case = vec![
        (PaymentMethodName::CreditCard(CreditCard::Visa), "Credit Card"),
        (PaymentMethodName::DigitalMoney(DigitalMoney::Suica), "Digital Money"),
        (PaymentMethodName::MobilePayment(MobilePayment::PayPay), "Mobile Payment"),
        (PaymentMethodName::DigitalWallet(DigitalWallet::ApplePay), "Digital Wallet"),
        (PaymentMethodName::BankTransfer(BankTransfer::ACH), "Bank Transfer"),
        (PaymentMethodName::BNPL(BNPL::Affirm), "Buy Now Pay Later"),
        (PaymentMethodName::DebitCard, "Debit Card"),
        (PaymentMethodName::CarrierBilling, "Carrier Billing"),
    ];

    for (payment_method, expected_category) in test_case {
        assert_eq!(payment_method.category(), expected_category);
    }
}

#[test]
fn payment_method_name_error_carries_the_text() {
    assert_eq!(
        PaymentMethodName::from_str("visa"),
        Err(PaymentMethodNameError::Invalid("visa".to_string()))
    );
    assert_eq!(
        PaymentMethodNameError::Invalid("visa".to_string()).to_string(),
        "Invalid payment method: visa"
    );
    assert_eq!(PaymentMethodName::from_str("LinePay").unwrap().to_string(), "LINE Pay");
    assert!(PaymentMethodName::from_str("LINE Pay").is_err());
    assert!(PaymentMethodName::from_str("デビットカード").is_err());
    assert_eq!(PaymentMethodName::DebitCard.to_string(), "デビットカード");
    assert_eq!(PaymentMethodName::MobilePayment(MobilePayment::LinePay).to_string(), "LINE Pay");
}
