use finance_tracker::domain::payment::payment_method_name::{
    BankTransfer, CreditCard, DigitalMoney, DigitalWallet, MobilePayment, PaymentMethodCategoryName, PaymentMethodKindName,
    PaymentMethodNameError, BNPL,
};

#[test]
fn test_payment_method_kind_name_from_str() {
    let test_case = vec![
        ("Visa", PaymentMethodKindName::CreditCard(CreditCard::Visa)),
        ("MasterCard", PaymentMethodKindName::CreditCard(CreditCard::MasterCard)),
        ("American Express", PaymentMethodKindName::CreditCard(CreditCard::AmericanExpress)),
        ("JCB", PaymentMethodKindName::CreditCard(CreditCard::JCB)),
        ("Discover", PaymentMethodKindName::CreditCard(CreditCard::Discover)),
        ("Diners Club", PaymentMethodKindName::CreditCard(CreditCard::DinersClub)),
        ("Suica", PaymentMethodKindName::DigitalMoney(DigitalMoney::Suica)),
        ("PASMO", PaymentMethodKindName::DigitalMoney(DigitalMoney::Pasmo)),
        ("nanaco", PaymentMethodKindName::DigitalMoney(DigitalMoney::Nanaco)),
        ("WAON", PaymentMethodKindName::DigitalMoney(DigitalMoney::Waon)),
        ("楽天Edy", PaymentMethodKindName::DigitalMoney(DigitalMoney::RakutenEdy)),
        ("PayPay", PaymentMethodKindName::MobilePayment(MobilePayment::PayPay)),
        ("LINE Pay", PaymentMethodKindName::MobilePayment(MobilePayment::LinePay)),
        ("メルペイ", PaymentMethodKindName::MobilePayment(MobilePayment::MerPay)),
        ("楽天ペイ", PaymentMethodKindName::MobilePayment(MobilePayment::RakutenPay)),
        ("d払い", PaymentMethodKindName::MobilePayment(MobilePayment::DBarai)),
        ("Venmo", PaymentMethodKindName::MobilePayment(MobilePayment::Venmo)),
        ("Cash App", PaymentMethodKindName::MobilePayment(MobilePayment::CashApp)),
        ("Zelle", PaymentMethodKindName::MobilePayment(MobilePayment::Zelle)),
        ("PayPal", PaymentMethodKindName::MobilePayment(MobilePayment::PayPal)),
        ("ApplePay", PaymentMethodKindName::DigitalWallet(DigitalWallet::ApplePay)),
        ("GooglePay", PaymentMethodKindName::DigitalWallet(DigitalWallet::GooglePay)),
        ("AmazonPay", PaymentMethodKindName::DigitalWallet(DigitalWallet::AmazonPay)),
        ("Japanese BankTransfer", PaymentMethodKindName::BankTransfer(BankTransfer::JapaneseBankTransfer)),
        ("Japanese DirectDebit", PaymentMethodKindName::BankTransfer(BankTransfer::JapaneseDirectDebit)),
        ("ACH", PaymentMethodKindName::BankTransfer(BankTransfer::ACH)),
        ("Affirm", PaymentMethodKindName::BNPL(BNPL::Affirm)),
        ("Klarna", PaymentMethodKindName::BNPL(BNPL::Klarna)),
        ("Afterpay", PaymentMethodKindName::BNPL(BNPL::Afterpay)),
    ];

    for i in test_case {
        let result = PaymentMethodKindName::from_str(i.0).unwrap();
        assert_eq!(result, i.1, "input: {}", i.1.to_string())
    }
}

#[test]
fn test_payment_method_kind_name_from_str_error() {
    let error_cases = vec!["", "Invalid", "visa", "VISA", "mastercard", "apple pay", "suica"];

    for input in error_cases {
        assert!(PaymentMethodKindName::from_str(input).is_err(), "input: {}", input)
    }
}

#[test]
fn payment_method_name_test_credit_card_fmt() {
    let test_case = vec![
        ("Visa", CreditCard::Visa.to_string()),
        ("MasterCard", CreditCard::MasterCard.to_string()),
        ("American Express", CreditCard::AmericanExpress.to_string()),
        ("JCB", CreditCard::JCB.to_string()),
        ("Discover", CreditCard::Discover.to_string()),
        ("Diners Club", CreditCard::DinersClub.to_string()),
    ];

    for (expected, actual) in test_case {
        assert_eq!(expected.to_string(), actual);
    }
}

#[test]
fn payment_method_name_test_digital_money_fmt() {
    let test_case = vec![
        ("Suica", DigitalMoney::Suica.to_string()),
        ("PASMO", DigitalMoney::Pasmo.to_string()),
        ("nanaco", DigitalMoney::Nanaco.to_string()),
        ("WAON", DigitalMoney::Waon.to_string()),
        ("楽天Edy", DigitalMoney::RakutenEdy.to_string()),
    ];

    for (expected, actual) in test_case {
        assert_eq!(expected.to_string(), actual);
    }
}

#[test]
fn payment_method_name_test_mobile_payment_fmt() {
    let test_case = vec![
        ("PayPay", MobilePayment::PayPay.to_string()),
        ("LINE Pay", MobilePayment::LinePay.to_string()),
        ("メルペイ", MobilePayment::MerPay.to_string()),
        ("楽天ペイ", MobilePayment::RakutenPay.to_string()),
        ("d払い", MobilePayment::DBarai.to_string()),
        ("Venmo", MobilePayment::Venmo.to_string()),
        ("Cash App", MobilePayment::CashApp.to_string()),
        ("Zelle", MobilePayment::Zelle.to_string()),
        ("PayPal", MobilePayment::PayPal.to_string()),
    ];

    for (expected, actual) in test_case {
        assert_eq!(expected.to_string(), actual);
    }
}

#[test]
fn payment_method_name_test_digital_wallet_fmt() {
    let test_case = vec![
        ("ApplePay", DigitalWallet::ApplePay.to_string()),
        ("GooglePay", DigitalWallet::GooglePay.to_string()),
        ("AmazonPay", DigitalWallet::AmazonPay.to_string()),
    ];

    for (expected, actual) in test_case {
        assert_eq!(expected.to_string(), actual);
    }
}

#[test]
fn payment_method_name_test_bank_transfer_fmt() {
    let test_case = vec![
        ("Japanese BankTransfer", BankTransfer::JapaneseBankTransfer.to_string()),
        ("Japanese DirectDebit", BankTransfer::JapaneseDirectDebit.to_string()),
        ("ACH", BankTransfer::ACH.to_string()),
    ];

    for (expected, actual) in test_case {
        assert_eq!(expected.to_string(), actual);
    }
}

#[test]
fn payment_method_name_test_bnpl_fmt() {
    let test_case = vec![
        ("Affirm", BNPL::Affirm.to_string()),
        ("Klarna", BNPL::Klarna.to_string()),
        ("Afterpay", BNPL::Afterpay.to_string()),
    ];

    for (expected, actual) in test_case {
        assert_eq!(expected.to_string(), actual);
    }
}

#[test]
fn test_payment_method_kind_name_fmt() {
    let test_case = vec![
        (PaymentMethodKindName::CreditCard(CreditCard::Visa), "Visa"),
        (PaymentMethodKindName::DigitalMoney(DigitalMoney::Pasmo), "PASMO"),
        (PaymentMethodKindName::MobilePayment(MobilePayment::CashApp), "Cash App"),
        (PaymentMethodKindName::DigitalWallet(DigitalWallet::AmazonPay), "AmazonPay"),
        (PaymentMethodKindName::BankTransfer(BankTransfer::ACH), "ACH"),
        (PaymentMethodKindName::BNPL(BNPL::Affirm), "Affirm"),
        (PaymentMethodKindName::DebitCard, "デビットカード"),
        (PaymentMethodKindName::CarrierBilling, "キャリア決済"),
    ];

    for (kind, expected) in test_case {
        assert_eq!(kind.to_string(), expected)
    }
}

#[test]
fn test_payment_method_category_name_from_str() {
    let test_case = create_payment_method_category_test_case();

    for (found, expected) in test_case {
        let result = PaymentMethodCategoryName::from_str(found).unwrap();
        assert_eq!(result, expected)
    }

    let invalid_test_case = PaymentMethodCategoryName::from_str("invalid");
    assert!(matches!(invalid_test_case, Err(PaymentMethodNameError::InvalidCategoryName(_))))
}

#[test]
fn test_payment_method_category_name_fmt() {
    let test_case = create_payment_method_category_test_case();

    for (expected, found) in test_case {
        let result = found.to_string();
        assert_eq!(expected, &result)
    }
}

fn create_payment_method_category_test_case() -> Vec<(&'static str, PaymentMethodCategoryName)> {
    vec![
        ("Credit Card", PaymentMethodCategoryName::CreditCard),
        ("Digital Money", PaymentMethodCategoryName::DigitalMoney),
        ("Mobile Payment", PaymentMethodCategoryName::MobilePayment),
        ("Digital Wallet", PaymentMethodCategoryName::DigitalWallet),
        ("Bank Transfer", PaymentMethodCategoryName::BankTransfer),
        ("BNPL", PaymentMethodCategoryName::BNPL),
        ("Debit Card", PaymentMethodCategoryName::DebitCard),
        ("Carrier Billing", PaymentMethodCategoryName::CarrierBilling),
    ]
}

#[test]
fn taxonomy_errors_carry_the_offending_text() {
    assert_eq!(
        PaymentMethodCategoryName::from_str("credit card"),
        Err(PaymentMethodNameError::InvalidCategoryName("credit card".to_string()))
    );
    assert_eq!(
        PaymentMethodKindName::from_str("LinePay"),
        Err(PaymentMethodNameError::InvalidKindName("LinePay".to_string()))
    );
    assert_eq!(
        PaymentMethodNameError::InvalidCategoryName("x".to_string()).to_string(),
        "Invalid payment method category: x"
    );
    assert_eq!(
        PaymentMethodNameError::InvalidKindName("y".to_string()).to_string(),
        "Invalid payment method kind: y"
    );
}

fn every_kind() -> Vec<PaymentMethodKindName> {
    vec![
        PaymentMethodKindName::CreditCard(CreditCard::Visa),
        PaymentMethodKindName::CreditCard(CreditCard::MasterCard),
        PaymentMethodKindName::CreditCard(CreditCard::AmericanExpress),
        PaymentMethodKindName::CreditCard(CreditCard::JCB),
        PaymentMethodKindName::CreditCard(CreditCard::Discover),
        PaymentMethodKindName::CreditCard(CreditCard::DinersClub),
        PaymentMethodKindName::DigitalMoney(DigitalMoney::Suica),
        PaymentMethodKindName::DigitalMoney(DigitalMoney::Pasmo),
        PaymentMethodKindName::DigitalMoney(DigitalMoney::Nanaco),
        PaymentMethodKindName::DigitalMoney(DigitalMoney::Waon),
        PaymentMethodKindName::DigitalMoney(DigitalMoney::RakutenEdy),
        PaymentMethodKindName::MobilePayment(MobilePayment::PayPay),
        PaymentMethodKindName::MobilePayment(MobilePayment::LinePay),
        PaymentMethodKindName::MobilePayment(MobilePayment::MerPay),
        PaymentMethodKindName::MobilePayment(MobilePayment::RakutenPay),
        PaymentMethodKindName::MobilePayment(MobilePayment::DBarai),
        PaymentMethodKindName::MobilePayment(MobilePayment::Venmo),
        PaymentMethodKindName::MobilePayment(MobilePayment::CashApp),
        PaymentMethodKindName::MobilePayment(MobilePayment::Zelle),
        PaymentMethodKindName::MobilePayment(MobilePayment::PayPal),
        PaymentMethodKindName::DigitalWallet(DigitalWallet::ApplePay),
        PaymentMethodKindName::DigitalWallet(DigitalWallet::GooglePay),
        PaymentMethodKindName::DigitalWallet(DigitalWallet::AmazonPay),
        PaymentMethodKindName::BankTransfer(BankTransfer::JapaneseBankTransfer),
        PaymentMethodKindName::BankTransfer(BankTransfer::JapaneseDirectDebit),
        PaymentMethodKindName::BankTransfer(BankTransfer::ACH),
        PaymentMethodKindName::BNPL(BNPL::Affirm),
        PaymentMethodKindName::BNPL(BNPL::Klarna),
        PaymentMethodKindName::BNPL(BNPL::Afterpay),
        PaymentMethodKindName::DebitCard,
        PaymentMethodKindName::CarrierBilling,
    ]
}

#[test]
fn every_kind_is_parsed_from_the_label_it_is_displayed_as() {
    let kinds = every_kind();
    assert_eq!(kinds.len(), 31);
    for kind in &kinds {
        assert_eq!(PaymentMethodKindName::from_str(&kind.to_string()), Ok(*kind));
    }
    for (i, a) in kinds.iter().enumerate() {
        for b in &kinds[i + 1..] {
            assert_ne!(a.to_string(), b.to_string());
        }
    }
}

#[test]
fn every_category_is_parsed_from_the_label_it_is_displayed_as() {
    for (_, category) in create_payment_method_category_test_case() {
        assert_eq!(PaymentMethodCategoryName::from_str(&category.to_string()), Ok(category));
    }
}

#[test]
fn kind_belongs_to_one_category() {
    assert_eq!(
        PaymentMethodKindName::CreditCard(CreditCard::JCB).category(),
        PaymentMethodCategoryName::CreditCard
    );
    assert_eq!(
        PaymentMethodKindName::MobilePayment(MobilePayment::PayPal).category(),
        PaymentMethodCategoryName::MobilePayment
    );
    assert_eq!(PaymentMethodKindName::DebitCard.category(), PaymentMethodCategoryName::DebitCard);
    assert_eq!(
        PaymentMethodKindName::CarrierBilling.category(),
        PaymentMethodCategoryName::CarrierBilling
    );
}
