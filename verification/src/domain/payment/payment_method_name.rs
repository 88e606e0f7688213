//! The closed taxonomy of payment methods: a category, and a kind that
//! belongs to exactly one category.
//!
//! Each value has one label, which it is both displayed as and parsed
//! from.

use crate::text::str_eq;
use vstd::prelude::*;

verus! {

/// Why a text names no category or no kind.
#[derive(Debug, PartialEq, Eq)]
pub enum PaymentMethodNameError {
    /// The text names no category.
    InvalidCategoryName(String),
    /// The text names no kind.
    InvalidKindName(String),
}

/// The mathematical value of a [`PaymentMethodNameError`].
pub enum PaymentMethodNameErrorView {
    InvalidCategoryName(Seq<char>),
    InvalidKindName(Seq<char>),
}

impl PaymentMethodNameErrorView {
    /// The message of this error.
    pub open spec fn message(self) -> Seq<char> {
        match self {
            PaymentMethodNameErrorView::InvalidCategoryName(s) => "Invalid payment method category: "@
                + s,
            PaymentMethodNameErrorView::InvalidKindName(s) => "Invalid payment method kind: "@ + s,
        }
    }
}

impl View for PaymentMethodNameError {
    type V = PaymentMethodNameErrorView;

    open spec fn view(&self) -> PaymentMethodNameErrorView {
        match self {
            PaymentMethodNameError::InvalidCategoryName(s) => PaymentMethodNameErrorView::InvalidCategoryName(s@),
            PaymentMethodNameError::InvalidKindName(s) => PaymentMethodNameErrorView::InvalidKindName(
                s@,
            ),
        }
    }
}

impl PaymentMethodNameError {
    /// The message of this error, as a string.
    pub fn to_string(&self) -> (r: String)
        ensures
            r@ == self@.message(),
    {
        match self {
            PaymentMethodNameError::InvalidCategoryName(s) => "Invalid payment method category: ".to_owned().concat(
                s.as_str(),
            ),
            PaymentMethodNameError::InvalidKindName(s) => "Invalid payment method kind: ".to_owned().concat(
                s.as_str(),
            ),
        }
    }
}

/// The category of a payment method.
#[derive(Debug, Clone, Copy, PartialEq, Eq, Structural)]
pub enum PaymentMethodCategoryName {
    CreditCard,
    DigitalMoney,
    MobilePayment,
    DigitalWallet,
    BankTransfer,
    BNPL,
    DebitCard,
    CarrierBilling,
}

/// The kind of a payment method, grouped by the category it belongs to.
#[derive(Debug, Clone, Copy, PartialEq, Eq, Structural)]
pub enum PaymentMethodKindName {
    CreditCard(CreditCard),
    DigitalMoney(DigitalMoney),
    MobilePayment(MobilePayment),
    DigitalWallet(DigitalWallet),
    BankTransfer(BankTransfer),
    BNPL(BNPL),
    DebitCard,
    CarrierBilling,
}

/// A credit card brand.
#[derive(Debug, Clone, Copy, PartialEq, Eq, Structural)]
pub enum CreditCard {
    Visa,
    MasterCard,
    AmericanExpress,
    JCB,
    Discover,
    DinersClub,
}

impl CreditCard {
    /// The display label.
    pub open spec fn label(self) -> Seq<char> {
        match self {
            CreditCard::Visa => "Visa"@,
            CreditCard::MasterCard => "MasterCard"@,
            CreditCard::AmericanExpress => "American Express"@,
            CreditCard::JCB => "JCB"@,
            CreditCard::Discover => "Discover"@,
            CreditCard::DinersClub => "Diners Club"@,
        }
    }

    /// The display label, as a string.
    pub fn to_string(&self) -> (r: String)
        ensures
            r@ == self.label(),
    {
        match self {
            CreditCard::Visa => "Visa".to_owned(),
            CreditCard::MasterCard => "MasterCard".to_owned(),
            CreditCard::AmericanExpress => "American Express".to_owned(),
            CreditCard::JCB => "JCB".to_owned(),
            CreditCard::Discover => "Discover".to_owned(),
            CreditCard::DinersClub => "Diners Club".to_owned(),
        }
    }
}

/// A prepaid electronic money brand.
#[derive(Debug, Clone, Copy, PartialEq, Eq, Structural)]
pub enum DigitalMoney {
    Suica,
    Pasmo,
    Nanaco,
    Waon,
    RakutenEdy,
}

impl DigitalMoney {
    /// The display label.
    pub open spec fn label(self) -> Seq<char> {
        match self {
            DigitalMoney::Suica => "Suica"@,
            DigitalMoney::Pasmo => "PASMO"@,
            DigitalMoney::Nanaco => "nanaco"@,
            DigitalMoney::Waon => "WAON"@,
            DigitalMoney::RakutenEdy => "楽天Edy"@,
        }
    }

    /// The display label, as a string.
    pub fn to_string(&self) -> (r: String)
        ensures
            r@ == self.label(),
    {
        match self {
            DigitalMoney::Suica => "Suica".to_owned(),
            DigitalMoney::Pasmo => "PASMO".to_owned(),
            DigitalMoney::Nanaco => "nanaco".to_owned(),
            DigitalMoney::Waon => "WAON".to_owned(),
            DigitalMoney::RakutenEdy => "楽天Edy".to_owned(),
        }
    }
}

/// A mobile payment service.
#[derive(Debug, Clone, Copy, PartialEq, Eq, Structural)]
pub enum MobilePayment {
    PayPay,
    LinePay,
    MerPay,
    RakutenPay,
    DBarai,
    Venmo,
    CashApp,
    Zelle,
    PayPal,
}

impl MobilePayment {
    /// The display label.
    pub open spec fn label(self) -> Seq<char> {
        match self {
            MobilePayment::PayPay => "PayPay"@,
            MobilePayment::LinePay => "LINE Pay"@,
            MobilePayment::MerPay => "メルペイ"@,
            MobilePayment::RakutenPay => "楽天ペイ"@,
            MobilePayment::DBarai => "d払い"@,
            MobilePayment::Venmo => "Venmo"@,
            MobilePayment::CashApp => "Cash App"@,
            MobilePayment::Zelle => "Zelle"@,
            MobilePayment::PayPal => "PayPal"@,
        }
    }

    /// The display label, as a string.
    pub fn to_string(&self) -> (r: String)
        ensures
            r@ == self.label(),
    {
        match self {
            MobilePayment::PayPay => "PayPay".to_owned(),
            MobilePayment::LinePay => "LINE Pay".to_owned(),
            MobilePayment::MerPay => "メルペイ".to_owned(),
            MobilePayment::RakutenPay => "楽天ペイ".to_owned(),
            MobilePayment::DBarai => "d払い".to_owned(),
            MobilePayment::Venmo => "Venmo".to_owned(),
            MobilePayment::CashApp => "Cash App".to_owned(),
            MobilePayment::Zelle => "Zelle".to_owned(),
            MobilePayment::PayPal => "PayPal".to_owned(),
        }
    }
}

/// A digital wallet.
#[derive(Debug, Clone, Copy, PartialEq, Eq, Structural)]
pub enum DigitalWallet {
    ApplePay,
    GooglePay,
    AmazonPay,
}

impl DigitalWallet {
    /// The display label.
    pub open spec fn label(self) -> Seq<char> {
        match self {
            DigitalWallet::ApplePay => "ApplePay"@,
            DigitalWallet::GooglePay => "GooglePay"@,
            DigitalWallet::AmazonPay => "AmazonPay"@,
        }
    }

    /// The display label, as a string.
    pub fn to_string(&self) -> (r: String)
        ensures
            r@ == self.label(),
    {
        match self {
            DigitalWallet::ApplePay => "ApplePay".to_owned(),
            DigitalWallet::GooglePay => "GooglePay".to_owned(),
            DigitalWallet::AmazonPay => "AmazonPay".to_owned(),
        }
    }
}

/// A kind of bank transfer.
#[derive(Debug, Clone, Copy, PartialEq, Eq, Structural)]
pub enum BankTransfer {
    JapaneseBankTransfer,
    JapaneseDirectDebit,
    ACH,
}

impl BankTransfer {
    /// The display label.
    pub open spec fn label(self) -> Seq<char> {
        match self {
            BankTransfer::JapaneseBankTransfer => "Japanese BankTransfer"@,
            BankTransfer::JapaneseDirectDebit => "Japanese DirectDebit"@,
            BankTransfer::ACH => "ACH"@,
        }
    }

    /// The display label, as a string.
    pub fn to_string(&self) -> (r: String)
        ensures
            r@ == self.label(),
    {
        match self {
            BankTransfer::JapaneseBankTransfer => "Japanese BankTransfer".to_owned(),
            BankTransfer::JapaneseDirectDebit => "Japanese DirectDebit".to_owned(),
            BankTransfer::ACH => "ACH".to_owned(),
        }
    }
}

/// A buy-now-pay-later service.
#[derive(Debug, Clone, Copy, PartialEq, Eq, Structural)]
pub enum BNPL {
    Affirm,
    Klarna,
    Afterpay,
}

impl BNPL {
    /// The display label.
    pub open spec fn label(self) -> Seq<char> {
        match self {
            BNPL::Affirm => "Affirm"@,
            BNPL::Klarna => "Klarna"@,
            BNPL::Afterpay => "Afterpay"@,
        }
    }

    /// The display label, as a string.
    pub fn to_string(&self) -> (r: String)
        ensures
            r@ == self.label(),
    {
        match self {
            BNPL::Affirm => "Affirm".to_owned(),
            BNPL::Klarna => "Klarna".to_owned(),
            BNPL::Afterpay => "Afterpay".to_owned(),
        }
    }
}

impl PaymentMethodCategoryName {
    /// The label of the category, which it is both displayed as and parsed
    /// from.
    pub open spec fn label(self) -> Seq<char> {
        match self {
            PaymentMethodCategoryName::CreditCard => "Credit Card"@,
            PaymentMethodCategoryName::DigitalMoney => "Digital Money"@,
            PaymentMethodCategoryName::MobilePayment => "Mobile Payment"@,
            PaymentMethodCategoryName::DigitalWallet => "Digital Wallet"@,
            PaymentMethodCategoryName::BankTransfer => "Bank Transfer"@,
            PaymentMethodCategoryName::BNPL => "BNPL"@,
            PaymentMethodCategoryName::DebitCard => "Debit Card"@,
            PaymentMethodCategoryName::CarrierBilling => "Carrier Billing"@,
        }
    }

    /// The category that `s` names, if it names one: the one whose label is
    /// exactly `s`.
    pub open spec fn from_text(s: Seq<char>) -> Option<PaymentMethodCategoryName> {
        if exists|c: PaymentMethodCategoryName| c.label() == s {
            Some(choose|c: PaymentMethodCategoryName| c.label() == s)
        } else {
            None
        }
    }

    /// No two categories share a label.
    pub proof fn lemma_label_injective(a: PaymentMethodCategoryName, b: PaymentMethodCategoryName)
        requires
            a.label() == b.label(),
        ensures
            a == b,
    {
        reveal_strlit("Credit Card");
        assert("Credit Card"@.len() == 11);
        assert("Credit Card"@[0] == 'C');
        reveal_strlit("Digital Money");
        assert("Digital Money"@.len() == 13);
        assert("Digital Money"@[0] == 'D');
        reveal_strlit("Mobile Payment");
        assert("Mobile Payment"@.len() == 14);
        assert("Mobile Payment"@[0] == 'M');
        reveal_strlit("Digital Wallet");
        assert("Digital Wallet"@.len() == 14);
        assert("Digital Wallet"@[0] == 'D');
        reveal_strlit("Bank Transfer");
        assert("Bank Transfer"@.len() == 13);
        assert("Bank Transfer"@[0] == 'B');
        reveal_strlit("BNPL");
        assert("BNPL"@.len() == 4);
        assert("BNPL"@[0] == 'B');
        reveal_strlit("Debit Card");
        assert("Debit Card"@.len() == 10);
        assert("Debit Card"@[0] == 'D');
        reveal_strlit("Carrier Billing");
        assert("Carrier Billing"@.len() == 15);
        assert("Carrier Billing"@[0] == 'C');
    }

    /// No label is empty.
    pub proof fn lemma_label_not_empty(c: PaymentMethodCategoryName)
        ensures
            c.label().len() > 0,
    {
        reveal_strlit("Credit Card");
        assert("Credit Card"@.len() == 11);
        reveal_strlit("Digital Money");
        assert("Digital Money"@.len() == 13);
        reveal_strlit("Mobile Payment");
        assert("Mobile Payment"@.len() == 14);
        reveal_strlit("Digital Wallet");
        assert("Digital Wallet"@.len() == 14);
        reveal_strlit("Bank Transfer");
        assert("Bank Transfer"@.len() == 13);
        reveal_strlit("BNPL");
        assert("BNPL"@.len() == 4);
        reveal_strlit("Debit Card");
        assert("Debit Card"@.len() == 10);
        reveal_strlit("Carrier Billing");
        assert("Carrier Billing"@.len() == 15);
    }

    /// Parsing the label of a category gives the category.
    pub proof fn lemma_from_text_label(c: PaymentMethodCategoryName)
        ensures
            PaymentMethodCategoryName::from_text(c.label()) == Some(c),
    {
        let d = choose|d: PaymentMethodCategoryName| d.label() == c.label();
        Self::lemma_label_injective(d, c);
    }

    /// Parses a category from its label; the match is exact and case
    /// sensitive.
    pub fn from_str(s: &str) -> (r: Result<Self, PaymentMethodNameError>)
        ensures
            match r {
                Ok(c) => PaymentMethodCategoryName::from_text(s@) == Some(c),
                Err(e) => PaymentMethodCategoryName::from_text(s@) is None
                    && e@ == PaymentMethodNameErrorView::InvalidCategoryName(s@),
            },
    {
        let found =
        if str_eq(s, "Credit Card") {
            Some(PaymentMethodCategoryName::CreditCard)
        } else if str_eq(s, "Digital Money") {
            Some(PaymentMethodCategoryName::DigitalMoney)
        } else if str_eq(s, "Mobile Payment") {
            Some(PaymentMethodCategoryName::MobilePayment)
        } else if str_eq(s, "Digital Wallet") {
            Some(PaymentMethodCategoryName::DigitalWallet)
        } else if str_eq(s, "Bank Transfer") {
            Some(PaymentMethodCategoryName::BankTransfer)
        } else if str_eq(s, "BNPL") {
            Some(PaymentMethodCategoryName::BNPL)
        } else if str_eq(s, "Debit Card") {
            Some(PaymentMethodCategoryName::DebitCard)
        } else if str_eq(s, "Carrier Billing") {
            Some(PaymentMethodCategoryName::CarrierBilling)
        } else {
            None
        };
        match found {
            Some(c) => {
                proof {
                    Self::lemma_from_text_label(c);
                }
                Ok(c)
            },
            None => {
                assert forall|c: PaymentMethodCategoryName| c.label() != s@ by {}
                Err(PaymentMethodNameError::InvalidCategoryName(s.to_owned()))
            },
        }
    }

    /// The label, as a string.
    pub fn to_string(&self) -> (r: String)
        ensures
            r@ == self.label(),
    {
        match self {
            PaymentMethodCategoryName::CreditCard => "Credit Card".to_owned(),
            PaymentMethodCategoryName::DigitalMoney => "Digital Money".to_owned(),
            PaymentMethodCategoryName::MobilePayment => "Mobile Payment".to_owned(),
            PaymentMethodCategoryName::DigitalWallet => "Digital Wallet".to_owned(),
            PaymentMethodCategoryName::BankTransfer => "Bank Transfer".to_owned(),
            PaymentMethodCategoryName::BNPL => "BNPL".to_owned(),
            PaymentMethodCategoryName::DebitCard => "Debit Card".to_owned(),
            PaymentMethodCategoryName::CarrierBilling => "Carrier Billing".to_owned(),
        }
    }
}

impl PaymentMethodKindName {
    /// The display label.
    pub open spec fn label(self) -> Seq<char> {
        match self {
            PaymentMethodKindName::CreditCard(k) => k.label(),
            PaymentMethodKindName::DigitalMoney(k) => k.label(),
            PaymentMethodKindName::MobilePayment(k) => k.label(),
            PaymentMethodKindName::DigitalWallet(k) => k.label(),
            PaymentMethodKindName::BankTransfer(k) => k.label(),
            PaymentMethodKindName::BNPL(k) => k.label(),
            PaymentMethodKindName::DebitCard => "デビットカード"@,
            PaymentMethodKindName::CarrierBilling => "キャリア決済"@,
        }
    }

    /// The category that the kind belongs to.
    pub open spec fn family(self) -> PaymentMethodCategoryName {
        match self {
            PaymentMethodKindName::CreditCard(_) => PaymentMethodCategoryName::CreditCard,
            PaymentMethodKindName::DigitalMoney(_) => PaymentMethodCategoryName::DigitalMoney,
            PaymentMethodKindName::MobilePayment(_) => PaymentMethodCategoryName::MobilePayment,
            PaymentMethodKindName::DigitalWallet(_) => PaymentMethodCategoryName::DigitalWallet,
            PaymentMethodKindName::BankTransfer(_) => PaymentMethodCategoryName::BankTransfer,
            PaymentMethodKindName::BNPL(_) => PaymentMethodCategoryName::BNPL,
            PaymentMethodKindName::DebitCard => PaymentMethodCategoryName::DebitCard,
            PaymentMethodKindName::CarrierBilling => PaymentMethodCategoryName::CarrierBilling,
        }
    }

    /// The kind that `s` names, if it names one: the one whose label is
    /// exactly `s`.
    pub open spec fn from_text(s: Seq<char>) -> Option<PaymentMethodKindName> {
        if exists|k: PaymentMethodKindName| k.label() == s {
            Some(choose|k: PaymentMethodKindName| k.label() == s)
        } else {
            None
        }
    }

    /// No two kinds share a label.
    pub proof fn lemma_label_injective(a: PaymentMethodKindName, b: PaymentMethodKindName)
        requires
            a.label() == b.label(),
        ensures
            a == b,
    {
        reveal_strlit("Visa");
        assert("Visa"@.len() == 4);
        assert("Visa"@[0] == 'V');
        reveal_strlit("MasterCard");
        assert("MasterCard"@.len() == 10);
        assert("MasterCard"@[0] == 'M');
        assert("MasterCard"@[5] == 'r');
        reveal_strlit("American Express");
        assert("American Express"@.len() == 16);
        assert("American Express"@[0] == 'A');
        assert("American Express"@[5] == 'c');
        reveal_strlit("JCB");
        assert("JCB"@.len() == 3);
        assert("JCB"@[0] == 'J');
        reveal_strlit("Discover");
        assert("Discover"@.len() == 8);
        assert("Discover"@[0] == 'D');
        assert("Discover"@[5] == 'v');
        reveal_strlit("Diners Club");
        assert("Diners Club"@.len() == 11);
        assert("Diners Club"@[0] == 'D');
        assert("Diners Club"@[5] == 's');
        reveal_strlit("Suica");
        assert("Suica"@.len() == 5);
        assert("Suica"@[0] == 'S');
        reveal_strlit("PASMO");
        assert("PASMO"@.len() == 5);
        assert("PASMO"@[0] == 'P');
        reveal_strlit("nanaco");
        assert("nanaco"@.len() == 6);
        assert("nanaco"@[0] == 'n');
        assert("nanaco"@[5] == 'o');
        reveal_strlit("WAON");
        assert("WAON"@.len() == 4);
        assert("WAON"@[0] == 'W');
        reveal_strlit("楽天Edy");
        assert("楽天Edy"@.len() == 5);
        assert("楽天Edy"@[0] == '楽');
        reveal_strlit("PayPay");
        assert("PayPay"@.len() == 6);
        assert("PayPay"@[0] == 'P');
        assert("PayPay"@[5] == 'y');
        reveal_strlit("LINE Pay");
        assert("LINE Pay"@.len() == 8);
        assert("LINE Pay"@[0] == 'L');
        assert("LINE Pay"@[5] == 'P');
        reveal_strlit("メルペイ");
        assert("メルペイ"@.len() == 4);
        assert("メルペイ"@[0] == 'メ');
        reveal_strlit("楽天ペイ");
        assert("楽天ペイ"@.len() == 4);
        assert("楽天ペイ"@[0] == '楽');
        reveal_strlit("d払い");
        assert("d払い"@.len() == 3);
        assert("d払い"@[0] == 'd');
        reveal_strlit("Venmo");
        assert("Venmo"@.len() == 5);
        assert("Venmo"@[0] == 'V');
        reveal_strlit("Cash App");
        assert("Cash App"@.len() == 8);
        assert("Cash App"@[0] == 'C');
        assert("Cash App"@[5] == 'A');
        reveal_strlit("Zelle");
        assert("Zelle"@.len() == 5);
        assert("Zelle"@[0] == 'Z');
        reveal_strlit("PayPal");
        assert("PayPal"@.len() == 6);
        assert("PayPal"@[0] == 'P');
        assert("PayPal"@[5] == 'l');
        reveal_strlit("ApplePay");
        assert("ApplePay"@.len() == 8);
        assert("ApplePay"@[0] == 'A');
        assert("ApplePay"@[5] == 'P');
        reveal_strlit("GooglePay");
        assert("GooglePay"@.len() == 9);
        assert("GooglePay"@[0] == 'G');
        assert("GooglePay"@[5] == 'e');
        reveal_strlit("AmazonPay");
        assert("AmazonPay"@.len() == 9);
        assert("AmazonPay"@[0] == 'A');
        assert("AmazonPay"@[5] == 'n');
        reveal_strlit("Japanese BankTransfer");
        assert("Japanese BankTransfer"@.len() == 21);
        assert("Japanese BankTransfer"@[0] == 'J');
        assert("Japanese BankTransfer"@[5] == 'e');
        reveal_strlit("Japanese DirectDebit");
        assert("Japanese DirectDebit"@.len() == 20);
        assert("Japanese DirectDebit"@[0] == 'J');
        assert("Japanese DirectDebit"@[5] == 'e');
        reveal_strlit("ACH");
        assert("ACH"@.len() == 3);
        assert("ACH"@[0] == 'A');
        reveal_strlit("Affirm");
        assert("Affirm"@.len() == 6);
        assert("Affirm"@[0] == 'A');
        assert("Affirm"@[5] == 'm');
        reveal_strlit("Klarna");
        assert("Klarna"@.len() == 6);
        assert("Klarna"@[0] == 'K');
        assert("Klarna"@[5] == 'a');
        reveal_strlit("Afterpay");
        assert("Afterpay"@.len() == 8);
        assert("Afterpay"@[0] == 'A');
        assert("Afterpay"@[5] == 'p');
        reveal_strlit("デビットカード");
        assert("デビットカード"@.len() == 7);
        assert("デビットカード"@[0] == 'デ');
        assert("デビットカード"@[5] == 'ー');
        reveal_strlit("キャリア決済");
        assert("キャリア決済"@.len() == 6);
        assert("キャリア決済"@[0] == 'キ');
        assert("キャリア決済"@[5] == '済');
    }

    /// No label is empty.
    pub proof fn lemma_label_not_empty(k: PaymentMethodKindName)
        ensures
            k.label().len() > 0,
    {
        reveal_strlit("Visa");
        assert("Visa"@.len() == 4);
        reveal_strlit("MasterCard");
        assert("MasterCard"@.len() == 10);
        reveal_strlit("American Express");
        assert("American Express"@.len() == 16);
        reveal_strlit("JCB");
        assert("JCB"@.len() == 3);
        reveal_strlit("Discover");
        assert("Discover"@.len() == 8);
        reveal_strlit("Diners Club");
        assert("Diners Club"@.len() == 11);
        reveal_strlit("Suica");
        assert("Suica"@.len() == 5);
        reveal_strlit("PASMO");
        assert("PASMO"@.len() == 5);
        reveal_strlit("nanaco");
        assert("nanaco"@.len() == 6);
        reveal_strlit("WAON");
        assert("WAON"@.len() == 4);
        reveal_strlit("楽天Edy");
        assert("楽天Edy"@.len() == 5);
        reveal_strlit("PayPay");
        assert("PayPay"@.len() == 6);
        reveal_strlit("LINE Pay");
        assert("LINE Pay"@.len() == 8);
        reveal_strlit("メルペイ");
        assert("メルペイ"@.len() == 4);
        reveal_strlit("楽天ペイ");
        assert("楽天ペイ"@.len() == 4);
        reveal_strlit("d払い");
        assert("d払い"@.len() == 3);
        reveal_strlit("Venmo");
        assert("Venmo"@.len() == 5);
        reveal_strlit("Cash App");
        assert("Cash App"@.len() == 8);
        reveal_strlit("Zelle");
        assert("Zelle"@.len() == 5);
        reveal_strlit("PayPal");
        assert("PayPal"@.len() == 6);
        reveal_strlit("ApplePay");
        assert("ApplePay"@.len() == 8);
        reveal_strlit("GooglePay");
        assert("GooglePay"@.len() == 9);
        reveal_strlit("AmazonPay");
        assert("AmazonPay"@.len() == 9);
        reveal_strlit("Japanese BankTransfer");
        assert("Japanese BankTransfer"@.len() == 21);
        reveal_strlit("Japanese DirectDebit");
        assert("Japanese DirectDebit"@.len() == 20);
        reveal_strlit("ACH");
        assert("ACH"@.len() == 3);
        reveal_strlit("Affirm");
        assert("Affirm"@.len() == 6);
        reveal_strlit("Klarna");
        assert("Klarna"@.len() == 6);
        reveal_strlit("Afterpay");
        assert("Afterpay"@.len() == 8);
        reveal_strlit("デビットカード");
        assert("デビットカード"@.len() == 7);
        reveal_strlit("キャリア決済");
        assert("キャリア決済"@.len() == 6);
    }

    /// Parsing the label of a kind gives the kind.
    pub proof fn lemma_from_text_label(k: PaymentMethodKindName)
        ensures
            PaymentMethodKindName::from_text(k.label()) == Some(k),
    {
        let d = choose|d: PaymentMethodKindName| d.label() == k.label();
        Self::lemma_label_injective(d, k);
    }

    /// Parses a kind from its label; the match is exact and case sensitive.
    pub fn from_str(s: &str) -> (r: Result<Self, PaymentMethodNameError>)
        ensures
            match r {
                Ok(k) => PaymentMethodKindName::from_text(s@) == Some(k),
                Err(e) => PaymentMethodKindName::from_text(s@) is None
                    && e@ == PaymentMethodNameErrorView::InvalidKindName(s@),
            },
    {
        let found =
        if str_eq(s, "Visa") {
            Some(PaymentMethodKindName::CreditCard(CreditCard::Visa))
        } else if str_eq(s, "MasterCard") {
            Some(PaymentMethodKindName::CreditCard(CreditCard::MasterCard))
        } else if str_eq(s, "American Express") {
            Some(PaymentMethodKindName::CreditCard(CreditCard::AmericanExpress))
        } else if str_eq(s, "JCB") {
            Some(PaymentMethodKindName::CreditCard(CreditCard::JCB))
        } else if str_eq(s, "Discover") {
            Some(PaymentMethodKindName::CreditCard(CreditCard::Discover))
        } else if str_eq(s, "Diners Club") {
            Some(PaymentMethodKindName::CreditCard(CreditCard::DinersClub))
        } else if str_eq(s, "Suica") {
            Some(PaymentMethodKindName::DigitalMoney(DigitalMoney::Suica))
        } else if str_eq(s, "PASMO") {
            Some(PaymentMethodKindName::DigitalMoney(DigitalMoney::Pasmo))
        } else if str_eq(s, "nanaco") {
            Some(PaymentMethodKindName::DigitalMoney(DigitalMoney::Nanaco))
        } else if str_eq(s, "WAON") {
            Some(PaymentMethodKindName::DigitalMoney(DigitalMoney::Waon))
        } else if str_eq(s, "楽天Edy") {
            Some(PaymentMethodKindName::DigitalMoney(DigitalMoney::RakutenEdy))
        } else if str_eq(s, "PayPay") {
            Some(PaymentMethodKindName::MobilePayment(MobilePayment::PayPay))
        } else if str_eq(s, "LINE Pay") {
            Some(PaymentMethodKindName::MobilePayment(MobilePayment::LinePay))
        } else if str_eq(s, "メルペイ") {
            Some(PaymentMethodKindName::MobilePayment(MobilePayment::MerPay))
        } else if str_eq(s, "楽天ペイ") {
            Some(PaymentMethodKindName::MobilePayment(MobilePayment::RakutenPay))
        } else if str_eq(s, "d払い") {
            Some(PaymentMethodKindName::MobilePayment(MobilePayment::DBarai))
        } else if str_eq(s, "Venmo") {
            Some(PaymentMethodKindName::MobilePayment(MobilePayment::Venmo))
        } else if str_eq(s, "Cash App") {
            Some(PaymentMethodKindName::MobilePayment(MobilePayment::CashApp))
        } else if str_eq(s, "Zelle") {
            Some(PaymentMethodKindName::MobilePayment(MobilePayment::Zelle))
        } else if str_eq(s, "PayPal") {
            Some(PaymentMethodKindName::MobilePayment(MobilePayment::PayPal))
        } else if str_eq(s, "ApplePay") {
            Some(PaymentMethodKindName::DigitalWallet(DigitalWallet::ApplePay))
        } else if str_eq(s, "GooglePay") {
            Some(PaymentMethodKindName::DigitalWallet(DigitalWallet::GooglePay))
        } else if str_eq(s, "AmazonPay") {
            Some(PaymentMethodKindName::DigitalWallet(DigitalWallet::AmazonPay))
        } else if str_eq(s, "Japanese BankTransfer") {
            Some(PaymentMethodKindName::BankTransfer(BankTransfer::JapaneseBankTransfer))
        } else if str_eq(s, "Japanese DirectDebit") {
            Some(PaymentMethodKindName::BankTransfer(BankTransfer::JapaneseDirectDebit))
        } else if str_eq(s, "ACH") {
            Some(PaymentMethodKindName::BankTransfer(BankTransfer::ACH))
        } else if str_eq(s, "Affirm") {
            Some(PaymentMethodKindName::BNPL(BNPL::Affirm))
        } else if str_eq(s, "Klarna") {
            Some(PaymentMethodKindName::BNPL(BNPL::Klarna))
        } else if str_eq(s, "Afterpay") {
            Some(PaymentMethodKindName::BNPL(BNPL::Afterpay))
        } else if str_eq(s, "デビットカード") {
            Some(PaymentMethodKindName::DebitCard)
        } else if str_eq(s, "キャリア決済") {
            Some(PaymentMethodKindName::CarrierBilling)
        } else {
            None
        };
        match found {
            Some(k) => {
                proof {
                    Self::lemma_from_text_label(k);
                }
                Ok(k)
            },
            None => {
                assert forall|k: PaymentMethodKindName| k.label() != s@ by {}
                Err(PaymentMethodNameError::InvalidKindName(s.to_owned()))
            },
        }
    }

    /// The category that the kind belongs to.
    pub fn category(&self) -> (r: PaymentMethodCategoryName)
        ensures
            r == self.family(),
    {
        match self {
            PaymentMethodKindName::CreditCard(_) => PaymentMethodCategoryName::CreditCard,
            PaymentMethodKindName::DigitalMoney(_) => PaymentMethodCategoryName::DigitalMoney,
            PaymentMethodKindName::MobilePayment(_) => PaymentMethodCategoryName::MobilePayment,
            PaymentMethodKindName::DigitalWallet(_) => PaymentMethodCategoryName::DigitalWallet,
            PaymentMethodKindName::BankTransfer(_) => PaymentMethodCategoryName::BankTransfer,
            PaymentMethodKindName::BNPL(_) => PaymentMethodCategoryName::BNPL,
            PaymentMethodKindName::DebitCard => PaymentMethodCategoryName::DebitCard,
            PaymentMethodKindName::CarrierBilling => PaymentMethodCategoryName::CarrierBilling,
        }
    }

    /// The display label, as a string.
    pub fn to_string(&self) -> (r: String)
        ensures
            r@ == self.label(),
    {
        match self {
            PaymentMethodKindName::CreditCard(k) => k.to_string(),
            PaymentMethodKindName::DigitalMoney(k) => k.to_string(),
            PaymentMethodKindName::MobilePayment(k) => k.to_string(),
            PaymentMethodKindName::DigitalWallet(k) => k.to_string(),
            PaymentMethodKindName::BankTransfer(k) => k.to_string(),
            PaymentMethodKindName::BNPL(k) => k.to_string(),
            PaymentMethodKindName::DebitCard => "デビットカード".to_owned(),
            PaymentMethodKindName::CarrierBilling => "キャリア決済".to_owned(),
        }
    }
}

} // verus!
