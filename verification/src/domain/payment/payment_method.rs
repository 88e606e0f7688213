//! The name of a payment method as one value: the kind, which also tells
//! the category. A name is parsed from a short label of its own, which for
//! some names differs from the label that the kind is displayed as; the two
//! names that stand for a whole category have no short label.

use crate::domain::payment::payment_method_name::PaymentMethodKindName;
pub use crate::domain::payment::payment_method_name::{
    BankTransfer, CreditCard, DigitalMoney, DigitalWallet, MobilePayment, BNPL,
};
use crate::text::str_eq;
use vstd::prelude::*;

verus! {

/// Why a text names no payment method.
#[derive(Debug, PartialEq, Eq)]
pub enum PaymentMethodNameError {
    /// The text names no payment method; holds the text.
    Invalid(String),
}

/// The mathematical value of a [`PaymentMethodNameError`].
pub enum PaymentMethodNameErrorView {
    Invalid(Seq<char>),
}

impl PaymentMethodNameErrorView {
    /// The message of this error.
    pub open spec fn message(self) -> Seq<char> {
        match self {
            PaymentMethodNameErrorView::Invalid(s) => "Invalid payment method: "@ + s,
        }
    }
}

impl View for PaymentMethodNameError {
    type V = PaymentMethodNameErrorView;

    open spec fn view(&self) -> PaymentMethodNameErrorView {
        match self {
            PaymentMethodNameError::Invalid(s) => PaymentMethodNameErrorView::Invalid(s@),
        }
    }
}

impl PaymentMethodNameError {
    /// The message of this error, as a string.
    pub fn to_string(&self) -> (r: String)
        ensures
            r@ == self@.message(),
    {
        match self {
            PaymentMethodNameError::Invalid(s) => "Invalid payment method: ".to_owned().concat(
                s.as_str(),
            ),
        }
    }
}

/// The name of a payment method.
#[derive(Debug, Clone, Copy, PartialEq, Eq, Structural)]
pub enum PaymentMethodName {
    CreditCard(CreditCard),
    DigitalMoney(DigitalMoney),
    MobilePayment(MobilePayment),
    DigitalWallet(DigitalWallet),
    BankTransfer(BankTransfer),
    BNPL(BNPL),
    DebitCard,
    CarrierBilling,
}

impl PaymentMethodName {
    /// The kind that this name stands for.
    pub open spec fn kind(self) -> PaymentMethodKindName {
        match self {
            PaymentMethodName::CreditCard(k) => PaymentMethodKindName::CreditCard(k),
            PaymentMethodName::DigitalMoney(k) => PaymentMethodKindName::DigitalMoney(k),
            PaymentMethodName::MobilePayment(k) => PaymentMethodKindName::MobilePayment(k),
            PaymentMethodName::DigitalWallet(k) => PaymentMethodKindName::DigitalWallet(k),
            PaymentMethodName::BankTransfer(k) => PaymentMethodKindName::BankTransfer(k),
            PaymentMethodName::BNPL(k) => PaymentMethodKindName::BNPL(k),
            PaymentMethodName::DebitCard => PaymentMethodKindName::DebitCard,
            PaymentMethodName::CarrierBilling => PaymentMethodKindName::CarrierBilling,
        }
    }

    /// The short label that the name is parsed from, if it has one.
    pub open spec fn short_label(self) -> Option<Seq<char>> {
        match self {
            PaymentMethodName::CreditCard(CreditCard::Visa) => Some("Visa"@),
            PaymentMethodName::CreditCard(CreditCard::MasterCard) => Some("MasterCard"@),
            PaymentMethodName::CreditCard(CreditCard::AmericanExpress) => Some("American Express"@),
            PaymentMethodName::CreditCard(CreditCard::JCB) => Some("JCB"@),
            PaymentMethodName::CreditCard(CreditCard::Discover) => Some("Discover"@),
            PaymentMethodName::CreditCard(CreditCard::DinersClub) => Some("Diners Club"@),
            PaymentMethodName::DigitalMoney(DigitalMoney::Suica) => Some("Suica"@),
            PaymentMethodName::DigitalMoney(DigitalMoney::Pasmo) => Some("PASMO"@),
            PaymentMethodName::DigitalMoney(DigitalMoney::Nanaco) => Some("nanaco"@),
            PaymentMethodName::DigitalMoney(DigitalMoney::Waon) => Some("WAON"@),
            PaymentMethodName::DigitalMoney(DigitalMoney::RakutenEdy) => Some("楽天Edy"@),
            PaymentMethodName::MobilePayment(MobilePayment::PayPay) => Some("PayPay"@),
            PaymentMethodName::MobilePayment(MobilePayment::LinePay) => Some("LinePay"@),
            PaymentMethodName::MobilePayment(MobilePayment::MerPay) => Some("MerPay"@),
            PaymentMethodName::MobilePayment(MobilePayment::RakutenPay) => Some("RakutenPay"@),
            PaymentMethodName::MobilePayment(MobilePayment::DBarai) => Some("DBarai"@),
            PaymentMethodName::MobilePayment(MobilePayment::Venmo) => Some("Venmo"@),
            PaymentMethodName::MobilePayment(MobilePayment::CashApp) => Some("CashApp"@),
            PaymentMethodName::MobilePayment(MobilePayment::Zelle) => Some("Zelle"@),
            PaymentMethodName::MobilePayment(MobilePayment::PayPal) => Some("PayPal"@),
            PaymentMethodName::DigitalWallet(DigitalWallet::ApplePay) => Some("ApplePay"@),
            PaymentMethodName::DigitalWallet(DigitalWallet::GooglePay) => Some("GooglePay"@),
            PaymentMethodName::DigitalWallet(DigitalWallet::AmazonPay) => Some("AmazonPay"@),
            PaymentMethodName::BankTransfer(BankTransfer::JapaneseBankTransfer) => Some("JapaneseBankTransfer"@),
            PaymentMethodName::BankTransfer(BankTransfer::JapaneseDirectDebit) => Some("JapaneseDirectDebit"@),
            PaymentMethodName::BankTransfer(BankTransfer::ACH) => Some("ACH"@),
            PaymentMethodName::BNPL(BNPL::Affirm) => Some("Affirm"@),
            PaymentMethodName::BNPL(BNPL::Klarna) => Some("Klarna"@),
            PaymentMethodName::BNPL(BNPL::Afterpay) => Some("Afterpay"@),
            PaymentMethodName::DebitCard => None,
            PaymentMethodName::CarrierBilling => None,
        }
    }

    /// The long name of the category that the payment method belongs to.
    pub open spec fn category_label(self) -> Seq<char> {
        match self {
            PaymentMethodName::CreditCard(_) => "Credit Card"@,
            PaymentMethodName::DigitalMoney(_) => "Digital Money"@,
            PaymentMethodName::MobilePayment(_) => "Mobile Payment"@,
            PaymentMethodName::DigitalWallet(_) => "Digital Wallet"@,
            PaymentMethodName::BankTransfer(_) => "Bank Transfer"@,
            PaymentMethodName::BNPL(_) => "Buy Now Pay Later"@,
            PaymentMethodName::DebitCard => "Debit Card"@,
            PaymentMethodName::CarrierBilling => "Carrier Billing"@,
        }
    }

    /// The name that `s` names, if it names one: the one whose short label
    /// is exactly `s`.
    pub open spec fn from_text(s: Seq<char>) -> Option<PaymentMethodName> {
        if exists|n: PaymentMethodName| n.short_label() == Some(s) {
            Some(choose|n: PaymentMethodName| n.short_label() == Some(s))
        } else {
            None
        }
    }

    /// No two names share a short label.
    pub proof fn lemma_short_label_injective(a: PaymentMethodName, b: PaymentMethodName)
        requires
            a.short_label() is Some,
            a.short_label() == b.short_label(),
        ensures
            a == b,
    {
        reveal_strlit("Visa");
        assert("Visa"@.len() == 4);
        assert("Visa"@[0] == 'V');
        reveal_strlit("MasterCard");
        assert("MasterCard"@.len() == 10);
        assert("MasterCard"@[0] == 'M');
        assert("MasterCard"@[5] == 'r');
        reveal_strlit("American Express");
        assert("American Express"@.len() == 16);
        assert("American Express"@[0] == 'A');
        assert("American Express"@[5] == 'c');
        reveal_strlit("JCB");
        assert("JCB"@.len() == 3);
        assert("JCB"@[0] == 'J');
        reveal_strlit("Discover");
        assert("Discover"@.len() == 8);
        assert("Discover"@[0] == 'D');
        assert("Discover"@[5] == 'v');
        reveal_strlit("Diners Club");
        assert("Diners Club"@.len() == 11);
        assert("Diners Club"@[0] == 'D');
        assert("Diners Club"@[5] == 's');
        reveal_strlit("Suica");
        assert("Suica"@.len() == 5);
        assert("Suica"@[0] == 'S');
        reveal_strlit("PASMO");
        assert("PASMO"@.len() == 5);
        assert("PASMO"@[0] == 'P');
        reveal_strlit("nanaco");
        assert("nanaco"@.len() == 6);
        assert("nanaco"@[0] == 'n');
        assert("nanaco"@[5] == 'o');
        reveal_strlit("WAON");
        assert("WAON"@.len() == 4);
        assert("WAON"@[0] == 'W');
        reveal_strlit("楽天Edy");
        assert("楽天Edy"@.len() == 5);
        assert("楽天Edy"@[0] == '楽');
        reveal_strlit("PayPay");
        assert("PayPay"@.len() == 6);
        assert("PayPay"@[0] == 'P');
        assert("PayPay"@[5] == 'y');
        reveal_strlit("LinePay");
        assert("LinePay"@.len() == 7);
        assert("LinePay"@[0] == 'L');
        assert("LinePay"@[5] == 'a');
        reveal_strlit("MerPay");
        assert("MerPay"@.len() == 6);
        assert("MerPay"@[0] == 'M');
        assert("MerPay"@[5] == 'y');
        reveal_strlit("RakutenPay");
        assert("RakutenPay"@.len() == 10);
        assert("RakutenPay"@[0] == 'R');
        assert("RakutenPay"@[5] == 'e');
        reveal_strlit("DBarai");
        assert("DBarai"@.len() == 6);
        assert("DBarai"@[0] == 'D');
        assert("DBarai"@[5] == 'i');
        reveal_strlit("Venmo");
        assert("Venmo"@.len() == 5);
        assert("Venmo"@[0] == 'V');
        reveal_strlit("CashApp");
        assert("CashApp"@.len() == 7);
        assert("CashApp"@[0] == 'C');
        assert("CashApp"@[5] == 'p');
        reveal_strlit("Zelle");
        assert("Zelle"@.len() == 5);
        assert("Zelle"@[0] == 'Z');
        reveal_strlit("PayPal");
        assert("PayPal"@.len() == 6);
        assert("PayPal"@[0] == 'P');
        assert("PayPal"@[5] == 'l');
        reveal_strlit("ApplePay");
        assert("ApplePay"@.len() == 8);
        assert("ApplePay"@[0] == 'A');
        assert("ApplePay"@[5] == 'P');
        reveal_strlit("GooglePay");
        assert("GooglePay"@.len() == 9);
        assert("GooglePay"@[0] == 'G');
        assert("GooglePay"@[5] == 'e');
        reveal_strlit("AmazonPay");
        assert("AmazonPay"@.len() == 9);
        assert("AmazonPay"@[0] == 'A');
        assert("AmazonPay"@[5] == 'n');
        reveal_strlit("JapaneseBankTransfer");
        assert("JapaneseBankTransfer"@.len() == 20);
        assert("JapaneseBankTransfer"@[0] == 'J');
        assert("JapaneseBankTransfer"@[5] == 'e');
        reveal_strlit("JapaneseDirectDebit");
        assert("JapaneseDirectDebit"@.len() == 19);
        assert("JapaneseDirectDebit"@[0] == 'J');
        assert("JapaneseDirectDebit"@[5] == 'e');
        reveal_strlit("ACH");
        assert("ACH"@.len() == 3);
        assert("ACH"@[0] == 'A');
        reveal_strlit("Affirm");
        assert("Affirm"@.len() == 6);
        assert("Affirm"@[0] == 'A');
        assert("Affirm"@[5] == 'm');
        reveal_strlit("Klarna");
        assert("Klarna"@.len() == 6);
        assert("Klarna"@[0] == 'K');
        assert("Klarna"@[5] == 'a');
        reveal_strlit("Afterpay");
        assert("Afterpay"@.len() == 8);
        assert("Afterpay"@[0] == 'A');
        assert("Afterpay"@[5] == 'p');
    }

    /// Parsing the short label of a name gives the name.
    pub proof fn lemma_from_text_short_label(n: PaymentMethodName)
        requires
            n.short_label() is Some,
        ensures
            PaymentMethodName::from_text(n.short_label()->0) == Some(n),
    {
        let l = n.short_label()->0;
        let d = choose|d: PaymentMethodName| d.short_label() == Some(l);
        Self::lemma_short_label_injective(n, d);
    }

    /// The name that stands for a kind.
    pub fn from_kind(kind: PaymentMethodKindName) -> (r: Self)
        ensures
            r.kind() == kind,
    {
        match kind {
            PaymentMethodKindName::CreditCard(k) => PaymentMethodName::CreditCard(k),
            PaymentMethodKindName::DigitalMoney(k) => PaymentMethodName::DigitalMoney(k),
            PaymentMethodKindName::MobilePayment(k) => PaymentMethodName::MobilePayment(k),
            PaymentMethodKindName::DigitalWallet(k) => PaymentMethodName::DigitalWallet(k),
            PaymentMethodKindName::BankTransfer(k) => PaymentMethodName::BankTransfer(k),
            PaymentMethodKindName::BNPL(k) => PaymentMethodName::BNPL(k),
            PaymentMethodKindName::DebitCard => PaymentMethodName::DebitCard,
            PaymentMethodKindName::CarrierBilling => PaymentMethodName::CarrierBilling,
        }
    }

    /// Parses a name from its short label; the match is exact and case
    /// sensitive.
    pub fn from_str(s: &str) -> (r: Result<Self, PaymentMethodNameError>)
        ensures
            match r {
                Ok(n) => PaymentMethodName::from_text(s@) == Some(n),
                Err(e) => PaymentMethodName::from_text(s@) is None
                    && e@ == PaymentMethodNameErrorView::Invalid(s@),
            },
    {
        let found =
        if str_eq(s, "Visa") {
            Some(PaymentMethodName::CreditCard(CreditCard::Visa))
        } else if str_eq(s, "MasterCard") {
            Some(PaymentMethodName::CreditCard(CreditCard::MasterCard))
        } else if str_eq(s, "American Express") {
            Some(PaymentMethodName::CreditCard(CreditCard::AmericanExpress))
        } else if str_eq(s, "JCB") {
            Some(PaymentMethodName::CreditCard(CreditCard::JCB))
        } else if str_eq(s, "Discover") {
            Some(PaymentMethodName::CreditCard(CreditCard::Discover))
        } else if str_eq(s, "Diners Club") {
            Some(PaymentMethodName::CreditCard(CreditCard::DinersClub))
        } else if str_eq(s, "Suica") {
            Some(PaymentMethodName::DigitalMoney(DigitalMoney::Suica))
        } else if str_eq(s, "PASMO") {
            Some(PaymentMethodName::DigitalMoney(DigitalMoney::Pasmo))
        } else if str_eq(s, "nanaco") {
            Some(PaymentMethodName::DigitalMoney(DigitalMoney::Nanaco))
        } else if str_eq(s, "WAON") {
            Some(PaymentMethodName::DigitalMoney(DigitalMoney::Waon))
        } else if str_eq(s, "楽天Edy") {
            Some(PaymentMethodName::DigitalMoney(DigitalMoney::RakutenEdy))
        } else if str_eq(s, "PayPay") {
            Some(PaymentMethodName::MobilePayment(MobilePayment::PayPay))
        } else if str_eq(s, "LinePay") {
            Some(PaymentMethodName::MobilePayment(MobilePayment::LinePay))
        } else if str_eq(s, "MerPay") {
            Some(PaymentMethodName::MobilePayment(MobilePayment::MerPay))
        } else if str_eq(s, "RakutenPay") {
            Some(PaymentMethodName::MobilePayment(MobilePayment::RakutenPay))
        } else if str_eq(s, "DBarai") {
            Some(PaymentMethodName::MobilePayment(MobilePayment::DBarai))
        } else if str_eq(s, "Venmo") {
            Some(PaymentMethodName::MobilePayment(MobilePayment::Venmo))
        } else if str_eq(s, "CashApp") {
            Some(PaymentMethodName::MobilePayment(MobilePayment::CashApp))
        } else if str_eq(s, "Zelle") {
            Some(PaymentMethodName::MobilePayment(MobilePayment::Zelle))
        } else if str_eq(s, "PayPal") {
            Some(PaymentMethodName::MobilePayment(MobilePayment::PayPal))
        } else if str_eq(s, "ApplePay") {
            Some(PaymentMethodName::DigitalWallet(DigitalWallet::ApplePay))
        } else if str_eq(s, "GooglePay") {
            Some(PaymentMethodName::DigitalWallet(DigitalWallet::GooglePay))
        } else if str_eq(s, "AmazonPay") {
            Some(PaymentMethodName::DigitalWallet(DigitalWallet::AmazonPay))
        } else if str_eq(s, "JapaneseBankTransfer") {
            Some(PaymentMethodName::BankTransfer(BankTransfer::JapaneseBankTransfer))
        } else if str_eq(s, "JapaneseDirectDebit") {
            Some(PaymentMethodName::BankTransfer(BankTransfer::JapaneseDirectDebit))
        } else if str_eq(s, "ACH") {
            Some(PaymentMethodName::BankTransfer(BankTransfer::ACH))
        } else if str_eq(s, "Affirm") {
            Some(PaymentMethodName::BNPL(BNPL::Affirm))
        } else if str_eq(s, "Klarna") {
            Some(PaymentMethodName::BNPL(BNPL::Klarna))
        } else if str_eq(s, "Afterpay") {
            Some(PaymentMethodName::BNPL(BNPL::Afterpay))
        } else {
            None
        };
        match found {
            Some(n) => {
                proof {
                    Self::lemma_from_text_short_label(n);
                }
                Ok(n)
            },
            None => {
                assert forall|n: PaymentMethodName| n.short_label() != Some(s@) by {}
                Err(PaymentMethodNameError::Invalid(s.to_owned()))
            },
        }
    }

    /// The long name of the category that the payment method belongs to.
    pub fn category(&self) -> (r: &'static str)
        ensures
            r@ == self.category_label(),
    {
        match self {
            PaymentMethodName::CreditCard(_) => "Credit Card",
            PaymentMethodName::DigitalMoney(_) => "Digital Money",
            PaymentMethodName::MobilePayment(_) => "Mobile Payment",
            PaymentMethodName::DigitalWallet(_) => "Digital Wallet",
            PaymentMethodName::BankTransfer(_) => "Bank Transfer",
            PaymentMethodName::BNPL(_) => "Buy Now Pay Later",
            PaymentMethodName::DebitCard => "Debit Card",
            PaymentMethodName::CarrierBilling => "Carrier Billing",
        }
    }

    /// The label that the kind is displayed as, as a string.
    pub fn to_string(&self) -> (r: String)
        ensures
            r@ == self.kind().label(),
    {
        match self {
            PaymentMethodName::CreditCard(k) => k.to_string(),
            PaymentMethodName::DigitalMoney(k) => k.to_string(),
            PaymentMethodName::MobilePayment(k) => k.to_string(),
            PaymentMethodName::DigitalWallet(k) => k.to_string(),
            PaymentMethodName::BankTransfer(k) => k.to_string(),
            PaymentMethodName::BNPL(k) => k.to_string(),
            PaymentMethodName::DebitCard => PaymentMethodKindName::DebitCard.to_string(),
            PaymentMethodName::CarrierBilling => PaymentMethodKindName::CarrierBilling.to_string(),
        }
    }
}

} // verus!
