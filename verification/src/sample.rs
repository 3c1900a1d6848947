//! Plain values of the domains that compositions are written for: the
//! entries of a ledger, a postal address, the formats of a store.

use vstd::prelude::*;
use vstd::string::*;

verus! {

/// One entry of a ledger: a text and an amount.
#[derive(Debug, PartialEq, Eq)]
pub enum LedgerEntry {
    Deposit(String, i32),
    Withdrawal(String, i32),
}

/// The view of `LedgerEntry`.
pub ghost enum LedgerEntryView {
    Deposit(Seq<char>, i32),
    Withdrawal(Seq<char>, i32),
}

impl View for LedgerEntry {
    type V = LedgerEntryView;

    open spec fn view(&self) -> LedgerEntryView {
        match self {
            LedgerEntry::Deposit(message, amount) => LedgerEntryView::Deposit(message@, *amount),
            LedgerEntry::Withdrawal(message, amount) => LedgerEntryView::Withdrawal(
                message@,
                *amount,
            ),
        }
    }
}

impl Clone for LedgerEntry {
    fn clone(&self) -> (res: Self)
        ensures
            res@ == self@,
    {
        match self {
            LedgerEntry::Deposit(message, amount) => LedgerEntry::Deposit(message.clone(), *amount),
            LedgerEntry::Withdrawal(message, amount) => LedgerEntry::Withdrawal(
                message.clone(),
                *amount,
            ),
        }
    }
}

impl LedgerEntryView {
    /// The text of the entry.
    pub open spec fn message(self) -> Seq<char> {
        match self {
            LedgerEntryView::Deposit(message, _) => message,
            LedgerEntryView::Withdrawal(message, _) => message,
        }
    }
}

impl LedgerEntry {
    /// The text of the entry.
    pub fn message(&self) -> (res: String)
        ensures
            res@ == self@.message(),
    {
        match self {
            LedgerEntry::Deposit(msg, _) => msg.clone(),
            LedgerEntry::Withdrawal(msg, _) => msg.clone(),
        }
    }
}

/// The format in which a store keeps its values.
#[derive(Debug, Clone, Copy, PartialEq, Eq, Structural)]
pub enum SerialiserType {
    Json,
    Cbor,
}

/// A value to store.
#[derive(Debug, PartialEq, Eq)]
pub struct Data {
    pub value: String,
}

impl View for Data {
    type V = Seq<char>;

    open spec fn view(&self) -> Seq<char> {
        self.value@
    }
}

/// A postal address, each part of which may be missing.
#[derive(Debug, PartialEq, Eq)]
pub struct Address {
    formatted: Option<String>,
    street_address: Option<String>,
    locality: Option<String>,
    region: Option<String>,
    postal_code: Option<String>,
    country: Option<String>,
}

/// The view of `Address`.
pub ghost struct AddressView {
    pub formatted: Option<Seq<char>>,
    pub street_address: Option<Seq<char>>,
    pub locality: Option<Seq<char>>,
    pub region: Option<Seq<char>>,
    pub postal_code: Option<Seq<char>>,
    pub country: Option<Seq<char>>,
}

/// The view of an optional text.
pub open spec fn text_view(o: Option<String>) -> Option<Seq<char>> {
    match o {
        Some(s) => Some(s@),
        None => None,
    }
}

/// The view of an optional borrowed text.
pub open spec fn str_view(o: Option<&str>) -> Option<Seq<char>> {
    match o {
        Some(s) => Some(s@),
        None => None,
    }
}

fn borrowed(o: &Option<String>) -> (res: Option<&str>)
    ensures
        str_view(res) == text_view(*o),
{
    match o {
        Some(s) => Some(s.as_str()),
        None => None,
    }
}

impl View for Address {
    type V = AddressView;

    closed spec fn view(&self) -> AddressView {
        AddressView {
            formatted: text_view(self.formatted),
            street_address: text_view(self.street_address),
            locality: text_view(self.locality),
            region: text_view(self.region),
            postal_code: text_view(self.postal_code),
            country: text_view(self.country),
        }
    }
}

impl Clone for Address {
    fn clone(&self) -> (res: Self)
        ensures
            res@ == self@,
    {
        Address {
            formatted: self.formatted.clone(),
            street_address: self.street_address.clone(),
            locality: self.locality.clone(),
            region: self.region.clone(),
            postal_code: self.postal_code.clone(),
            country: self.country.clone(),
        }
    }
}

impl Address {
    /// An address with every part missing.
    pub fn new() -> (res: Self)
        ensures
            res@ == (AddressView {
                formatted: None,
                street_address: None,
                locality: None,
                region: None,
                postal_code: None,
                country: None,
            }),
    {
        Address {
            formatted: None,
            street_address: None,
            locality: None,
            region: None,
            postal_code: None,
            country: None,
        }
    }

    /// The address in one text.
    pub fn formatted(&self) -> (res: Option<&str>)
        ensures
            str_view(res) == self@.formatted,
    {
        borrowed(&self.formatted)
    }

    /// The street and number.
    pub fn street_address(&self) -> (res: Option<&str>)
        ensures
            str_view(res) == self@.street_address,
    {
        borrowed(&self.street_address)
    }

    /// The city or locality.
    pub fn locality(&self) -> (res: Option<&str>)
        ensures
            str_view(res) == self@.locality,
    {
        borrowed(&self.locality)
    }

    /// The state, province or region.
    pub fn region(&self) -> (res: Option<&str>)
        ensures
            str_view(res) == self@.region,
    {
        borrowed(&self.region)
    }

    /// The postal code.
    pub fn postal_code(&self) -> (res: Option<&str>)
        ensures
            str_view(res) == self@.postal_code,
    {
        borrowed(&self.postal_code)
    }

    /// The country.
    pub fn country(&self) -> (res: Option<&str>)
        ensures
            str_view(res) == self@.country,
    {
        borrowed(&self.country)
    }

    /// The same address with this formatted text.
    pub fn with_formatted(self, formatted: String) -> (res: Self)
        ensures
            res@ == (AddressView { formatted: Some(formatted@), ..self@ }),
    {
        Address { formatted: Some(formatted), ..self }
    }

    /// The same address with this street address.
    pub fn with_street_address(self, street_address: String) -> (res: Self)
        ensures
            res@ == (AddressView { street_address: Some(street_address@), ..self@ }),
    {
        Address { street_address: Some(street_address), ..self }
    }

    /// The same address with this locality.
    pub fn with_locality(self, locality: String) -> (res: Self)
        ensures
            res@ == (AddressView { locality: Some(locality@), ..self@ }),
    {
        Address { locality: Some(locality), ..self }
    }

    /// The same address with this region.
    pub fn with_region(self, region: String) -> (res: Self)
        ensures
            res@ == (AddressView { region: Some(region@), ..self@ }),
    {
        Address { region: Some(region), ..self }
    }

    /// The same address with this postal code.
    pub fn with_postal_code(self, postal_code: String) -> (res: Self)
        ensures
            res@ == (AddressView { postal_code: Some(postal_code@), ..self@ }),
    {
        Address { postal_code: Some(postal_code), ..self }
    }

    /// The same address with this country.
    pub fn with_country(self, country: String) -> (res: Self)
        ensures
            res@ == (AddressView { country: Some(country@), ..self@ }),
    {
        Address { country: Some(country), ..self }
    }
}

} // verus!
