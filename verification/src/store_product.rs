//! Purchasable product or subscription option: the data the product,
//! store and subscription views render. There is no store backend here;
//! the hosting app connects its own kit in the views' callbacks.

use vstd::prelude::*;

use crate::options::owned;

verus! {

/// One purchasable product or subscription option.
#[derive(Debug, Clone, PartialEq)]
pub struct StoreProduct {
    /// Display title.
    pub title: String,
    /// Subtitle line.
    pub subtitle: String,
    /// Price line.
    pub price: String,
}

impl StoreProduct {
    /// A product with the given title, subtitle and price.
    pub fn new(title: &str, subtitle: &str, price: &str) -> (p: Self)
        ensures
            p.title@ == title@,
            p.subtitle@ == subtitle@,
            p.price@ == price@,
    {
        StoreProduct { title: owned(title), subtitle: owned(subtitle), price: owned(price) }
    }

    /// The gallery's default product: the monthly pass.
    pub fn monthly_default() -> (p: Self)
        ensures
            p.title@ == "VIP Kitty Pass"@,
            p.subtitle@ == "Enjoy the full premium kitty experience"@,
            p.price@ == "$0.99/month"@,
    {
        Self::new("VIP Kitty Pass", "Enjoy the full premium kitty experience", "$0.99/month")
    }

    /// The gallery's default second product: the one-time hat.
    pub fn hat_default() -> (p: Self)
        ensures
            p.title@ == "Kitty Hat"@,
            p.subtitle@ == "A cute hat for your kitty"@,
            p.price@ == "$1.99"@,
    {
        Self::new("Kitty Hat", "A cute hat for your kitty", "$1.99")
    }

    /// The gallery's default yearly option.
    pub fn yearly_default() -> (p: Self)
        ensures
            p.title@ == "VIP Kitty Pass"@,
            p.subtitle@ == "1 week free, then $9.99/year"@,
            p.price@ == "$9.99/year"@,
    {
        Self::new("VIP Kitty Pass", "1 week free, then $9.99/year", "$9.99/year")
    }
}

} // verus!
