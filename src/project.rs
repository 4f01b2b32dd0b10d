//! Rules applied to project details and purchase requests before a task runs.
use vstd::prelude::*;

use crate::engine::{opt_view, TicketInfo};
use crate::text::{decimal_of, has_char, signed_text};

verus! {

/// The express fee added to ticket prices: a screen's non-negative fee,
/// and none for projects with electronic tickets.
pub open spec fn applicable_fee(has_eticket: bool, express_fee: Option<i64>) -> int {
    match express_fee {
        Some(f) => if !has_eticket && f >= 0 { f as int } else { 0 },
        None => 0,
    }
}

/// A ticket price with the express fee added; `None` when the sum does not
/// fit in `i64`.
pub fn ticket_price_with_fee(price: i64, has_eticket: bool, express_fee: Option<i64>) -> (r: Option<i64>)
    ensures
        r matches Some(v) ==> v == price + applicable_fee(has_eticket, express_fee),
        r is None <==> !(i64::MIN <= price + applicable_fee(has_eticket, express_fee) <= i64::MAX),
{
    let fee: i64 = match express_fee {
        Some(f) => if !has_eticket && f >= 0 { f } else { 0 },
        None => 0,
    };
    price.checked_add(fee)
}

/// An identifier given either as text or as a number: the text, else the
/// number's decimal text.
pub fn item_id_text(text: Option<String>, number: Option<i64>) -> (r: Option<String>)
    ensures
        opt_view(r) == match text {
            Some(t) => Some(t@),
            None => match number {
                Some(n) => Some(decimal_of(n as int)),
                None => None,
            },
        },
{
    match text {
        Some(t) => Some(t),
        None => match number {
            Some(n) => Some(signed_text(n)),
            None => None,
        },
    }
}

/// Contact fields of the first chosen buyer, each present when the buyer
/// record holds it as text.
pub struct BuyerContact {
    pub name: Option<String>,
    pub tel: Option<String>,
    pub mobile: Option<String>,
    pub phone: Option<String>,
}

/// A contact field counts as missing when absent or empty.
pub open spec fn missing(o: Option<String>) -> bool {
    match o {
        Some(s) => s@.len() == 0,
        None => true,
    }
}

/// The buyer's phone: `tel`, else `mobile`, else `phone`.
pub open spec fn buyer_phone(b: BuyerContact) -> Option<String> {
    match b.tel {
        Some(t) => Some(t),
        None => match b.mobile {
            Some(m) => Some(m),
            None => b.phone,
        },
    }
}

/// The contact name after filling from the buyer.
pub open spec fn filled_name(info: TicketInfo, b: BuyerContact) -> Option<String> {
    if missing(info.contact_name) && (b.name matches Some(n) && n@.len() > 0) {
        b.name
    } else {
        info.contact_name
    }
}

/// The contact phone after filling from the buyer: only a non-empty phone
/// that is not masked with `*`.
pub open spec fn filled_tel(info: TicketInfo, b: BuyerContact) -> Option<String> {
    if missing(info.contact_tel) && (buyer_phone(b) matches Some(t) && t@.len() > 0
        && !t@.contains('*')) {
        buyer_phone(b)
    } else {
        info.contact_tel
    }
}

fn clone_opt(o: &Option<String>) -> (r: Option<String>)
    ensures
        r == *o,
{
    match o {
        Some(s) => Some(s.clone()),
        None => None,
    }
}

fn is_missing(o: &Option<String>) -> (r: bool)
    ensures
        r == missing(*o),
{
    match o {
        Some(s) => s.as_str().unicode_len() == 0,
        None => true,
    }
}

/// Fills a missing contact name and phone from the first chosen buyer.
pub fn apply_buyer_contact(info: &mut TicketInfo, buyer: &BuyerContact)
    ensures
        *final(info) == (TicketInfo {
            contact_name: filled_name(*old(info), *buyer),
            contact_tel: filled_tel(*old(info), *buyer),
            ..*old(info)
        }),
{
    if is_missing(&info.contact_name) {
        if let Some(n) = &buyer.name {
            if n.as_str().unicode_len() > 0 {
                info.contact_name = Some(n.clone());
            }
        }
    }
    if is_missing(&info.contact_tel) {
        let phone = match &buyer.tel {
            Some(t) => Some(t.clone()),
            None => match &buyer.mobile {
                Some(m) => Some(m.clone()),
                None => clone_opt(&buyer.phone),
            },
        };
        if let Some(t) = phone {
            if t.as_str().unicode_len() > 0 && !has_char(t.as_str(), '*') {
                info.contact_tel = Some(t);
            }
        }
    }
}

} // verus!
