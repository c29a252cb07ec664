//! Construction of the shareable payment URI.
//!
//! The URI embeds the destination address, the relay endpoint that the
//! sender must post its proposal to, and the optional requested amount and
//! label. Its exact character sequence is pinned by [`pj_uri_chars`].

use vstd::prelude::*;

use crate::amount::btc_chars;
use crate::amount::format_btc_amount;

verus! {

/// The amount query field: empty when no amount was requested, otherwise
/// `&amount=` followed by the amount in whole bitcoin.
pub open spec fn amount_field_chars(amount: Option<u64>) -> Seq<char> {
    match amount {
        Option::None => Seq::empty(),
        Option::Some(sats) => "&amount="@ + btc_chars(sats as nat),
    }
}

/// The label query field: empty when no label was given, otherwise
/// `&label=` followed by the label text.
pub open spec fn label_field_chars(label: Option<Seq<char>>) -> Seq<char> {
    match label {
        Option::None => Seq::empty(),
        Option::Some(l) => "&label="@ + l,
    }
}

/// The whole payment URI: scheme, address, the relay endpoint the sender
/// posts to, then the optional amount and label fields.
pub open spec fn pj_uri_chars(
    address: Seq<char>,
    amount: Option<u64>,
    label: Option<Seq<char>>,
    endpoint: Seq<char>,
) -> Seq<char> {
    "bitcoin:"@ + address + "?pj="@ + endpoint + amount_field_chars(amount)
        + label_field_chars(label)
}

/// Builds the shareable URI for a payment request: the address, the relay
/// endpoint, and the optional amount and label, in that order.
pub fn pj_uri_with_extras(
    address: &String,
    amount: Option<u64>,
    label: &Option<String>,
    endpoint: &String,
) -> (r: String)
    ensures
        r@ == pj_uri_chars(address@, amount, label.deep_view(), endpoint@),
{
    let mut s = String::new();
    s.append("bitcoin:");
    s.append(address.as_str());
    s.append("?pj=");
    s.append(endpoint.as_str());
    match amount {
        Option::None => {},
        Option::Some(sats) => {
            s.append("&amount=");
            let rendered = format_btc_amount(sats);
            s.append(rendered.as_str());
        },
    }
    match label {
        Option::None => {},
        Option::Some(l) => {
            s.append("&label=");
            s.append(l.as_str());
        },
    }
    proof {
        assert(s@ =~= pj_uri_chars(address@, amount, label.deep_view(), endpoint@));
    }
    s
}

} // verus!
