//! What a BOLT11 payment request says, as plain values. Reading the text is
//! the invoice parser's work; this module decides which texts the parser
//! is given, and hands its findings on.
//!
//! The parser multiplies an amount that is written without a multiplier
//! letter by a million million, unchecked. A text whose amount is too large
//! for that is kept from it.

use vstd::prelude::*;
use vstd::utf8::is_ascii_chars;
use crate::codec::opt_text;
use crate::text::{ascii_bytes, digit_value, is_digit};

verus! {

/// One hop of a route hint, as the parser found it.
#[derive(Debug, Clone)]
pub struct ParsedHop {
    pub src_node_id: String,
    pub short_channel_id: u64,
    pub fee_base_msat: u32,
    pub fee_proportional_millionths: u32,
    pub cltv_expiry_delta: u16,
}

/// The mathematical value of a [`ParsedHop`].
pub struct ParsedHopView {
    pub src_node_id: Seq<char>,
    pub short_channel_id: u64,
    pub fee_base_msat: u32,
    pub fee_proportional_millionths: u32,
    pub cltv_expiry_delta: u16,
}

impl View for ParsedHop {
    type V = ParsedHopView;

    open spec fn view(&self) -> ParsedHopView {
        ParsedHopView {
            src_node_id: self.src_node_id@,
            short_channel_id: self.short_channel_id,
            fee_base_msat: self.fee_base_msat,
            fee_proportional_millionths: self.fee_proportional_millionths,
            cltv_expiry_delta: self.cltv_expiry_delta,
        }
    }
}

/// The fields of an invoice other than its features and its route hints.
#[derive(Debug, Clone)]
pub struct ParsedFields {
    /// The description, where the invoice carries it in plain text; nothing
    /// where it only commits to the description's hash.
    pub description: Option<String>,
    /// When the invoice was made, in milliseconds since the Unix epoch.
    pub since_epoch_millis: u128,
    pub amount_msat: Option<u64>,
    /// The payment hash in hexadecimal.
    pub payment_hash: String,
    /// How long the invoice stays valid, in milliseconds.
    pub expiry_millis: u128,
    pub min_final_cltv_expiry: u64,
}

/// The mathematical value of [`ParsedFields`].
pub struct ParsedFieldsView {
    pub description: Option<Seq<char>>,
    pub since_epoch_millis: u128,
    pub amount_msat: Option<u64>,
    pub payment_hash: Seq<char>,
    pub expiry_millis: u128,
    pub min_final_cltv_expiry: u64,
}

impl View for ParsedFields {
    type V = ParsedFieldsView;

    open spec fn view(&self) -> ParsedFieldsView {
        ParsedFieldsView {
            description: opt_text(self.description),
            since_epoch_millis: self.since_epoch_millis,
            amount_msat: self.amount_msat,
            payment_hash: self.payment_hash@,
            expiry_millis: self.expiry_millis,
            min_final_cltv_expiry: self.min_final_cltv_expiry,
        }
    }
}

/// What the feature bits of an invoice say of one feature: whether the
/// even bit asks for it, and whether either bit of the pair is set.
#[derive(Debug, Clone, Copy, PartialEq, Eq, Structural)]
pub struct ParsedFeature {
    pub required: bool,
    pub supported: bool,
}

/// What the feature bits of an invoice say of the features this library
/// reports: the variable-length onion (bits 8 and 9), the payment secret
/// (bits 14 and 15) and basic multi-path payments (bits 16 and 17).
#[derive(Debug, Clone, Copy, PartialEq, Eq, Structural)]
pub struct ParsedFeatures {
    pub var_onion_optin: ParsedFeature,
    pub payment_secret: ParsedFeature,
    pub basic_mpp: ParsedFeature,
}

/// The views of the hops of one route hint, in order.
pub open spec fn hops_view(hops: Seq<ParsedHop>) -> Seq<ParsedHopView> {
    Seq::new(hops.len(), |i: int| hops[i]@)
}

/// The views of a list of route hints, in order.
pub open spec fn route_hints_view(hints: Seq<Vec<ParsedHop>>) -> Seq<Seq<ParsedHopView>> {
    Seq::new(hints.len(), |i: int| hops_view(hints[i]@))
}

/// The view of what [`parse_fields`] returned.
pub open spec fn fields_view(fields: Option<ParsedFields>) -> Option<ParsedFieldsView> {
    match fields {
        Some(f) => Some(f@),
        None => None,
    }
}

/// The largest amount that may stand without a multiplier letter: the
/// largest whose million-millionfold still fits 64 bits.
pub const MAX_BARE_AMOUNT: u64 = 18_446_744;

/// Where the last `1` stands in `s`: it parts the human-readable part from
/// the data. Minus one where there is none.
pub open spec fn last_separator(s: Seq<char>) -> int
    decreases s.len(),
{
    if s.len() == 0 {
        -1
    } else if s.last() == '1' {
        s.len() - 1
    } else {
        last_separator(s.drop_last())
    }
}

/// The number written by the digits that `s` ends with, as far back as
/// they go; zero where `s` does not end with a digit.
pub open spec fn trailing_number(s: Seq<char>) -> nat
    decreases s.len(),
{
    if s.len() == 0 || !is_digit(s.last()) {
        0
    } else {
        10 * trailing_number(s.drop_last()) + digit_value(s.last())
    }
}

/// The amount that the human-readable part of `s` states without a
/// multiplier letter; zero where it states none or ends with a letter.
pub open spec fn bare_amount(s: Seq<char>) -> nat {
    if last_separator(s) < 0 {
        0
    } else {
        trailing_number(s.subrange(0, last_separator(s)))
    }
}

/// Whether `s` may be given to the invoice parser: it is ASCII, as every
/// invoice is, and an amount without a multiplier letter is small enough
/// to be multiplied.
pub open spec fn is_readable(s: Seq<char>) -> bool {
    is_ascii_chars(s) && bare_amount(s) <= MAX_BARE_AMOUNT
}

/// Whether `text` may be given to the invoice parser.
pub fn check_readable(text: &str) -> (readable: bool)
    ensures
        readable == is_readable(text@),
{
    let bytes = match ascii_bytes(text) {
        Some(bytes) => bytes,
        None => {
            return false;
        },
    };
    let n = bytes.len();
    let mut end: usize = n;
    assert(text@.subrange(0, n as int) =~= text@);
    while end > 0 && bytes[end - 1] != 49u8
        invariant
            end <= n,
            n == bytes@.len(),
            n == text@.len(),
            is_ascii_chars(text@),
            forall|k: int| 0 <= k < text@.len() ==> #[trigger] bytes@[k] == text@[k] as u8,
            last_separator(text@) == last_separator(text@.subrange(0, end as int)),
        decreases end,
    {
        assert(text@.subrange(0, end as int).drop_last() =~= text@.subrange(0, end as int - 1));
        end = end - 1;
    }
    if end == 0 {
        return true;
    }
    let separator: usize = end - 1;
    assert(text@.subrange(0, end as int).last() == '1') by {
        assert('\0' <= text@[separator as int] <= '\u{7f}');
    }
    let mut amount: u64 = 0;
    let mut i: usize = 0;
    while i < separator
        invariant
            i <= separator < n,
            n == bytes@.len(),
            n == text@.len(),
            is_ascii_chars(text@),
            forall|k: int| 0 <= k < text@.len() ==> #[trigger] bytes@[k] == text@[k] as u8,
            ({
                let number = trailing_number(text@.subrange(0, i as int));
                &&& number <= MAX_BARE_AMOUNT ==> amount == number
                &&& number > MAX_BARE_AMOUNT ==> amount == MAX_BARE_AMOUNT + 1
            }),
        decreases separator - i,
    {
        let b = bytes[i];
        proof {
            let before = text@.subrange(0, i as int);
            let after = text@.subrange(0, i as int + 1);
            assert(after.drop_last() =~= before);
            assert(after.last() == text@[i as int]);
            assert('\0' <= text@[i as int] <= '\u{7f}');
        }
        if b < 48u8 || b > 57u8 {
            amount = 0;
        } else if amount <= MAX_BARE_AMOUNT {
            amount = amount * 10 + (b - 48u8) as u64;
            if amount > MAX_BARE_AMOUNT {
                amount = MAX_BARE_AMOUNT + 1;
            }
        }
        i = i + 1;
    }
    amount <= MAX_BARE_AMOUNT
}

/// What the invoice parser reads out of `text`: its fields, or nothing
/// where the text is no valid signed invoice.
pub uninterp spec fn bolt11_fields(text: Seq<char>) -> Option<ParsedFieldsView>;

/// What the feature bits that the invoice parser finds in `text` say;
/// nothing where the text is no valid signed invoice or has no feature
/// bits.
pub uninterp spec fn bolt11_features(text: Seq<char>) -> Option<ParsedFeatures>;

/// The route hints that the invoice parser finds in `text`, in the order of
/// the text; none where the text is no valid signed invoice.
pub uninterp spec fn bolt11_route_hints(text: Seq<char>) -> Seq<Seq<ParsedHopView>>;

/// `str::parse` into `lightning_invoice::Invoice`, then the invoice's own
/// accessors. What comes back depends on the text alone. The parse
/// overflows on an amount that is too large to stand without a multiplier
/// letter; such a text is left out.
#[verifier::external_body]
pub(crate) fn parse_fields(text: &str) -> (fields: Option<ParsedFields>)
    requires
        is_readable(text@),
    ensures
        fields_view(fields) == bolt11_fields(text@),
{
    let invoice = text.parse::<lightning_invoice::Invoice>().ok()?;
    Some(ParsedFields {
        description: match invoice.description() {
            lightning_invoice::InvoiceDescription::Direct(direct) => Some(direct.to_string()),
            lightning_invoice::InvoiceDescription::Hash(_) => None,
        },
        since_epoch_millis: invoice.duration_since_epoch().as_millis(),
        amount_msat: invoice.amount_milli_satoshis(),
        payment_hash: invoice.payment_hash().to_string(),
        expiry_millis: invoice.expiry_time().as_millis(),
        min_final_cltv_expiry: invoice.min_final_cltv_expiry(),
    })
}

/// `str::parse` into `lightning_invoice::Invoice`, then `features` and the
/// getters of the three features. What comes back depends on the text
/// alone. The parse overflows on an amount that is too large to stand
/// without a multiplier letter; such a text is left out.
#[verifier::external_body]
pub(crate) fn parse_features(text: &str) -> (features: Option<ParsedFeatures>)
    requires
        is_readable(text@),
    ensures
        features == bolt11_features(text@),
{
    let invoice = text.parse::<lightning_invoice::Invoice>().ok()?;
    let bits = invoice.features()?;
    let onion = (bits.requires_variable_length_onion(), bits.supports_variable_length_onion());
    let secret = (bits.requires_payment_secret(), bits.supports_payment_secret());
    let mpp = (bits.requires_basic_mpp(), bits.supports_basic_mpp());
    Some(ParsedFeatures {
        var_onion_optin: ParsedFeature { required: onion.0, supported: onion.1 },
        payment_secret: ParsedFeature { required: secret.0, supported: secret.1 },
        basic_mpp: ParsedFeature { required: mpp.0, supported: mpp.1 },
    })
}

/// `str::parse` into `lightning_invoice::Invoice`, then `route_hints`, each
/// hop turned into plain values. What comes back depends on the text alone.
/// The parse overflows on an amount that is too large to stand without a
/// multiplier letter; such a text is left out.
#[verifier::external_body]
pub(crate) fn parse_route_hints(text: &str) -> (hints: Vec<Vec<ParsedHop>>)
    requires
        is_readable(text@),
    ensures
        route_hints_view(hints@) == bolt11_route_hints(text@),
{
    let invoice = match text.parse::<lightning_invoice::Invoice>() {
        Ok(invoice) => invoice,
        Err(_) => return Vec::new(),
    };
    invoice.route_hints().iter().map(|hint| hint.0.iter().map(|hop| ParsedHop {
        src_node_id: hop.src_node_id.to_string(),
        short_channel_id: hop.short_channel_id,
        fee_base_msat: hop.fees.base_msat,
        fee_proportional_millionths: hop.fees.proportional_millionths,
        cltv_expiry_delta: hop.cltv_expiry_delta,
    }).collect()).collect()
}

} // verus!
