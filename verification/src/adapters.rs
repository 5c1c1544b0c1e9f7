//! Reading what the upstream sources reply.
//!
//! Each source has a wire format of its own: the global endpoint answers with a
//! nested object, decoded by the caller into a [`GlobalQuote`]; the two
//! domestic endpoints answer with one line of text whose quoted payload holds
//! positional fields, separated by commas at the primary and by tildes at the
//! secondary. Whatever the source, a good reply becomes a [`PriceSample`].

use vstd::prelude::*;
use vstd::string::*;
use vstd::utf8::*;
use crate::decimal::{parse_decimal, parse_integer, read_decimal, read_integer, read_price, Price};
use crate::errors::{FetchError, NumberField};
use crate::models::{PriceSample, SourceTag};
use crate::routing::Adapter;
use crate::text::{
    between_quotes,
    lemma_payload_is_text,
    lemma_pieces_are_text,
    lossy_text,
    quoted_payload,
    split_fields,
    split_on,
    text_from_bytes,
    text_of,
};

verus! {

/// Fewest fields a reply of the primary domestic endpoint may have.
pub const PRIMARY_FIELDS: usize = 32;

/// Fewest fields a reply of the secondary domestic endpoint may have.
pub const SECONDARY_FIELDS: usize = 50;

/// What a reply says of an instrument.
pub ghost struct Quoted {
    pub price: Price,
    pub volume: i64,
    /// The display name, where the reply gives one.
    pub name: Option<Seq<char>>,
}

impl Quoted {
    /// The price is above zero and the volume is not below zero.
    pub open spec fn in_range(self) -> bool {
        self.price@ > 0 && self.volume >= 0
    }
}

/// The price that a sample may carry from the numeral `field`: the numeral's
/// value where it is above zero.
pub open spec fn quoted_price(field: Seq<u8>) -> Option<Price> {
    match read_price(field) {
        Some(price) => if price@ > 0 {
            Some(price)
        } else {
            None
        },
        None => None,
    }
}

/// The volume that a sample may carry from what was read of a numeral: the
/// number read where it is not below zero.
pub open spec fn quoted_volume(read: Option<i64>) -> Option<i64> {
    match read {
        Some(volume) => if volume >= 0 {
            Some(volume)
        } else {
            None
        },
        None => None,
    }
}

/// The fields of the quoted payload of `text`, where it has a payload of at
/// least `least` fields.
pub open spec fn payload_fields(text: Seq<u8>, sep: u8, least: nat) -> Option<Seq<Seq<u8>>> {
    match between_quotes(text, 0x22) {
        Some(payload) => if split_on(payload, sep).len() >= least {
            Some(split_on(payload, sep))
        } else {
            None
        },
        None => None,
    }
}

/// What a reply of the primary domestic endpoint says: nothing where the
/// layout is not met; else the name from field 0, the price from field 3 and
/// the volume, a whole number, from field 8. A price field that is no numeral
/// above zero is a failure, and so is a volume field that is no whole number
/// from zero up.
pub open spec fn primary_quote(text: Seq<u8>) -> Result<Option<Quoted>, FetchError> {
    match payload_fields(text, 0x2c, PRIMARY_FIELDS as nat) {
        None => Ok(None),
        Some(f) => if quoted_price(f[3]) is None {
            Err(FetchError::Number(NumberField::Price))
        } else if quoted_volume(read_integer(f[8])) is None {
            Err(FetchError::Number(NumberField::Volume))
        } else {
            Ok(
                Some(
                    Quoted {
                        price: quoted_price(f[3]).unwrap(),
                        volume: quoted_volume(read_integer(f[8])).unwrap(),
                        name: Some(lossy_text(f[0])),
                    },
                ),
            )
        },
    }
}

/// What a reply of the secondary domestic endpoint says: nothing where the
/// layout is not met; else the name from field 1, the price from field 3 and
/// the volume from field 6, a decimal numeral cut to a whole number. A price
/// field that is no numeral above zero is a failure, and so is a volume field
/// that is no numeral from zero up.
pub open spec fn secondary_quote(text: Seq<u8>) -> Result<Option<Quoted>, FetchError> {
    match payload_fields(text, 0x7e, SECONDARY_FIELDS as nat) {
        None => Ok(None),
        Some(f) => if quoted_price(f[3]) is None {
            Err(FetchError::Number(NumberField::Price))
        } else if quoted_volume(read_decimal(f[6], 0)) is None {
            Err(FetchError::Number(NumberField::Volume))
        } else {
            Ok(
                Some(
                    Quoted {
                        price: quoted_price(f[3]).unwrap(),
                        volume: quoted_volume(read_decimal(f[6], 0)).unwrap(),
                        name: Some(lossy_text(f[1])),
                    },
                ),
            )
        },
    }
}

/// The bytes of field `index` of the quoted payload of `text`; empty where the
/// payload has no such field.
pub open spec fn payload_field(text: Seq<u8>, sep: u8, index: int) -> Seq<u8> {
    match payload_fields(text, sep, (index + 1) as nat) {
        Some(f) => f[index],
        None => Seq::empty(),
    }
}

/// Every field of the quoted payload of a text is a text.
pub proof fn lemma_fields_are_text(text: Seq<u8>, sep: u8, least: nat, index: int)
    requires
        valid_utf8(text),
        sep < 0x80,
        payload_fields(text, sep, least) matches Some(f) && 0 <= index < f.len(),
    ensures
        valid_utf8(payload_fields(text, sep, least).unwrap()[index]),
{
    lemma_payload_is_text(text, 0x22);
    lemma_pieces_are_text(between_quotes(text, 0x22).unwrap(), sep, index);
}

/// The tag of samples that come from `adapter`.
pub open spec fn source_of(adapter: Adapter) -> SourceTag {
    match adapter {
        Adapter::DomesticSecondary => SourceTag::Secondary,
        _ => SourceTag::Primary,
    }
}

/// Whether `sample` says of `symbol` what `quoted` does, taken at `now` from `source`.
pub open spec fn carries(
    sample: PriceSample,
    quoted: Quoted,
    symbol: Seq<char>,
    now: i64,
    source: SourceTag,
) -> bool {
    &&& sample.symbol@ == symbol
    &&& sample.price == quoted.price
    &&& sample.volume == quoted.volume
    &&& sample.timestamp == now
    &&& sample.source == source
    &&& text_of(sample.name) == quoted.name
}

/// The fields of the quoted payload of `text`.
fn quoted_fields<'a>(text: &'a [u8], sep: u8, least: usize) -> (r: Option<Vec<&'a [u8]>>)
    ensures
        match r {
            Some(fields) => payload_fields(text@, sep, least as nat) matches Some(f) && fields@.len()
                == f.len() && forall|i: int|
                0 <= i < f.len() ==> (#[trigger] fields@[i])@ == f[i],
            None => payload_fields(text@, sep, least as nat) is None,
        },
{
    match quoted_payload(text, 0x22) {
        Some(payload) => {
            let fields = split_fields(payload, sep);
            if fields.len() >= least {
                Some(fields)
            } else {
                None
            }
        },
        None => None,
    }
}

/// Reads the price that a sample may carry from a numeral.
fn read_quoted_price(field: &[u8]) -> (r: Option<Price>)
    ensures
        r == quoted_price(field@),
{
    match Price::parse(field) {
        Some(price) => if price.micros > 0 {
            Some(price)
        } else {
            None
        },
        None => None,
    }
}

/// Keeps of what was read of a numeral the volume that a sample may carry.
fn keep_quoted_volume(read: Option<i64>) -> (r: Option<i64>)
    ensures
        r == quoted_volume(read),
{
    match read {
        Some(volume) => if volume >= 0 {
            Some(volume)
        } else {
            None
        },
        None => None,
    }
}

/// Reads a reply of the primary domestic endpoint for `symbol`, received at `now`.
pub fn parse_sina_response(text: &[u8], symbol: &str, now: i64) -> (r: Result<
    Option<PriceSample>,
    FetchError,
>)
    ensures
        match primary_quote(text@) {
            Ok(Some(quoted)) => r matches Ok(Some(sample)) && carries(
                sample,
                quoted,
                symbol@,
                now,
                SourceTag::Primary,
            ),
            Ok(None) => r is Ok && r->Ok_0 is None,
            Err(e) => r is Err && r->Err_0 == e,
        },
        r matches Ok(Some(sample)) ==> sample.well_formed(),
        r matches Ok(Some(sample)) ==> (valid_utf8(text@) ==> text_of(sample.name) == Some(
            decode_utf8(payload_field(text@, 0x2c, 0)),
        )),
{
    proof {
        if valid_utf8(text@) && payload_fields(text@, 0x2c, PRIMARY_FIELDS as nat) is Some {
            lemma_fields_are_text(text@, 0x2c, PRIMARY_FIELDS as nat, 0);
        }
    }
    let fields = match quoted_fields(text, 0x2c, PRIMARY_FIELDS) {
        Some(fields) => fields,
        None => {
            return Ok(None);
        },
    };
    let price = match read_quoted_price(fields[3]) {
        Some(price) => price,
        None => {
            return Err(FetchError::Number(NumberField::Price));
        },
    };
    let volume = match keep_quoted_volume(parse_integer(fields[8])) {
        Some(volume) => volume,
        None => {
            return Err(FetchError::Number(NumberField::Volume));
        },
    };
    Ok(
        Some(
            PriceSample {
                symbol: String::from_str(symbol),
                price,
                volume,
                timestamp: now,
                source: SourceTag::Primary,
                name: Some(text_from_bytes(fields[0])),
            },
        ),
    )
}

/// Reads a reply of the secondary domestic endpoint for `symbol`, received at `now`.
pub fn parse_tencent_response(text: &[u8], symbol: &str, now: i64) -> (r: Result<
    Option<PriceSample>,
    FetchError,
>)
    ensures
        match secondary_quote(text@) {
            Ok(Some(quoted)) => r matches Ok(Some(sample)) && carries(
                sample,
                quoted,
                symbol@,
                now,
                SourceTag::Secondary,
            ),
            Ok(None) => r is Ok && r->Ok_0 is None,
            Err(e) => r is Err && r->Err_0 == e,
        },
        r matches Ok(Some(sample)) ==> sample.well_formed(),
        r matches Ok(Some(sample)) ==> (valid_utf8(text@) ==> text_of(sample.name) == Some(
            decode_utf8(payload_field(text@, 0x7e, 1)),
        )),
{
    proof {
        if valid_utf8(text@) && payload_fields(text@, 0x7e, SECONDARY_FIELDS as nat) is Some {
            lemma_fields_are_text(text@, 0x7e, SECONDARY_FIELDS as nat, 1);
        }
    }
    let fields = match quoted_fields(text, 0x7e, SECONDARY_FIELDS) {
        Some(fields) => fields,
        None => {
            return Ok(None);
        },
    };
    let price = match read_quoted_price(fields[3]) {
        Some(price) => price,
        None => {
            return Err(FetchError::Number(NumberField::Price));
        },
    };
    let volume = match keep_quoted_volume(parse_decimal(fields[6], 0)) {
        Some(volume) => volume,
        None => {
            return Err(FetchError::Number(NumberField::Volume));
        },
    };
    Ok(
        Some(
            PriceSample {
                symbol: String::from_str(symbol),
                price,
                volume,
                timestamp: now,
                source: SourceTag::Secondary,
                name: Some(text_from_bytes(fields[1])),
            },
        ),
    )
}

/// The error that the global endpoint may embed in its reply.
#[derive(Debug)]
pub struct QuoteError {
    pub code: String,
    pub description: String,
}

/// What one result of the global endpoint says of an instrument.
#[derive(Debug)]
pub struct QuoteMeta {
    pub regular_market_price: Option<Price>,
    pub regular_market_volume: Option<i64>,
    pub short_name: Option<String>,
}

/// A decoded reply of the global endpoint.
#[derive(Debug)]
pub struct GlobalQuote {
    pub result: Vec<QuoteMeta>,
    pub error: Option<QuoteError>,
}

/// The volume of a result of the global endpoint: 0 where none is given.
pub open spec fn given_volume(volume: Option<i64>) -> i64 {
    match volume {
        Some(v) => v,
        None => 0,
    }
}

/// What a reply of the global endpoint comes to: its embedded error, if it has
/// one; else a failure where no result or no price is there, where the price
/// is not above zero, or where the volume is below zero; else what the first
/// result says, with volume 0 where none is given.
pub open spec fn global_quote(quote: GlobalQuote) -> Result<Quoted, FetchError> {
    match quote.error {
        Some(e) => Err(FetchError::Upstream { code: e.code, description: e.description }),
        None => if quote.result@.len() == 0 {
            Err(FetchError::NoData)
        } else {
            match quote.result@[0].regular_market_price {
                None => Err(FetchError::NoPrice),
                Some(price) => if price@ <= 0 {
                    Err(FetchError::OutOfRange(NumberField::Price))
                } else if given_volume(quote.result@[0].regular_market_volume) < 0 {
                    Err(FetchError::OutOfRange(NumberField::Volume))
                } else {
                    Ok(
                        Quoted {
                            price,
                            volume: given_volume(quote.result@[0].regular_market_volume),
                            name: text_of(quote.result@[0].short_name),
                        },
                    )
                },
            }
        },
    }
}

/// Reads a decoded reply of the global endpoint for `symbol`, received at `now`.
pub fn read_global_quote(quote: GlobalQuote, symbol: &str, now: i64) -> (r: Result<
    PriceSample,
    FetchError,
>)
    ensures
        match global_quote(quote) {
            Ok(quoted) => r matches Ok(sample) && carries(
                sample,
                quoted,
                symbol@,
                now,
                SourceTag::Primary,
            ),
            Err(e) => r is Err && r->Err_0 == e,
        },
        r matches Ok(sample) ==> sample.well_formed(),
{
    let GlobalQuote { result, error } = quote;
    let mut result = result;
    match error {
        Some(e) => {
            return Err(FetchError::Upstream { code: e.code, description: e.description });
        },
        None => {},
    }
    if result.len() == 0 {
        return Err(FetchError::NoData);
    }
    let first = result.swap_remove(0);
    let price = match first.regular_market_price {
        Some(price) => price,
        None => {
            return Err(FetchError::NoPrice);
        },
    };
    if price.micros <= 0 {
        return Err(FetchError::OutOfRange(NumberField::Price));
    }
    let volume = match first.regular_market_volume {
        Some(v) => v,
        None => 0,
    };
    if volume < 0 {
        return Err(FetchError::OutOfRange(NumberField::Volume));
    }
    Ok(
        PriceSample {
            symbol: String::from_str(symbol),
            price,
            volume,
            timestamp: now,
            source: SourceTag::Primary,
            name: first.short_name,
        },
    )
}

/// What came back from one request.
#[derive(Debug)]
pub enum Reply {
    /// Nothing: the request did not complete.
    Failed,
    /// A text endpoint answered.
    Text { status: u16, body: Vec<u8> },
    /// The quote endpoint answered; `quote` is none where the body could not
    /// be decoded.
    Quote { status: u16, quote: Option<GlobalQuote> },
}

/// Whether an HTTP status reports success.
pub open spec fn is_success(status: u16) -> bool {
    200 <= status <= 299
}

/// What `adapter` makes of `reply`.
///
/// A request that did not complete is a network failure; a status other than
/// success is reported as such; a reply of the wrong kind, or one that could
/// not be decoded, is malformed. Otherwise the source's own format decides,
/// and a text reply that does not meet its layout is a layout failure. No
/// source gives a price that is not above zero, or a volume below zero.
pub open spec fn reply_outcome(adapter: Adapter, reply: Reply) -> Result<Quoted, FetchError> {
    match reply {
        Reply::Failed => Err(FetchError::Network),
        Reply::Text { status, body } => if !is_success(status) {
            Err(FetchError::HttpStatus(status))
        } else {
            match adapter {
                Adapter::Global => Err(FetchError::Malformed),
                Adapter::DomesticPrimary => match primary_quote(body@) {
                    Ok(Some(quoted)) => Ok(quoted),
                    Ok(None) => Err(FetchError::Layout),
                    Err(e) => Err(e),
                },
                Adapter::DomesticSecondary => match secondary_quote(body@) {
                    Ok(Some(quoted)) => Ok(quoted),
                    Ok(None) => Err(FetchError::Layout),
                    Err(e) => Err(e),
                },
            }
        },
        Reply::Quote { status, quote } => if !is_success(status) {
            Err(FetchError::HttpStatus(status))
        } else {
            match (adapter, quote) {
                (Adapter::Global, Some(q)) => global_quote(q),
                _ => Err(FetchError::Malformed),
            }
        },
    }
}

/// Whatever a source replies, what is made of it is a failure or says a price
/// above zero and a volume that is not below zero.
pub proof fn law_quoted_is_in_range(adapter: Adapter, reply: Reply)
    ensures
        reply_outcome(adapter, reply) matches Ok(quoted) ==> quoted.in_range(),
        forall|text: Seq<u8>| #[trigger]
            primary_quote(text) matches Ok(Some(quoted)) ==> quoted.in_range(),
        forall|text: Seq<u8>| #[trigger]
            secondary_quote(text) matches Ok(Some(quoted)) ==> quoted.in_range(),
        forall|quote: GlobalQuote| #[trigger] global_quote(quote) matches Ok(quoted) ==> quoted.in_range(),
{
}

/// Makes a sample, or a failure, of what `adapter` got back for `symbol` at `now`.
pub fn interpret_reply(adapter: Adapter, reply: Reply, symbol: &str, now: i64) -> (r: Result<
    PriceSample,
    FetchError,
>)
    ensures
        match reply_outcome(adapter, reply) {
            Ok(quoted) => r matches Ok(sample) && carries(
                sample,
                quoted,
                symbol@,
                now,
                source_of(adapter),
            ),
            Err(e) => r is Err && r->Err_0 == e,
        },
        r matches Ok(sample) ==> sample.well_formed(),
{
    match reply {
        Reply::Failed => Err(FetchError::Network),
        Reply::Text { status, body } => {
            if status < 200 || status > 299 {
                return Err(FetchError::HttpStatus(status));
            }
            let parsed = match adapter {
                Adapter::Global => {
                    return Err(FetchError::Malformed);
                },
                Adapter::DomesticPrimary => parse_sina_response(body.as_slice(), symbol, now),
                Adapter::DomesticSecondary => parse_tencent_response(body.as_slice(), symbol, now),
            };
            match parsed {
                Ok(Some(sample)) => Ok(sample),
                Ok(None) => Err(FetchError::Layout),
                Err(e) => Err(e),
            }
        },
        Reply::Quote { status, quote } => {
            if status < 200 || status > 299 {
                return Err(FetchError::HttpStatus(status));
            }
            match adapter {
                Adapter::Global => match quote {
                    Some(q) => read_global_quote(q, symbol, now),
                    None => Err(FetchError::Malformed),
                },
                _ => Err(FetchError::Malformed),
            }
        },
    }
}

} // verus!
