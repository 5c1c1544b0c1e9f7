//! From a symbol to the source that quotes it.
//!
//! A symbol that ends in `.SZ` or `.SS` belongs to the domestic market, which
//! two text endpoints quote under an exchange code (`sz000001`); every other
//! symbol goes to the global quote endpoint as it is.

use vstd::prelude::*;
use vstd::string::*;
use vstd::utf8::*;
use crate::text::{ends_with, has_suffix, lemma_encode_concat};

verus! {

/// The market path a symbol takes.
#[derive(Clone, Copy, Debug, PartialEq, Eq, Structural)]
pub enum Route {
    Global,
    Domestic,
}

/// One upstream source.
#[derive(Clone, Copy, Debug, PartialEq, Eq, Structural)]
pub enum Adapter {
    /// The JSON quote endpoint of the global market.
    Global,
    /// The comma-delimited endpoint of the domestic market.
    DomesticPrimary,
    /// The tilde-delimited endpoint of the domestic market.
    DomesticSecondary,
}

/// The browser identification sent with every request.
pub const USER_AGENT: &'static str = "Mozilla/5.0 (Windows NT 10.0; Win64; x64) AppleWebKit/537.36";

/// Seconds a request to a domestic endpoint may take.
pub const DOMESTIC_TIMEOUT_SECS: u64 = 5;

/// Whether the UTF-8 bytes `symbol` name a domestic instrument.
pub open spec fn is_domestic(symbol: Seq<u8>) -> bool {
    has_suffix(symbol, encode_utf8(".SZ"@)) || has_suffix(symbol, encode_utf8(".SS"@))
}

/// The exchange prefix of a domestic symbol: `sz` for `.SZ`, `sh` for `.SS`.
pub open spec fn exchange_prefix(symbol: Seq<u8>) -> Option<Seq<char>> {
    if has_suffix(symbol, encode_utf8(".SZ"@)) {
        Some("sz"@)
    } else if has_suffix(symbol, encode_utf8(".SS"@)) {
        Some("sh"@)
    } else {
        None
    }
}

/// The code under which the domestic endpoints know `symbol`: the exchange
/// prefix and the symbol's first six bytes. A symbol of another market is its
/// own code. A domestic symbol has no code where its first six bytes are not
/// whole characters.
pub open spec fn exchange_code(symbol: Seq<u8>) -> Option<Seq<u8>> {
    match exchange_prefix(symbol) {
        Some(prefix) => if symbol.len() >= 6 && is_char_boundary(symbol, 6) {
            Some(encode_utf8(prefix) + symbol.take(6))
        } else {
            None
        },
        None => Some(symbol),
    }
}

/// The address at which `adapter` quotes the symbol with the given code.
pub open spec fn endpoint(adapter: Adapter) -> Seq<char> {
    match adapter {
        Adapter::Global => "https://query1.finance.yahoo.com/v8/finance/chart/"@,
        Adapter::DomesticPrimary => "https://hq.sinajs.cn/list="@,
        Adapter::DomesticSecondary => "https://qt.gtimg.cn/q="@,
    }
}

/// The address to ask `adapter` for `symbol`, where there is one: the global
/// endpoint takes the symbol itself, the domestic ones its exchange code.
pub open spec fn quote_url(adapter: Adapter, symbol: Seq<char>) -> Option<Seq<char>> {
    match adapter {
        Adapter::Global => Some(endpoint(adapter) + symbol),
        _ => match exchange_code(encode_utf8(symbol)) {
            Some(code) => Some(endpoint(adapter) + decode_utf8(code)),
            None => None,
        },
    }
}

/// Whether `symbol` names a domestic instrument.
pub fn is_china_stock(symbol: &str) -> (r: bool)
    ensures
        r == is_domestic(encode_utf8(symbol@)),
{
    let bytes = symbol.as_bytes();
    ends_with(bytes, ".SZ".as_bytes()) || ends_with(bytes, ".SS".as_bytes())
}

/// The market path that `symbol` takes.
pub fn detect_route(symbol: &str) -> (r: Route)
    ensures
        r == if is_domestic(encode_utf8(symbol@)) {
            Route::Domestic
        } else {
            Route::Global
        },
{
    if is_china_stock(symbol) {
        Route::Domestic
    } else {
        Route::Global
    }
}

/// The source asked first on `route`.
pub fn first_adapter(route: Route) -> (a: Adapter)
    ensures
        a == match route {
            Route::Global => Adapter::Global,
            Route::Domestic => Adapter::DomesticPrimary,
        },
{
    match route {
        Route::Global => Adapter::Global,
        Route::Domestic => Adapter::DomesticPrimary,
    }
}

/// The exchange code of `symbol`.
fn exchange_code_of(symbol: &str) -> (r: Option<String>)
    ensures
        match r {
            Some(code) => exchange_code(encode_utf8(symbol@)) == Some(encode_utf8(code@)),
            None => exchange_code(encode_utf8(symbol@)) is None,
        },
{
    let bytes = symbol.as_bytes();
    let is_sz = ends_with(bytes, ".SZ".as_bytes());
    let is_ss = ends_with(bytes, ".SS".as_bytes());
    if !is_sz && !is_ss {
        let code = String::from_str(symbol);
        assert(exchange_prefix(encode_utf8(symbol@)) is None);
        return Some(code);
    }
    let prefix: &str = if is_sz {
        "sz"
    } else {
        "sh"
    };
    if bytes.len() >= 6 && symbol.is_char_boundary(6) {
        let (head, _) = symbol.split_at(6);
        let code = String::from_str(prefix).concat(head);
        proof {
            lemma_encode_concat(prefix@, head@);
            assert(encode_utf8(head@) =~= encode_utf8(symbol@).take(6));
            assert(exchange_prefix(encode_utf8(symbol@)) == Some(prefix@));
        }
        Some(code)
    } else {
        None
    }
}

/// The code under which the primary domestic endpoint knows `symbol`.
pub fn convert_to_sina_format(symbol: &str) -> (r: Option<String>)
    ensures
        match r {
            Some(code) => exchange_code(encode_utf8(symbol@)) == Some(encode_utf8(code@)),
            None => exchange_code(encode_utf8(symbol@)) is None,
        },
{
    exchange_code_of(symbol)
}

/// The code under which the secondary domestic endpoint knows `symbol`.
pub fn convert_to_tencent_format(symbol: &str) -> (r: Option<String>)
    ensures
        match r {
            Some(code) => exchange_code(encode_utf8(symbol@)) == Some(encode_utf8(code@)),
            None => exchange_code(encode_utf8(symbol@)) is None,
        },
{
    exchange_code_of(symbol)
}

impl Adapter {
    /// The referring page named in a request to this source.
    pub fn referer(&self) -> (r: Option<&'static str>)
        ensures
            match *self {
                Adapter::Global => r is None,
                Adapter::DomesticPrimary => r matches Some(s) && s@ == "https://finance.sina.com.cn"@,
                Adapter::DomesticSecondary => r matches Some(s) && s@
                    == "https://stockapp.finance.qq.com"@,
            },
    {
        match self {
            Adapter::Global => None,
            Adapter::DomesticPrimary => Some("https://finance.sina.com.cn"),
            Adapter::DomesticSecondary => Some("https://stockapp.finance.qq.com"),
        }
    }

    /// The time a request to this source may take, where it has a limit of
    /// its own.
    pub fn timeout_secs(&self) -> (r: Option<u64>)
        ensures
            r == match *self {
                Adapter::Global => None,
                _ => Some(DOMESTIC_TIMEOUT_SECS),
            },
    {
        match self {
            Adapter::Global => None,
            _ => Some(DOMESTIC_TIMEOUT_SECS),
        }
    }

    /// The address to ask this source for `symbol`.
    pub fn url_for(&self, symbol: &str) -> (r: Option<String>)
        ensures
            match r {
                Some(url) => quote_url(*self, symbol@) == Some(url@),
                None => quote_url(*self, symbol@) is None,
            },
    {
        match self {
            Adapter::Global => Some(
                String::from_str("https://query1.finance.yahoo.com/v8/finance/chart/").concat(
                    symbol,
                ),
            ),
            Adapter::DomesticPrimary => match convert_to_sina_format(symbol) {
                Some(code) => {
                    proof {
                        encode_utf8_decode_utf8(code@);
                    }
                    Some(String::from_str("https://hq.sinajs.cn/list=").concat(code.as_str()))
                },
                None => None,
            },
            Adapter::DomesticSecondary => match convert_to_tencent_format(symbol) {
                Some(code) => {
                    proof {
                        encode_utf8_decode_utf8(code@);
                    }
                    Some(String::from_str("https://qt.gtimg.cn/q=").concat(code.as_str()))
                },
                None => None,
            },
        }
    }
}

} // verus!
