//! Canonical pairs: `BASE/QUOTE`, whatever the venue writes.

use vstd::prelude::*;
use crate::text::same_text;

verus! {

/// A symbol with a slash in place of each underscore.
pub open spec fn slashed(symbol: Seq<char>) -> Seq<char> {
    symbol.map_values(
        |c: char|
            if c == '_' {
                '/'
            } else {
                c
            },
    )
}

/// Whether the underscore at `i` parts a symbol into a base and a quote: it is the only
/// one, something stands on both sides of it, and the symbol holds no slash.
pub open spec fn parts_at(symbol: Seq<char>, i: int) -> bool {
    &&& 0 < i < symbol.len() - 1
    &&& symbol[i] == '_'
    &&& forall|j: int|
        0 <= j < symbol.len() && j != i ==> #[trigger] symbol[j] != '_' && symbol[j] != '/'
}

/// Whether a symbol names a base and a quote, parted by an underscore.
pub open spec fn is_venue_symbol(symbol: Seq<char>) -> bool {
    exists|i: int| parts_at(symbol, i)
}

/// Whether a pair is canonical: a base and a quote, parted by the only slash.
pub open spec fn is_base_quote(pair: Seq<char>) -> bool {
    exists|i: int|
        {
            &&& 0 < i < pair.len() - 1
            &&& #[trigger] pair[i] == '/'
            &&& forall|j: int| 0 <= j < pair.len() && j != i ==> #[trigger] pair[j] != '/'
        }
}

/// The venues whose symbols this library normalizes.
pub open spec fn knows_exchange(exchange: Seq<char>) -> bool {
    exchange == "gate"@ || exchange == "mxc"@ || exchange == "mexc"@
}

/// The canonical pair of a symbol of a venue. A symbol that does not name a base and a
/// quote has none, and neither has a symbol of a venue that is not known.
pub open spec fn pair_of(symbol: Seq<char>, exchange: Seq<char>) -> Option<Seq<char>> {
    if knows_exchange(exchange) && is_venue_symbol(symbol) {
        Some(slashed(symbol))
    } else {
        None
    }
}

/// Calls `crypto_pair::normalize_pair`. Trusted: for the venues "gate", "mxc" and
/// "mexc", and a symbol with one underscore, the crate answers with the symbol in which
/// a slash stands for the underscore.
#[verifier::external_body]
fn lookup_pair(symbol: &str, exchange: &str) -> (pair: Option<String>)
    requires
        knows_exchange(exchange@),
        is_venue_symbol(symbol@),
    ensures
        pair is Some,
        pair->Some_0@ == slashed(symbol@),
{
    crypto_pair::normalize_pair(symbol, exchange)
}

/// Whether a symbol names a base and a quote, parted by an underscore.
pub fn is_symbol(symbol: &str) -> (valid: bool)
    ensures
        valid == is_venue_symbol(symbol@),
{
    let n = symbol.unicode_len();
    let ghost s = symbol@;
    let mut at: Option<usize> = None;
    let mut i: usize = 0;
    while i < n
        invariant
            i <= n,
            n == s.len(),
            s == symbol@,
            match at {
                None => forall|j: int| 0 <= j < i ==> #[trigger] s[j] != '_' && s[j] != '/',
                Some(k) => k < i && s[k as int] == '_' && forall|j: int|
                    0 <= j < i && j != k ==> #[trigger] s[j] != '_' && s[j] != '/',
            },
        decreases n - i,
    {
        let c = symbol.get_char(i);
        if c == '/' {
            assert forall|w: int| !parts_at(s, w) by {
                if parts_at(s, w) {
                    assert(s[i as int] == '/');
                }
            }
            return false;
        }
        if c == '_' {
            match at {
                Some(k) => {
                    assert forall|w: int| !parts_at(s, w) by {
                        if parts_at(s, w) {
                            assert(s[i as int] == '_');
                            assert(s[k as int] == '_');
                        }
                    }
                    return false;
                },
                None => {
                    at = Some(i);
                },
            }
        }
        i += 1;
    }
    match at {
        None => {
            assert forall|w: int| !parts_at(s, w) by {
                if parts_at(s, w) {
                    assert(s[w] == '_');
                }
            }
            false
        },
        Some(k) => {
            if 0 < k && k < n - 1 {
                assert(parts_at(s, k as int));
                true
            } else {
                assert forall|w: int| !parts_at(s, w) by {
                    if parts_at(s, w) {
                        assert(s[w] == '_');
                        assert(w == k);
                    }
                }
                false
            }
        },
    }
}

/// The canonical pair of a symbol of a venue. The answer depends on the symbol and the
/// venue alone.
pub fn normalize_pair(symbol: &str, exchange: &str) -> (pair: Option<String>)
    ensures
        match pair {
            Some(text) => pair_of(symbol@, exchange@) == Some(text@),
            None => pair_of(symbol@, exchange@).is_none(),
        },
{
    let known = same_text(exchange, "gate") || same_text(exchange, "mxc") || same_text(
        exchange,
        "mexc",
    );
    if known && is_symbol(symbol) {
        lookup_pair(symbol, exchange)
    } else {
        None
    }
}

/// Every pair that a symbol has is canonical: a base and a quote, parted by the only
/// slash.
pub proof fn law_pair_is_base_quote(symbol: Seq<char>, exchange: Seq<char>)
    requires
        pair_of(symbol, exchange) is Some,
    ensures
        is_base_quote(pair_of(symbol, exchange)->Some_0),
{
    let pair = slashed(symbol);
    let i = choose|i: int| parts_at(symbol, i);
    assert(pair[i] == '/');
    assert forall|j: int| 0 <= j < pair.len() && j != i implies #[trigger] pair[j] != '/' by {
        assert(symbol[j] != '_' && symbol[j] != '/');
    }
}

} // verus!
