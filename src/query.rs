//! Query strings: decoding them into named parameters, and reading numbers.

use vstd::prelude::*;
use vstd::std_specs::iter::IteratorSpec;
use crate::headers::{HeaderModel, values_named, opt_view};
use crate::text::text_eq;

verus! {

broadcast use vstd::string::axiom_spec_iter, vstd::string::next_postcondition;

/// The (name, value) pairs that an `application/x-www-form-urlencoded` text
/// decodes to, in order, or `None` where it does not decode.
pub uninterp spec fn form_decoded(q: Seq<char>) -> Option<Seq<(Seq<char>, Seq<char>)>>;

/// Relies on `serde_urlencoded::from_str`, read into a list of string pairs:
/// the decoded pairs in the order of the text, an outcome that depends on the
/// text alone.
#[verifier::external_body]
fn decode_form(q: &str) -> (r: Option<Vec<(String, String)>>)
    ensures
        match r {
            Some(v) => form_decoded(q@) == Some(
                v@.map_values(|e: (String, String)| (e.0@, e.1@)),
            ),
            None => form_decoded(q@) is None,
        },
{
    serde_urlencoded::from_str::<Vec<(String, String)>>(q).ok()
}

/// The value of the last pair named `name`: where a name repeats, the later
/// pair wins.
pub open spec fn param_value(ps: HeaderModel, name: Seq<char>) -> Option<Seq<char>> {
    let vs = values_named(ps, name);
    if vs.len() > 0 {
        Some(vs.last())
    } else {
        None
    }
}

/// The parameters of a request target's query, if it has one. A query that
/// does not decode has no parameters.
pub open spec fn query_model(query: Option<Seq<char>>) -> HeaderModel {
    match query {
        None => HeaderModel::empty(),
        Some(q) => match form_decoded(q) {
            Some(ps) => ps,
            None => HeaderModel::empty(),
        },
    }
}

/// The parameters of a query string.
pub struct QueryParams {
    pub pairs: Vec<(String, String)>,
}

impl View for QueryParams {
    type V = HeaderModel;

    open spec fn view(&self) -> HeaderModel {
        self.pairs@.map_values(|e: (String, String)| (e.0@, e.1@))
    }
}

impl QueryParams {
    /// The value of parameter `name`; of the last one where it repeats.
    pub fn get(&self, name: &str) -> (r: Option<String>)
        ensures
            opt_view(r) == param_value(self@, name@),
    {
        let mut found: Option<String> = None;
        let mut i: usize = 0;
        while i < self.pairs.len()
            invariant
                i <= self.pairs@.len(),
                opt_view(found) == param_value(self@.take(i as int), name@),
            decreases self.pairs@.len() - i,
        {
            assert(self@.take(i as int + 1).drop_last() =~= self@.take(i as int));
            let e = &self.pairs[i];
            if text_eq(e.0.as_str(), name) {
                found = Some(e.1.clone());
            }
            i = i + 1;
        }
        assert(self@.take(i as int) =~= self@);
        found
    }
}

/// The parameters of the query `query`, keyed by name.
pub fn query_param_to_hash_map(query: Option<&str>) -> (r: QueryParams)
    ensures
        r@ == query_model(
            match query {
                Some(q) => Some(q@),
                None => None,
            },
        ),
{
    match query {
        None => {
            let r = QueryParams { pairs: Vec::new() };
            assert(r@ =~= HeaderModel::empty());
            r
        },
        Some(q) => match decode_form(q) {
            Some(pairs) => QueryParams { pairs },
            None => {
                let r = QueryParams { pairs: Vec::new() };
                assert(r@ =~= HeaderModel::empty());
                r
            },
        },
    }
}

/// Whether `c` is a decimal digit.
pub open spec fn is_digit(c: char) -> bool {
    '0' <= c && c <= '9'
}

/// The number that a run of decimal digits writes.
pub open spec fn digits_value(s: Seq<char>) -> nat
    decreases s.len(),
{
    if s.len() == 0 {
        0
    } else {
        digits_value(s.drop_last()) * 10 + ((s.last() as u32) - ('0' as u32)) as nat
    }
}

/// The digits of an unsigned number: the text after one optional `+`.
pub open spec fn unsigned_digits(s: Seq<char>) -> Seq<char> {
    if s.len() > 0 && s[0] == '+' {
        s.drop_first()
    } else {
        s
    }
}

/// The `u32` that `s` writes in decimal: an optional `+`, then one digit or
/// more, of a value that fits. Any other text writes none.
pub open spec fn decimal_u32(s: Seq<char>) -> Option<u32> {
    let d = unsigned_digits(s);
    if d.len() > 0 && (forall|i: int| 0 <= i < d.len() ==> is_digit(#[trigger] d[i]))
        && digits_value(d) <= u32::MAX {
        Some(digits_value(d) as u32)
    } else {
        None
    }
}

/// A run of digits writes no less than any of its beginnings.
proof fn lemma_digits_value_prefix(s: Seq<char>, k: int)
    requires
        0 <= k <= s.len(),
        forall|i: int| 0 <= i < s.len() ==> is_digit(#[trigger] s[i]),
    ensures
        digits_value(s.take(k)) <= digits_value(s),
    decreases s.len(),
{
    if k < s.len() {
        assert(s.drop_last().take(k) =~= s.take(k));
        assert forall|i: int| 0 <= i < s.drop_last().len() implies is_digit(
            #[trigger] s.drop_last()[i],
        ) by {
            assert(s.drop_last()[i] == s[i]);
        }
        lemma_digits_value_prefix(s.drop_last(), k);
    } else {
        assert(s.take(k) =~= s);
    }
}

/// Text that is not a number in decimal.
#[derive(Debug, Clone, Copy, PartialEq, Eq, Structural)]
pub struct InvalidNumber;

/// Reads a `u32` written in decimal, with an optional leading `+`.
pub fn parse_u32(s: &str) -> (r: Option<u32>)
    ensures
        r == decimal_u32(s@),
{
    let n = s.unicode_len();
    if n == 0 {
        return None;
    }
    let mut chars = s.chars();
    let mut start: usize = 0;
    if s.get_char(0) == '+' {
        chars.next();
        start = 1;
    }
    if start == n {
        return None;
    }
    let ghost d = unsigned_digits(s@);
    assert(d =~= s@.subrange(start as int, n as int));
    let mut acc: u64 = 0;
    let ghost mut k: int = 0;
    loop
        invariant
            d == s@.subrange(start as int, n as int),
            d == unsigned_digits(s@),
            n == s@.len(),
            start <= 1,
            start < n,
            0 <= k <= d.len(),
            chars.remaining() == d.subrange(k, d.len() as int),
            forall|i: int| 0 <= i < k ==> is_digit(#[trigger] d[i]),
            acc == digits_value(d.take(k)),
            acc <= u32::MAX,
        ensures
            k == d.len(),
            forall|i: int| 0 <= i < k ==> is_digit(#[trigger] d[i]),
            acc == digits_value(d.take(k)),
            acc <= u32::MAX,
        decreases d.len() - k,
    {
        match chars.next() {
            None => {
                break;
            },
            Some(c) => {
                assert(c == d[k]);
                assert(d.take(k + 1).drop_last() =~= d.take(k));
                assert(d.take(k + 1).last() == c);
                if !('0' <= c && c <= '9') {
                    assert(!is_digit(d[k]));
                    return None;
                }
                acc = acc * 10 + ((c as u32) - ('0' as u32)) as u64;
                proof {
                    k = k + 1;
                }
                if acc > 4294967295u64 {
                    proof {
                        if forall|i: int| 0 <= i < d.len() ==> is_digit(#[trigger] d[i]) {
                            lemma_digits_value_prefix(d, k);
                        }
                    }
                    return None;
                }
            },
        }
    }
    assert(d.take(k) =~= d);
    Some(acc as u32)
}

/// The number of receivers that a transfer asks for: the parameter `n`, or 1
/// where it is absent.
pub fn get_n_receivers_result(query_params: &QueryParams) -> (r: Result<u32, InvalidNumber>)
    ensures
        match param_value(query_params@, "n"@) {
            None => r == Ok::<u32, InvalidNumber>(1),
            Some(v) => match decimal_u32(v) {
                Some(x) => r == Ok::<u32, InvalidNumber>(x),
                None => r == Err::<u32, InvalidNumber>(InvalidNumber),
            },
        },
{
    match query_params.get("n") {
        None => Ok(1),
        Some(v) => match parse_u32(v.as_str()) {
            Some(x) => Ok(x),
            None => Err(InvalidNumber),
        },
    }
}

} // verus!
