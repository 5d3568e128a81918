//! Header lists of requests and responses.
//!
//! A header value is held as text with one character per byte of the value on
//! the wire (ISO-8859-1), so that every value, printable or not, passes through
//! unchanged. Names of request headers are lower case, as HTTP parsers hand
//! them out.

use vstd::prelude::*;
use crate::text::{push_char, text_eq, to_chars};

verus! {

/// What a header list holds: its (name, value) pairs in order.
pub type HeaderModel = Seq<(Seq<char>, Seq<char>)>;

/// The values of the headers named `name`, in order.
pub open spec fn values_named(hs: HeaderModel, name: Seq<char>) -> Seq<Seq<char>>
    decreases hs.len(),
{
    if hs.len() == 0 {
        Seq::empty()
    } else {
        let rest = values_named(hs.drop_last(), name);
        if hs.last().0 == name {
            rest.push(hs.last().1)
        } else {
            rest
        }
    }
}

/// The value of the first header named `name`, if there is one.
pub open spec fn first_named(hs: HeaderModel, name: Seq<char>) -> Option<Seq<char>> {
    let vs = values_named(hs, name);
    if vs.len() > 0 {
        Some(vs[0])
    } else {
        None
    }
}

/// The view of an optional text.
pub open spec fn opt_view(o: Option<String>) -> Option<Seq<char>> {
    match o {
        Some(s) => Some(s@),
        None => None,
    }
}

/// Looking up the headers of a concatenation looks up both parts.
pub proof fn lemma_values_named_append(a: HeaderModel, b: HeaderModel, name: Seq<char>)
    ensures
        values_named(a + b, name) == values_named(a, name) + values_named(b, name),
    decreases b.len(),
{
    if b.len() == 0 {
        assert(a + b =~= a);
        assert(values_named(b, name) =~= Seq::<Seq<char>>::empty());
        assert(values_named(a, name) + values_named(b, name) =~= values_named(a, name));
    } else {
        lemma_values_named_append(a, b.drop_last(), name);
        assert((a + b).drop_last() =~= a + b.drop_last());
        assert((a + b).last() == b.last());
        let x = values_named(a, name);
        let y = values_named(b.drop_last(), name);
        assert((x + y).push(b.last().1) =~= x + y.push(b.last().1));
    }
}

/// The text that holds the header value `b`: one character per byte.
pub open spec fn value_text_of(b: Seq<u8>) -> Seq<char> {
    b.map_values(|x: u8| x as char)
}

/// The header value that the text `t` holds, where each of its characters
/// stands for one byte.
pub open spec fn value_bytes_of(t: Seq<char>) -> Seq<u8> {
    t.map_values(|c: char| c as u8)
}

/// Whether each character of `t` stands for one byte.
pub open spec fn is_byte_text(t: Seq<char>) -> bool {
    forall|i: int| 0 <= i < t.len() ==> (#[trigger] t[i] as u32) < 256
}

/// The text that holds the header value `bytes`.
pub fn value_text(bytes: &[u8]) -> (r: String)
    ensures
        r@ == value_text_of(bytes@),
        is_byte_text(r@),
        value_bytes_of(r@) == bytes@,
{
    let mut out = String::new();
    let mut i: usize = 0;
    while i < bytes.len()
        invariant
            i <= bytes@.len(),
            out@ == value_text_of(bytes@.take(i as int)),
        decreases bytes@.len() - i,
    {
        push_char(&mut out, bytes[i] as char);
        assert(value_text_of(bytes@.take(i as int + 1)) =~= value_text_of(bytes@.take(i as int)).push(
            bytes@[i as int] as char,
        ));
        i = i + 1;
    }
    assert(bytes@.take(i as int) =~= bytes@);
    assert(value_bytes_of(out@) =~= bytes@) by {
        assert forall|k: int| 0 <= k < bytes@.len() implies ((bytes@[k] as char) as u8) == bytes@[k] by {
            let b = bytes@[k];
            assert(((b as char) as u8) == b);
        }
    }
    out
}

/// The header value that the text `text` holds; `None` where a character
/// stands for no byte.
pub fn value_bytes(text: &str) -> (r: Option<Vec<u8>>)
    ensures
        match r {
            Some(b) => is_byte_text(text@) && b@ == value_bytes_of(text@),
            None => !is_byte_text(text@),
        },
{
    let cs = to_chars(text);
    let mut out: Vec<u8> = Vec::new();
    let mut i: usize = 0;
    while i < cs.len()
        invariant
            cs@ == text@,
            i <= cs@.len(),
            out@ == value_bytes_of(text@.take(i as int)),
            forall|k: int| 0 <= k < i ==> (#[trigger] text@[k] as u32) < 256,
        decreases cs@.len() - i,
    {
        let c = cs[i];
        if (c as u32) >= 256 {
            return None;
        }
        out.push(c as u8);
        assert(value_bytes_of(text@.take(i as int + 1)) =~= value_bytes_of(text@.take(i as int)).push(
            c as u8,
        ));
        i = i + 1;
    }
    assert(text@.take(i as int) =~= text@);
    Some(out)
}

/// An ordered list of headers.
pub struct HeaderList {
    pub entries: Vec<(String, String)>,
}

impl View for HeaderList {
    type V = HeaderModel;

    open spec fn view(&self) -> HeaderModel {
        self.entries@.map_values(|e: (String, String)| (e.0@, e.1@))
    }
}

impl HeaderList {
    /// An empty list.
    pub fn new() -> (r: HeaderList)
        ensures
            r@ == HeaderModel::empty(),
    {
        let r = HeaderList { entries: Vec::new() };
        assert(r@ =~= HeaderModel::empty());
        r
    }

    /// Appends a header at the end.
    pub fn push(&mut self, name: &str, value: String)
        ensures
            final(self)@ == old(self)@.push((name@, value@)),
    {
        self.entries.push((name.to_owned(), value));
        assert(final(self)@ =~= old(self)@.push((name@, value@)));
    }

    /// The values of the headers named `name`, in order.
    pub fn get_all(&self, name: &str) -> (r: Vec<String>)
        ensures
            r@.map_values(|s: String| s@) == values_named(self@, name@),
    {
        let mut r: Vec<String> = Vec::new();
        let mut i: usize = 0;
        while i < self.entries.len()
            invariant
                i <= self.entries@.len(),
                r@.map_values(|s: String| s@) == values_named(self@.take(i as int), name@),
            decreases self.entries@.len() - i,
        {
            assert(self@.take(i as int + 1).drop_last() =~= self@.take(i as int));
            let e = &self.entries[i];
            if text_eq(e.0.as_str(), name) {
                r.push(e.1.clone());
                assert(r@.map_values(|s: String| s@) =~= values_named(
                    self@.take(i as int),
                    name@,
                ).push(e.1@));
            }
            i = i + 1;
        }
        assert(self@.take(i as int) =~= self@);
        r
    }

    /// The value of the first header named `name`.
    pub fn get(&self, name: &str) -> (r: Option<String>)
        ensures
            opt_view(r) == first_named(self@, name@),
    {
        let mut i: usize = 0;
        while i < self.entries.len()
            invariant
                i <= self.entries@.len(),
                values_named(self@.take(i as int), name@).len() == 0,
            decreases self.entries@.len() - i,
        {
            assert(self@.take(i as int + 1).drop_last() =~= self@.take(i as int));
            let e = &self.entries[i];
            if text_eq(e.0.as_str(), name) {
                proof {
                    let hs = self@;
                    assert(hs =~= hs.take(i as int + 1) + hs.skip(i as int + 1));
                    lemma_values_named_append(hs.take(i as int + 1), hs.skip(i as int + 1), name@);
                }
                return Some(e.1.clone());
            }
            i = i + 1;
        }
        assert(self@.take(i as int) =~= self@);
        None
    }

    /// Whether a header named `name` is present.
    pub fn contains(&self, name: &str) -> (r: bool)
        ensures
            r == (values_named(self@, name@).len() > 0),
    {
        self.get(name).is_some()
    }
}

/// A header `name` with value `v`, where there is a value.
pub open spec fn opt_header(name: Seq<char>, v: Option<Seq<char>>) -> HeaderModel {
    match v {
        Some(x) => seq![(name, x)],
        None => HeaderModel::empty(),
    }
}

/// A header `name` for each of the values `vs`, in order.
pub open spec fn all_named(name: Seq<char>, vs: Seq<Seq<char>>) -> HeaderModel {
    vs.map_values(|v: Seq<char>| (name, v))
}

/// Headers all named `name` give back their values, in order.
pub proof fn lemma_values_of_all_named(name: Seq<char>, vs: Seq<Seq<char>>)
    ensures
        values_named(all_named(name, vs), name) == vs,
    decreases vs.len(),
{
    if vs.len() > 0 {
        lemma_values_of_all_named(name, vs.drop_last());
        assert(all_named(name, vs).drop_last() =~= all_named(name, vs.drop_last()));
        assert(vs.drop_last().push(vs.last()) =~= vs);
    } else {
        assert(all_named(name, vs) =~= HeaderModel::empty());
    }
}

/// Headers none of which is named `other` hold no value of `other`.
pub proof fn lemma_values_of_other_name(name: Seq<char>, vs: Seq<Seq<char>>, other: Seq<char>)
    requires
        name != other,
    ensures
        values_named(all_named(name, vs), other) == Seq::<Seq<char>>::empty(),
    decreases vs.len(),
{
    if vs.len() > 0 {
        lemma_values_of_other_name(name, vs.drop_last(), other);
        assert(all_named(name, vs).drop_last() =~= all_named(name, vs.drop_last()));
    } else {
        assert(all_named(name, vs) =~= HeaderModel::empty());
    }
}

/// Adds a header where a value is given, and nothing where none is.
pub trait OptionHeaderBuilder: View<V = HeaderModel> + Sized {
    fn option_header(self, key: &str, value_opt: Option<String>) -> (r: Self)
        ensures
            r@ == self@ + opt_header(key@, opt_view(value_opt)),
    ;
}

/// Adds a header for each of several values, in order.
pub trait HeaderValuesBuilder: View<V = HeaderModel> + Sized {
    fn header_values(self, key: &str, values: Vec<String>) -> (r: Self)
        ensures
            r@ == self@ + all_named(key@, values@.map_values(|s: String| s@)),
    ;
}

impl OptionHeaderBuilder for HeaderList {
    fn option_header(self, key: &str, value_opt: Option<String>) -> (r: Self) {
        let mut h = self;
        match value_opt {
            Some(v) => {
                h.push(key, v);
                assert(h@ =~= self@ + opt_header(key@, opt_view(value_opt)));
            },
            None => {
                assert(h@ =~= self@ + opt_header(key@, opt_view(value_opt)));
            },
        }
        h
    }
}

impl HeaderValuesBuilder for HeaderList {
    fn header_values(self, key: &str, values: Vec<String>) -> (r: Self) {
        let ghost vs = values@.map_values(|s: String| s@);
        let mut h = self;
        let mut i: usize = 0;
        while i < values.len()
            invariant
                i <= values@.len(),
                vs == values@.map_values(|s: String| s@),
                h@ == self@ + all_named(key@, vs.take(i as int)),
            decreases values@.len() - i,
        {
            h.push(key, values[i].clone());
            assert(all_named(key@, vs.take(i as int + 1)) =~= all_named(
                key@,
                vs.take(i as int),
            ).push((key@, vs[i as int])));
            assert(h@ =~= self@ + all_named(key@, vs.take(i as int + 1)));
            i = i + 1;
        }
        assert(vs.take(i as int) =~= vs);
        h
    }
}

} // verus!
