//! A transfer between a matched sender and receiver: what the receiver's
//! response says of the body, how a multipart form is peeled, the lines that
//! report progress to the sender, and when the end of the body is signalled.

use vstd::prelude::*;
use vstd::string::StringExecFns;
use crate::headers::{
    HeaderList, HeaderModel, HeaderValuesBuilder, OptionHeaderBuilder, all_named, first_named,
    opt_header, opt_view, values_named, lemma_values_named_append, lemma_values_of_all_named,
    lemma_values_of_other_name,
};
use crate::text::{text_eq, to_chars};

verus! {

/// The headers that describe a transfer's body: its type, its length and its
/// disposition, each where it is given.
pub struct TransferHeaders {
    pub content_type: Option<String>,
    pub content_length: Option<String>,
    pub content_disposition: Option<String>,
}

/// What transfer headers hold: type, length and disposition.
pub type TransferModel = (Option<Seq<char>>, Option<Seq<char>>, Option<Seq<char>>);

impl View for TransferHeaders {
    type V = TransferModel;

    open spec fn view(&self) -> TransferModel {
        (opt_view(self.content_type), opt_view(self.content_length), opt_view(self.content_disposition))
    }
}

/// The transfer headers that the header list `hs` gives: the first of each.
pub open spec fn transfer_headers_of(hs: HeaderModel) -> TransferModel {
    (
        first_named(hs, "content-type"@),
        first_named(hs, "content-length"@),
        first_named(hs, "content-disposition"@),
    )
}

/// The transfer headers of a request, or of a part of a multipart form.
pub fn transfer_headers(headers: &HeaderList) -> (r: TransferHeaders)
    ensures
        r@ == transfer_headers_of(headers@),
{
    TransferHeaders {
        content_type: headers.get("content-type"),
        content_length: headers.get("content-length"),
        content_disposition: headers.get("content-disposition"),
    }
}

/// Whether a header value reads as text: visible ASCII characters and tabs.
pub open spec fn is_visible_ascii(s: Seq<char>) -> bool {
    forall|i: int| 0 <= i < s.len() ==> (s[i] == '\t' || (' ' <= #[trigger] s[i] && s[i] <= '~'))
}

/// Whether `s` reads as text: visible ASCII characters and tabs.
pub fn visible_ascii(s: &str) -> (r: bool)
    ensures
        r == is_visible_ascii(s@),
{
    let cs = to_chars(s);
    let mut i: usize = 0;
    while i < cs.len()
        invariant
            cs@ == s@,
            i <= cs@.len(),
            forall|k: int| 0 <= k < i ==> (s@[k] == '\t' || (' ' <= #[trigger] s@[k] && s@[k] <= '~')),
        decreases cs@.len() - i,
    {
        let c = cs[i];
        if !(c == '\t' || (' ' <= c && c <= '~')) {
            return false;
        }
        i = i + 1;
    }
    true
}

/// The essence (type and subtype) of the media type `s` and its parameter
/// `boundary`, as the `mime` crate reads it, or `None` where it reads none.
pub uninterp spec fn media_type_of(s: Seq<char>) -> Option<(Seq<char>, Option<Seq<char>>)>;

/// Relies on mime's `FromStr for Mime`, `Mime::essence_str` and
/// `Mime::get_param`: the essence and the `boundary` parameter of the parsed
/// media type, an outcome that depends on the text alone.
#[verifier::external_body]
fn parse_media_type(s: &str) -> (r: Option<(String, Option<String>)>)
    ensures
        match r {
            Some((e, b)) => media_type_of(s@) == Some((e@, opt_view(b))),
            None => media_type_of(s@) is None,
        },
{
    match s.parse::<mime::Mime>() {
        Ok(m) => Some(
            (
                m.essence_str().to_string(),
                match m.get_param("boundary") {
                    Some(b) => Some(b.to_string()),
                    None => None,
                },
            ),
        ),
        Err(_) => None,
    }
}

/// Where the body of a transfer comes from.
pub enum TransferSource {
    /// The request's own body, described by these headers.
    Raw(TransferHeaders),
    /// The first part of the multipart form in the request's body, whose parts
    /// are divided by this boundary.
    Multipart(String),
    /// A multipart form without a boundary: no transfer can take place.
    MissingBoundary,
}

/// What a transfer source holds.
pub enum TransferSourceModel {
    Raw(TransferModel),
    Multipart(Seq<char>),
    MissingBoundary,
}

impl View for TransferSource {
    type V = TransferSourceModel;

    open spec fn view(&self) -> TransferSourceModel {
        match self {
            TransferSource::Raw(t) => TransferSourceModel::Raw(t@),
            TransferSource::Multipart(b) => TransferSourceModel::Multipart(b@),
            TransferSource::MissingBoundary => TransferSourceModel::MissingBoundary,
        }
    }
}

/// Where the body of a transfer comes from, for a sender's headers `hs`: a
/// `multipart/form-data` body is peeled to its first part, any other body
/// passes as it is.
pub open spec fn transfer_source_of(hs: HeaderModel) -> TransferSourceModel {
    let raw = TransferSourceModel::Raw(transfer_headers_of(hs));
    match first_named(hs, "content-type"@) {
        None => raw,
        Some(ct) => if !is_visible_ascii(ct) {
            raw
        } else {
            match media_type_of(ct) {
                None => raw,
                Some((essence, boundary)) => if essence != "multipart/form-data"@ {
                    raw
                } else {
                    match boundary {
                        None => TransferSourceModel::MissingBoundary,
                        Some(b) => TransferSourceModel::Multipart(b),
                    }
                },
            }
        },
    }
}

/// Where the body of a transfer comes from, for a sender's headers.
pub fn transfer_source(headers: &HeaderList) -> (r: TransferSource)
    ensures
        r@ == transfer_source_of(headers@),
{
    let ct = match headers.get("content-type") {
        None => {
            return TransferSource::Raw(transfer_headers(headers));
        },
        Some(ct) => ct,
    };
    if !visible_ascii(ct.as_str()) {
        return TransferSource::Raw(transfer_headers(headers));
    }
    match parse_media_type(ct.as_str()) {
        None => TransferSource::Raw(transfer_headers(headers)),
        Some((essence, boundary)) => {
            if !text_eq(essence.as_str(), "multipart/form-data") {
                TransferSource::Raw(transfer_headers(headers))
            } else {
                match boundary {
                    None => TransferSource::MissingBoundary,
                    Some(b) => TransferSource::Multipart(b),
                }
            }
        },
    }
}

/// The headers of the receiver's response, for the transfer headers `t` and
/// the sender's headers `hs`: the body's type, length and disposition where
/// given, each `X-Piping` of the sender in order, and the headers that open
/// the response to any origin and keep it out of search indexes.
pub open spec fn receiver_headers_of(t: TransferModel, hs: HeaderModel) -> HeaderModel {
    let xs = values_named(hs, "x-piping"@);
    opt_header("Content-Type"@, t.0) + opt_header("Content-Length"@, t.1) + opt_header(
        "Content-Disposition"@,
        t.2,
    ) + all_named("X-Piping"@, xs) + seq![("Access-Control-Allow-Origin"@, "*"@)] + opt_header(
        "Access-Control-Expose-Headers"@,
        if xs.len() > 0 {
            Some("X-Piping"@)
        } else {
            None
        },
    ) + seq![("X-Robots-Tag"@, "none"@)]
}

/// The headers of the receiver's response (its status is 200).
pub fn receiver_response_headers(t: &TransferHeaders, sender_headers: &HeaderList) -> (r:
    HeaderList)
    ensures
        r@ == receiver_headers_of(t@, sender_headers@),
{
    let x_piping = sender_headers.get_all("x-piping");
    let has_x_piping = x_piping.len() > 0;
    let h = HeaderList::new();
    let h = h.option_header("Content-Type", t.content_type.clone());
    let h = h.option_header("Content-Length", t.content_length.clone());
    let h = h.option_header("Content-Disposition", t.content_disposition.clone());
    let h = h.header_values("X-Piping", x_piping);
    let mut h = h;
    h.push("Access-Control-Allow-Origin", String::from_str("*"));
    let h = h.option_header(
        "Access-Control-Expose-Headers",
        if has_x_piping {
            Some(String::from_str("X-Piping"))
        } else {
            None
        },
    );
    let mut h = h;
    h.push("X-Robots-Tag", String::from_str("none"));
    assert(h@ =~= receiver_headers_of(t@, sender_headers@));
    h
}

/// What a waiting sender is told first.
pub const WAITING_MESSAGE: &'static str = "[INFO] Waiting for 1 receiver(s)...\n";
/// What a waiting sender is told when a receiver arrives.
pub const RECEIVER_CONNECTED_MESSAGE: &'static str = "[INFO] A receiver was connected.\n";
/// What a sender is told when it finds a receiver waiting.
pub const RECEIVERS_WAITING_MESSAGE: &'static str = "[INFO] 1 receiver(s) has/have been connected.\n";
/// What a sender is told when its body starts to flow.
pub const START_MESSAGE: &'static str = "[INFO] Start sending to 1 receiver(s)...\n";
/// What a sender is told when its whole body was read.
pub const SUCCESS_MESSAGE: &'static str = "[INFO] Sent successfully!\n";
/// What a sender is told when the transfer broke off before the end.
pub const ABORTED_MESSAGE: &'static str = "[INFO] All receiver(s) was/were halfway disconnected.\n";

/// The last line a sender is told: whether its body was read to the end.
pub fn finish_message(finished: bool) -> (r: &'static str)
    ensures
        r@ == if finished {
            SUCCESS_MESSAGE@
        } else {
            ABORTED_MESSAGE@
        },
{
    if finished {
        SUCCESS_MESSAGE
    } else {
        ABORTED_MESSAGE
    }
}

/// The end signal of a body being read: it fires once, at the first end of the
/// body that a read reports. A read that fails does not fire it.
pub struct FinishLatch {
    pub fired: bool,
}

impl FinishLatch {
    /// A signal that has not fired.
    pub fn new() -> (r: FinishLatch)
        ensures
            !r.fired,
    {
        FinishLatch { fired: false }
    }

    /// Records a read of the body; `at_end` is whether it reported the end.
    /// Returns whether the signal fires now.
    pub fn observe(&mut self, at_end: bool) -> (r: bool)
        ensures
            r == (at_end && !old(self).fired),
            final(self).fired == (old(self).fired || at_end),
    {
        let fire = at_end && !self.fired;
        if at_end {
            self.fired = true;
        }
        fire
    }
}

/// Looking up a header that may be absent.
proof fn lemma_values_of_opt_header(name: Seq<char>, v: Option<Seq<char>>, other: Seq<char>)
    ensures
        values_named(opt_header(name, v), other) == (if name == other && v is Some {
            seq![v->0]
        } else {
            Seq::<Seq<char>>::empty()
        }),
{
    assert(values_named(HeaderModel::empty(), other) =~= Seq::<Seq<char>>::empty());
    if v is Some {
        assert(opt_header(name, v).drop_last() =~= HeaderModel::empty());
        assert(Seq::<Seq<char>>::empty().push(v->0) =~= seq![v->0]);
    } else {
        assert(opt_header(name, v) =~= HeaderModel::empty());
    }
}

/// The values of `other` in the receiver's headers, part by part.
proof fn lemma_receiver_values(t: TransferModel, hs: HeaderModel, other: Seq<char>)
    ensures
        ({
            let xs = values_named(hs, "x-piping"@);
            let ex = if xs.len() > 0 {
                Some("X-Piping"@)
            } else {
                None
            };
            values_named(receiver_headers_of(t, hs), other) == values_named(
                opt_header("Content-Type"@, t.0),
                other,
            ) + values_named(opt_header("Content-Length"@, t.1), other) + values_named(
                opt_header("Content-Disposition"@, t.2),
                other,
            ) + values_named(all_named("X-Piping"@, xs), other) + values_named(
                seq![("Access-Control-Allow-Origin"@, "*"@)],
                other,
            ) + values_named(opt_header("Access-Control-Expose-Headers"@, ex), other)
                + values_named(seq![("X-Robots-Tag"@, "none"@)], other)
        }),
{
    let xs = values_named(hs, "x-piping"@);
    let ex = if xs.len() > 0 {
        Some("X-Piping"@)
    } else {
        None
    };
    let a = opt_header("Content-Type"@, t.0);
    let b = opt_header("Content-Length"@, t.1);
    let c = opt_header("Content-Disposition"@, t.2);
    let d = all_named("X-Piping"@, xs);
    let e = seq![("Access-Control-Allow-Origin"@, "*"@)];
    let f = opt_header("Access-Control-Expose-Headers"@, ex);
    let g = seq![("X-Robots-Tag"@, "none"@)];
    lemma_values_named_append(a, b, other);
    lemma_values_named_append(a + b, c, other);
    lemma_values_named_append(a + b + c, d, other);
    lemma_values_named_append(a + b + c + d, e, other);
    lemma_values_named_append(a + b + c + d + e, f, other);
    lemma_values_named_append(a + b + c + d + e + f, g, other);
}

/// A single header, looked up.
proof fn lemma_values_of_single(name: Seq<char>, v: Seq<char>, other: Seq<char>)
    ensures
        values_named(seq![(name, v)], other) == (if name == other {
            seq![v]
        } else {
            Seq::<Seq<char>>::empty()
        }),
{
    assert(values_named(HeaderModel::empty(), other) =~= Seq::<Seq<char>>::empty());
    assert(seq![(name, v)].drop_last() =~= HeaderModel::empty());
    assert(Seq::<Seq<char>>::empty().push(v) =~= seq![v]);
}

/// Where a sender's body passes as it is, the receiver's response gives the
/// body's length as the sender gave it, or gives none where the sender gave
/// none.
pub proof fn lemma_receiver_gets_sender_length(hs: HeaderModel)
    requires
        transfer_source_of(hs) is Raw,
    ensures
        first_named(
            receiver_headers_of(transfer_headers_of(hs), hs),
            "Content-Length"@,
        ) == first_named(hs, "content-length"@),
{
    let t = transfer_headers_of(hs);
    let n = "Content-Length"@;
    let xs = values_named(hs, "x-piping"@);
    let ex = if xs.len() > 0 {
        Some("X-Piping"@)
    } else {
        None
    };
    reveal_strlit("Content-Type");
    reveal_strlit("Content-Length");
    reveal_strlit("Content-Disposition");
    reveal_strlit("X-Piping");
    reveal_strlit("Access-Control-Allow-Origin");
    reveal_strlit("Access-Control-Expose-Headers");
    reveal_strlit("X-Robots-Tag");
    assert("Content-Type"@.len() == 12);
    assert("Content-Length"@.len() == 14);
    assert("Content-Disposition"@.len() == 19);
    assert("X-Piping"@.len() == 8);
    assert("Access-Control-Allow-Origin"@.len() == 27);
    assert("Access-Control-Expose-Headers"@.len() == 29);
    assert("X-Robots-Tag"@.len() == 12);
    assert("X-Robots-Tag"@[0] != "Content-Type"@[0]);
    lemma_receiver_values(t, hs, n);
    lemma_values_of_opt_header("Content-Type"@, t.0, n);
    lemma_values_of_opt_header("Content-Length"@, t.1, n);
    lemma_values_of_opt_header("Content-Disposition"@, t.2, n);
    lemma_values_of_other_name("X-Piping"@, xs, n);
    lemma_values_of_single("Access-Control-Allow-Origin"@, "*"@, n);
    lemma_values_of_opt_header("Access-Control-Expose-Headers"@, ex, n);
    lemma_values_of_single("X-Robots-Tag"@, "none"@, n);
    let vs = values_named(receiver_headers_of(t, hs), n);
    match t.1 {
        Some(v) => {
            assert(vs =~= seq![v]);
        },
        None => {
            assert(vs =~= Seq::<Seq<char>>::empty());
        },
    }
}

/// The receiver's response carries every `X-Piping` value of the sender, in
/// the sender's order, and no other; where there is one it also exposes the
/// header to scripts of any origin.
pub proof fn lemma_x_piping_passes_in_order(t: TransferModel, hs: HeaderModel)
    ensures
        values_named(receiver_headers_of(t, hs), "X-Piping"@) == values_named(hs, "x-piping"@),
        values_named(hs, "x-piping"@).len() > 0 ==> first_named(
            receiver_headers_of(t, hs),
            "Access-Control-Expose-Headers"@,
        ) == Some("X-Piping"@),
{
    let xs = values_named(hs, "x-piping"@);
    let ex = if xs.len() > 0 {
        Some("X-Piping"@)
    } else {
        None
    };
    reveal_strlit("Content-Type");
    reveal_strlit("Content-Length");
    reveal_strlit("Content-Disposition");
    reveal_strlit("X-Piping");
    reveal_strlit("Access-Control-Allow-Origin");
    reveal_strlit("Access-Control-Expose-Headers");
    reveal_strlit("X-Robots-Tag");
    assert("Content-Type"@.len() == 12);
    assert("Content-Length"@.len() == 14);
    assert("Content-Disposition"@.len() == 19);
    assert("X-Piping"@.len() == 8);
    assert("Access-Control-Allow-Origin"@.len() == 27);
    assert("Access-Control-Expose-Headers"@.len() == 29);
    assert("X-Robots-Tag"@.len() == 12);
    assert("X-Robots-Tag"@[0] != "Content-Type"@[0]);
    let n = "X-Piping"@;
    lemma_receiver_values(t, hs, n);
    lemma_values_of_opt_header("Content-Type"@, t.0, n);
    lemma_values_of_opt_header("Content-Length"@, t.1, n);
    lemma_values_of_opt_header("Content-Disposition"@, t.2, n);
    lemma_values_of_all_named(n, xs);
    lemma_values_of_single("Access-Control-Allow-Origin"@, "*"@, n);
    lemma_values_of_opt_header("Access-Control-Expose-Headers"@, ex, n);
    lemma_values_of_single("X-Robots-Tag"@, "none"@, n);
    assert(values_named(receiver_headers_of(t, hs), n) =~= xs);
    let m = "Access-Control-Expose-Headers"@;
    lemma_receiver_values(t, hs, m);
    lemma_values_of_opt_header("Content-Type"@, t.0, m);
    lemma_values_of_opt_header("Content-Length"@, t.1, m);
    lemma_values_of_opt_header("Content-Disposition"@, t.2, m);
    lemma_values_of_other_name(n, xs, m);
    lemma_values_of_single("Access-Control-Allow-Origin"@, "*"@, m);
    lemma_values_of_opt_header(m, ex, m);
    lemma_values_of_single("X-Robots-Tag"@, "none"@, m);
    if xs.len() > 0 {
        assert(values_named(receiver_headers_of(t, hs), m) =~= seq!["X-Piping"@]);
    }
}

} // verus!
