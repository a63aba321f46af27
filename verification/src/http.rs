//! Response headers in the form `tiny_http` sends them.

use vstd::prelude::*;
use vstd::utf8::is_ascii_chars;
use crate::mime::{mime_table, table_lookup, spec_content_type, spec_cache_control};
use crate::serve::{ActionView, EventView, ExchangeView, Reply, ReplyView, answers, spec_header_fields, spec_step};

verus! {

/// `tiny_http::Header`, held opaque.
#[verifier::external_type_specification]
#[verifier::external_body]
pub struct ExHeader(tiny_http::Header);

/// Whether a header field's name and value are both ASCII.
pub open spec fn field_is_ascii(field: (Seq<char>, Seq<char>)) -> bool {
    is_ascii_chars(field.0) && is_ascii_chars(field.1)
}

/// Whether every name and value in a list of header fields is ASCII.
pub open spec fn fields_are_ascii(fields: Seq<(Seq<char>, Seq<char>)>) -> bool {
    forall|i: int| 0 <= i < fields.len() ==> #[trigger] field_is_ascii(fields[i])
}

/// The header that `tiny_http::Header::from_bytes` builds from a name and a
/// value: field `name`, value `value`.
pub uninterp spec fn spec_header(name: Seq<char>, value: Seq<char>) -> tiny_http::Header;

/// `tiny_http::Header::from_bytes` on the UTF-8 bytes of a name and a value.
///
/// Trusted: the source of tiny_http 0.12 builds the field and the value with
/// `AsciiString::from_ascii` and fails exactly when one of them holds a byte
/// outside ASCII; the UTF-8 bytes of a string are all ASCII exactly when its
/// characters are. On success the header depends on the name and the value
/// alone, and is named `spec_header(name, value)`.
#[verifier::external_body]
fn header_from_bytes(name: &str, value: &str) -> (r: Result<tiny_http::Header, ()>)
    ensures
        r is Ok <==> (is_ascii_chars(name@) && is_ascii_chars(value@)),
        r matches Ok(h) ==> h == spec_header(name@, value@),
{
    tiny_http::Header::from_bytes(name.as_bytes(), value.as_bytes())
}

/// The reply's header fields as `tiny_http` headers, in order; `Err` when a
/// name or value is not ASCII, which `tiny_http` refuses.
pub fn reply_headers(reply: &Reply) -> (r: Result<Vec<tiny_http::Header>, ()>)
    ensures
        r is Ok <==> fields_are_ascii(spec_header_fields(reply@)),
        r matches Ok(v) ==> v@.len() == spec_header_fields(reply@).len(),
        r matches Ok(v) ==> forall|i: int| 0 <= i < v@.len() ==> #[trigger] v@[i] == spec_header(
            spec_header_fields(reply@)[i].0,
            spec_header_fields(reply@)[i].1,
        ),
{
    let fields = reply.header_fields();
    let ghost fv = spec_header_fields(reply@);
    assert(fields@.len() == fv.len());
    let mut out: Vec<tiny_http::Header> = Vec::new();
    let mut i: usize = 0;
    while i < fields.len()
        invariant
            fields@.map_values(|f: (&'static str, &'static str)| (f.0@, f.1@)) == fv,
            fields@.len() == fv.len(),
            fv == spec_header_fields(reply@),
            i <= fields@.len(),
            out@.len() == i,
            forall|j: int| 0 <= j < i ==> #[trigger] field_is_ascii(fv[j]),
            forall|j: int| 0 <= j < i ==> #[trigger] out@[j] == spec_header(fv[j].0, fv[j].1),
        decreases fields@.len() - i,
    {
        let (name, value) = fields[i];
        assert(fv[i as int] == (name@, value@));
        match header_from_bytes(name, value) {
            Ok(h) => {
                assert(field_is_ascii(fv[i as int]));
                out.push(h);
            },
            Err(()) => {
                assert(!field_is_ascii(fv[i as int]));
                return Err(());
            },
        }
        i = i + 1;
    }
    Ok(out)
}

proof fn lemma_mime_values_ascii()
    ensures
        forall|i: int| 0 <= i < mime_table().len() ==> is_ascii_chars(#[trigger] mime_table()[i].1),
{
    reveal_strlit("text/html; charset=utf-8");
    reveal_strlit("text/css; charset=utf-8");
    reveal_strlit("application/javascript; charset=utf-8");
    reveal_strlit("application/json; charset=utf-8");
    reveal_strlit("application/wasm");
    reveal_strlit("image/svg+xml");
    reveal_strlit("image/png");
    reveal_strlit("image/jpeg");
    reveal_strlit("image/gif");
    reveal_strlit("image/x-icon");
    reveal_strlit("image/webp");
    reveal_strlit("font/ttf");
    reveal_strlit("font/otf");
    reveal_strlit("font/woff");
    reveal_strlit("font/woff2");
    reveal_strlit("application/json");
    reveal_strlit("text/plain; charset=utf-8");
    reveal_strlit("application/xml; charset=utf-8");
}

proof fn lemma_lookup_is_a_value(table: Seq<(Seq<char>, Seq<char>)>, key: Seq<char>)
    ensures
        table_lookup(table, key) matches Some(v) ==> exists|i: int| 0 <= i < table.len() && #[trigger] table[i].1 == v,
    decreases table.len(),
{
    if table.len() > 0 && table[0].0 != key {
        let rest = table.subrange(1, table.len() as int);
        lemma_lookup_is_a_value(rest, key);
        if let Some(v) = table_lookup(rest, key) {
            let i = choose|i: int| 0 <= i < rest.len() && #[trigger] rest[i].1 == v;
            assert(table[i + 1].1 == v);
        }
    }
}

/// Law: every reply the exchange sends with the server's content-type
/// table carries only ASCII header names and values, so `tiny_http` takes
/// all of them.
pub proof fn law_replies_have_ascii_headers(ex: ExchangeView, event: EventView)
    requires
        answers(ex.phase, event),
    ensures
        spec_step(ex, mime_table(), event).1 matches ActionView::Respond(r) ==> fields_are_ascii(spec_header_fields(r)),
{
    reveal_strlit("Content-Type");
    reveal_strlit("Cache-Control");
    reveal_strlit("Access-Control-Allow-Origin");
    reveal_strlit("*");
    reveal_strlit("application/octet-stream");
    reveal_strlit("public, max-age=31536000, immutable");
    reveal_strlit("no-cache");
    if let ActionView::Respond(r) = spec_step(ex, mime_table(), event).1 {
        if let ReplyView::File { content_type, cache_control, .. } = r {
            if let EventView::Loaded(_, ext) = event {
                lemma_mime_values_ascii();
                lemma_lookup_is_a_value(mime_table(), ext);
                assert(is_ascii_chars(content_type));
                assert(is_ascii_chars(cache_control));
            }
            let f = spec_header_fields(r);
            assert(field_is_ascii(f[0]));
            assert(field_is_ascii(f[1]));
            assert(field_is_ascii(f[2]));
        }
    }
}

} // verus!
