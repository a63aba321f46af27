//! Content types and caching policy of served files.

use vstd::prelude::*;
use crate::text::{str_eq, starts_with};

verus! {

/// The extension table the server answers with: extension, content type.
pub open spec fn mime_table() -> Seq<(Seq<char>, Seq<char>)> {
    seq![
        ("html"@, "text/html; charset=utf-8"@),
        ("htm"@, "text/html; charset=utf-8"@),
        ("css"@, "text/css; charset=utf-8"@),
        ("js"@, "application/javascript; charset=utf-8"@),
        ("mjs"@, "application/javascript; charset=utf-8"@),
        ("json"@, "application/json; charset=utf-8"@),
        ("wasm"@, "application/wasm"@),
        ("svg"@, "image/svg+xml"@),
        ("png"@, "image/png"@),
        ("jpg"@, "image/jpeg"@),
        ("jpeg"@, "image/jpeg"@),
        ("gif"@, "image/gif"@),
        ("ico"@, "image/x-icon"@),
        ("webp"@, "image/webp"@),
        ("ttf"@, "font/ttf"@),
        ("otf"@, "font/otf"@),
        ("woff"@, "font/woff"@),
        ("woff2"@, "font/woff2"@),
        ("map"@, "application/json"@),
        ("txt"@, "text/plain; charset=utf-8"@),
        ("xml"@, "application/xml; charset=utf-8"@),
    ]
}

/// The value stored for `key` in a table of pairs: that of the first pair
/// with that key.
pub open spec fn table_lookup(table: Seq<(Seq<char>, Seq<char>)>, key: Seq<char>) -> Option<Seq<char>>
    decreases table.len(),
{
    if table.len() == 0 {
        None
    } else if table[0].0 == key {
        Some(table[0].1)
    } else {
        table_lookup(table.subrange(1, table.len() as int), key)
    }
}

/// Whether no key occurs twice in a table.
pub open spec fn keys_distinct(table: Seq<(Seq<char>, Seq<char>)>) -> bool {
    forall|i: int, j: int| 0 <= i < j < table.len() ==> table[i].0 != table[j].0
}

/// In a table without repeated keys, the value found for a key is the
/// value of every entry with that key, and no entry has a key not found.
proof fn lemma_lookup_unique(table: Seq<(Seq<char>, Seq<char>)>, key: Seq<char>)
    requires
        keys_distinct(table),
    ensures
        table_lookup(table, key) matches Some(v) ==> forall|i: int| 0 <= i < table.len() && #[trigger] table[i].0 == key ==> table[i].1 == v,
        table_lookup(table, key) is None ==> forall|i: int| 0 <= i < table.len() ==> #[trigger] table[i].0 != key,
    decreases table.len(),
{
    if table.len() > 0 {
        let rest = table.subrange(1, table.len() as int);
        assert(keys_distinct(rest)) by {
            assert forall|i: int, j: int| 0 <= i < j < rest.len() implies rest[i].0 != rest[j].0 by {
                assert(rest[i] == table[i + 1] && rest[j] == table[j + 1]);
            }
        }
        lemma_lookup_unique(rest, key);
        assert forall|i: int| 1 <= i < table.len() implies #[trigger] table[i] == rest[i - 1] by {}
        if table[0].0 == key {
            assert forall|i: int| 0 <= i < table.len() && #[trigger] table[i].0 == key implies table[i].1 == table[0].1 by {
                if i > 0 {
                    assert(table[0].0 != table[i].0);
                }
            }
        }
    }
}

/// Extension-to-content-type table.
pub struct MimeMap {
    entries: Vec<(&'static str, &'static str)>,
}

impl View for MimeMap {
    type V = Seq<(Seq<char>, Seq<char>)>;

    closed spec fn view(&self) -> Seq<(Seq<char>, Seq<char>)> {
        self.entries@.map_values(|e: (&'static str, &'static str)| (e.0@, e.1@))
    }
}

impl MimeMap {
    /// No extension occurs twice in the table.
    #[verifier::type_invariant]
    spec fn keys_are_distinct(&self) -> bool {
        keys_distinct(self@)
    }

    /// The content type stored for an extension, if any.
    pub fn get(&self, ext: &str) -> (r: Option<&'static str>)
        ensures
            r matches Some(v) ==> table_lookup(self@, ext@) == Some(v@),
            r is None ==> table_lookup(self@, ext@) is None,
            r matches Some(v) ==> forall|i: int| 0 <= i < self@.len() && #[trigger] self@[i].0 == ext@ ==> self@[i].1 == v@,
            r is None ==> forall|i: int| 0 <= i < self@.len() ==> #[trigger] self@[i].0 != ext@,
    {
        proof {
            use_type_invariant(self);
            lemma_lookup_unique(self@, ext@);
        }
        let n = self.entries.len();
        let mut i: usize = 0;
        assert(self@.subrange(0, n as int) =~= self@);
        while i < n
            invariant
                n == self.entries@.len(),
                n == self@.len(),
                i <= n,
                table_lookup(self@, ext@) == table_lookup(self@.subrange(i as int, n as int), ext@),
            decreases n - i,
        {
            let (k, v) = self.entries[i];
            let ghost tail = self@.subrange(i as int, n as int);
            assert(tail[0] == (k@, v@));
            if str_eq(k, ext) {
                proof {
                    use_type_invariant(self);
                    lemma_lookup_unique(self@, ext@);
                }
                return Some(v);
            }
            assert(tail.subrange(1, tail.len() as int) =~= self@.subrange(i + 1, n as int));
            i = i + 1;
        }
        None
    }

    /// Number of extensions in the table.
    pub fn len(&self) -> (r: usize)
        ensures
            r == self@.len(),
    {
        self.entries.len()
    }
}

/// Builds the table of content types, keyed by file extension.
pub fn build_mime_map() -> (m: MimeMap)
    ensures
        m@ == mime_table(),
{
    let mut entries: Vec<(&'static str, &'static str)> = Vec::new();
    entries.push(("html", "text/html; charset=utf-8"));
    entries.push(("htm", "text/html; charset=utf-8"));
    entries.push(("css", "text/css; charset=utf-8"));
    entries.push(("js", "application/javascript; charset=utf-8"));
    entries.push(("mjs", "application/javascript; charset=utf-8"));
    entries.push(("json", "application/json; charset=utf-8"));
    entries.push(("wasm", "application/wasm"));
    entries.push(("svg", "image/svg+xml"));
    entries.push(("png", "image/png"));
    entries.push(("jpg", "image/jpeg"));
    entries.push(("jpeg", "image/jpeg"));
    entries.push(("gif", "image/gif"));
    entries.push(("ico", "image/x-icon"));
    entries.push(("webp", "image/webp"));
    entries.push(("ttf", "font/ttf"));
    entries.push(("otf", "font/otf"));
    entries.push(("woff", "font/woff"));
    entries.push(("woff2", "font/woff2"));
    entries.push(("map", "application/json"));
    entries.push(("txt", "text/plain; charset=utf-8"));
    entries.push(("xml", "application/xml; charset=utf-8"));
    proof {
        law_mime_keys_distinct();
        assert(entries@.map_values(|e: (&'static str, &'static str)| (e.0@, e.1@)) =~= mime_table());
    }
    MimeMap { entries }
}

/// Whether a response may be cached for good: hashed bundles under
/// `/assets/`, and font files.
pub open spec fn spec_is_immutable_asset(ext: Seq<char>, path: Seq<char>) -> bool {
    ||| (path.len() >= "/assets/"@.len() && path.subrange(0, "/assets/"@.len() as int) == "/assets/"@)
    ||| ext == "woff"@
    ||| ext == "woff2"@
    ||| ext == "ttf"@
    ||| ext == "otf"@
}

/// Whether the file served for request path `path`, with extension `ext`,
/// never changes: hashed assets under `/assets/` and font files.
pub fn is_immutable_asset(ext: &str, path: &str) -> (r: bool)
    ensures
        r == spec_is_immutable_asset(ext@, path@),
{
    if starts_with(path, "/assets/") {
        return true;
    }
    str_eq(ext, "woff") || str_eq(ext, "woff2") || str_eq(ext, "ttf") || str_eq(ext, "otf")
}

/// The `Cache-Control` value for a served file.
pub open spec fn spec_cache_control(ext: Seq<char>, path: Seq<char>) -> Seq<char> {
    if spec_is_immutable_asset(ext, path) {
        "public, max-age=31536000, immutable"@
    } else {
        "no-cache"@
    }
}

/// The `Cache-Control` header value for a file with extension `ext` served
/// for request path `path`.
pub fn cache_control(ext: &str, path: &str) -> (r: &'static str)
    ensures
        r@ == spec_cache_control(ext@, path@),
{
    if is_immutable_asset(ext, path) {
        "public, max-age=31536000, immutable"
    } else {
        "no-cache"
    }
}

/// The content type for an extension: the table's entry, or
/// `application/octet-stream` where it has none.
pub open spec fn spec_content_type(table: Seq<(Seq<char>, Seq<char>)>, ext: Seq<char>) -> Seq<char> {
    match table_lookup(table, ext) {
        Some(v) => v,
        None => "application/octet-stream"@,
    }
}

/// The `Content-Type` header value for a file with extension `ext`.
pub fn content_type(map: &MimeMap, ext: &str) -> (r: &'static str)
    ensures
        r@ == spec_content_type(map@, ext@),
{
    match map.get(ext) {
        Some(v) => v,
        None => "application/octet-stream",
    }
}

/// Whether a content type is a font type (`font/...`).
pub open spec fn is_font_type(v: Seq<char>) -> bool {
    v.len() >= "font/"@.len() && v.subrange(0, "font/"@.len() as int) == "font/"@
}

/// Law: in the content-type table, the extensions with a font type are
/// exactly the extensions cached for good wherever they are requested:
/// `ttf`, `otf`, `woff` and `woff2`.
pub proof fn law_font_types_are_cached_for_good()
    ensures
        forall|i: int| 0 <= i < mime_table().len() ==> (is_font_type(#[trigger] mime_table()[i].1)
            <==> spec_is_immutable_asset(mime_table()[i].0, "/"@)),
        forall|ext: Seq<char>| #[trigger] spec_is_immutable_asset(ext, "/"@) <==> (ext == "ttf"@ || ext == "otf"@
            || ext == "woff"@ || ext == "woff2"@),
{
    reveal_strlit("html");
    reveal_strlit("htm");
    reveal_strlit("css");
    reveal_strlit("js");
    reveal_strlit("mjs");
    reveal_strlit("json");
    reveal_strlit("wasm");
    reveal_strlit("svg");
    reveal_strlit("png");
    reveal_strlit("jpg");
    reveal_strlit("jpeg");
    reveal_strlit("gif");
    reveal_strlit("ico");
    reveal_strlit("webp");
    reveal_strlit("ttf");
    reveal_strlit("otf");
    reveal_strlit("woff");
    reveal_strlit("woff2");
    reveal_strlit("map");
    reveal_strlit("txt");
    reveal_strlit("xml");
    reveal_strlit("text/html; charset=utf-8");
    reveal_strlit("text/css; charset=utf-8");
    reveal_strlit("application/javascript; charset=utf-8");
    reveal_strlit("application/json; charset=utf-8");
    reveal_strlit("application/wasm");
    reveal_strlit("image/svg+xml");
    reveal_strlit("image/png");
    reveal_strlit("image/jpeg");
    reveal_strlit("image/gif");
    reveal_strlit("image/x-icon");
    reveal_strlit("image/webp");
    reveal_strlit("font/ttf");
    reveal_strlit("font/otf");
    reveal_strlit("font/woff");
    reveal_strlit("font/woff2");
    reveal_strlit("application/json");
    reveal_strlit("text/plain; charset=utf-8");
    reveal_strlit("application/xml; charset=utf-8");
    reveal_strlit("font/");
    reveal_strlit("/assets/");
    reveal_strlit("/");
    let t = mime_table();
    assert("/"@.len() < "/assets/"@.len());
    assert(t[0].1.subrange(0, 5)[0] == t[0].1[0] && t[0].1[0] != 'f');
    assert(t[0].0[0] != "woff"@[0]);
    assert(t[0].0.len() == 4);
    assert(!spec_is_immutable_asset(t[0].0, "/"@));
    assert(t[1].1.subrange(0, 5)[0] == t[1].1[0] && t[1].1[0] != 'f');
    assert(t[1].0[0] != "ttf"@[0] && t[1].0[0] != "otf"@[0]);
    assert(t[1].0.len() == 3);
    assert(!spec_is_immutable_asset(t[1].0, "/"@));
    assert(t[2].1.subrange(0, 5)[0] == t[2].1[0] && t[2].1[0] != 'f');
    assert(t[2].0[0] != "ttf"@[0] && t[2].0[0] != "otf"@[0]);
    assert(t[2].0.len() == 3);
    assert(!spec_is_immutable_asset(t[2].0, "/"@));
    assert(t[3].1.subrange(0, 5)[0] == t[3].1[0] && t[3].1[0] != 'f');
    assert(t[3].0.len() == 2);
    assert(!spec_is_immutable_asset(t[3].0, "/"@));
    assert(t[4].1.subrange(0, 5)[0] == t[4].1[0] && t[4].1[0] != 'f');
    assert(t[4].0[0] != "ttf"@[0] && t[4].0[0] != "otf"@[0]);
    assert(t[4].0.len() == 3);
    assert(!spec_is_immutable_asset(t[4].0, "/"@));
    assert(t[5].1.subrange(0, 5)[0] == t[5].1[0] && t[5].1[0] != 'f');
    assert(t[5].0[0] != "woff"@[0]);
    assert(t[5].0.len() == 4);
    assert(!spec_is_immutable_asset(t[5].0, "/"@));
    assert(t[6].1.subrange(0, 5)[0] == t[6].1[0] && t[6].1[0] != 'f');
    assert(t[6].0[1] != "woff"@[1]);
    assert(t[6].0.len() == 4);
    assert(!spec_is_immutable_asset(t[6].0, "/"@));
    assert(t[7].1.subrange(0, 5)[0] == t[7].1[0] && t[7].1[0] != 'f');
    assert(t[7].0[0] != "ttf"@[0] && t[7].0[0] != "otf"@[0]);
    assert(t[7].0.len() == 3);
    assert(!spec_is_immutable_asset(t[7].0, "/"@));
    assert(t[8].1.subrange(0, 5)[0] == t[8].1[0] && t[8].1[0] != 'f');
    assert(t[8].0[0] != "ttf"@[0] && t[8].0[0] != "otf"@[0]);
    assert(t[8].0.len() == 3);
    assert(!spec_is_immutable_asset(t[8].0, "/"@));
    assert(t[9].1.subrange(0, 5)[0] == t[9].1[0] && t[9].1[0] != 'f');
    assert(t[9].0[0] != "ttf"@[0] && t[9].0[0] != "otf"@[0]);
    assert(t[9].0.len() == 3);
    assert(!spec_is_immutable_asset(t[9].0, "/"@));
    assert(t[10].1.subrange(0, 5)[0] == t[10].1[0] && t[10].1[0] != 'f');
    assert(t[10].0[0] != "woff"@[0]);
    assert(t[10].0.len() == 4);
    assert(!spec_is_immutable_asset(t[10].0, "/"@));
    assert(t[11].1.subrange(0, 5)[0] == t[11].1[0] && t[11].1[0] != 'f');
    assert(t[11].0[0] != "ttf"@[0] && t[11].0[0] != "otf"@[0]);
    assert(t[11].0.len() == 3);
    assert(!spec_is_immutable_asset(t[11].0, "/"@));
    assert(t[12].1.subrange(0, 5)[0] == t[12].1[0] && t[12].1[0] != 'f');
    assert(t[12].0[0] != "ttf"@[0] && t[12].0[0] != "otf"@[0]);
    assert(t[12].0.len() == 3);
    assert(!spec_is_immutable_asset(t[12].0, "/"@));
    assert(t[13].1.subrange(0, 5)[0] == t[13].1[0] && t[13].1[0] != 'f');
    assert(t[13].0[1] != "woff"@[1]);
    assert(t[13].0.len() == 4);
    assert(!spec_is_immutable_asset(t[13].0, "/"@));
    assert(t[14].1.subrange(0, 5) =~= "font/"@);
    assert(t[15].1.subrange(0, 5) =~= "font/"@);
    assert(t[16].1.subrange(0, 5) =~= "font/"@);
    assert(t[17].1.subrange(0, 5) =~= "font/"@);
    assert(t[18].1.subrange(0, 5)[0] == t[18].1[0] && t[18].1[0] != 'f');
    assert(t[18].0[0] != "ttf"@[0] && t[18].0[0] != "otf"@[0]);
    assert(t[18].0.len() == 3);
    assert(!spec_is_immutable_asset(t[18].0, "/"@));
    assert(t[19].1.subrange(0, 5)[0] == t[19].1[0] && t[19].1[0] != 'f');
    assert(t[19].0[1] != "ttf"@[1] && t[19].0[0] != "otf"@[0]);
    assert(t[19].0.len() == 3);
    assert(!spec_is_immutable_asset(t[19].0, "/"@));
    assert(t[20].1.subrange(0, 5)[0] == t[20].1[0] && t[20].1[0] != 'f');
    assert(t[20].0[0] != "ttf"@[0] && t[20].0[0] != "otf"@[0]);
    assert(t[20].0.len() == 3);
    assert(!spec_is_immutable_asset(t[20].0, "/"@));
}

proof fn lemma_lookup_at(t: Seq<(Seq<char>, Seq<char>)>, i: int)
    requires
        keys_distinct(t),
        0 <= i < t.len(),
    ensures
        table_lookup(t, t[i].0) == Some(t[i].1),
{
    lemma_lookup_unique(t, t[i].0);
}

/// Law: each content type names the format of its extension. Images and
/// fonts are `image/<ext>` and `font/<ext>`, HTML and CSS are
/// `text/<ext>; charset=utf-8`, JSON and XML `application/<ext>;
/// charset=utf-8`, WebAssembly `application/wasm`; the short spellings
/// `jpg`, `htm` and `mjs` share the type of `jpeg`, `html` and `js`, and
/// source maps are JSON.
pub proof fn law_content_types_name_their_format(ext: Seq<char>)
    ensures
        (ext == "png"@ || ext == "gif"@ || ext == "webp"@ || ext == "jpeg"@) ==> table_lookup(mime_table(), ext) == Some("image/"@ + ext),
        (ext == "ttf"@ || ext == "otf"@ || ext == "woff"@ || ext == "woff2"@) ==> table_lookup(mime_table(), ext) == Some("font/"@ + ext),
        (ext == "html"@ || ext == "css"@) ==> table_lookup(mime_table(), ext) == Some("text/"@ + ext + "; charset=utf-8"@),
        (ext == "json"@ || ext == "xml"@) ==> table_lookup(mime_table(), ext) == Some("application/"@ + ext + "; charset=utf-8"@),
        (ext == "wasm"@) ==> table_lookup(mime_table(), ext) == Some("application/"@ + ext),
        table_lookup(mime_table(), "jpg"@) == table_lookup(mime_table(), "jpeg"@),
        table_lookup(mime_table(), "htm"@) == table_lookup(mime_table(), "html"@),
        table_lookup(mime_table(), "mjs"@) == table_lookup(mime_table(), "js"@),
        table_lookup(mime_table(), "map"@) == Some("application/"@ + "json"@),
        table_lookup(mime_table(), "js"@) == Some("application/javascript; charset=utf-8"@),
        table_lookup(mime_table(), "txt"@) == Some("text/plain; charset=utf-8"@),
        table_lookup(mime_table(), "svg"@) == Some("image/svg+xml"@),
        table_lookup(mime_table(), "ico"@) == Some("image/x-icon"@),
{
    reveal_strlit("; charset=utf-8");
    reveal_strlit("application/");
    reveal_strlit("application/json");
    reveal_strlit("application/json; charset=utf-8");
    reveal_strlit("application/wasm");
    reveal_strlit("application/xml; charset=utf-8");
    reveal_strlit("css");
    reveal_strlit("font/");
    reveal_strlit("font/otf");
    reveal_strlit("font/ttf");
    reveal_strlit("font/woff");
    reveal_strlit("font/woff2");
    reveal_strlit("gif");
    reveal_strlit("html");
    reveal_strlit("image/");
    reveal_strlit("image/gif");
    reveal_strlit("image/jpeg");
    reveal_strlit("image/png");
    reveal_strlit("image/webp");
    reveal_strlit("jpeg");
    reveal_strlit("json");
    reveal_strlit("map");
    reveal_strlit("otf");
    reveal_strlit("png");
    reveal_strlit("text/");
    reveal_strlit("text/css; charset=utf-8");
    reveal_strlit("text/html; charset=utf-8");
    reveal_strlit("ttf");
    reveal_strlit("wasm");
    reveal_strlit("webp");
    reveal_strlit("woff");
    reveal_strlit("woff2");
    reveal_strlit("xml");
    let t = mime_table();
    law_mime_keys_distinct();
    lemma_lookup_at(t, 8);
    assert(t[8].1 =~= "image/"@ + "png"@);
    lemma_lookup_at(t, 11);
    assert(t[11].1 =~= "image/"@ + "gif"@);
    lemma_lookup_at(t, 13);
    assert(t[13].1 =~= "image/"@ + "webp"@);
    lemma_lookup_at(t, 10);
    assert(t[10].1 =~= "image/"@ + "jpeg"@);
    lemma_lookup_at(t, 14);
    assert(t[14].1 =~= "font/"@ + "ttf"@);
    lemma_lookup_at(t, 15);
    assert(t[15].1 =~= "font/"@ + "otf"@);
    lemma_lookup_at(t, 16);
    assert(t[16].1 =~= "font/"@ + "woff"@);
    lemma_lookup_at(t, 17);
    assert(t[17].1 =~= "font/"@ + "woff2"@);
    lemma_lookup_at(t, 0);
    assert(t[0].1 =~= "text/"@ + "html"@ + "; charset=utf-8"@);
    lemma_lookup_at(t, 2);
    assert(t[2].1 =~= "text/"@ + "css"@ + "; charset=utf-8"@);
    lemma_lookup_at(t, 5);
    assert(t[5].1 =~= "application/"@ + "json"@ + "; charset=utf-8"@);
    lemma_lookup_at(t, 20);
    assert(t[20].1 =~= "application/"@ + "xml"@ + "; charset=utf-8"@);
    lemma_lookup_at(t, 6);
    assert(t[6].1 =~= "application/"@ + "wasm"@);
    lemma_lookup_at(t, 9);
    lemma_lookup_at(t, 10);
    lemma_lookup_at(t, 1);
    lemma_lookup_at(t, 0);
    lemma_lookup_at(t, 4);
    lemma_lookup_at(t, 3);
    lemma_lookup_at(t, 18);
    assert(t[18].1 =~= "application/"@ + "json"@);
    lemma_lookup_at(t, 3);
    lemma_lookup_at(t, 19);
    lemma_lookup_at(t, 7);
    lemma_lookup_at(t, 12);
}

/// Law: the caching policy is one of two values, the long-lived one exactly
/// for immutable assets: every path under `/assets/`, and font files
/// (`woff`, `woff2`, `ttf`, `otf`) wherever they are served from.
pub proof fn law_cache_policy_follows_immutability(ext: Seq<char>, path: Seq<char>)
    ensures
        spec_cache_control(ext, path) == "public, max-age=31536000, immutable"@ || spec_cache_control(ext, path)
            == "no-cache"@,
        spec_cache_control(ext, path) == "public, max-age=31536000, immutable"@ <==> spec_is_immutable_asset(ext, path),
        (ext == "woff"@ || ext == "woff2"@ || ext == "ttf"@ || ext == "otf"@) ==> spec_cache_control(ext, path)
            == "public, max-age=31536000, immutable"@,
        (path.len() >= 8 && path.subrange(0, 8) == "/assets/"@) ==> spec_cache_control(ext, path)
            == "public, max-age=31536000, immutable"@,
        !(path.len() >= 8 && path.subrange(0, 8) == "/assets/"@) && !(ext == "woff"@ || ext == "woff2"@ || ext
            == "ttf"@ || ext == "otf"@) ==> spec_cache_control(ext, path) == "no-cache"@,
{
    reveal_strlit("public, max-age=31536000, immutable");
    reveal_strlit("no-cache");
    reveal_strlit("/assets/");
    assert("public, max-age=31536000, immutable"@ != "no-cache"@) by {
        assert("public, max-age=31536000, immutable"@.len() != "no-cache"@.len());
    }
}

/// Law: no extension occurs twice in the content-type table, so each
/// extension has exactly one content type, as in a hash map.
pub proof fn law_mime_keys_distinct()
    ensures
        keys_distinct(mime_table()),
{
    reveal_strlit("html");
    reveal_strlit("htm");
    reveal_strlit("css");
    reveal_strlit("js");
    reveal_strlit("mjs");
    reveal_strlit("json");
    reveal_strlit("wasm");
    reveal_strlit("svg");
    reveal_strlit("png");
    reveal_strlit("jpg");
    reveal_strlit("jpeg");
    reveal_strlit("gif");
    reveal_strlit("ico");
    reveal_strlit("webp");
    reveal_strlit("ttf");
    reveal_strlit("otf");
    reveal_strlit("woff");
    reveal_strlit("woff2");
    reveal_strlit("map");
    reveal_strlit("txt");
    reveal_strlit("xml");
    let t = mime_table();
    assert forall|i: int, j: int| 0 <= i < j < t.len() implies t[i].0 != t[j].0 by {
        if t[i].0 == t[j].0 {
            assert(t[i].0.len() == t[j].0.len());
            assert(t[i].0[0] == t[j].0[0]);
            assert(t[i].0[1] == t[j].0[1]);
            assert(t[i].0[2] == t[j].0[2]);
        }
    }
}

} // verus!
