use vstd::prelude::*;
use crate::language::Language;
use crate::resource_id::{ResourceId, hyphenated_hex, lemma_hex_text_chars, lemma_hex_text_len};

verus! {

/// Scheme and host of the API.
pub const API_ORIGIN: &'static str = "https://valorant-api.com";

/// Path of the bundle collection.
pub const BUNDLES_PATH: &'static str = "/v1/bundles";

/// The query string that selects a language: empty without one, else the
/// single pair `language=<code>`.
pub open spec fn language_query(language: Option<Language>) -> Seq<char> {
    match language {
        None => Seq::empty(),
        Some(l) => "?language="@ + l.spec_code(),
    }
}

/// Path of one bundle: the collection path, a slash, the identifier's text.
pub open spec fn bundle_path(id: ResourceId) -> Seq<char> {
    BUNDLES_PATH@ + "/"@ + hyphenated_hex(id.value)
}

/// URL of the bundle list.
pub open spec fn spec_bundles_url(language: Option<Language>) -> Seq<char> {
    API_ORIGIN@ + BUNDLES_PATH@ + language_query(language)
}

/// URL of a single bundle.
pub open spec fn spec_bundle_url(id: ResourceId, language: Option<Language>) -> Seq<char> {
    API_ORIGIN@ + bundle_path(id) + language_query(language)
}

fn append_language(url: &mut String, language: Option<Language>)
    ensures
        final(url)@ == old(url)@ + language_query(language),
{
    if let Some(l) = language {
        url.append("?language=");
        url.append(l.code());
    }
    proof {
        if language is None {
            assert(final(url)@ =~= old(url)@ + language_query(language));
        } else {
            assert(final(url)@ =~= old(url)@ + language_query(language));
        }
    }
}

/// The URL that lists all bundles, in the given language if one is given.
pub fn bundles_url(language: Option<Language>) -> (r: String)
    ensures
        r@ == spec_bundles_url(language),
{
    let mut url = String::from_str(API_ORIGIN);
    url.append(BUNDLES_PATH);
    append_language(&mut url, language);
    url
}

/// The URL of the bundle with identifier `id`, in the given language if one
/// is given.
pub fn bundle_url(id: ResourceId, language: Option<Language>) -> (r: String)
    ensures
        r@ == spec_bundle_url(id, language),
{
    let mut url = String::from_str(API_ORIGIN);
    url.append(BUNDLES_PATH);
    url.append("/");
    let text = id.to_hyphenated();
    url.append(text.as_str());
    append_language(&mut url, language);
    assert(url@ =~= spec_bundle_url(id, language));
    url
}

/// No position of `s` holds `c`.
pub open spec fn lacks(s: Seq<char>, c: char) -> bool {
    forall|i: int| 0 <= i < s.len() ==> s[i] != c
}

proof fn lemma_code_plain(l: Language)
    ensures
        lacks(l.spec_code(), '?'),
        lacks(l.spec_code(), '&'),
        lacks("language="@, '?'),
        lacks("language="@, '&'),
        "?language="@ == seq!['?'] + "language="@,
        "language="@.len() == 9,
{
    reveal_strlit("language=");
    reveal_strlit("?language=");
    assert("?language="@ =~= seq!['?'] + "language="@);
    match l {
        Language::ArAe => reveal_strlit("ar-AE"),
        Language::DeDe => reveal_strlit("de-DE"),
        Language::EnUs => reveal_strlit("en-US"),
        Language::EsEs => reveal_strlit("es-ES"),
        Language::EsMx => reveal_strlit("es-MX"),
        Language::FrFr => reveal_strlit("fr-FR"),
        Language::IdId => reveal_strlit("id-ID"),
        Language::ItIt => reveal_strlit("it-IT"),
        Language::JaJp => reveal_strlit("ja-JP"),
        Language::KoKr => reveal_strlit("ko-KR"),
        Language::PlPl => reveal_strlit("pl-PL"),
        Language::PtBr => reveal_strlit("pt-BR"),
        Language::RuRu => reveal_strlit("ru-RU"),
        Language::ThTh => reveal_strlit("th-TH"),
        Language::TrTr => reveal_strlit("tr-TR"),
        Language::ViVn => reveal_strlit("vi-VN"),
        Language::ZhCn => reveal_strlit("zh-CN"),
        Language::ZhTw => reveal_strlit("zh-TW"),
    }
}

/// What it means for `url` to end in the query that `language` selects,
/// after a part with no query of its own: without a language there is no
/// `?` at all; with one, the only `?` is followed by exactly the single pair
/// `language=<code>`, which holds no `&` that could start a second pair.
pub open spec fn query_is_rendered(url: Seq<char>, base_len: int, language: Option<Language>) -> bool {
    match language {
        None => lacks(url, '?'),
        Some(l) => {
            &&& base_len < url.len()
            &&& url[base_len] == '?'
            &&& forall|i: int| 0 <= i < url.len() && i != base_len ==> url[i] != '?'
            &&& url.subrange(base_len + 1, url.len() as int) == "language="@ + l.spec_code()
            &&& lacks(url.subrange(base_len + 1, url.len() as int), '&')
        },
    }
}

proof fn lemma_query_after(base: Seq<char>, language: Option<Language>)
    requires
        lacks(base, '?'),
    ensures
        query_is_rendered(base + language_query(language), base.len() as int, language),
{
    let url = base + language_query(language);
    match language {
        None => {
            assert(url =~= base);
        },
        Some(l) => {
            lemma_code_plain(l);
            let pair = "language="@ + l.spec_code();
            assert(url =~= base + seq!['?'] + pair);
            assert(url.subrange(base.len() as int + 1, url.len() as int) =~= pair);
            assert forall|i: int| 0 <= i < url.len() && i != base.len() implies url[i] != '?' by {
                if i > base.len() {
                    let j = i - base.len() - 1;
                    if j < 9 {
                        assert(pair[j] == "language="@[j]);
                    } else {
                        assert(pair[j] == l.spec_code()[j - 9]);
                    }
                }
            }
            assert forall|j: int| 0 <= j < pair.len() implies pair[j] != '&' by {
                if j < 9 {
                    assert(pair[j] == "language="@[j]);
                } else {
                    assert(pair[j] == l.spec_code()[j - 9]);
                }
            }
        },
    }
}

proof fn lemma_fixed_parts()
    ensures
        lacks(API_ORIGIN@ + BUNDLES_PATH@, '?'),
        lacks(API_ORIGIN@ + BUNDLES_PATH@ + "/"@, '?'),
        BUNDLES_PATH@ + "/"@ == "/v1/bundles/"@,
        (API_ORIGIN@ + BUNDLES_PATH@).len() == 35,
        "/v1/bundles/"@.len() == 12,
{
    reveal_strlit("https://valorant-api.com");
    reveal_strlit("/v1/bundles");
    reveal_strlit("/");
    reveal_strlit("/v1/bundles/");
    assert(BUNDLES_PATH@ + "/"@ =~= "/v1/bundles/"@);
}

/// The language selector is rendered into both bundle URLs as the single
/// query pair `language=<code>` with the selector's own code, and no query
/// string at all is present when no selector is given.
pub proof fn lemma_language_rendered_once(id: ResourceId, language: Option<Language>)
    ensures
        query_is_rendered(
            spec_bundles_url(language),
            (API_ORIGIN@ + BUNDLES_PATH@).len() as int,
            language,
        ),
        query_is_rendered(
            spec_bundle_url(id, language),
            (API_ORIGIN@ + bundle_path(id)).len() as int,
            language,
        ),
{
    lemma_fixed_parts();
    lemma_query_after(API_ORIGIN@ + BUNDLES_PATH@, language);
    let base = API_ORIGIN@ + bundle_path(id);
    let h = hyphenated_hex(id.value);
    lemma_hex_text_len(id.value);
    assert(base =~= (API_ORIGIN@ + BUNDLES_PATH@ + "/"@) + h);
    assert forall|i: int| 0 <= i < base.len() implies base[i] != '?' by {
        let k = (API_ORIGIN@ + BUNDLES_PATH@ + "/"@).len();
        if i >= k {
            assert(base[i] == h[i - k]);
            lemma_hex_text_chars(id.value, i - k);
        }
    }
    assert(spec_bundle_url(id, language) == base + language_query(language));
    lemma_query_after(base, language);
}

/// Lowercase hex digits, the characters of an identifier's text besides
/// its hyphens.
pub open spec fn is_hex_char(c: char) -> bool {
    ('0' <= c <= '9') || ('a' <= c <= 'f')
}

proof fn lemma_no_early_match(path: Seq<char>, h: Seq<char>, k: int)
    requires
        path.len() == 48,
        h.len() == 36,
        0 <= k < 12,
        path[0] == '/' && path[1] == 'v' && path[2] == '1' && path[3] == '/',
        path[4] == 'b' && path[5] == 'u' && path[6] == 'n' && path[7] == 'd',
        path[8] == 'l' && path[9] == 'e' && path[10] == 's' && path[11] == '/',
        path[12] == h[0] && path[15] == h[3] && path[17] == h[5],
        h[8] == '-',
        is_hex_char(h[0]) && is_hex_char(h[3]) && is_hex_char(h[5]),
    ensures
        path.subrange(k, k + 36) != h,
{
    let sub = path.subrange(k, k + 36);
    assert(sub[0] == path[k]);
    assert(sub[8] == path[k + 8]);
}

/// The single-bundle URL is the origin, then the bundle path, then the
/// language query; the path holds the identifier's canonical hyphenated
/// lowercase text exactly once, at its end after `/v1/bundles/`.
pub proof fn lemma_identifier_in_path(id: ResourceId, language: Option<Language>)
    ensures
        spec_bundle_url(id, language) == API_ORIGIN@ + bundle_path(id) + language_query(language),
        bundle_path(id).len() == 48,
        bundle_path(id).subrange(12, 48) == hyphenated_hex(id.value),
        forall|k: int|
            0 <= k <= 12 && #[trigger] bundle_path(id).subrange(k, k + 36) == hyphenated_hex(
                id.value,
            ) ==> k == 12,
{
    lemma_fixed_parts();
    let v = id.value;
    let h = hyphenated_hex(v);
    let path = bundle_path(id);
    let lit = "/v1/bundles/"@;
    lemma_hex_text_len(v);
    lemma_hex_text_chars(v, 0);
    lemma_hex_text_chars(v, 3);
    lemma_hex_text_chars(v, 5);
    lemma_hex_text_chars(v, 8);
    assert(path =~= lit + h);
    assert(path.subrange(12, 48) =~= h);
    assert(path[12] == h[0]);
    assert(path[15] == h[3]);
    assert(path[17] == h[5]);
    assert(forall|i: int| 0 <= i < 12 ==> path[i] == lit[i]);
    assert(path[0] == '/' && path[1] == 'v' && path[2] == '1' && path[3] == '/'
        && path[4] == 'b' && path[5] == 'u' && path[6] == 'n' && path[7] == 'd'
        && path[8] == 'l' && path[9] == 'e' && path[10] == 's' && path[11] == '/') by {
        reveal_strlit("/v1/bundles/");
    }
    assert forall|k: int| 0 <= k < 12 implies #[trigger] path.subrange(k, k + 36) != h by {
        lemma_no_early_match(path, h, k);
    }
}

} // verus!
