use valorant_bundles::bundle::decode_bundle_list;
use valorant_bundles::json::{get_member, parse_small_uint};
use valorant_bundles::{
    bundle_from_response, bundle_url, bundles_from_response, bundles_url, decode_bundle,
    decode_bundles, open_envelope, Bundle, ClientError, Json, Language, ResourceId,
};

const SAMPLE_ID: &str = "123e4567-e89b-12d3-a456-426614174000";
const OTHER_ID: &str = "2116a38e-4b71-f169-0d16-ce9289af4bfa";

fn text(s: &str) -> Json {
    Json::Str(s.to_string())
}

fn object(members: Vec<(&str, Json)>) -> Json {
    Json::Object(members.into_iter().map(|(k, v)| (k.to_string(), v)).collect())
}

fn envelope(payload: Json) -> Json {
    object(vec![("status", Json::Number("200".to_string())), ("data", payload)])
}

fn bundle_json(id: &str, name: &str) -> Json {
    object(vec![
        ("uuid", text(id)),
        ("displayName", text(name)),
        ("displayNameSubText", Json::Null),
        ("description", text("A bundle")),
        ("extraDescription", Json::Null),
        ("promoDescription", text("Limited")),
        ("useAdditionalContext", Json::Bool(false)),
        ("displayIcon", text("https://media.valorant-api.com/bundles/icon.png")),
        ("displayIcon2", text("https://media.valorant-api.com/bundles/icon2.png")),
        ("logoIcon", Json::Null),
        ("verticalPromoImage", text("https://media.valorant-api.com/bundles/promo.png")),
        ("assetPath", text("ShooterGame/Content/Bundles/Sample")),
    ])
}

fn is_decode<T>(r: &Result<T, ClientError>) -> bool {
    matches!(r, Err(ClientError::Decode(_)))
}

#[test]
fn language_codes() {
    assert_eq!(Language::EnUs.code(), "en-US");
    assert_eq!(Language::PtBr.code(), "pt-BR");
    assert_eq!(Language::ZhTw.code(), "zh-TW");
    assert_eq!(Language::ArAe.code(), "ar-AE");
}

#[test]
fn list_url_without_language_has_no_query() {
    assert_eq!(bundles_url(None), "https://valorant-api.com/v1/bundles");
}

#[test]
fn list_url_with_language() {
    let url = bundles_url(Some(Language::EnUs));
    assert_eq!(url, "https://valorant-api.com/v1/bundles?language=en-US");
    assert_eq!(url.matches("language=").count(), 1);
    assert_eq!(url.matches('?').count(), 1);
}

#[test]
fn single_url_without_language() {
    let id = ResourceId::parse(SAMPLE_ID).unwrap();
    assert_eq!(
        bundle_url(id, None),
        "https://valorant-api.com/v1/bundles/123e4567-e89b-12d3-a456-426614174000"
    );
}

#[test]
fn single_url_with_language() {
    let id = ResourceId::from_u128(0x123e4567_e89b_12d3_a456_426614174000);
    let url = bundle_url(id, Some(Language::JaJp));
    assert_eq!(
        url,
        "https://valorant-api.com/v1/bundles/123e4567-e89b-12d3-a456-426614174000?language=ja-JP"
    );
    assert_eq!(url.matches(SAMPLE_ID).count(), 1);
}

#[test]
fn identifier_renders_lowercase_hyphenated() {
    let id = ResourceId::from_u128(0xABCDEF01_2345_6789_ABCD_EF0123456789);
    assert_eq!(id.to_hyphenated(), "abcdef01-2345-6789-abcd-ef0123456789");
    assert_eq!(ResourceId::from_u128(0).to_hyphenated(), "00000000-0000-0000-0000-000000000000");
    assert_eq!(
        ResourceId::from_u128(u128::MAX).to_hyphenated(),
        "ffffffff-ffff-ffff-ffff-ffffffffffff"
    );
}

#[test]
fn identifier_parses() {
    let id = ResourceId::parse(SAMPLE_ID).unwrap();
    assert_eq!(id.value, 0x123e4567_e89b_12d3_a456_426614174000);
    let upper = ResourceId::parse("123E4567-E89B-12D3-A456-426614174000").unwrap();
    assert_eq!(upper, id);
    assert_eq!(ResourceId::parse("not-an-identifier"), None);
    assert_eq!(ResourceId::parse(""), None);
}

#[test]
fn status_text_parses() {
    assert_eq!(parse_small_uint("200"), Some(200));
    assert_eq!(parse_small_uint("0"), Some(0));
    assert_eq!(parse_small_uint("65535"), Some(65535));
    assert_eq!(parse_small_uint("65536"), None);
    assert_eq!(parse_small_uint("99999999999999999999"), None);
    assert_eq!(parse_small_uint(""), None);
    assert_eq!(parse_small_uint("-1"), None);
    assert_eq!(parse_small_uint("2.5"), None);
}

#[test]
fn member_lookup_takes_first() {
    let members = vec![
        ("a".to_string(), Json::Bool(true)),
        ("b".to_string(), Json::Null),
        ("a".to_string(), Json::Bool(false)),
    ];
    assert_eq!(get_member(&members, "a"), Some(&Json::Bool(true)));
    assert_eq!(get_member(&members, "b"), Some(&Json::Null));
    assert_eq!(get_member(&members, "c"), None);
}

#[test]
fn envelope_round_trip() {
    let payload = object(vec![("k", text("v")), ("n", Json::Number("1.5".to_string()))]);
    let body = envelope(object(vec![("k", text("v")), ("n", Json::Number("1.5".to_string()))]));
    let (status, data) = open_envelope(&body).unwrap();
    assert_eq!(status, 200);
    assert_eq!(data, &payload);
}

#[test]
fn envelope_ignores_errors_member() {
    let body = object(vec![
        ("status", Json::Number("404".to_string())),
        ("errors", Json::Array(vec![text("not found")])),
        ("data", Json::Null),
    ]);
    let (status, data) = open_envelope(&body).unwrap();
    assert_eq!(status, 404);
    assert_eq!(data, &Json::Null);
}

#[test]
fn envelope_without_data_fails() {
    let body = object(vec![("status", Json::Number("200".to_string()))]);
    assert!(is_decode(&open_envelope(&body)));
    assert!(is_decode(&decode_bundles(&body)));
    assert!(is_decode(&decode_bundle(&body)));
}

#[test]
fn envelope_with_bad_status_fails() {
    let missing = object(vec![("data", Json::Null)]);
    assert!(is_decode(&open_envelope(&missing)));
    let textual = object(vec![("status", text("200")), ("data", Json::Null)]);
    assert!(is_decode(&open_envelope(&textual)));
    assert!(is_decode(&open_envelope(&Json::Array(vec![]))));
}

#[test]
fn bundle_from_object() {
    let b = Bundle::from_json(&bundle_json(SAMPLE_ID, "Prime")).unwrap();
    assert_eq!(b.uuid, ResourceId::parse(SAMPLE_ID).unwrap());
    assert_eq!(b.display_name, "Prime");
    assert_eq!(b.display_name_sub_text, None);
    assert_eq!(b.description, "A bundle");
    assert_eq!(b.extra_description, None);
    assert_eq!(b.promo_description, Some("Limited".to_string()));
    assert!(!b.use_additional_context);
    assert_eq!(b.display_icon, "https://media.valorant-api.com/bundles/icon.png");
    assert_eq!(b.display_icon2, "https://media.valorant-api.com/bundles/icon2.png");
    assert_eq!(b.logo_icon, None);
    assert_eq!(
        b.vertical_promo_image,
        Some("https://media.valorant-api.com/bundles/promo.png".to_string())
    );
    assert_eq!(b.asset_path, "ShooterGame/Content/Bundles/Sample");
}

#[test]
fn bundle_optional_members_may_be_absent() {
    let j = object(vec![
        ("uuid", text(SAMPLE_ID)),
        ("displayName", text("Prime")),
        ("description", text("A bundle")),
        ("useAdditionalContext", Json::Bool(true)),
        ("displayIcon", text("i1")),
        ("displayIcon2", text("i2")),
        ("assetPath", text("p")),
    ]);
    let b = Bundle::from_json(&j).unwrap();
    assert_eq!(b.display_name_sub_text, None);
    assert_eq!(b.logo_icon, None);
    assert!(b.use_additional_context);
}

#[test]
fn bundle_with_wrong_members_fails() {
    let j = object(vec![("uuid", text(SAMPLE_ID)), ("displayName", text("Prime"))]);
    assert!(is_decode(&Bundle::from_json(&j)));
    let bad_id = bundle_json("zzzz", "Prime");
    assert!(is_decode(&Bundle::from_json(&bad_id)));
    let bad_name = bundle_json(SAMPLE_ID, "x");
    let Json::Object(mut members) = bad_name else { unreachable!() };
    members[1].1 = Json::Bool(true);
    assert!(is_decode(&Bundle::from_json(&Json::Object(members))));
    assert!(is_decode(&Bundle::from_json(&text("bundle"))));
}

#[test]
fn list_call_returns_data_in_order() {
    let body = envelope(Json::Array(vec![
        bundle_json(SAMPLE_ID, "First"),
        bundle_json(OTHER_ID, "Second"),
    ]));
    let bundles = decode_bundles(&body).unwrap();
    assert_eq!(bundles.len(), 2);
    assert_eq!(bundles[0].display_name, "First");
    assert_eq!(bundles[1].display_name, "Second");
    assert_eq!(bundles[1].uuid.to_hyphenated(), OTHER_ID);
}

#[test]
fn list_call_with_empty_data() {
    let body = envelope(Json::Array(vec![]));
    assert_eq!(decode_bundles(&body).unwrap(), vec![]);
}

#[test]
fn list_call_rejects_non_array_and_bad_items() {
    assert!(is_decode(&decode_bundles(&envelope(bundle_json(SAMPLE_ID, "One")))));
    let body = envelope(Json::Array(vec![bundle_json(SAMPLE_ID, "First"), Json::Null]));
    assert!(is_decode(&decode_bundle_list(&body)));
    assert!(is_decode(&decode_bundles(&body)));
}

#[test]
fn single_call_returns_data() {
    let body = envelope(bundle_json(SAMPLE_ID, "Prime"));
    let b = decode_bundle(&body).unwrap();
    assert_eq!(b, Bundle::from_json(&bundle_json(SAMPLE_ID, "Prime")).unwrap());
    assert!(is_decode(&decode_bundle(&envelope(Json::Array(vec![])))));
}

#[test]
fn transport_failure_passes_through() {
    let failed = Err(ClientError::Transport("connection refused".to_string()));
    assert_eq!(
        bundles_from_response(failed),
        Err(ClientError::Transport("connection refused".to_string()))
    );
    let failed = Err(ClientError::Transport("timed out".to_string()));
    assert_eq!(
        bundle_from_response(failed),
        Err(ClientError::Transport("timed out".to_string()))
    );
    let invalid = Err(ClientError::Decode("expected value".to_string()));
    assert_eq!(
        bundle_from_response(invalid),
        Err(ClientError::Decode("expected value".to_string()))
    );
}

#[test]
fn response_body_is_unwrapped() {
    let body = envelope(Json::Array(vec![bundle_json(SAMPLE_ID, "Only")]));
    let bundles = bundles_from_response(Ok(body)).unwrap();
    assert_eq!(bundles.len(), 1);
    assert_eq!(bundles[0].display_name, "Only");
    let one = bundle_from_response(Ok(envelope(bundle_json(OTHER_ID, "Single")))).unwrap();
    assert_eq!(one.display_name, "Single");
}
