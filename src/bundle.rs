use vstd::prelude::*;
use crate::envelope::{ClientError, open_envelope, spec_envelope};
use crate::json::{Json, member, get_member, spec_small_uint};
use crate::resource_id::{ResourceId, parsed_uuid};

verus! {

/// A bundle of cosmetic items, as the API describes it.
#[derive(Debug, PartialEq, Eq)]
pub struct Bundle {
    pub uuid: ResourceId,
    pub display_name: String,
    pub display_name_sub_text: Option<String>,
    pub description: String,
    pub extra_description: Option<String>,
    pub promo_description: Option<String>,
    pub use_additional_context: bool,
    pub display_icon: String,
    pub display_icon2: String,
    pub logo_icon: Option<String>,
    pub vertical_promo_image: Option<String>,
    pub asset_path: String,
}

/// A bundle as mathematical values.
pub struct BundleView {
    pub uuid: u128,
    pub display_name: Seq<char>,
    pub display_name_sub_text: Option<Seq<char>>,
    pub description: Seq<char>,
    pub extra_description: Option<Seq<char>>,
    pub promo_description: Option<Seq<char>>,
    pub use_additional_context: bool,
    pub display_icon: Seq<char>,
    pub display_icon2: Seq<char>,
    pub logo_icon: Option<Seq<char>>,
    pub vertical_promo_image: Option<Seq<char>>,
    pub asset_path: Seq<char>,
}

pub open spec fn opt_text(o: Option<String>) -> Option<Seq<char>> {
    match o {
        Some(s) => Some(s@),
        None => None,
    }
}

impl View for Bundle {
    type V = BundleView;

    open spec fn view(&self) -> BundleView {
        BundleView {
            uuid: self.uuid.value,
            display_name: self.display_name@,
            display_name_sub_text: opt_text(self.display_name_sub_text),
            description: self.description@,
            extra_description: opt_text(self.extra_description),
            promo_description: opt_text(self.promo_description),
            use_additional_context: self.use_additional_context,
            display_icon: self.display_icon@,
            display_icon2: self.display_icon2@,
            logo_icon: opt_text(self.logo_icon),
            vertical_promo_image: opt_text(self.vertical_promo_image),
            asset_path: self.asset_path@,
        }
    }
}

/// A required text member: its text, or `None` where it is missing or no string.
pub open spec fn text_member(fields: Seq<(String, Json)>, key: Seq<char>) -> Option<Seq<char>> {
    match member(fields, key) {
        Some(Json::Str(s)) => Some(s@),
        _ => None,
    }
}

/// An optional text member: `Some(None)` where it is missing or `null`,
/// `Some(Some(text))` for a string, and `None` for any other value.
pub open spec fn optional_text_member(fields: Seq<(String, Json)>, key: Seq<char>) -> Option<
    Option<Seq<char>>,
> {
    match member(fields, key) {
        None => Some(None),
        Some(Json::Null) => Some(None),
        Some(Json::Str(s)) => Some(Some(s@)),
        _ => None,
    }
}

/// A required boolean member.
pub open spec fn bool_member(fields: Seq<(String, Json)>, key: Seq<char>) -> Option<bool> {
    match member(fields, key) {
        Some(Json::Bool(b)) => Some(b),
        _ => None,
    }
}

/// A required identifier member, written as a string that reads as an identifier.
pub open spec fn id_member(fields: Seq<(String, Json)>, key: Seq<char>) -> Option<u128> {
    match text_member(fields, key) {
        Some(t) => parsed_uuid(t),
        None => None,
    }
}

/// The bundle that a JSON value describes, or `None` where a member is
/// missing or of the wrong kind. Members not listed here are ignored.
pub open spec fn spec_bundle(j: Json) -> Option<BundleView> {
    match j {
        Json::Object(f) => {
            let f = f@;
            if id_member(f, "uuid"@) is Some
                && text_member(f, "displayName"@) is Some
                && optional_text_member(f, "displayNameSubText"@) is Some
                && text_member(f, "description"@) is Some
                && optional_text_member(f, "extraDescription"@) is Some
                && optional_text_member(f, "promoDescription"@) is Some
                && bool_member(f, "useAdditionalContext"@) is Some
                && text_member(f, "displayIcon"@) is Some
                && text_member(f, "displayIcon2"@) is Some
                && optional_text_member(f, "logoIcon"@) is Some
                && optional_text_member(f, "verticalPromoImage"@) is Some
                && text_member(f, "assetPath"@) is Some {
                Some(
                    BundleView {
                        uuid: id_member(f, "uuid"@)->Some_0,
                        display_name: text_member(f, "displayName"@)->Some_0,
                        display_name_sub_text: optional_text_member(f, "displayNameSubText"@)->Some_0,
                        description: text_member(f, "description"@)->Some_0,
                        extra_description: optional_text_member(f, "extraDescription"@)->Some_0,
                        promo_description: optional_text_member(f, "promoDescription"@)->Some_0,
                        use_additional_context: bool_member(f, "useAdditionalContext"@)->Some_0,
                        display_icon: text_member(f, "displayIcon"@)->Some_0,
                        display_icon2: text_member(f, "displayIcon2"@)->Some_0,
                        logo_icon: optional_text_member(f, "logoIcon"@)->Some_0,
                        vertical_promo_image: optional_text_member(f, "verticalPromoImage"@)->Some_0,
                        asset_path: text_member(f, "assetPath"@)->Some_0,
                    },
                )
            } else {
                None
            }
        },
        _ => None,
    }
}

fn field_error(what: &str, key: &str) -> (e: ClientError)
    ensures
        e is Decode,
{
    let mut m = String::from_str(what);
    m.append(key);
    ClientError::Decode(m)
}

fn text_field(fields: &Vec<(String, Json)>, key: &str) -> (r: Result<String, ClientError>)
    ensures
        match r {
            Ok(s) => text_member(fields@, key@) == Some(s@),
            Err(e) => text_member(fields@, key@) is None && e is Decode,
        },
{
    match get_member(fields, key) {
        Some(Json::Str(s)) => Ok(s.clone()),
        _ => Err(field_error("missing field or not a string: ", key)),
    }
}

fn optional_text_field(fields: &Vec<(String, Json)>, key: &str) -> (r: Result<Option<String>, ClientError>)
    ensures
        match r {
            Ok(o) => optional_text_member(fields@, key@) == Some(opt_text(o)),
            Err(e) => optional_text_member(fields@, key@) is None && e is Decode,
        },
{
    match get_member(fields, key) {
        None => Ok(None),
        Some(Json::Null) => Ok(None),
        Some(Json::Str(s)) => Ok(Some(s.clone())),
        _ => Err(field_error("field is neither a string nor null: ", key)),
    }
}

fn bool_field(fields: &Vec<(String, Json)>, key: &str) -> (r: Result<bool, ClientError>)
    ensures
        match r {
            Ok(b) => bool_member(fields@, key@) == Some(b),
            Err(e) => bool_member(fields@, key@) is None && e is Decode,
        },
{
    match get_member(fields, key) {
        Some(Json::Bool(b)) => Ok(*b),
        _ => Err(field_error("missing field or not a boolean: ", key)),
    }
}

fn id_field(fields: &Vec<(String, Json)>, key: &str) -> (r: Result<ResourceId, ClientError>)
    ensures
        match r {
            Ok(id) => id_member(fields@, key@) == Some(id.value),
            Err(e) => id_member(fields@, key@) is None && e is Decode,
        },
{
    let text = text_field(fields, key)?;
    match ResourceId::parse(text.as_str()) {
        Some(id) => Ok(id),
        None => Err(field_error("field is not an identifier: ", key)),
    }
}

impl Bundle {
    /// Reads a bundle from the JSON object that describes it.
    pub fn from_json(j: &Json) -> (r: Result<Bundle, ClientError>)
        ensures
            match r {
                Ok(b) => spec_bundle(*j) == Some(b@),
                Err(e) => spec_bundle(*j) is None && e is Decode,
            },
    {
        let f = match j {
            Json::Object(f) => f,
            _ => {
                return Err(ClientError::Decode(String::from_str("a bundle is not a JSON object")));
            },
        };
        let uuid = id_field(f, "uuid")?;
        let display_name = text_field(f, "displayName")?;
        let display_name_sub_text = optional_text_field(f, "displayNameSubText")?;
        let description = text_field(f, "description")?;
        let extra_description = optional_text_field(f, "extraDescription")?;
        let promo_description = optional_text_field(f, "promoDescription")?;
        let use_additional_context = bool_field(f, "useAdditionalContext")?;
        let display_icon = text_field(f, "displayIcon")?;
        let display_icon2 = text_field(f, "displayIcon2")?;
        let logo_icon = optional_text_field(f, "logoIcon")?;
        let vertical_promo_image = optional_text_field(f, "verticalPromoImage")?;
        let asset_path = text_field(f, "assetPath")?;
        Ok(
            Bundle {
                uuid,
                display_name,
                display_name_sub_text,
                description,
                extra_description,
                promo_description,
                use_additional_context,
                display_icon,
                display_icon2,
                logo_icon,
                vertical_promo_image,
                asset_path,
            },
        )
    }
}

/// The views of a sequence of bundles, in order.
pub open spec fn views(bs: Seq<Bundle>) -> Seq<BundleView> {
    bs.map_values(|b: Bundle| b@)
}

/// Every item of the JSON array `j` describes a bundle.
pub open spec fn bundle_list_decodes(j: Json) -> bool {
    j matches Json::Array(items) && forall|i: int|
        0 <= i < items@.len() ==> (#[trigger] spec_bundle(items@[i])) is Some
}

/// `bs` are the bundles that the items of the JSON array `j` describe, in
/// the array's order.
pub open spec fn bundle_list_is(j: Json, bs: Seq<BundleView>) -> bool {
    j matches Json::Array(items) && items@.len() == bs.len() && forall|i: int|
        0 <= i < bs.len() ==> #[trigger] spec_bundle(items@[i]) == Some(bs[i])
}

/// Reads the bundles of a JSON array, keeping their order.
pub fn decode_bundle_list(j: &Json) -> (r: Result<Vec<Bundle>, ClientError>)
    ensures
        match r {
            Ok(v) => bundle_list_is(*j, views(v@)),
            Err(e) => !bundle_list_decodes(*j) && e is Decode,
        },
{
    let items = match j {
        Json::Array(items) => items,
        _ => {
            return Err(ClientError::Decode(String::from_str("the payload is not a JSON array")));
        },
    };
    let mut out: Vec<Bundle> = Vec::new();
    let n = items.len();
    let mut i: usize = 0;
    while i < n
        invariant
            n == items@.len(),
            *j == Json::Array(*items),
            0 <= i <= n,
            out@.len() == i,
            forall|k: int| 0 <= k < i ==> #[trigger] spec_bundle(items@[k]) == Some(out@[k]@),
        decreases n - i,
    {
        match Bundle::from_json(&items[i]) {
            Ok(b) => out.push(b),
            Err(e) => {
                assert(spec_bundle(items@[i as int]) is None);
                return Err(e);
            },
        }
        i = i + 1;
    }
    proof {
        assert forall|k: int| 0 <= k < n implies #[trigger] spec_bundle(items@[k]) == Some(views(out@)[k]) by {}
    }
    Ok(out)
}

/// What a bundle-list call returns for a received body: the bundles of the
/// envelope's payload, or a decode error where the body has no such payload.
pub open spec fn bundles_outcome(body: Json, r: Result<Vec<Bundle>, ClientError>) -> bool {
    match r {
        Ok(v) => spec_envelope(body) matches Some((_, d)) && bundle_list_is(d, views(v@)),
        Err(e) => e is Decode && !(spec_envelope(body) matches Some((_, d)) && bundle_list_decodes(d)),
    }
}

/// What a single-bundle call returns for a received body: the bundle of the
/// envelope's payload, or a decode error where the body has no such payload.
pub open spec fn bundle_outcome(body: Json, r: Result<Bundle, ClientError>) -> bool {
    match r {
        Ok(b) => spec_envelope(body) matches Some((_, d)) && spec_bundle(d) == Some(b@),
        Err(e) => e is Decode && !(spec_envelope(body) matches Some((_, d)) && spec_bundle(d) is Some),
    }
}

/// Unwraps the response body of the bundle-list endpoint.
pub fn decode_bundles(body: &Json) -> (r: Result<Vec<Bundle>, ClientError>)
    ensures
        bundles_outcome(*body, r),
{
    let (_, data) = open_envelope(body)?;
    decode_bundle_list(data)
}

/// Unwraps the response body of the single-bundle endpoint.
pub fn decode_bundle(body: &Json) -> (r: Result<Bundle, ClientError>)
    ensures
        bundle_outcome(*body, r),
{
    let (_, data) = open_envelope(body)?;
    Bundle::from_json(data)
}

/// The result of a bundle-list call from the one exchange it made: a
/// failure to obtain the body is handed back unchanged, with no second try;
/// a body is unwrapped.
pub fn bundles_from_response(received: Result<Json, ClientError>) -> (r: Result<Vec<Bundle>, ClientError>)
    ensures
        match received {
            Err(e) => r == Err::<Vec<Bundle>, ClientError>(e),
            Ok(body) => bundles_outcome(body, r),
        },
{
    match received {
        Err(e) => Err(e),
        Ok(body) => decode_bundles(&body),
    }
}

/// The result of a single-bundle call from the one exchange it made: a
/// failure to obtain the body is handed back unchanged, with no second try;
/// a body is unwrapped.
pub fn bundle_from_response(received: Result<Json, ClientError>) -> (r: Result<Bundle, ClientError>)
    ensures
        match received {
            Err(e) => r == Err::<Bundle, ClientError>(e),
            Ok(body) => bundle_outcome(body, r),
        },
{
    match received {
        Err(e) => Err(e),
        Ok(body) => decode_bundle(&body),
    }
}

/// Decoding a well-formed envelope `{"status": s, "data": p}` reads exactly
/// the embedded payload `p`: the single-bundle call succeeds precisely when
/// `p` describes a bundle, and then returns that bundle; the list call
/// succeeds precisely when `p` is an array of bundles, and returns them in order.
pub proof fn lemma_payload_decoded(
    body: Json,
    status_key: String,
    status_text: String,
    data_key: String,
    payload: Json,
    one: Result<Bundle, ClientError>,
    list: Result<Vec<Bundle>, ClientError>,
)
    requires
        status_key@ == "status"@,
        data_key@ == "data"@,
        spec_small_uint(status_text@) is Some,
        body matches Json::Object(fields) && fields@ == seq![
            (status_key, Json::Number(status_text)),
            (data_key, payload),
        ],
        bundle_outcome(body, one),
        bundles_outcome(body, list),
    ensures
        one is Ok <==> spec_bundle(payload) is Some,
        one matches Ok(b) ==> spec_bundle(payload) == Some(b@),
        list is Ok <==> bundle_list_decodes(payload),
        list matches Ok(v) ==> bundle_list_is(payload, views(v@)),
{
    crate::envelope::lemma_envelope_round_trip(body, status_key, status_text, data_key, payload);
}

/// A body without a `data` member, such as `{"status": 200}`, makes both
/// calls fail with a decode error rather than return an empty or default value.
pub proof fn lemma_missing_data_fails(
    body: Json,
    one: Result<Bundle, ClientError>,
    list: Result<Vec<Bundle>, ClientError>,
)
    requires
        body matches Json::Object(fields) && member(fields@, "data"@) is None,
        bundle_outcome(body, one),
        bundles_outcome(body, list),
    ensures
        one matches Err(e) && e is Decode,
        list matches Err(e) && e is Decode,
{
    crate::envelope::lemma_missing_data_refused(body);
}

} // verus!
