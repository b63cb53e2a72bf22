use vstd::prelude::*;

verus! {

/// The languages in which the API can return localized text.
#[derive(Clone, Copy, Debug, PartialEq, Eq, Hash)]
pub enum Language {
    ArAe,
    DeDe,
    EnUs,
    EsEs,
    EsMx,
    FrFr,
    IdId,
    ItIt,
    JaJp,
    KoKr,
    PlPl,
    PtBr,
    RuRu,
    ThTh,
    TrTr,
    ViVn,
    ZhCn,
    ZhTw,
}

impl Language {
    /// The locale code that the API expects for this language.
    pub open spec fn spec_code(self) -> Seq<char> {
        match self {
            Language::ArAe => "ar-AE"@,
            Language::DeDe => "de-DE"@,
            Language::EnUs => "en-US"@,
            Language::EsEs => "es-ES"@,
            Language::EsMx => "es-MX"@,
            Language::FrFr => "fr-FR"@,
            Language::IdId => "id-ID"@,
            Language::ItIt => "it-IT"@,
            Language::JaJp => "ja-JP"@,
            Language::KoKr => "ko-KR"@,
            Language::PlPl => "pl-PL"@,
            Language::PtBr => "pt-BR"@,
            Language::RuRu => "ru-RU"@,
            Language::ThTh => "th-TH"@,
            Language::TrTr => "tr-TR"@,
            Language::ViVn => "vi-VN"@,
            Language::ZhCn => "zh-CN"@,
            Language::ZhTw => "zh-TW"@,
        }
    }

    /// The locale code of this language, as it appears in a query string.
    pub fn code(&self) -> (r: &'static str)
        ensures
            r@ == self.spec_code(),
    {
        match self {
            Language::ArAe => "ar-AE",
            Language::DeDe => "de-DE",
            Language::EnUs => "en-US",
            Language::EsEs => "es-ES",
            Language::EsMx => "es-MX",
            Language::FrFr => "fr-FR",
            Language::IdId => "id-ID",
            Language::ItIt => "it-IT",
            Language::JaJp => "ja-JP",
            Language::KoKr => "ko-KR",
            Language::PlPl => "pl-PL",
            Language::PtBr => "pt-BR",
            Language::RuRu => "ru-RU",
            Language::ThTh => "th-TH",
            Language::TrTr => "tr-TR",
            Language::ViVn => "vi-VN",
            Language::ZhCn => "zh-CN",
            Language::ZhTw => "zh-TW",
        }
    }
}

} // verus!
