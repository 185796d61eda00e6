//! The pet's looks and preferences (`~/.nixie/pet_settings.json`), kept apart
//! from the overlay so that more species can follow.
use vstd::prelude::*;

use crate::text::{
    ascii_lower, is_ascii_seq, is_lower_ascii, is_trimmed, lemma_ascii_lower_is_lower,
    lemma_lower_ascii_fixed, lemma_take_lower_ascii, lemma_trim_is_trimmed, lemma_trimmed_fixed,
    lowercase, take_chars, take_seq, text_eq, to_lowercase, trim, trim_seq,
};

verus! {

pub const SCHEMA_VERSION: u32 = 1;

/// Longest name kept, in characters.
pub const NAME_MAX_CHARS: usize = 64;

/// Longest breed kept, in characters.
pub const BREED_MAX_CHARS: usize = 48;

#[derive(Debug, Clone, PartialEq)]
pub struct PetSettings {
    pub schema_version: u32,
    /// Display name (for signing bubbles later on).
    pub name: String,
    /// `normal` | `small` | `mini`: scales the pig and its trail only.
    pub body_size: String,
    /// UI language: `zh` | `en` | `ja` | `binary` (`binary` shows the zh texts).
    pub locale: String,
    /// Species key, for more animals later: `virtual_pig` and so on.
    pub breed: String,
}

pub struct PetSettingsView {
    pub schema_version: u32,
    pub name: Seq<char>,
    pub body_size: Seq<char>,
    pub locale: Seq<char>,
    pub breed: Seq<char>,
}

impl View for PetSettings {
    type V = PetSettingsView;

    open spec fn view(&self) -> PetSettingsView {
        PetSettingsView {
            schema_version: self.schema_version,
            name: self.name@,
            body_size: self.body_size@,
            locale: self.locale@,
            breed: self.breed@,
        }
    }
}

pub fn schema_v1() -> (r: u32)
    ensures
        r == SCHEMA_VERSION,
{
    SCHEMA_VERSION
}

pub fn default_name() -> (r: String)
    ensures
        r@ == "OINKER_01"@,
{
    "OINKER_01".to_string()
}

pub fn default_locale() -> (r: String)
    ensures
        r@ == "zh"@,
{
    "zh".to_string()
}

pub fn default_breed() -> (r: String)
    ensures
        r@ == "virtual_pig"@,
{
    "virtual_pig".to_string()
}

pub open spec fn default_settings() -> PetSettingsView {
    PetSettingsView {
        schema_version: SCHEMA_VERSION,
        name: "OINKER_01"@,
        body_size: "normal"@,
        locale: "zh"@,
        breed: "virtual_pig"@,
    }
}

impl Default for PetSettings {
    fn default() -> (r: Self)
        ensures
            r@ == default_settings(),
    {
        PetSettings {
            schema_version: SCHEMA_VERSION,
            name: default_name(),
            body_size: "normal".to_string(),
            locale: default_locale(),
            breed: default_breed(),
        }
    }
}

pub open spec fn is_body_size(s: Seq<char>) -> bool {
    s == "small"@ || s == "mini"@ || s == "normal"@
}

pub open spec fn is_locale(s: Seq<char>) -> bool {
    s == "en"@ || s == "ja"@ || s == "binary"@ || s == "zh"@
}

/// The language the UI runs in: `en` and `ja` as set, everything else `zh`.
pub open spec fn effective_locale_spec(locale: Seq<char>) -> Seq<char> {
    if locale == "en"@ {
        "en"@
    } else if locale == "ja"@ {
        "ja"@
    } else {
        "zh"@
    }
}

/// The body size kept for a lowercased value: itself where known, else `normal`.
pub open spec fn body_size_choice(lower: Seq<char>) -> Seq<char> {
    if is_body_size(lower) {
        lower
    } else {
        "normal"@
    }
}

/// The locale kept for a lowercased value: itself where known, else `zh`.
pub open spec fn locale_choice(lower: Seq<char>) -> Seq<char> {
    if is_locale(lower) {
        lower
    } else {
        "zh"@
    }
}

/// The breed kept for a lowercased value: its first 48 characters, or the
/// default breed where it is empty.
pub open spec fn breed_choice(lower: Seq<char>) -> Seq<char> {
    if lower.len() == 0 {
        "virtual_pig"@
    } else {
        take_seq(lower, BREED_MAX_CHARS as nat)
    }
}

/// The name kept: trimmed and cut to 64 characters, or the default name where
/// nothing is left.
pub open spec fn name_choice(name: Seq<char>) -> Seq<char> {
    let n = take_seq(trim_seq(name), NAME_MAX_CHARS as nat);
    if n.len() == 0 {
        "OINKER_01"@
    } else {
        n
    }
}

/// Settings made safe to use: the name trimmed and cut to 64 characters (the
/// default name where nothing is left); size and locale lowercased and, where
/// unknown, replaced by `normal` and `zh`; the breed lowercased and cut to 48
/// characters (the default breed where empty).
pub open spec fn sanitized_spec(s: PetSettingsView) -> PetSettingsView {
    PetSettingsView {
        schema_version: s.schema_version,
        name: name_choice(s.name),
        body_size: body_size_choice(lowercase(s.body_size)),
        locale: locale_choice(lowercase(s.locale)),
        breed: breed_choice(lowercase(s.breed)),
    }
}

/// Settings as `sanitized` leaves them: a trimmed name of 1 to 64 characters,
/// a known size and locale, and a breed of 1 to 48 lowercase ASCII characters.
pub open spec fn is_clean(s: PetSettingsView) -> bool {
    &&& is_trimmed(s.name)
    &&& 0 < s.name.len() <= NAME_MAX_CHARS
    &&& is_body_size(s.body_size)
    &&& is_locale(s.locale)
    &&& is_lower_ascii(s.breed)
    &&& 0 < s.breed.len() <= BREED_MAX_CHARS
}

/// The values that sanitizing can write are lowercase ASCII, and the default
/// name is trimmed.
proof fn lemma_written_values()
    ensures
        is_lower_ascii("small"@),
        is_lower_ascii("mini"@),
        is_lower_ascii("normal"@),
        is_lower_ascii("en"@),
        is_lower_ascii("ja"@),
        is_lower_ascii("binary"@),
        is_lower_ascii("zh"@),
        is_lower_ascii("virtual_pig"@),
        "virtual_pig"@.len() == 11,
        is_trimmed("OINKER_01"@),
        "OINKER_01"@.len() == 9,
{
    reveal_strlit("small");
    reveal_strlit("mini");
    reveal_strlit("normal");
    reveal_strlit("en");
    reveal_strlit("ja");
    reveal_strlit("binary");
    reveal_strlit("zh");
    reveal_strlit("virtual_pig");
    reveal_strlit("OINKER_01");
}

/// The body size to keep, given the value already lowercased.
pub fn body_size_from_lowercase(lower: String) -> (r: String)
    ensures
        r@ == body_size_choice(lower@),
{
    if text_eq(lower.as_str(), "small") || text_eq(lower.as_str(), "mini") || text_eq(
        lower.as_str(),
        "normal",
    ) {
        lower
    } else {
        "normal".to_string()
    }
}

/// The locale to keep, given the value already lowercased.
pub fn locale_from_lowercase(lower: String) -> (r: String)
    ensures
        r@ == locale_choice(lower@),
{
    if text_eq(lower.as_str(), "en") || text_eq(lower.as_str(), "ja") || text_eq(
        lower.as_str(),
        "binary",
    ) || text_eq(lower.as_str(), "zh") {
        lower
    } else {
        "zh".to_string()
    }
}

/// The breed to keep, given the value already lowercased.
pub fn breed_from_lowercase(lower: &str) -> (r: String)
    ensures
        r@ == breed_choice(lower@),
{
    if lower.is_empty() {
        default_breed()
    } else {
        take_chars(lower, BREED_MAX_CHARS).to_string()
    }
}

/// The fields that the settings form sends.
pub struct PetSettingsPatch {
    pub name: String,
    pub body_size: String,
    pub locale: String,
    pub breed: String,
}

impl PetSettings {
    pub fn effective_locale(&self) -> (r: &'static str)
        ensures
            r@ == effective_locale_spec(self.locale@),
    {
        let loc = self.locale.as_str();
        if text_eq(loc, "en") {
            "en"
        } else if text_eq(loc, "ja") {
            "ja"
        } else {
            "zh"
        }
    }

    /// These settings made safe to use (`sanitized_spec`). Sanitizing again
    /// changes nothing where the trimmed name fits in 64 characters and the
    /// breed is ASCII: the result is then clean, and clean settings come back
    /// as they are.
    pub fn sanitized(self) -> (r: Self)
        ensures
            r@ == sanitized_spec(self@),
            is_clean(self@) ==> r@ == self@,
            trim_seq(self.name@).len() <= NAME_MAX_CHARS && is_ascii_seq(self.breed@) ==> is_clean(
                r@,
            ),
    {
        proof {
            lemma_written_values();
            lemma_trim_is_trimmed(self.name@);
            if is_clean(self@) {
                lemma_trimmed_fixed(self.name@);
                lemma_lower_ascii_fixed(self.body_size@);
                lemma_lower_ascii_fixed(self.locale@);
                lemma_lower_ascii_fixed(self.breed@);
            }
        }
        let ghost old_breed = self.breed@;
        let mut s = self;
        let name = take_chars(trim(s.name.as_str()), NAME_MAX_CHARS).to_string();
        s.name = if name.as_str().is_empty() {
            default_name()
        } else {
            name
        };
        s.body_size = body_size_from_lowercase(to_lowercase(s.body_size.as_str()));
        s.locale = locale_from_lowercase(to_lowercase(s.locale.as_str()));
        let br = to_lowercase(s.breed.as_str());
        proof {
            if is_ascii_seq(old_breed) {
                lemma_ascii_lower_is_lower(old_breed);
                lemma_take_lower_ascii(br@, BREED_MAX_CHARS as nat);
            }
        }
        s.breed = breed_from_lowercase(br.as_str());
        s
    }

    /// These settings with the form's fields laid over them, at the current
    /// schema version, sanitized.
    pub fn with_form(self, patch: PetSettingsPatch) -> (r: Self)
        ensures
            r@ == sanitized_spec(
                PetSettingsView {
                    schema_version: SCHEMA_VERSION,
                    name: patch.name@,
                    body_size: patch.body_size@,
                    locale: patch.locale@,
                    breed: patch.breed@,
                },
            ),
    {
        let mut s = self;
        s.name = patch.name;
        s.body_size = patch.body_size;
        s.locale = patch.locale;
        s.breed = patch.breed;
        s.schema_version = SCHEMA_VERSION;
        s.sanitized()
    }
}

/// Sanitized settings are always usable: a name of 1 to 64 characters, a known
/// size and locale, and a breed of 1 to 48 characters.
pub proof fn law_sanitized_settings_are_valid(s: PetSettingsView)
    ensures
        0 < sanitized_spec(s).name.len() <= NAME_MAX_CHARS,
        is_body_size(sanitized_spec(s).body_size),
        is_locale(sanitized_spec(s).locale),
        0 < sanitized_spec(s).breed.len() <= BREED_MAX_CHARS,
        sanitized_spec(s).schema_version == s.schema_version,
{
    reveal_strlit("OINKER_01");
    reveal_strlit("virtual_pig");
    assert("OINKER_01"@.len() == 9);
    assert("virtual_pig"@.len() == 11);
}

/// The running locale is always one the UI ships: `en`, `ja` or `zh`.
pub proof fn law_effective_locale_is_shipped(locale: Seq<char>)
    ensures
        effective_locale_spec(locale) == "en"@ || effective_locale_spec(locale) == "ja"@
            || effective_locale_spec(locale) == "zh"@,
{
}

} // verus!
