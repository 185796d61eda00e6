use nixie::pet_settings::{
    body_size_from_lowercase, breed_from_lowercase, default_breed, default_locale, default_name,
    locale_from_lowercase, schema_v1, PetSettings, PetSettingsPatch,
};

fn settings(name: &str, size: &str, locale: &str, breed: &str) -> PetSettings {
    PetSettings {
        schema_version: 1,
        name: name.to_string(),
        body_size: size.to_string(),
        locale: locale.to_string(),
        breed: breed.to_string(),
    }
}

#[test]
fn defaults() {
    let d = PetSettings::default();
    assert_eq!(d, settings("OINKER_01", "normal", "zh", "virtual_pig"));
    assert_eq!(schema_v1(), 1);
    assert_eq!(default_name(), "OINKER_01");
    assert_eq!(default_locale(), "zh");
    assert_eq!(default_breed(), "virtual_pig");
}

#[test]
fn effective_locales() {
    assert_eq!(settings("a", "normal", "en", "b").effective_locale(), "en");
    assert_eq!(settings("a", "normal", "ja", "b").effective_locale(), "ja");
    assert_eq!(settings("a", "normal", "binary", "b").effective_locale(), "zh");
    assert_eq!(settings("a", "normal", "fr", "b").effective_locale(), "zh");
}

#[test]
fn sanitizing() {
    let s = settings("  Piggy \t", "SMALL", "EN", "Cat").sanitized();
    assert_eq!(s, settings("Piggy", "small", "en", "cat"));
    let s = settings(" \n ", "huge", "fr", "").sanitized();
    assert_eq!(s, settings("OINKER_01", "normal", "zh", "virtual_pig"));
    let long: String = "x".repeat(70);
    let s = settings(&long, "Mini", "Binary", &"B".repeat(60)).sanitized();
    assert_eq!(s.name, "x".repeat(64));
    assert_eq!(s.body_size, "mini");
    assert_eq!(s.locale, "binary");
    assert_eq!(s.breed, "b".repeat(48));
    let s = settings("\u{3000}小猪\u{3000}", "normal", "zh", "猪").sanitized();
    assert_eq!(s.name, "小猪");
    assert_eq!(s.breed, "猪");
}

#[test]
fn form_updates_settings() {
    let patch = PetSettingsPatch {
        name: " Nix ".to_string(),
        body_size: "Small".to_string(),
        locale: "ja".to_string(),
        breed: "virtual_pig".to_string(),
    };
    let mut base = PetSettings::default();
    base.schema_version = 0;
    let s = base.with_form(patch);
    assert_eq!(s, settings("Nix", "small", "ja", "virtual_pig"));
}

#[test]
fn sanitizing_twice_changes_nothing() {
    for s in [
        settings("  Piggy \t", "SMALL", "EN", "Cat"),
        settings(" \n ", "huge", "fr", ""),
        settings(&"n".repeat(64), "Mini", "Binary", &"B".repeat(60)),
    ] {
        let once = s.sanitized();
        assert_eq!(once.clone().sanitized(), once);
    }
    // A trimmed name longer than 64 characters can end in a space once cut.
    let cut = settings(&format!("{} {}", "a".repeat(63), "bbbbb"), "normal", "zh", "pig").sanitized();
    assert_eq!(cut.name, format!("{} ", "a".repeat(63)));
    assert_eq!(cut.clone().sanitized().name, "a".repeat(63));
}

#[test]
fn choices_from_lowercased_values() {
    assert_eq!(body_size_from_lowercase("mini".to_string()), "mini");
    assert_eq!(body_size_from_lowercase("MINI".to_string()), "normal");
    assert_eq!(locale_from_lowercase("binary".to_string()), "binary");
    assert_eq!(locale_from_lowercase("fr".to_string()), "zh");
    assert_eq!(breed_from_lowercase(""), "virtual_pig");
    assert_eq!(breed_from_lowercase(&"x".repeat(50)), "x".repeat(48));
}
