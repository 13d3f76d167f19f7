use figshare_rs::ids::{ArticleId, CategoryId, Doi, DoiError, FileId, LicenseId};
use figshare_rs::wire::{u64ish_from_i64, u64ish_from_str};

#[test]
fn doi_round_trips_through_display_and_parse() {
    let doi: Doi = "10.6084/m9.figshare.123".parse().unwrap();
    assert_eq!(doi.as_str(), "10.6084/m9.figshare.123");
    assert_eq!(doi.to_display_string(), "10.6084/m9.figshare.123");
}

#[test]
fn doi_normalization_trims_prefixes_and_case() {
    assert_eq!(Doi::new("  HTTPS://DOI.ORG/10.6084/M9.FIGSHARE.123  ").unwrap().as_str(), "10.6084/m9.figshare.123");
    assert_eq!(Doi::new("doi:10.6084/M9.FIGSHARE.456").unwrap().as_str(), "10.6084/m9.figshare.456");
}

#[test]
fn doi_validation_rejects_empty_or_invalid_values() {
    assert_eq!(Doi::new("  ").unwrap_err(), DoiError::Empty);
    assert!(matches!(
        Doi::new("figshare.123").unwrap_err(),
        DoiError::Invalid(value) if value == "figshare.123"
    ));
}

#[test]
fn normalizing_a_doi_twice_changes_nothing() {
    let once = Doi::new(" https://dx.doi.org/10.1000/ABC ").unwrap();
    let twice = Doi::new(once.as_str()).unwrap();
    assert_eq!(once, twice);
    assert_eq!(twice.as_str(), "10.1000/abc");
}

#[test]
fn doi_needs_registrant_and_suffix() {
    assert!(matches!(Doi::new("10./x"), Err(DoiError::Invalid(_))));
    assert!(matches!(Doi::new("10.123/"), Err(DoiError::Invalid(_))));
    assert!(matches!(Doi::new("11.123/x"), Err(DoiError::Invalid(_))));
    assert!(Doi::new("10.1/x").is_ok());
}

#[test]
fn doi_non_ascii_input_is_judged_by_characters() {
    assert_eq!(Doi::new("abc€/x"), Err(DoiError::Invalid("abc€/x".to_string())));
    assert!(matches!("aéé".parse::<Doi>(), Err(DoiError::Invalid(value)) if value == "aéé"));
    assert!(matches!(Doi::new("é"), Err(DoiError::Invalid(_))));
    let doi = Doi::new(" DOI:10.€/X ").unwrap();
    assert_eq!(doi.as_str(), "10.€/x");
    assert_eq!(Doi::new(doi.as_str()), Ok(doi.clone()));
    assert_eq!(doi.as_str().parse::<Doi>(), Ok(doi));
}

/// Reads a numeric identifier from JSON text: strings and integers through the
/// library's wire rules, integral floats through their decimal text.
fn id_from_json(text: &str) -> u64 {
    match serde_json::from_str::<serde_json::Value>(text).unwrap() {
        serde_json::Value::String(s) => u64ish_from_str(&s).unwrap(),
        serde_json::Value::Number(n) => match (n.as_u64(), n.as_i64(), n.as_f64()) {
            (Some(u), _, _) => u,
            (None, Some(i), _) => u64ish_from_i64(i).unwrap(),
            (None, None, Some(f)) => u64ish_from_str(&f.to_string()).unwrap(),
            _ => panic!("not a number"),
        },
        other => panic!("not an identifier: {other:?}"),
    }
}

#[test]
fn numeric_ids_deserialize_from_strings_and_numbers() {
    let article = ArticleId(id_from_json("\"12\""));
    let file = FileId(id_from_json("13"));
    let category = CategoryId(id_from_json("\"14\""));
    let license = LicenseId(id_from_json("15.0"));

    assert_eq!(article.0, 12);
    assert_eq!(file.0, 13);
    assert_eq!(category.0, 14);
    assert_eq!(license.0, 15);
}
