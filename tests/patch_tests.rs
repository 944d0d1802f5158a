use intent_engine::intent::{
    AcademicField, CitationClass, EtAlConfig, FieldPatch, IntentField, NameForm, NameOptions,
    StyleIntent,
};
use intent_engine::patch::{PatchEntry, PatchValue, ValidationError};

fn entry(key: &str, value: PatchValue) -> PatchEntry {
    PatchEntry { key: key.to_string(), value }
}

fn text(s: &str) -> PatchValue {
    PatchValue::Text(s.to_string())
}

#[test]
fn unknown_key_is_ignored() {
    let r = FieldPatch::from_entry(&entry("colour", text("blue")));
    assert!(matches!(r, Ok(None)));
}

#[test]
fn wrong_shape_is_rejected() {
    let r = FieldPatch::from_entry(&entry("has_bibliography", text("yes")));
    assert!(matches!(r, Err(ValidationError::UnexpectedValue(IntentField::HasBibliography))));
    let r = FieldPatch::from_entry(&entry("field", text("astrology")));
    assert!(matches!(r, Err(ValidationError::UnexpectedValue(IntentField::Field))));
    let r = FieldPatch::from_entry(&entry("class", PatchValue::Null));
    assert!(matches!(r, Err(ValidationError::UnexpectedValue(IntentField::Class))));
}

#[test]
fn entries_decode_to_typed_patches() {
    let r = FieldPatch::from_entry(&entry("class", text("author_date")));
    assert!(matches!(r, Ok(Some(FieldPatch::Class(CitationClass::AuthorDate)))));
    let r = FieldPatch::from_entry(&entry("field", text("social_science")));
    assert!(matches!(r, Ok(Some(FieldPatch::Field(AcademicField::SocialScience)))));
}

#[test]
fn merge_entries_applies_all_in_order() {
    let mut intent = StyleIntent::default();
    let names = NameOptions { form: NameForm::Long, et_al: Some(EtAlConfig { min: 3, use_first: 1 }) };
    let entries = vec![
        entry("bibliography_preset", text("year-wrapped")),
        entry("has_bibliography", PatchValue::Bool(true)),
        entry("unknown", PatchValue::Null),
        entry("author_format", PatchValue::Names(names)),
    ];
    assert!(intent.merge_entries(&entries).is_ok());
    assert_eq!(intent.bibliography_preset.as_deref(), Some("year-wrapped"));
    assert_eq!(intent.has_bibliography, Some(true));
    assert_eq!(intent.author_format, Some(names));
}

#[test]
fn malformed_merge_changes_nothing() {
    let mut intent = StyleIntent::default();
    let entries = vec![
        entry("field", text("humanities")),
        entry("detailed_config", text("maybe")),
        entry("class", text("numeric")),
    ];
    let r = intent.merge_entries(&entries);
    assert_eq!(r, Err(ValidationError::UnexpectedValue(IntentField::DetailedConfig)));
    assert!(intent.field.is_none());
    assert!(intent.class.is_none());
    assert!(intent.detailed_config.is_none());
}
