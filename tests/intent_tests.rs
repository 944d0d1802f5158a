use intent_engine::decision::Step;
use intent_engine::intent::{
    AcademicField, CitationClass, EtAlConfig, FieldPatch, NameForm, NameOptions, StyleIntent,
};
use intent_engine::synth::{TemplatePreset, WrapPunctuation};

#[test]
fn test_render_preview_initial() {
    let intent = StyleIntent::default();
    let package = intent.decide();
    assert!(package.question.is_some());
    assert_eq!(package.question.unwrap().id, "field");
}

#[test]
fn test_to_style_numeric() {
    let mut intent = StyleIntent::default();
    intent.class = Some(CitationClass::Numeric);
    let style = intent.to_style();
    assert!(style.citation.is_some());
    let spec = style.citation.unwrap();
    assert_eq!(spec.use_preset, Some(TemplatePreset::Vancouver));
}

#[test]
fn test_to_style_etal() {
    let mut intent = StyleIntent::default();
    intent.class = Some(CitationClass::AuthorDate);
    intent.author_format = Some(NameOptions {
        form: NameForm::Long,
        et_al: Some(EtAlConfig { min: 3, use_first: 1 }),
    });
    let style = intent.to_style();

    let spec = style.citation.unwrap();
    assert_eq!(spec.wrap, Some(WrapPunctuation::Parentheses));

    let opts = spec.options.unwrap();
    let contribs = opts.contributors.unwrap();
    let shorten = contribs.shorten.unwrap();
    assert_eq!(shorten.min, 3);
    assert_eq!(shorten.use_first, 1);
}

fn labels(intent: &StyleIntent) -> Vec<String> {
    intent.decide().previews.iter().map(|p| p.label.clone()).collect()
}

#[test]
fn empty_intent_asks_field_with_three_answers() {
    let intent = StyleIntent::default();
    let package = intent.decide();
    assert_eq!(package.question.unwrap().id, "field");
    assert_eq!(labels(&intent), vec!["Humanities", "Social Science", "Sciences"]);
    assert_eq!(package.missing_fields, vec!["field", "class"]);
}

#[test]
fn humanities_asks_class_with_three_answers() {
    let mut intent = StyleIntent::default();
    intent.field = Some(AcademicField::Humanities);
    let package = intent.decide();
    assert_eq!(package.question.unwrap().id, "class");
    assert_eq!(labels(&intent), vec!["Footnote", "Endnote", "Author-Date"]);
    assert_eq!(package.missing_fields, vec!["class"]);
}

#[test]
fn class_answers_depend_on_field() {
    let mut intent = StyleIntent::default();
    intent.field = Some(AcademicField::SocialScience);
    assert_eq!(labels(&intent), vec!["Author-Date"]);
    intent.field = Some(AcademicField::Sciences);
    assert_eq!(labels(&intent), vec!["Author-Date", "Numeric"]);
}

#[test]
fn footnote_asks_bibliography_then_format() {
    let mut intent = StyleIntent::default();
    intent.field = Some(AcademicField::Humanities);
    intent.class = Some(CitationClass::Footnote);
    let package = intent.decide();
    assert_eq!(package.question.unwrap().id, "has_bibliography");
    assert_eq!(package.missing_fields, vec!["has_bibliography", "author_format"]);
    intent.has_bibliography = Some(false);
    let package = intent.decide();
    let q = package.question.unwrap();
    assert_eq!(q.id, "author_format");
    assert_eq!(q.text, "Choose a formatting pattern");
    assert_eq!(labels(&intent), vec!["Standard", "Full"]);
}

#[test]
fn numeric_style_has_vancouver_and_no_wrap() {
    let mut intent = StyleIntent::default();
    intent.class = Some(CitationClass::Numeric);
    let spec = intent.to_style().citation.unwrap();
    assert_eq!(spec.use_preset, Some(TemplatePreset::Vancouver));
    assert_eq!(spec.wrap, None);
    assert_eq!(spec.options, None);
}

#[test]
fn author_date_without_refining_is_terminal() {
    let mut intent = StyleIntent::default();
    intent.field = Some(AcademicField::SocialScience);
    intent.class = Some(CitationClass::AuthorDate);
    intent.citation_preset = Some("minimal".to_string());
    intent.bibliography_preset = Some("flat".to_string());
    intent.has_bibliography = Some(true);
    intent.detailed_config = Some(false);
    let package = intent.decide();
    assert!(package.question.is_none());
    assert!(package.previews.is_empty());
    assert_eq!(package.missing_fields, vec!["author_format"]);
}

#[test]
fn author_date_refining_asks_author_format() {
    let mut intent = StyleIntent::default();
    intent.field = Some(AcademicField::SocialScience);
    intent.class = Some(CitationClass::AuthorDate);
    intent.citation_preset = Some("minimal".to_string());
    intent.bibliography_preset = Some("flat".to_string());
    intent.detailed_config = Some(true);
    let q = intent.decide().question.unwrap();
    assert_eq!(q.id, "author_format");
    assert_eq!(q.text, "Advanced Formatting");
    assert_eq!(
        labels(&intent),
        vec!["Standard (APA-style et al.)", "Always show all authors"]
    );
}

#[test]
fn author_date_question_order() {
    let mut intent = StyleIntent::default();
    intent.field = Some(AcademicField::Sciences);
    intent.class = Some(CitationClass::AuthorDate);
    assert_eq!(intent.next_step(), Some(Step::CitationPreset));
    intent.citation_preset = Some("colon-locator".to_string());
    assert_eq!(intent.next_step(), Some(Step::BibliographyPreset));
    intent.bibliography_preset = Some("year-wrapped".to_string());
    assert_eq!(intent.next_step(), Some(Step::DetailedConfig));
    intent.detailed_config = Some(true);
    assert_eq!(intent.next_step(), Some(Step::AdvancedAuthorFormat));
}

#[test]
fn numeric_asks_number_wrapping() {
    let mut intent = StyleIntent::default();
    intent.field = Some(AcademicField::Sciences);
    intent.class = Some(CitationClass::Numeric);
    let q = intent.decide().question.unwrap();
    assert_eq!(q.id, "author_format");
    assert_eq!(q.text, "How should citation numbers be wrapped?");
    assert_eq!(
        labels(&intent),
        vec!["Square Brackets [1]", "Parentheses (1)", "Superscript ¹"]
    );
    intent.author_format = Some(NameOptions { form: NameForm::Short, et_al: None });
    assert!(intent.decide().question.is_none());
}

#[test]
fn endnote_asks_formatting_pattern() {
    let mut intent = StyleIntent::default();
    intent.field = Some(AcademicField::Humanities);
    intent.class = Some(CitationClass::Endnote);
    assert_eq!(intent.next_step(), Some(Step::FormattingPattern));
    assert_eq!(intent.decide().missing_fields, vec!["author_format"]);
}

#[test]
fn bibliography_answer_also_sets_has_bibliography() {
    let mut intent = StyleIntent::default();
    intent.field = Some(AcademicField::Sciences);
    intent.class = Some(CitationClass::AuthorDate);
    intent.citation_preset = Some("comma-sep".to_string());
    let package = intent.decide();
    assert_eq!(package.question.unwrap().id, "bibliography_preset");
    let flat = &package.previews[1];
    intent.merge(&flat.choice_value);
    assert_eq!(intent.bibliography_preset.as_deref(), Some("flat"));
    assert_eq!(intent.has_bibliography, Some(true));
    assert_eq!(intent.next_step(), Some(Step::DetailedConfig));
}

#[test]
fn answering_never_reasks_the_same_field() {
    let mut intent = StyleIntent::default();
    let mut asked: Vec<String> = Vec::new();
    for _ in 0..10 {
        let package = intent.decide();
        match package.question {
            Some(q) => {
                assert!(!asked.contains(&q.id));
                asked.push(q.id);
                let first = &package.previews[0];
                intent.merge(&first.choice_value);
            }
            None => break,
        }
    }
    assert_eq!(
        asked,
        vec!["field", "class", "has_bibliography", "author_format"]
    );
}

#[test]
fn decide_is_deterministic() {
    let mut intent = StyleIntent::default();
    intent.field = Some(AcademicField::Humanities);
    let a = intent.decide();
    let b = intent.decide();
    assert_eq!(a.question.unwrap().id, b.question.unwrap().id);
    assert_eq!(a.missing_fields, b.missing_fields);
    assert_eq!(a.previews.len(), b.previews.len());
}

#[test]
fn flat_layout_selects_chicago() {
    let mut intent = StyleIntent::default();
    intent.class = Some(CitationClass::AuthorDate);
    intent.bibliography_preset = Some("flat".to_string());
    intent.has_bibliography = Some(true);
    let style = intent.to_style();
    assert_eq!(style.citation.unwrap().use_preset, Some(TemplatePreset::ChicagoAuthorDate));
    assert_eq!(style.bibliography.unwrap().use_preset, Some(TemplatePreset::ChicagoAuthorDate));
    intent.bibliography_preset = Some("year-wrapped".to_string());
    assert_eq!(intent.to_style().citation.unwrap().use_preset, Some(TemplatePreset::Apa));
}

#[test]
fn note_classes_select_chicago() {
    let mut intent = StyleIntent::default();
    intent.class = Some(CitationClass::Footnote);
    assert_eq!(
        intent.to_style().citation.unwrap().use_preset,
        Some(TemplatePreset::ChicagoAuthorDate)
    );
    intent.class = Some(CitationClass::Endnote);
    assert_eq!(
        intent.to_style().citation.unwrap().use_preset,
        Some(TemplatePreset::ChicagoAuthorDate)
    );
}

#[test]
fn no_class_gives_metadata_only() {
    let mut intent = StyleIntent::default();
    intent.has_bibliography = Some(true);
    let style = intent.to_style();
    assert!(style.citation.is_none());
    assert!(style.bibliography.is_none());
    assert_eq!(style.info.id.as_deref(), Some("custom-style"));
    assert_eq!(style.info.title.as_deref(), Some("Custom Style"));
}

#[test]
fn bibliography_repeats_citation_options() {
    let mut intent = StyleIntent::default();
    intent.class = Some(CitationClass::Footnote);
    intent.has_bibliography = Some(true);
    intent.author_format = Some(NameOptions {
        form: NameForm::Long,
        et_al: Some(EtAlConfig { min: 4, use_first: 2 }),
    });
    let style = intent.to_style();
    let citation = style.citation.unwrap();
    let bibliography = style.bibliography.unwrap();
    assert_eq!(bibliography.use_preset, citation.use_preset);
    assert_eq!(bibliography.options, citation.options);
    let shorten = bibliography.options.unwrap().contributors.unwrap().shorten.unwrap();
    assert_eq!((shorten.min, shorten.use_first), (4, 2));
}

#[test]
fn no_bibliography_unless_asked() {
    let mut intent = StyleIntent::default();
    intent.class = Some(CitationClass::Numeric);
    intent.has_bibliography = Some(false);
    assert!(intent.to_style().bibliography.is_none());
}

#[test]
fn render_preview_is_empty() {
    assert_eq!(StyleIntent::default().render_preview(), "");
}

#[test]
fn apply_sets_one_field() {
    let mut intent = StyleIntent::default();
    intent.apply(&FieldPatch::CitationPreset("minimal".to_string()));
    assert_eq!(intent.citation_preset.as_deref(), Some("minimal"));
    assert!(intent.field.is_none());
    intent.apply(&FieldPatch::Class(CitationClass::Endnote));
    assert_eq!(intent.class, Some(CitationClass::Endnote));
}
