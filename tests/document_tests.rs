use intent_engine::document::emit;
use intent_engine::intent::{CitationClass, EtAlConfig, NameForm, NameOptions, StyleIntent};
use intent_engine::preview::{compose_preview_html, select_sample_ids};
use intent_engine::synth::{StyleInfo, StyleSpec};

#[test]
fn emit_metadata_only() {
    let style = StyleIntent::default().to_style();
    assert_eq!(
        emit(&style),
        "info:\n  id: \"custom-style\"\n  title: \"Custom Style\"\ncitation: null\nbibliography: null\n"
    );
}

#[test]
fn emit_author_date_with_truncation() {
    let mut intent = StyleIntent::default();
    intent.class = Some(CitationClass::AuthorDate);
    intent.has_bibliography = Some(true);
    intent.author_format = Some(NameOptions {
        form: NameForm::Long,
        et_al: Some(EtAlConfig { min: 3, use_first: 1 }),
    });
    let doc = emit(&intent.to_style());
    let expected = "info:\n  id: \"custom-style\"\n  title: \"Custom Style\"\n\
citation:\n  use_preset: apa\n  wrap: parentheses\n  options:\n    contributors:\n      shorten:\n        min: 3\n        use_first: 1\n\
bibliography:\n  use_preset: apa\n  options:\n    contributors:\n      shorten:\n        min: 3\n        use_first: 1\n";
    assert_eq!(doc, expected);
}

#[test]
fn emit_numeric_three_digit_numbers() {
    let mut intent = StyleIntent::default();
    intent.class = Some(CitationClass::Numeric);
    intent.author_format = Some(NameOptions {
        form: NameForm::Short,
        et_al: Some(EtAlConfig { min: 255, use_first: 10 }),
    });
    let doc = emit(&intent.to_style());
    assert!(doc.contains("  use_preset: vancouver\n  wrap: null\n"));
    assert!(doc.contains("        min: 255\n        use_first: 10\n"));
    assert!(doc.ends_with("bibliography: null\n"));
}

#[test]
fn emit_escapes_strings() {
    let style = StyleSpec {
        info: StyleInfo { id: Some("a\"b\\c\nd".to_string()), title: None },
        citation: None,
        bibliography: None,
    };
    assert_eq!(
        emit(&style),
        "info:\n  id: \"a\\\"b\\\\c\\nd\"\n  title: null\ncitation: null\nbibliography: null\n"
    );
}

#[test]
fn emit_is_deterministic() {
    let mut intent = StyleIntent::default();
    intent.class = Some(CitationClass::Footnote);
    let style = intent.to_style();
    assert_eq!(emit(&style), emit(&style));
}

fn ids(v: &[&str]) -> Vec<String> {
    v.iter().map(|s| s.to_string()).collect()
}

#[test]
fn samples_prefer_candidates_in_fixed_order() {
    let available = ids(&["a", "brown_v_board", "b", "vaswani_attention"]);
    assert_eq!(select_sample_ids(&available), ids(&["vaswani_attention", "brown_v_board"]));
}

#[test]
fn samples_fall_back_to_first_three() {
    let available = ids(&["a", "b", "c", "d"]);
    assert_eq!(select_sample_ids(&available), ids(&["a", "b", "c"]));
    let few = ids(&["x", "y"]);
    assert_eq!(select_sample_ids(&few), few);
    assert!(select_sample_ids(&Vec::new()).is_empty());
}

#[test]
fn preview_html_without_bibliography() {
    let html = compose_preview_html("(Smith, 2023)", &Vec::new());
    assert_eq!(
        html,
        "<div class='live-preview-content'><div class='preview-citation'>(Smith, 2023)</div></div>"
    );
}

#[test]
fn preview_html_with_bibliography() {
    let html = compose_preview_html("[1]", &ids(&["One.", "Two."]));
    assert_eq!(
        html,
        "<div class='live-preview-content'><div class='preview-citation'>[1]</div>\
<div class='preview-bibliography'><h4>Example Bibliography</h4>\
<div class='bib-entry'>One.</div><div class='bib-entry'>Two.</div></div></div>"
    );
}

#[test]
fn live_preview_blank_citation_is_none() {
    let intent = StyleIntent::default();
    assert!(intent.live_preview("   \n", &Vec::new()).is_none());
    assert!(intent.live_preview("", &Vec::new()).is_none());
}

#[test]
fn live_preview_keeps_entries_only_with_bibliography() {
    let mut intent = StyleIntent::default();
    let entries = ids(&["One."]);
    let without = intent.live_preview(" (A) ", &entries).unwrap();
    assert_eq!(
        without,
        "<div class='live-preview-content'><div class='preview-citation'> (A) </div></div>"
    );
    intent.has_bibliography = Some(true);
    let with = intent.live_preview(" (A) ", &entries).unwrap();
    assert!(with.contains("<div class='bib-entry'>One.</div>"));
}

#[test]
fn generate_csln_writes_the_compiled_style() {
    let mut intent = StyleIntent::default();
    intent.class = Some(CitationClass::Numeric);
    let doc = intent.generate_csln();
    assert_eq!(doc, emit(&intent.to_style()));
    assert!(doc.starts_with("info:\n  id: \"custom-style\"\n"));
    assert!(doc.contains("citation:\n  use_preset: vancouver\n"));
}
