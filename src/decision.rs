use vstd::prelude::*;
use crate::intent::{
    field_key, opt_str_view, patch_views, AcademicField, CitationClass, EtAlConfig, FieldPatch,
    IntentField, IntentView, NameForm, NameOptions, PatchView, StyleIntent,
};

verus! {

/// A question put to the user.
#[derive(Debug, Clone)]
pub struct Question {
    /// The key of the intent field that the answer sets.
    pub id: String,
    pub text: String,
    pub description: Option<String>,
}

pub struct QuestionView {
    pub id: Seq<char>,
    pub text: Seq<char>,
    pub description: Option<Seq<char>>,
}

impl View for Question {
    type V = QuestionView;

    open spec fn view(&self) -> QuestionView {
        QuestionView { id: self.id@, text: self.text@, description: opt_str_view(self.description) }
    }
}

/// One possible answer, with the patch that choosing it merges into the intent.
#[derive(Debug, Clone)]
pub struct Preview {
    /// A literal picture of the resulting citation shape.
    pub label: String,
    pub html: String,
    /// The patches applied to the intent when this answer is chosen.
    pub choice_value: Vec<FieldPatch>,
}

pub struct PreviewView {
    pub label: Seq<char>,
    pub html: Seq<char>,
    pub choice_value: Seq<PatchView>,
}

impl View for Preview {
    type V = PreviewView;

    open spec fn view(&self) -> PreviewView {
        PreviewView {
            label: self.label@,
            html: self.html@,
            choice_value: patch_views(self.choice_value@),
        }
    }
}

pub open spec fn preview_views(ps: Seq<Preview>) -> Seq<PreviewView> {
    ps.map_values(|p: Preview| p@)
}

pub open spec fn string_views(ss: Seq<String>) -> Seq<Seq<char>> {
    ss.map_values(|s: String| s@)
}

/// Everything a client needs to show the next step of the wizard.
#[derive(Debug, Clone)]
pub struct DecisionPackage {
    /// Keys of the required fields that are still unset.
    pub missing_fields: Vec<String>,
    /// The next question; `None` once the questions for the class are exhausted.
    pub question: Option<Question>,
    /// The possible answers to `question`.
    pub previews: Vec<Preview>,
    /// Example in-text citation, filled in by a renderer.
    pub in_text_preview: Option<String>,
    /// Example note, filled in by a renderer.
    pub note_preview: Option<String>,
    /// Example bibliography entries, filled in by a renderer.
    pub bibliography_preview: Option<String>,
}

pub struct DecisionView {
    pub missing_fields: Seq<Seq<char>>,
    pub question: Option<QuestionView>,
    pub previews: Seq<PreviewView>,
    pub in_text_preview: Option<Seq<char>>,
    pub note_preview: Option<Seq<char>>,
    pub bibliography_preview: Option<Seq<char>>,
}

impl View for DecisionPackage {
    type V = DecisionView;

    open spec fn view(&self) -> DecisionView {
        DecisionView {
            missing_fields: string_views(self.missing_fields@),
            question: match self.question {
                Some(q) => Some(q@),
                None => None,
            },
            previews: preview_views(self.previews@),
            in_text_preview: opt_str_view(self.in_text_preview),
            note_preview: opt_str_view(self.note_preview),
            bibliography_preview: opt_str_view(self.bibliography_preview),
        }
    }
}

/// The questions of the wizard.
#[derive(Debug, Clone, Copy, PartialEq, Eq, Structural)]
pub enum Step {
    /// Which academic field.
    Field,
    /// Which class of citation; the choices depend on the field.
    Class(AcademicField),
    /// Author-date: the in-text citation pattern.
    CitationPreset,
    /// Author-date: the bibliography layout.
    BibliographyPreset,
    /// Author-date: whether to refine further.
    DetailedConfig,
    /// Author-date, refining: the author list rules.
    AdvancedAuthorFormat,
    /// Footnote: whether there is a bibliography.
    FootnoteBibliography,
    /// Numeric: how citation numbers are wrapped.
    NumberWrapping,
    /// Any other class: a formatting pattern.
    FormattingPattern,
}

/// The next question within the branch of class `c`, or `None` once it is exhausted.
pub open spec fn class_step(c: CitationClass, i: IntentView) -> Option<Step> {
    match c {
        CitationClass::AuthorDate => if i.citation_preset is None {
            Some(Step::CitationPreset)
        } else if i.bibliography_preset is None {
            Some(Step::BibliographyPreset)
        } else if i.detailed_config is None {
            Some(Step::DetailedConfig)
        } else if i.detailed_config == Some(true) && i.author_format is None {
            Some(Step::AdvancedAuthorFormat)
        } else {
            None
        },
        CitationClass::Footnote => if i.has_bibliography is None {
            Some(Step::FootnoteBibliography)
        } else if i.author_format is None {
            Some(Step::FormattingPattern)
        } else {
            None
        },
        CitationClass::Numeric => if i.author_format is None {
            Some(Step::NumberWrapping)
        } else {
            None
        },
        CitationClass::Endnote => if i.author_format is None {
            Some(Step::FormattingPattern)
        } else {
            None
        },
    }
}

/// The question to ask for intent `i`: the first unmet step in order of precedence.
pub open spec fn pending_step(i: IntentView) -> Option<Step> {
    match (i.field, i.class) {
        (None, _) => Some(Step::Field),
        (Some(f), None) => Some(Step::Class(f)),
        (Some(_), Some(c)) => class_step(c, i),
    }
}

/// The field that answering step `s` sets.
pub open spec fn step_field(s: Step) -> IntentField {
    match s {
        Step::Field => IntentField::Field,
        Step::Class(_) => IntentField::Class,
        Step::CitationPreset => IntentField::CitationPreset,
        Step::BibliographyPreset => IntentField::BibliographyPreset,
        Step::DetailedConfig => IntentField::DetailedConfig,
        Step::AdvancedAuthorFormat => IntentField::AuthorFormat,
        Step::FootnoteBibliography => IntentField::HasBibliography,
        Step::NumberWrapping => IntentField::AuthorFormat,
        Step::FormattingPattern => IntentField::AuthorFormat,
    }
}

pub open spec fn when_unset(unset: bool, f: IntentField) -> Seq<IntentField> {
    if unset {
        seq![f]
    } else {
        Seq::empty()
    }
}

/// The required fields that are still unset, in a fixed order; the fields
/// required beyond `field` and `class` depend on the class.
pub open spec fn missing_of(i: IntentView) -> Seq<IntentField> {
    let head = when_unset(i.field is None, IntentField::Field) + when_unset(
        i.class is None,
        IntentField::Class,
    );
    let af = when_unset(i.author_format is None, IntentField::AuthorFormat);
    let hb = when_unset(i.has_bibliography is None, IntentField::HasBibliography);
    match i.class {
        None => head,
        Some(CitationClass::Footnote) => head + hb + af,
        Some(CitationClass::AuthorDate) => head + af + hb,
        Some(_) => head + af,
    }
}

pub open spec fn question_of(s: Step) -> QuestionView {
    let id = field_key(step_field(s));
    match s {
        Step::Field => QuestionView {
            id,
            text: "What is your academic field?"@,
            description: Some("Select one or more fields to find appropriate styles."@),
        },
        Step::Class(_) => QuestionView { id, text: "Select a style type"@, description: None },
        Step::CitationPreset => QuestionView {
            id,
            text: "How should citations appear in your text?"@,
            description: Some("Choose the pattern that matches your target publication."@),
        },
        Step::BibliographyPreset => QuestionView {
            id,
            text: "How should entries look in the bibliography?"@,
            description: None,
        },
        Step::DetailedConfig => QuestionView {
            id,
            text: "Refine further?"@,
            description: Some(
                "The presets cover 90% of cases. Do you need to tweak granular details like author initials or et al. rules?"@,
            ),
        },
        Step::AdvancedAuthorFormat => QuestionView {
            id,
            text: "Advanced Formatting"@,
            description: Some("Fine-tune how authors and names are handled."@),
        },
        Step::FootnoteBibliography => QuestionView {
            id,
            text: "Does this style include a bibliography?"@,
            description: Some("Note formatting typically changes if a bibliography is present."@),
        },
        Step::NumberWrapping => QuestionView {
            id,
            text: "How should citation numbers be wrapped?"@,
            description: None,
        },
        Step::FormattingPattern => QuestionView {
            id,
            text: "Choose a formatting pattern"@,
            description: None,
        },
    }
}

pub open spec fn option(label: Seq<char>, patch: Seq<PatchView>) -> PreviewView {
    PreviewView { label, html: Seq::empty(), choice_value: patch }
}

/// Long names, truncated to one name from three on.
pub open spec fn standard_names() -> NameOptions {
    NameOptions { form: NameForm::Long, et_al: Some(EtAlConfig { min: 3, use_first: 1 }) }
}

/// Long names, never truncated.
pub open spec fn full_names() -> NameOptions {
    NameOptions { form: NameForm::Long, et_al: None }
}

pub open spec fn class_options(f: AcademicField) -> Seq<PreviewView> {
    let footnote = option("Footnote"@, seq![PatchView::Class(CitationClass::Footnote)]);
    let endnote = option("Endnote"@, seq![PatchView::Class(CitationClass::Endnote)]);
    let author_date = option("Author-Date"@, seq![PatchView::Class(CitationClass::AuthorDate)]);
    let numeric = option("Numeric"@, seq![PatchView::Class(CitationClass::Numeric)]);
    match f {
        AcademicField::Humanities => seq![footnote, endnote, author_date],
        AcademicField::SocialScience => seq![author_date],
        AcademicField::Sciences => seq![author_date, numeric],
    }
}

/// The answers offered for step `s`.
pub open spec fn options_of(s: Step) -> Seq<PreviewView> {
    match s {
        Step::Field => seq![
            option("Humanities"@, seq![PatchView::Field(AcademicField::Humanities)]),
            option("Social Science"@, seq![PatchView::Field(AcademicField::SocialScience)]),
            option("Sciences"@, seq![PatchView::Field(AcademicField::Sciences)]),
        ],
        Step::Class(f) => class_options(f),
        Step::CitationPreset => seq![
            option("(Smith and Jones, 2023: 34)"@, seq![PatchView::CitationPreset("colon-locator"@)]),
            option("(Smith and Jones, 2023, p.34)"@, seq![PatchView::CitationPreset("comma-sep"@)]),
            option("(Smith and Jones 2023, 34)"@, seq![PatchView::CitationPreset("minimal"@)]),
        ],
        Step::BibliographyPreset => seq![
            option(
                "Smith, J. (2023). Title..."@,
                seq![PatchView::BibliographyPreset("year-wrapped"@), PatchView::HasBibliography(true)],
            ),
            option(
                "Smith, J. 2023. Title..."@,
                seq![PatchView::BibliographyPreset("flat"@), PatchView::HasBibliography(true)],
            ),
        ],
        Step::DetailedConfig => seq![
            option("No, presets are fine"@, seq![PatchView::DetailedConfig(false)]),
            option("Yes, show detailed config"@, seq![PatchView::DetailedConfig(true)]),
        ],
        Step::AdvancedAuthorFormat => seq![
            option("Standard (APA-style et al.)"@, seq![PatchView::AuthorFormat(standard_names())]),
            option("Always show all authors"@, seq![PatchView::AuthorFormat(full_names())]),
        ],
        Step::FootnoteBibliography => seq![
            option("Yes, include bibliography"@, seq![PatchView::HasBibliography(true)]),
            option("No, notes only"@, seq![PatchView::HasBibliography(false)]),
        ],
        Step::NumberWrapping => seq![
            option(
                "Square Brackets [1]"@,
                seq![PatchView::AuthorFormat(NameOptions { form: NameForm::Short, et_al: None })],
            ),
            option("Parentheses (1)"@, seq![PatchView::AuthorFormat(full_names())]),
            option(
                "Superscript ¹"@,
                seq![
                    PatchView::AuthorFormat(
                        NameOptions {
                            form: NameForm::Long,
                            et_al: Some(EtAlConfig { min: 1, use_first: 1 }),
                        },
                    ),
                ],
            ),
        ],
        Step::FormattingPattern => seq![
            option("Standard"@, seq![PatchView::AuthorFormat(standard_names())]),
            option("Full"@, seq![PatchView::AuthorFormat(full_names())]),
        ],
    }
}

/// What `decide` returns for intent `i`.
pub open spec fn decision_of(i: IntentView) -> DecisionView {
    DecisionView {
        missing_fields: missing_of(i).map_values(|f: IntentField| field_key(f)),
        question: match pending_step(i) {
            Some(s) => Some(question_of(s)),
            None => None,
        },
        previews: match pending_step(i) {
            Some(s) => options_of(s),
            None => Seq::empty(),
        },
        in_text_preview: None,
        note_preview: None,
        bibliography_preview: None,
    }
}

fn text(s: &str) -> (r: String)
    ensures
        r@ == s@,
{
    String::from_str(s)
}

fn one_option(label: &str, patch: FieldPatch) -> (r: Preview)
    ensures
        r@ == option(label@, seq![patch@]),
{
    let choice_value = vec![patch];
    assert(patch_views(choice_value@) =~= seq![patch@]);
    Preview { label: text(label), html: String::new(), choice_value }
}

fn two_patch_option(label: &str, first: FieldPatch, second: FieldPatch) -> (r: Preview)
    ensures
        r@ == option(label@, seq![first@, second@]),
{
    let choice_value = vec![first, second];
    assert(patch_views(choice_value@) =~= seq![first@, second@]);
    Preview { label: text(label), html: String::new(), choice_value }
}

fn standard_names_exec() -> (r: NameOptions)
    ensures
        r == standard_names(),
{
    NameOptions { form: NameForm::Long, et_al: Some(EtAlConfig { min: 3, use_first: 1 }) }
}

fn full_names_exec() -> (r: NameOptions)
    ensures
        r == full_names(),
{
    NameOptions { form: NameForm::Long, et_al: None }
}

fn class_options_exec(f: AcademicField) -> (r: Vec<Preview>)
    ensures
        preview_views(r@) == class_options(f),
{
    let r = match f {
        AcademicField::Humanities => vec![
            one_option("Footnote", FieldPatch::Class(CitationClass::Footnote)),
            one_option("Endnote", FieldPatch::Class(CitationClass::Endnote)),
            one_option("Author-Date", FieldPatch::Class(CitationClass::AuthorDate)),
        ],
        AcademicField::SocialScience => vec![
            one_option("Author-Date", FieldPatch::Class(CitationClass::AuthorDate)),
        ],
        AcademicField::Sciences => vec![
            one_option("Author-Date", FieldPatch::Class(CitationClass::AuthorDate)),
            one_option("Numeric", FieldPatch::Class(CitationClass::Numeric)),
        ],
    };
    assert(preview_views(r@) =~= class_options(f));
    r
}

/// The answers offered for step `s`.
pub fn options_for(s: Step) -> (r: Vec<Preview>)
    ensures
        preview_views(r@) == options_of(s),
{
    let r = match s {
        Step::Field => vec![
            one_option("Humanities", FieldPatch::Field(AcademicField::Humanities)),
            one_option("Social Science", FieldPatch::Field(AcademicField::SocialScience)),
            one_option("Sciences", FieldPatch::Field(AcademicField::Sciences)),
        ],
        Step::Class(f) => class_options_exec(f),
        Step::CitationPreset => vec![
            one_option(
                "(Smith and Jones, 2023: 34)",
                FieldPatch::CitationPreset(text("colon-locator")),
            ),
            one_option(
                "(Smith and Jones, 2023, p.34)",
                FieldPatch::CitationPreset(text("comma-sep")),
            ),
            one_option("(Smith and Jones 2023, 34)", FieldPatch::CitationPreset(text("minimal"))),
        ],
        Step::BibliographyPreset => vec![
            two_patch_option(
                "Smith, J. (2023). Title...",
                FieldPatch::BibliographyPreset(text("year-wrapped")),
                FieldPatch::HasBibliography(true),
            ),
            two_patch_option(
                "Smith, J. 2023. Title...",
                FieldPatch::BibliographyPreset(text("flat")),
                FieldPatch::HasBibliography(true),
            ),
        ],
        Step::DetailedConfig => vec![
            one_option("No, presets are fine", FieldPatch::DetailedConfig(false)),
            one_option("Yes, show detailed config", FieldPatch::DetailedConfig(true)),
        ],
        Step::AdvancedAuthorFormat => vec![
            one_option(
                "Standard (APA-style et al.)",
                FieldPatch::AuthorFormat(standard_names_exec()),
            ),
            one_option("Always show all authors", FieldPatch::AuthorFormat(full_names_exec())),
        ],
        Step::FootnoteBibliography => vec![
            one_option("Yes, include bibliography", FieldPatch::HasBibliography(true)),
            one_option("No, notes only", FieldPatch::HasBibliography(false)),
        ],
        Step::NumberWrapping => vec![
            one_option(
                "Square Brackets [1]",
                FieldPatch::AuthorFormat(NameOptions { form: NameForm::Short, et_al: None }),
            ),
            one_option("Parentheses (1)", FieldPatch::AuthorFormat(full_names_exec())),
            one_option(
                "Superscript ¹",
                FieldPatch::AuthorFormat(
                    NameOptions {
                        form: NameForm::Long,
                        et_al: Some(EtAlConfig { min: 1, use_first: 1 }),
                    },
                ),
            ),
        ],
        Step::FormattingPattern => vec![
            one_option("Standard", FieldPatch::AuthorFormat(standard_names_exec())),
            one_option("Full", FieldPatch::AuthorFormat(full_names_exec())),
        ],
    };
    assert(preview_views(r@) =~= options_of(s));
    r
}

/// The question for step `s`.
pub fn question_for(s: Step) -> (r: Question)
    ensures
        r@ == question_of(s),
{
    let id = text(s.field().key());
    match s {
        Step::Field => Question {
            id,
            text: text("What is your academic field?"),
            description: Some(text("Select one or more fields to find appropriate styles.")),
        },
        Step::Class(_) => Question { id, text: text("Select a style type"), description: None },
        Step::CitationPreset => Question {
            id,
            text: text("How should citations appear in your text?"),
            description: Some(text("Choose the pattern that matches your target publication.")),
        },
        Step::BibliographyPreset => Question {
            id,
            text: text("How should entries look in the bibliography?"),
            description: None,
        },
        Step::DetailedConfig => Question {
            id,
            text: text("Refine further?"),
            description: Some(
                text(
                    "The presets cover 90% of cases. Do you need to tweak granular details like author initials or et al. rules?",
                ),
            ),
        },
        Step::AdvancedAuthorFormat => Question {
            id,
            text: text("Advanced Formatting"),
            description: Some(text("Fine-tune how authors and names are handled.")),
        },
        Step::FootnoteBibliography => Question {
            id,
            text: text("Does this style include a bibliography?"),
            description: Some(text("Note formatting typically changes if a bibliography is present.")),
        },
        Step::NumberWrapping => Question {
            id,
            text: text("How should citation numbers be wrapped?"),
            description: None,
        },
        Step::FormattingPattern => Question {
            id,
            text: text("Choose a formatting pattern"),
            description: None,
        },
    }
}

impl Step {
    /// The field that answering this step sets.
    pub fn field(self) -> (r: IntentField)
        ensures
            r == step_field(self),
    {
        match self {
            Step::Field => IntentField::Field,
            Step::Class(_) => IntentField::Class,
            Step::CitationPreset => IntentField::CitationPreset,
            Step::BibliographyPreset => IntentField::BibliographyPreset,
            Step::DetailedConfig => IntentField::DetailedConfig,
            Step::AdvancedAuthorFormat => IntentField::AuthorFormat,
            Step::FootnoteBibliography => IntentField::HasBibliography,
            Step::NumberWrapping => IntentField::AuthorFormat,
            Step::FormattingPattern => IntentField::AuthorFormat,
        }
    }
}

fn push_key(v: &mut Vec<String>, f: IntentField)
    ensures
        string_views(final(v)@) == string_views(old(v)@).push(field_key(f)),
{
    v.push(text(f.key()));
    assert(string_views(v@) =~= string_views(old(v)@).push(field_key(f)));
}

impl StyleIntent {
    /// The next question to ask, following the order of precedence.
    pub fn next_step(&self) -> (r: Option<Step>)
        ensures
            r == pending_step(self@),
    {
        let class = match (self.field, self.class) {
            (None, _) => return Some(Step::Field),
            (Some(f), None) => return Some(Step::Class(f)),
            (Some(_), Some(c)) => c,
        };
        match class {
            CitationClass::AuthorDate => if self.citation_preset.is_none() {
                Some(Step::CitationPreset)
            } else if self.bibliography_preset.is_none() {
                Some(Step::BibliographyPreset)
            } else if self.detailed_config.is_none() {
                Some(Step::DetailedConfig)
            } else if self.detailed_config == Some(true) && self.author_format.is_none() {
                Some(Step::AdvancedAuthorFormat)
            } else {
                None
            },
            CitationClass::Footnote => if self.has_bibliography.is_none() {
                Some(Step::FootnoteBibliography)
            } else if self.author_format.is_none() {
                Some(Step::FormattingPattern)
            } else {
                None
            },
            CitationClass::Numeric => if self.author_format.is_none() {
                Some(Step::NumberWrapping)
            } else {
                None
            },
            CitationClass::Endnote => if self.author_format.is_none() {
                Some(Step::FormattingPattern)
            } else {
                None
            },
        }
    }

    /// Keys of the required fields that are still unset.
    pub fn missing_fields(&self) -> (r: Vec<String>)
        ensures
            string_views(r@) == missing_of(self@).map_values(|f: IntentField| field_key(f)),
    {
        let mut r: Vec<String> = Vec::new();
        let ghost fields: Seq<IntentField> = Seq::empty();
        if self.field.is_none() {
            push_key(&mut r, IntentField::Field);
            proof { fields = fields.push(IntentField::Field); }
        }
        if self.class.is_none() {
            push_key(&mut r, IntentField::Class);
            proof { fields = fields.push(IntentField::Class); }
        }
        match self.class {
            Some(CitationClass::Footnote) => {
                if self.has_bibliography.is_none() {
                    push_key(&mut r, IntentField::HasBibliography);
                    proof { fields = fields.push(IntentField::HasBibliography); }
                }
                if self.author_format.is_none() {
                    push_key(&mut r, IntentField::AuthorFormat);
                    proof { fields = fields.push(IntentField::AuthorFormat); }
                }
            },
            Some(c) => {
                if self.author_format.is_none() {
                    push_key(&mut r, IntentField::AuthorFormat);
                    proof { fields = fields.push(IntentField::AuthorFormat); }
                }
                if c == CitationClass::AuthorDate && self.has_bibliography.is_none() {
                    push_key(&mut r, IntentField::HasBibliography);
                    proof { fields = fields.push(IntentField::HasBibliography); }
                }
            },
            None => {},
        }
        assert(fields =~= missing_of(self@));
        assert(string_views(r@) =~= fields.map_values(|f: IntentField| field_key(f)));
        r
    }

    /// The missing fields, the next question and its answers for this intent.
    /// The rendered examples are left empty: a renderer fills them in.
    pub fn decide(&self) -> (r: DecisionPackage)
        ensures
            r@ == decision_of(self@),
    {
        let missing_fields = self.missing_fields();
        let (question, previews) = match self.next_step() {
            Some(s) => (Some(question_for(s)), options_for(s)),
            None => (None, Vec::new()),
        };
        let r = DecisionPackage {
            missing_fields,
            question,
            previews,
            in_text_preview: None,
            note_preview: None,
            bibliography_preview: None,
        };
        assert(r@.previews =~= decision_of(self@).previews);
        r
    }

    /// A static preview of the intent. None is available: examples come from
    /// a renderer run on the synthesized style, so this is always empty.
    pub fn render_preview(&self) -> (r: String)
        ensures
            r@ == Seq::<char>::empty(),
    {
        String::new()
    }
}

} // verus!
