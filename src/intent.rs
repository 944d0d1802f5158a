use vstd::prelude::*;

verus! {

/// How contributor names are written.
#[derive(Debug, Clone, Copy, PartialEq, Eq, Structural)]
pub enum NameForm {
    Long,
    Short,
}

/// Author-list truncation: lists of at least `min` names are cut to the
/// first `use_first` names followed by "et al.".
#[derive(Debug, Clone, Copy, PartialEq, Eq, Structural)]
pub struct EtAlConfig {
    pub min: u8,
    pub use_first: u8,
}

/// Name formatting together with an optional truncation rule.
#[derive(Debug, Clone, Copy, PartialEq, Eq, Structural)]
pub struct NameOptions {
    pub form: NameForm,
    pub et_al: Option<EtAlConfig>,
}

/// The broad academic field a style is meant for.
#[derive(Debug, Clone, Copy, PartialEq, Eq, Structural)]
pub enum AcademicField {
    Humanities,
    SocialScience,
    Sciences,
}

/// The general class of citation.
#[derive(Debug, Clone, Copy, PartialEq, Eq, Structural)]
pub enum CitationClass {
    AuthorDate,
    Footnote,
    Endnote,
    Numeric,
}

/// The answers collected so far while building a citation style.
/// Every field is optional: `None` means the question has not been answered.
#[derive(Debug, Clone)]
pub struct StyleIntent {
    /// The starting template (e.g. "apa", "chicago"); informational only.
    pub base_archetype: Option<String>,
    /// The academic field.
    pub field: Option<AcademicField>,
    /// The general class of citation.
    pub class: Option<CitationClass>,
    /// Name and et-al options.
    pub author_format: Option<NameOptions>,
    /// Whether the style has a bibliography.
    pub has_bibliography: Option<bool>,
    /// Visual preset for citations (e.g. "colon-locator", "comma-sep").
    pub citation_preset: Option<String>,
    /// Visual preset for the bibliography (e.g. "year-wrapped", "flat").
    pub bibliography_preset: Option<String>,
    /// Whether the user opted into the detailed configuration questions.
    pub detailed_config: Option<bool>,
}

/// The mathematical value of a `StyleIntent`: strings are seen as character sequences.
pub struct IntentView {
    pub base_archetype: Option<Seq<char>>,
    pub field: Option<AcademicField>,
    pub class: Option<CitationClass>,
    pub author_format: Option<NameOptions>,
    pub has_bibliography: Option<bool>,
    pub citation_preset: Option<Seq<char>>,
    pub bibliography_preset: Option<Seq<char>>,
    pub detailed_config: Option<bool>,
}

pub open spec fn opt_str_view(o: Option<String>) -> Option<Seq<char>> {
    match o {
        Some(s) => Some(s@),
        None => None,
    }
}

impl View for StyleIntent {
    type V = IntentView;

    open spec fn view(&self) -> IntentView {
        IntentView {
            base_archetype: opt_str_view(self.base_archetype),
            field: self.field,
            class: self.class,
            author_format: self.author_format,
            has_bibliography: self.has_bibliography,
            citation_preset: opt_str_view(self.citation_preset),
            bibliography_preset: opt_str_view(self.bibliography_preset),
            detailed_config: self.detailed_config,
        }
    }
}

/// The intent in which nothing has been answered yet.
pub open spec fn empty_intent() -> IntentView {
    IntentView {
        base_archetype: None,
        field: None,
        class: None,
        author_format: None,
        has_bibliography: None,
        citation_preset: None,
        bibliography_preset: None,
        detailed_config: None,
    }
}

impl Default for StyleIntent {
    fn default() -> (r: StyleIntent)
        ensures
            r@ == empty_intent(),
    {
        StyleIntent {
            base_archetype: None,
            field: None,
            class: None,
            author_format: None,
            has_bibliography: None,
            citation_preset: None,
            bibliography_preset: None,
            detailed_config: None,
        }
    }
}

/// The fields of an intent, by name.
#[derive(Debug, Clone, Copy, PartialEq, Eq, Structural)]
pub enum IntentField {
    BaseArchetype,
    Field,
    Class,
    AuthorFormat,
    HasBibliography,
    CitationPreset,
    BibliographyPreset,
    DetailedConfig,
}

/// The key under which a field is known to clients.
pub open spec fn field_key(f: IntentField) -> Seq<char> {
    match f {
        IntentField::BaseArchetype => "base_archetype"@,
        IntentField::Field => "field"@,
        IntentField::Class => "class"@,
        IntentField::AuthorFormat => "author_format"@,
        IntentField::HasBibliography => "has_bibliography"@,
        IntentField::CitationPreset => "citation_preset"@,
        IntentField::BibliographyPreset => "bibliography_preset"@,
        IntentField::DetailedConfig => "detailed_config"@,
    }
}

/// Whether field `f` of `i` has been answered.
pub open spec fn is_set(i: IntentView, f: IntentField) -> bool {
    match f {
        IntentField::BaseArchetype => i.base_archetype is Some,
        IntentField::Field => i.field is Some,
        IntentField::Class => i.class is Some,
        IntentField::AuthorFormat => i.author_format is Some,
        IntentField::HasBibliography => i.has_bibliography is Some,
        IntentField::CitationPreset => i.citation_preset is Some,
        IntentField::BibliographyPreset => i.bibliography_preset is Some,
        IntentField::DetailedConfig => i.detailed_config is Some,
    }
}

impl IntentField {
    pub fn key(self) -> (r: &'static str)
        ensures
            r@ == field_key(self),
    {
        match self {
            IntentField::BaseArchetype => "base_archetype",
            IntentField::Field => "field",
            IntentField::Class => "class",
            IntentField::AuthorFormat => "author_format",
            IntentField::HasBibliography => "has_bibliography",
            IntentField::CitationPreset => "citation_preset",
            IntentField::BibliographyPreset => "bibliography_preset",
            IntentField::DetailedConfig => "detailed_config",
        }
    }
}

/// One answer: a value for one field of the intent.
#[derive(Debug, Clone)]
pub enum FieldPatch {
    BaseArchetype(String),
    Field(AcademicField),
    Class(CitationClass),
    AuthorFormat(NameOptions),
    HasBibliography(bool),
    CitationPreset(String),
    BibliographyPreset(String),
    DetailedConfig(bool),
}

/// The mathematical value of a `FieldPatch`.
pub enum PatchView {
    BaseArchetype(Seq<char>),
    Field(AcademicField),
    Class(CitationClass),
    AuthorFormat(NameOptions),
    HasBibliography(bool),
    CitationPreset(Seq<char>),
    BibliographyPreset(Seq<char>),
    DetailedConfig(bool),
}

impl View for FieldPatch {
    type V = PatchView;

    open spec fn view(&self) -> PatchView {
        match self {
            FieldPatch::BaseArchetype(s) => PatchView::BaseArchetype(s@),
            FieldPatch::Field(f) => PatchView::Field(*f),
            FieldPatch::Class(c) => PatchView::Class(*c),
            FieldPatch::AuthorFormat(n) => PatchView::AuthorFormat(*n),
            FieldPatch::HasBibliography(b) => PatchView::HasBibliography(*b),
            FieldPatch::CitationPreset(s) => PatchView::CitationPreset(s@),
            FieldPatch::BibliographyPreset(s) => PatchView::BibliographyPreset(s@),
            FieldPatch::DetailedConfig(b) => PatchView::DetailedConfig(*b),
        }
    }
}

/// The field that a patch writes.
pub open spec fn patch_field(p: PatchView) -> IntentField {
    match p {
        PatchView::BaseArchetype(_) => IntentField::BaseArchetype,
        PatchView::Field(_) => IntentField::Field,
        PatchView::Class(_) => IntentField::Class,
        PatchView::AuthorFormat(_) => IntentField::AuthorFormat,
        PatchView::HasBibliography(_) => IntentField::HasBibliography,
        PatchView::CitationPreset(_) => IntentField::CitationPreset,
        PatchView::BibliographyPreset(_) => IntentField::BibliographyPreset,
        PatchView::DetailedConfig(_) => IntentField::DetailedConfig,
    }
}

/// `i` with the field of `p` set to the value of `p`, all else unchanged.
pub open spec fn apply_patch(i: IntentView, p: PatchView) -> IntentView {
    match p {
        PatchView::BaseArchetype(s) => IntentView { base_archetype: Some(s), ..i },
        PatchView::Field(f) => IntentView { field: Some(f), ..i },
        PatchView::Class(c) => IntentView { class: Some(c), ..i },
        PatchView::AuthorFormat(n) => IntentView { author_format: Some(n), ..i },
        PatchView::HasBibliography(b) => IntentView { has_bibliography: Some(b), ..i },
        PatchView::CitationPreset(s) => IntentView { citation_preset: Some(s), ..i },
        PatchView::BibliographyPreset(s) => IntentView { bibliography_preset: Some(s), ..i },
        PatchView::DetailedConfig(b) => IntentView { detailed_config: Some(b), ..i },
    }
}

/// `i` with the patches of `ps` applied in order.
pub open spec fn apply_patches(i: IntentView, ps: Seq<PatchView>) -> IntentView
    decreases ps.len(),
{
    if ps.len() == 0 {
        i
    } else {
        apply_patch(apply_patches(i, ps.drop_last()), ps.last())
    }
}

pub open spec fn patch_views(ps: Seq<FieldPatch>) -> Seq<PatchView> {
    ps.map_values(|p: FieldPatch| p@)
}

impl StyleIntent {
    /// Sets the field that `patch` names to the value it carries.
    pub fn apply(&mut self, patch: &FieldPatch)
        ensures
            final(self)@ == apply_patch(old(self)@, patch@),
    {
        match patch {
            FieldPatch::BaseArchetype(s) => self.base_archetype = Some(s.clone()),
            FieldPatch::Field(f) => self.field = Some(*f),
            FieldPatch::Class(c) => self.class = Some(*c),
            FieldPatch::AuthorFormat(n) => self.author_format = Some(*n),
            FieldPatch::HasBibliography(b) => self.has_bibliography = Some(*b),
            FieldPatch::CitationPreset(s) => self.citation_preset = Some(s.clone()),
            FieldPatch::BibliographyPreset(s) => self.bibliography_preset = Some(s.clone()),
            FieldPatch::DetailedConfig(b) => self.detailed_config = Some(*b),
        }
    }

    /// Applies the patches of one answer in order.
    pub fn merge(&mut self, patches: &Vec<FieldPatch>)
        ensures
            final(self)@ == apply_patches(old(self)@, patch_views(patches@)),
    {
        let ghost start = self@;
        let mut k: usize = 0;
        while k < patches.len()
            invariant
                k <= patches@.len(),
                self@ == apply_patches(start, patch_views(patches@.subrange(0, k as int))),
            decreases patches@.len() - k,
        {
            self.apply(&patches[k]);
            proof {
                let done = patch_views(patches@.subrange(0, k as int + 1));
                assert(done.drop_last() =~= patch_views(patches@.subrange(0, k as int)));
            }
            k = k + 1;
        }
        assert(patches@.subrange(0, patches@.len() as int) =~= patches@);
    }
}

} // verus!
