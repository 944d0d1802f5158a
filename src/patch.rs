use vstd::prelude::*;
use crate::intent::{
    apply_patches, patch_views, AcademicField, CitationClass, FieldPatch, IntentField, NameOptions,
    PatchView, StyleIntent,
};

verus! {

/// A value of a loosely typed patch entry, as a client sends it.
#[derive(Debug, Clone)]
pub enum PatchValue {
    Null,
    Bool(bool),
    Text(String),
    Names(NameOptions),
}

pub enum PatchValueView {
    Null,
    Bool(bool),
    Text(Seq<char>),
    Names(NameOptions),
}

impl View for PatchValue {
    type V = PatchValueView;

    open spec fn view(&self) -> PatchValueView {
        match self {
            PatchValue::Null => PatchValueView::Null,
            PatchValue::Bool(b) => PatchValueView::Bool(*b),
            PatchValue::Text(s) => PatchValueView::Text(s@),
            PatchValue::Names(n) => PatchValueView::Names(*n),
        }
    }
}

/// One key of a loosely typed patch, with its value.
#[derive(Debug, Clone)]
pub struct PatchEntry {
    pub key: String,
    pub value: PatchValue,
}

impl View for PatchEntry {
    type V = (Seq<char>, PatchValueView);

    open spec fn view(&self) -> (Seq<char>, PatchValueView) {
        (self.key@, self.value@)
    }
}

/// A patch entry names a known field with a value of the wrong shape.
#[derive(Debug, Clone, Copy, PartialEq, Eq, Structural)]
pub enum ValidationError {
    UnexpectedValue(IntentField),
}

/// The field that a patch key names; `None` for an unknown key.
pub open spec fn field_named(k: Seq<char>) -> Option<IntentField> {
    if k == "base_archetype"@ {
        Some(IntentField::BaseArchetype)
    } else if k == "field"@ {
        Some(IntentField::Field)
    } else if k == "class"@ {
        Some(IntentField::Class)
    } else if k == "author_format"@ {
        Some(IntentField::AuthorFormat)
    } else if k == "has_bibliography"@ {
        Some(IntentField::HasBibliography)
    } else if k == "citation_preset"@ {
        Some(IntentField::CitationPreset)
    } else if k == "bibliography_preset"@ {
        Some(IntentField::BibliographyPreset)
    } else if k == "detailed_config"@ {
        Some(IntentField::DetailedConfig)
    } else {
        None
    }
}

pub open spec fn academic_field_named(s: Seq<char>) -> Option<AcademicField> {
    if s == "humanities"@ {
        Some(AcademicField::Humanities)
    } else if s == "social_science"@ {
        Some(AcademicField::SocialScience)
    } else if s == "sciences"@ {
        Some(AcademicField::Sciences)
    } else {
        None
    }
}

pub open spec fn class_named(s: Seq<char>) -> Option<CitationClass> {
    if s == "author_date"@ {
        Some(CitationClass::AuthorDate)
    } else if s == "footnote"@ {
        Some(CitationClass::Footnote)
    } else if s == "endnote"@ {
        Some(CitationClass::Endnote)
    } else if s == "numeric"@ {
        Some(CitationClass::Numeric)
    } else {
        None
    }
}

/// The typed patch for a value of field `f`; `None` when the value does not fit the field.
pub open spec fn typed_patch(f: IntentField, v: PatchValueView) -> Option<PatchView> {
    match (f, v) {
        (IntentField::BaseArchetype, PatchValueView::Text(s)) => Some(PatchView::BaseArchetype(s)),
        (IntentField::Field, PatchValueView::Text(s)) => match academic_field_named(s) {
            Some(a) => Some(PatchView::Field(a)),
            None => None,
        },
        (IntentField::Class, PatchValueView::Text(s)) => match class_named(s) {
            Some(c) => Some(PatchView::Class(c)),
            None => None,
        },
        (IntentField::AuthorFormat, PatchValueView::Names(n)) => Some(PatchView::AuthorFormat(n)),
        (IntentField::HasBibliography, PatchValueView::Bool(b)) => Some(
            PatchView::HasBibliography(b),
        ),
        (IntentField::CitationPreset, PatchValueView::Text(s)) => Some(PatchView::CitationPreset(s)),
        (IntentField::BibliographyPreset, PatchValueView::Text(s)) => Some(
            PatchView::BibliographyPreset(s),
        ),
        (IntentField::DetailedConfig, PatchValueView::Bool(b)) => Some(PatchView::DetailedConfig(b)),
        _ => None,
    }
}

/// An entry read as a typed patch: unknown keys give no patch, values of the
/// wrong shape an error.
pub open spec fn entry_patch(e: (Seq<char>, PatchValueView)) -> Result<
    Option<PatchView>,
    ValidationError,
> {
    match field_named(e.0) {
        None => Ok(None),
        Some(f) => match typed_patch(f, e.1) {
            Some(p) => Ok(Some(p)),
            None => Err(ValidationError::UnexpectedValue(f)),
        },
    }
}

/// The typed patches of a loosely typed patch, in order, or the error of its
/// first malformed entry.
pub open spec fn entries_patches(es: Seq<(Seq<char>, PatchValueView)>) -> Result<
    Seq<PatchView>,
    ValidationError,
>
    decreases es.len(),
{
    if es.len() == 0 {
        Ok(Seq::empty())
    } else {
        match entries_patches(es.drop_last()) {
            Err(e) => Err(e),
            Ok(ps) => match entry_patch(es.last()) {
                Err(e) => Err(e),
                Ok(None) => Ok(ps),
                Ok(Some(p)) => Ok(ps.push(p)),
            },
        }
    }
}

pub open spec fn entry_views(es: Seq<PatchEntry>) -> Seq<(Seq<char>, PatchValueView)> {
    es.map_values(|e: PatchEntry| e@)
}

fn same_text(a: &String, b: &str) -> (r: bool)
    ensures
        r == (a@ == b@),
{
    *a == String::from_str(b)
}

fn field_named_exec(k: &String) -> (r: Option<IntentField>)
    ensures
        r == field_named(k@),
{
    if same_text(k, "base_archetype") {
        Some(IntentField::BaseArchetype)
    } else if same_text(k, "field") {
        Some(IntentField::Field)
    } else if same_text(k, "class") {
        Some(IntentField::Class)
    } else if same_text(k, "author_format") {
        Some(IntentField::AuthorFormat)
    } else if same_text(k, "has_bibliography") {
        Some(IntentField::HasBibliography)
    } else if same_text(k, "citation_preset") {
        Some(IntentField::CitationPreset)
    } else if same_text(k, "bibliography_preset") {
        Some(IntentField::BibliographyPreset)
    } else if same_text(k, "detailed_config") {
        Some(IntentField::DetailedConfig)
    } else {
        None
    }
}

fn academic_field_named_exec(s: &String) -> (r: Option<AcademicField>)
    ensures
        r == academic_field_named(s@),
{
    if same_text(s, "humanities") {
        Some(AcademicField::Humanities)
    } else if same_text(s, "social_science") {
        Some(AcademicField::SocialScience)
    } else if same_text(s, "sciences") {
        Some(AcademicField::Sciences)
    } else {
        None
    }
}

fn class_named_exec(s: &String) -> (r: Option<CitationClass>)
    ensures
        r == class_named(s@),
{
    if same_text(s, "author_date") {
        Some(CitationClass::AuthorDate)
    } else if same_text(s, "footnote") {
        Some(CitationClass::Footnote)
    } else if same_text(s, "endnote") {
        Some(CitationClass::Endnote)
    } else if same_text(s, "numeric") {
        Some(CitationClass::Numeric)
    } else {
        None
    }
}

fn typed_patch_exec(f: IntentField, v: &PatchValue) -> (r: Option<FieldPatch>)
    ensures
        match r {
            Some(p) => typed_patch(f, v@) == Some(p@),
            None => typed_patch(f, v@) is None,
        },
{
    match (f, v) {
        (IntentField::BaseArchetype, PatchValue::Text(s)) => Some(FieldPatch::BaseArchetype(s.clone())),
        (IntentField::Field, PatchValue::Text(s)) => match academic_field_named_exec(s) {
            Some(a) => Some(FieldPatch::Field(a)),
            None => None,
        },
        (IntentField::Class, PatchValue::Text(s)) => match class_named_exec(s) {
            Some(c) => Some(FieldPatch::Class(c)),
            None => None,
        },
        (IntentField::AuthorFormat, PatchValue::Names(n)) => Some(FieldPatch::AuthorFormat(*n)),
        (IntentField::HasBibliography, PatchValue::Bool(b)) => Some(FieldPatch::HasBibliography(*b)),
        (IntentField::CitationPreset, PatchValue::Text(s)) => Some(FieldPatch::CitationPreset(s.clone())),
        (IntentField::BibliographyPreset, PatchValue::Text(s)) => Some(
            FieldPatch::BibliographyPreset(s.clone()),
        ),
        (IntentField::DetailedConfig, PatchValue::Bool(b)) => Some(FieldPatch::DetailedConfig(*b)),
        _ => None,
    }
}

impl FieldPatch {
    /// Reads one loosely typed entry: `Ok(None)` for an unknown key, an error
    /// for a known key whose value does not fit the field.
    pub fn from_entry(entry: &PatchEntry) -> (r: Result<Option<FieldPatch>, ValidationError>)
        ensures
            match r {
                Ok(Some(p)) => entry_patch(entry@) == Ok::<Option<PatchView>, ValidationError>(
                    Some(p@),
                ),
                Ok(None) => entry_patch(entry@) == Ok::<Option<PatchView>, ValidationError>(None),
                Err(e) => entry_patch(entry@) == Err::<Option<PatchView>, ValidationError>(e),
            },
    {
        match field_named_exec(&entry.key) {
            None => Ok(None),
            Some(f) => match typed_patch_exec(f, &entry.value) {
                Some(p) => Ok(Some(p)),
                None => Err(ValidationError::UnexpectedValue(f)),
            },
        }
    }
}

/// Once a prefix of the entries has a malformed entry, so has the whole patch.
proof fn lemma_error_stays(es: Seq<(Seq<char>, PatchValueView)>, n: int, e: ValidationError)
    requires
        0 <= n <= es.len(),
        entries_patches(es.take(n)) == Err::<Seq<PatchView>, ValidationError>(e),
    ensures
        entries_patches(es) == Err::<Seq<PatchView>, ValidationError>(e),
    decreases es.len() - n,
{
    if n == es.len() {
        assert(es.take(n) =~= es);
    } else {
        assert(es.drop_last().take(n) =~= es.take(n));
        lemma_error_stays(es.drop_last(), n, e);
    }
}

impl StyleIntent {
    /// Merges a loosely typed patch. Either every entry is well formed and the
    /// typed patches are merged in order (unknown keys are skipped), or the
    /// error of the first malformed entry is returned and nothing is changed.
    pub fn merge_entries(&mut self, entries: &Vec<PatchEntry>) -> (r: Result<(), ValidationError>)
        ensures
            match entries_patches(entry_views(entries@)) {
                Ok(ps) => r is Ok && final(self)@ == apply_patches(old(self)@, ps),
                Err(e) => r == Err::<(), ValidationError>(e) && final(self)@ == old(self)@,
            },
    {
        let ghost all = entry_views(entries@);
        let mut patches: Vec<FieldPatch> = Vec::new();
        let mut k: usize = 0;
        assert(all.take(0) =~= Seq::<(Seq<char>, PatchValueView)>::empty());
        assert(patch_views(patches@) =~= Seq::<PatchView>::empty());
        while k < entries.len()
            invariant
                k <= entries@.len(),
                all == entry_views(entries@),
                entries_patches(all.take(k as int)) == Ok::<Seq<PatchView>, ValidationError>(
                    patch_views(patches@),
                ),
            decreases entries@.len() - k,
        {
            let ghost done = all.take(k as int + 1);
            let ghost prev = patch_views(patches@);
            proof {
                assert(done.drop_last() =~= all.take(k as int));
                assert(done.last() == entries@[k as int]@);
            }
            match FieldPatch::from_entry(&entries[k]) {
                Err(e) => {
                    proof {
                        lemma_error_stays(all, k as int + 1, e);
                    }
                    return Err(e);
                },
                Ok(None) => {},
                Ok(Some(p)) => {
                    patches.push(p);
                    assert(patch_views(patches@) =~= prev.push(p@));
                },
            }
            k = k + 1;
        }
        assert(all.take(k as int) =~= all);
        self.merge(&patches);
        Ok(())
    }
}

} // verus!
