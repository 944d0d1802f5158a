use vstd::prelude::*;
use crate::decision::{class_step, decision_of, options_of, pending_step, step_field, Step};
use crate::intent::{
    apply_patch, apply_patches, is_set, patch_field, CitationClass, EtAlConfig, IntentField,
    IntentView, PatchView,
};
use crate::synth::{
    style_of, Config, ContributorConfig, ShortenListOptions, TemplatePreset, WrapPunctuation,
};

verus! {

/// Deciding and compiling depend on the intent alone: equal intents give
/// equal decision packages and equal styles, call after call.
pub proof fn lemma_deterministic(a: IntentView, b: IntentView)
    requires
        a == b,
    ensures
        decision_of(a) == decision_of(b),
        style_of(a) == style_of(b),
{
}

/// The engine never asks for a field that is already set.
pub proof fn lemma_never_asks_set_field(i: IntentView)
    ensures
        pending_step(i) matches Some(s) ==> !is_set(i, step_field(s)),
{
}

/// Merging patches never unsets a field.
pub proof fn lemma_patches_keep_set(i: IntentView, ps: Seq<PatchView>, f: IntentField)
    requires
        is_set(i, f),
    ensures
        is_set(apply_patches(i, ps), f),
    decreases ps.len(),
{
    if ps.len() > 0 {
        lemma_patches_keep_set(i, ps.drop_last(), f);
    }
}

/// After merging patches, the field of each of them is set.
pub proof fn lemma_patches_set(i: IntentView, ps: Seq<PatchView>, k: int)
    requires
        0 <= k < ps.len(),
    ensures
        is_set(apply_patches(i, ps), patch_field(ps[k])),
    decreases ps.len(),
{
    if k < ps.len() - 1 {
        lemma_patches_set(i, ps.drop_last(), k);
        assert(ps.drop_last()[k] == ps[k]);
        let before = apply_patches(i, ps.drop_last());
        assert(is_set(apply_patch(before, ps.last()), patch_field(ps[k])));
    }
}

proof fn lemma_option_sets_asked_field(s: Step, k: int)
    requires
        0 <= k < options_of(s).len(),
    ensures
        options_of(s)[k].choice_value.len() > 0,
        patch_field(options_of(s)[k].choice_value[0]) == step_field(s),
{
}

/// Every answer writes only the field its question asks for, except that a
/// bibliography layout also records that there is a bibliography.
pub proof fn lemma_answers_touch_only_their_field(s: Step, k: int, j: int)
    requires
        0 <= k < options_of(s).len(),
        0 <= j < options_of(s)[k].choice_value.len(),
    ensures
        patch_field(options_of(s)[k].choice_value[j]) == step_field(s) || (s
            == Step::BibliographyPreset && patch_field(options_of(s)[k].choice_value[j])
            == IntentField::HasBibliography),
{
}

/// Choosing any answer offered for the next question sets the field that
/// question asks for; from then on, whatever else is merged, the engine does
/// not ask for that field again.
pub proof fn lemma_answer_progresses(i: IntentView, k: int, later: Seq<PatchView>)
    requires
        pending_step(i) is Some,
        0 <= k < options_of(pending_step(i)->0).len(),
    ensures
        ({
            let s = pending_step(i)->0;
            let next = apply_patches(
                apply_patches(i, options_of(s)[k].choice_value),
                later,
            );
            &&& is_set(next, step_field(s))
            &&& pending_step(next) matches Some(t) ==> step_field(t) != step_field(s)
        }),
{
    let s = pending_step(i)->0;
    let answer = options_of(s)[k].choice_value;
    lemma_option_sets_asked_field(s, k);
    lemma_patches_set(i, answer, 0);
    let after = apply_patches(i, answer);
    lemma_patches_keep_set(after, later, step_field(s));
    lemma_never_asks_set_field(apply_patches(after, later));
}

/// The answers of the tree for class `c` that intent `i` has all given.
pub open spec fn branch_exhausted(c: CitationClass, i: IntentView) -> bool {
    match c {
        CitationClass::AuthorDate => {
            &&& i.citation_preset is Some
            &&& i.bibliography_preset is Some
            &&& i.detailed_config is Some
            &&& (i.detailed_config == Some(false) || i.author_format is Some)
        },
        CitationClass::Footnote => i.has_bibliography is Some && i.author_format is Some,
        CitationClass::Numeric => i.author_format is Some,
        CitationClass::Endnote => i.author_format is Some,
    }
}

/// There is no question exactly when field and class are set and the
/// branch of the class has been answered in full.
pub proof fn lemma_terminal(i: IntentView)
    ensures
        decision_of(i).question is None <==> (i.field is Some && i.class is Some
            && branch_exhausted(i.class->0, i)),
        decision_of(i).question is None ==> decision_of(i).previews.len() == 0,
{
    if i.field is Some && i.class is Some {
        assert(pending_step(i) == class_step(i.class->0, i));
        if i.detailed_config is Some && i.detailed_config != Some(true) {
            assert(i.detailed_config == Some(false));
        }
    }
}

/// The preset table: numeric styles use Vancouver, note styles the Chicago
/// author-date preset, author-date styles APA unless the bibliography layout
/// is "flat"; only author-date citations are wrapped, in parentheses. The
/// bibliography, present only when asked for, repeats the citation's preset
/// and options.
pub proof fn lemma_preset_table(i: IntentView)
    ensures
        ({
            let c = style_of(i).citation;
            let b = style_of(i).bibliography;
            &&& i.class is None ==> c is None && b is None
            &&& i.class is Some ==> c is Some
            &&& i.class == Some(CitationClass::Numeric) ==> c->0.use_preset == Some(
                TemplatePreset::Vancouver,
            ) && c->0.wrap is None
            &&& (i.class == Some(CitationClass::Footnote) || i.class == Some(
                CitationClass::Endnote,
            )) ==> c->0.use_preset == Some(TemplatePreset::ChicagoAuthorDate) && c->0.wrap is None
            &&& (i.class == Some(CitationClass::AuthorDate) && i.bibliography_preset == Some(
                "flat"@,
            )) ==> c->0.use_preset == Some(TemplatePreset::ChicagoAuthorDate)
            &&& (i.class == Some(CitationClass::AuthorDate) && i.bibliography_preset != Some(
                "flat"@,
            )) ==> c->0.use_preset == Some(TemplatePreset::Apa)
            &&& i.class == Some(CitationClass::AuthorDate) ==> c->0.wrap == Some(
                WrapPunctuation::Parentheses,
            )
            &&& (i.class is Some && i.has_bibliography == Some(true)) ==> b is Some
                && b->0.use_preset == c->0.use_preset && b->0.options == c->0.options
            &&& i.has_bibliography != Some(true) ==> b is None
        }),
{
}

/// The truncation rule of the author format reaches the citation options unchanged.
pub proof fn lemma_truncation_mapping(i: IntentView, e: EtAlConfig)
    requires
        i.class is Some,
        i.author_format is Some,
        i.author_format->0.et_al == Some(e),
    ensures
        style_of(i).citation->0.options == Some(
            Config {
                contributors: Some(
                    ContributorConfig {
                        shorten: Some(ShortenListOptions { min: e.min, use_first: e.use_first }),
                    },
                ),
            },
        ),
{
}

/// Without a truncation rule in the author format, the citation carries no options.
pub proof fn lemma_no_truncation(i: IntentView)
    requires
        i.class is Some,
        i.author_format is None || i.author_format->0.et_al is None,
    ensures
        style_of(i).citation->0.options is None,
{
}

} // verus!
