use vstd::prelude::*;
use crate::intent::{opt_str_view, CitationClass, IntentView, StyleIntent};

verus! {

/// A named bundle of formatting defaults.
#[derive(Debug, Clone, Copy, PartialEq, Eq, Structural)]
pub enum TemplatePreset {
    Apa,
    Vancouver,
    ChicagoAuthorDate,
}

/// Punctuation placed around an in-text citation.
#[derive(Debug, Clone, Copy, PartialEq, Eq, Structural)]
pub enum WrapPunctuation {
    /// No punctuation around the citation.
    Plain,
    Parentheses,
}

/// Author-list truncation in a style.
#[derive(Debug, Clone, Copy, PartialEq, Eq, Structural)]
pub struct ShortenListOptions {
    pub min: u8,
    pub use_first: u8,
}

#[derive(Debug, Clone, Copy, PartialEq, Eq, Structural)]
pub struct ContributorConfig {
    pub shorten: Option<ShortenListOptions>,
}

/// Options shared by the citation and bibliography parts of a style.
#[derive(Debug, Clone, Copy, PartialEq, Eq, Structural)]
pub struct Config {
    pub contributors: Option<ContributorConfig>,
}

#[derive(Debug, Clone, Copy, PartialEq, Eq, Structural)]
pub struct CitationSpec {
    pub use_preset: Option<TemplatePreset>,
    pub wrap: Option<WrapPunctuation>,
    pub options: Option<Config>,
}

#[derive(Debug, Clone, Copy, PartialEq, Eq, Structural)]
pub struct BibliographySpec {
    pub use_preset: Option<TemplatePreset>,
    pub options: Option<Config>,
}

/// Metadata of a style.
#[derive(Debug, Clone)]
pub struct StyleInfo {
    pub id: Option<String>,
    pub title: Option<String>,
}

/// A style specification, as consumed by a citation renderer.
#[derive(Debug, Clone)]
pub struct StyleSpec {
    pub info: StyleInfo,
    pub citation: Option<CitationSpec>,
    pub bibliography: Option<BibliographySpec>,
}

pub struct StyleView {
    pub id: Option<Seq<char>>,
    pub title: Option<Seq<char>>,
    pub citation: Option<CitationSpec>,
    pub bibliography: Option<BibliographySpec>,
}

impl View for StyleSpec {
    type V = StyleView;

    open spec fn view(&self) -> StyleView {
        StyleView {
            id: opt_str_view(self.info.id),
            title: opt_str_view(self.info.title),
            citation: self.citation,
            bibliography: self.bibliography,
        }
    }
}

/// The preset chosen for intent `i`, by class and, for author-date, by bibliography layout.
pub open spec fn preset_of(i: IntentView) -> Option<TemplatePreset> {
    match i.class {
        Some(CitationClass::Numeric) => Some(TemplatePreset::Vancouver),
        Some(CitationClass::Footnote) | Some(CitationClass::Endnote) => Some(
            TemplatePreset::ChicagoAuthorDate,
        ),
        Some(CitationClass::AuthorDate) => if i.bibliography_preset == Some("flat"@) {
            Some(TemplatePreset::ChicagoAuthorDate)
        } else {
            Some(TemplatePreset::Apa)
        },
        None => None,
    }
}

/// Parentheses for author-date citations, no wrapping otherwise.
pub open spec fn wrap_of(i: IntentView) -> Option<WrapPunctuation> {
    if i.class == Some(CitationClass::AuthorDate) {
        Some(WrapPunctuation::Parentheses)
    } else {
        None
    }
}

/// The truncation rule of the author format, when it has one.
pub open spec fn shorten_options_of(i: IntentView) -> Option<Config> {
    match i.author_format {
        Some(n) => match n.et_al {
            Some(e) => Some(
                Config {
                    contributors: Some(
                        ContributorConfig {
                            shorten: Some(ShortenListOptions { min: e.min, use_first: e.use_first }),
                        },
                    ),
                },
            ),
            None => None,
        },
        None => None,
    }
}

/// The style that `to_style` makes of intent `i`.
pub open spec fn style_of(i: IntentView) -> StyleView {
    let preset = preset_of(i);
    StyleView {
        id: Some("custom-style"@),
        title: Some("Custom Style"@),
        citation: match preset {
            Some(p) => Some(
                CitationSpec { use_preset: Some(p), wrap: wrap_of(i), options: shorten_options_of(i) },
            ),
            None => None,
        },
        bibliography: match preset {
            Some(p) => if i.has_bibliography == Some(true) {
                Some(BibliographySpec { use_preset: Some(p), options: shorten_options_of(i) })
            } else {
                None
            },
            None => None,
        },
    }
}

impl StyleIntent {
    fn preset(&self) -> (r: Option<TemplatePreset>)
        ensures
            r == preset_of(self@),
    {
        match self.class {
            Some(CitationClass::Numeric) => Some(TemplatePreset::Vancouver),
            Some(CitationClass::Footnote) | Some(CitationClass::Endnote) => Some(
                TemplatePreset::ChicagoAuthorDate,
            ),
            Some(CitationClass::AuthorDate) => {
                let flat = String::from_str("flat");
                let is_flat = match &self.bibliography_preset {
                    Some(b) => *b == flat,
                    None => false,
                };
                if is_flat {
                    Some(TemplatePreset::ChicagoAuthorDate)
                } else {
                    Some(TemplatePreset::Apa)
                }
            },
            None => None,
        }
    }

    fn style_options(&self) -> (r: Option<Config>)
        ensures
            r == shorten_options_of(self@),
    {
        match self.author_format {
            Some(n) => match n.et_al {
                Some(e) => Some(
                    Config {
                        contributors: Some(
                            ContributorConfig {
                                shorten: Some(
                                    ShortenListOptions { min: e.min, use_first: e.use_first },
                                ),
                            },
                        ),
                    },
                ),
                None => None,
            },
            None => None,
        }
    }

    /// Compiles the intent into a style specification. Unset fields leave the
    /// matching parts of the specification out; without a class there is
    /// neither a citation nor a bibliography part.
    pub fn to_style(&self) -> (r: StyleSpec)
        ensures
            r@ == style_of(self@),
    {
        let info = StyleInfo {
            id: Some(String::from_str("custom-style")),
            title: Some(String::from_str("Custom Style")),
        };
        let mut style = StyleSpec { info, citation: None, bibliography: None };
        if let Some(p) = self.preset() {
            let wrap = match self.class {
                Some(CitationClass::AuthorDate) => Some(WrapPunctuation::Parentheses),
                _ => None,
            };
            let options = self.style_options();
            style.citation = Some(CitationSpec { use_preset: Some(p), wrap, options });
            if self.has_bibliography == Some(true) {
                style.bibliography = Some(BibliographySpec { use_preset: Some(p), options });
            }
        }
        style
    }
}

} // verus!
