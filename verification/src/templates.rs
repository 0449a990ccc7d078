//! What a renderer needs: the bound template data, and the small decisions
//! a renderer or the static build must make — which label replaces an
//! absent end date, and where each language's page is written.

use vstd::prelude::*;
use vstd::string::StringExecFns;
use crate::models::{
    code_spec, translation_is, Language, Resume, TemplateTranslation, WorkExperience,
};

verus! {

/// The data a renderer binds into the resume page: the resume, the label
/// table, and the page's language code.
#[derive(Debug)]
pub struct CvTemplate {
    pub resume: Resume,
    pub t: TemplateTranslation,
    pub lang: String,
}

/// Wraps template data for a host that turns rendered pages into
/// responses.
#[derive(Debug)]
pub struct HtmlTemplate<T>(pub T);

impl CvTemplate {
    /// Binds a resume and a language into template data: the language's own
    /// label table and its short code ride along with the resume.
    pub fn new(lang: &Language, resume: Resume) -> (r: CvTemplate)
        ensures
            r.resume == resume,
            translation_is(r.t, *lang),
            r.lang@ == code_spec(*lang),
    {
        CvTemplate {
            resume,
            t: TemplateTranslation::new(lang),
            lang: lang.code().to_owned(),
        }
    }
}

impl WorkExperience {
    /// The text shown where an entry's end date belongs: the date itself,
    /// or the table's "present" label while the position is still held.
    pub fn end_date_text(&self, t: &TemplateTranslation) -> (r: String)
        ensures
            r@ == match self.end_date {
                Option::Some(d) => d@,
                Option::None => t.present@,
            },
    {
        match &self.end_date {
            Option::Some(d) => d.clone(),
            Option::None => t.present.clone(),
        }
    }
}

/// The file a language's page is written to under the output root.
pub fn static_output_path(root: &str, lang: &Language) -> (r: String)
    ensures
        r@ == root@ + "/"@ + code_spec(*lang) + "/index.html"@,
{
    let mut p = root.to_owned();
    p.append("/");
    p.append(lang.code());
    p.append("/index.html");
    p
}

/// The un-prefixed page at the output root, which duplicates the default
/// language's page.
pub fn root_output_path(root: &str) -> (r: String)
    ensures
        r@ == root@ + "/index.html"@,
{
    let mut p = root.to_owned();
    p.append("/index.html");
    p
}

/// Whether a language's page is duplicated to the un-prefixed root page:
/// only English, the build's default, is.
pub fn copies_to_root(lang: &Language) -> (r: bool)
    ensures
        r == (*lang == Language::English),
{
    match lang {
        Language::English => true,
        Language::Russian => false,
        Language::Thai => false,
    }
}

} // verus!
