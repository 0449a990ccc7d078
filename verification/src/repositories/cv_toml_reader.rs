//! The TOML-backed resume repository: it parses one source text per
//! language, fails fast on the first language whose source cannot be read
//! or does not fit the schema, and afterwards serves deep copies of the
//! three cached resumes.

use vstd::prelude::*;
use vstd::string::StringExecFns;
use crate::models::{code_spec, Language, Resume, ResumeV};
use crate::schema::{parse_resume, text_resume};

verus! {

/// Why a resume could not be loaded: its source file could not be read, or
/// its text does not describe a resume. Either way the failing language
/// and the underlying detail are kept.
#[derive(Debug, PartialEq)]
pub enum RepoError {
    FileRead { lang: Language, detail: String },
    Parse { lang: Language, detail: String },
}

impl RepoError {
    /// The language whose resume failed to load.
    pub fn language(&self) -> (r: Language)
        ensures
            r == match *self {
                RepoError::FileRead { lang, .. } => lang,
                RepoError::Parse { lang, .. } => lang,
            },
    {
        match self {
            RepoError::FileRead { lang, .. } => *lang,
            RepoError::Parse { lang, .. } => *lang,
        }
    }

    /// The underlying detail text.
    pub fn detail(&self) -> (r: &String)
        ensures
            *r == match *self {
                RepoError::FileRead { detail, .. } => detail,
                RepoError::Parse { detail, .. } => detail,
            },
    {
        match self {
            RepoError::FileRead { detail, .. } => detail,
            RepoError::Parse { detail, .. } => detail,
        }
    }
}

/// Whether a read source text describes a resume.
pub open spec fn src_loads(src: Result<String, String>) -> bool {
    match src {
        Result::Ok(t) => text_resume(t@) is Some,
        Result::Err(_) => false,
    }
}

/// The resume that a read source text describes, if any.
pub open spec fn src_resume(src: Result<String, String>) -> Option<ResumeV> {
    match src {
        Result::Ok(t) => text_resume(t@),
        Result::Err(_) => Option::None,
    }
}

/// Whether `e` reports exactly how loading a language's source failed: a
/// read failure keeps the reader's message, a schema failure names the
/// language whose text did not parse.
pub open spec fn load_error_is(lang: Language, src: Result<String, String>, e: RepoError) -> bool {
    match e {
        RepoError::FileRead { lang: l, detail } => l == lang && (src matches Result::Err(m)
            && detail@ == m@),
        RepoError::Parse { lang: l, detail: _ } => l == lang && (src matches Result::Ok(t)
            && text_resume(t@) is None),
    }
}

/// The path of a language's source file under an assets directory.
pub fn resume_path(assets_path: &str, lang: &Language) -> (r: String)
    ensures
        r@ == assets_path@ + "/resume_"@ + code_spec(*lang) + ".toml"@,
{
    let mut p = assets_path.to_owned();
    p.append("/resume_");
    p.append(lang.code());
    p.append(".toml");
    p
}

/// Loads one language's resume from its read source text.
fn load_one(lang: Language, src: Result<String, String>) -> (r: Result<Resume, RepoError>)
    ensures
        r is Ok <==> src_loads(src),
        match r {
            Result::Ok(res) => src_resume(src) == Option::Some(res.deep_view()),
            Result::Err(e) => load_error_is(lang, src, e),
        },
{
    match src {
        Result::Ok(text) => match parse_resume(text.as_str()) {
            Result::Ok(res) => Result::Ok(res),
            Result::Err(detail) => Result::Err(RepoError::Parse { lang, detail }),
        },
        Result::Err(detail) => Result::Err(RepoError::FileRead { lang, detail }),
    }
}

/// A repository that serves resumes by language. Every language of the
/// closed set is available, or the repository does not exist at all.
pub trait ResumeRepository {
    /// The deep view of the resume cached for a language, if one is cached.
    spec fn cached_resume(&self, lang: Language) -> Option<ResumeV>;

    /// A deep copy of the cached resume for a language.
    fn get_resume(&self, lang: &Language) -> (r: Option<Resume>)
        ensures
            match (r, self.cached_resume(*lang)) {
                (Option::Some(res), Option::Some(v)) => res.deep_view() == v,
                (Option::None, Option::None) => true,
                _ => false,
            },
    ;

    /// Loads a language's resume afresh from a newly read source text,
    /// bypassing the cache.
    fn load_resume(&self, lang: &Language, src: Result<String, String>) -> (r: Result<
        Resume,
        RepoError,
    >)
        ensures
            r is Ok <==> src_loads(src),
            match r {
                Result::Ok(res) => src_resume(src) == Option::Some(res.deep_view()),
                Result::Err(e) => load_error_is(*lang, src, e),
            },
    ;
}

/// The TOML-backed repository: one parsed resume per language, all three
/// loaded eagerly at construction.
#[derive(Debug)]
pub struct TomlResumeRepository {
    pub assets_path: String,
    pub russian: Resume,
    pub english: Resume,
    pub thai: Resume,
}

impl TomlResumeRepository {
    /// The deep view of the resume held for a language.
    pub open spec fn resume_view(&self, lang: Language) -> ResumeV {
        match lang {
            Language::Russian => self.russian.deep_view(),
            Language::English => self.english.deep_view(),
            Language::Thai => self.thai.deep_view(),
        }
    }

    /// Builds the repository from the three read source texts, in the fixed
    /// order Russian, English, Thai. The first source that cannot be read
    /// or does not fit the schema aborts construction with its error: there
    /// is no partial repository.
    pub fn new(
        assets_path: String,
        russian_src: Result<String, String>,
        english_src: Result<String, String>,
        thai_src: Result<String, String>,
    ) -> (r: Result<TomlResumeRepository, RepoError>)
        ensures
            r is Ok <==> src_loads(russian_src) && src_loads(english_src) && src_loads(thai_src),
            match r {
                Result::Ok(repo) => {
                    &&& repo.assets_path@ == assets_path@
                    &&& Option::Some(repo.resume_view(Language::Russian)) == src_resume(
                        russian_src,
                    )
                    &&& Option::Some(repo.resume_view(Language::English)) == src_resume(
                        english_src,
                    )
                    &&& Option::Some(repo.resume_view(Language::Thai)) == src_resume(thai_src)
                },
                Result::Err(e) => if !src_loads(russian_src) {
                    load_error_is(Language::Russian, russian_src, e)
                } else if !src_loads(english_src) {
                    load_error_is(Language::English, english_src, e)
                } else {
                    load_error_is(Language::Thai, thai_src, e)
                },
            },
    {
        let russian = match load_one(Language::Russian, russian_src) {
            Result::Ok(res) => res,
            Result::Err(e) => return Result::Err(e),
        };
        let english = match load_one(Language::English, english_src) {
            Result::Ok(res) => res,
            Result::Err(e) => return Result::Err(e),
        };
        let thai = match load_one(Language::Thai, thai_src) {
            Result::Ok(res) => res,
            Result::Err(e) => return Result::Err(e),
        };
        Result::Ok(TomlResumeRepository { assets_path, russian, english, thai })
    }

    /// The path of a language's source file under the assets directory.
    pub fn resume_file_path(&self, lang: &Language) -> (r: String)
        ensures
            r@ == self.assets_path@ + "/resume_"@ + code_spec(*lang) + ".toml"@,
    {
        resume_path(self.assets_path.as_str(), lang)
    }
}

impl Clone for TomlResumeRepository {
    /// A clone keeps the assets path and every cached resume.
    fn clone(&self) -> (r: Self)
        ensures
            r.assets_path@ == self.assets_path@,
            forall|lang: Language| r.resume_view(lang) == self.resume_view(lang),
    {
        TomlResumeRepository {
            assets_path: self.assets_path.clone(),
            russian: self.russian.clone(),
            english: self.english.clone(),
            thai: self.thai.clone(),
        }
    }
}

impl ResumeRepository for TomlResumeRepository {
    /// Every language of the closed set is cached: the cache is total.
    open spec fn cached_resume(&self, lang: Language) -> Option<ResumeV> {
        Option::Some(self.resume_view(lang))
    }

    fn get_resume(&self, lang: &Language) -> (r: Option<Resume>) {
        match lang {
            Language::Russian => Option::Some(self.russian.clone()),
            Language::English => Option::Some(self.english.clone()),
            Language::Thai => Option::Some(self.thai.clone()),
        }
    }

    fn load_resume(&self, lang: &Language, src: Result<String, String>) -> (r: Result<
        Resume,
        RepoError,
    >) {
        load_one(*lang, src)
    }
}

} // verus!
