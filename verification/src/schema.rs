//! The resume's TOML schema: which keys each section holds, which are
//! required, and what each defaults to. Reading a document into a `Resume`
//! and writing a `Resume` back out are both defined here, against the
//! mathematical document model.

use vstd::prelude::*;
use vstd::string::StringExecFns;
use crate::models::{
    Additional, AdditionalV, Education, EducationV, PersonalInfo, PersonalInfoV, Project,
    ProjectV, Resume, ResumeV, TechnicalSkills, TechnicalSkillsCategory,
    TechnicalSkillsCategoryV, TechnicalSkillsV, WorkExperience, WorkExperienceV,
};
use crate::toml_data::{
    doc_get, lemma_doc_get_push, parse_toml_text, tab_get, table_to_text, toml_doc, toml_text,
    val_is, TomlDoc, TomlVal,
};

verus! {

broadcast use vstd::string::group_string_axioms;

/// The text of a required string key, if the key is bound to text.
pub open spec fn req_str(es: Seq<(Seq<char>, TomlDoc)>, key: Seq<char>) -> Option<Seq<char>> {
    match doc_get(es, key) {
        Option::Some(d) => match d {
            TomlDoc::Text(s) => Option::Some(s),
            _ => Option::None,
        },
        Option::None => Option::None,
    }
}

/// The text of an optional string key: absence is allowed, a non-text
/// binding is not.
pub open spec fn opt_str(es: Seq<(Seq<char>, TomlDoc)>, key: Seq<char>) -> Option<
    Option<Seq<char>>,
> {
    match doc_get(es, key) {
        Option::Some(d) => match d {
            TomlDoc::Text(s) => Option::Some(Option::Some(s)),
            _ => Option::None,
        },
        Option::None => Option::Some(Option::None),
    }
}

/// The value of an optional boolean key: absence is allowed, a non-boolean
/// binding is not.
pub open spec fn opt_bool(es: Seq<(Seq<char>, TomlDoc)>, key: Seq<char>) -> Option<Option<bool>> {
    match doc_get(es, key) {
        Option::Some(d) => match d {
            TomlDoc::Bool(b) => Option::Some(Option::Some(b)),
            _ => Option::None,
        },
        Option::None => Option::Some(Option::None),
    }
}

/// Whether an integer lies in a year's range.
pub open spec fn year_in_range(i: int) -> bool {
    0 <= i <= u16::MAX
}

/// The value of a required year key, if it is an integer in range.
pub open spec fn req_year(es: Seq<(Seq<char>, TomlDoc)>, key: Seq<char>) -> Option<u16> {
    match doc_get(es, key) {
        Option::Some(d) => match d {
            TomlDoc::Int(i) => if year_in_range(i) {
                Option::Some(i as u16)
            } else {
                Option::None
            },
            _ => Option::None,
        },
        Option::None => Option::None,
    }
}

/// The value of an optional year key: absence is allowed, a non-integer or
/// out-of-range binding is not.
pub open spec fn opt_year(es: Seq<(Seq<char>, TomlDoc)>, key: Seq<char>) -> Option<Option<u16>> {
    match doc_get(es, key) {
        Option::Some(d) => match d {
            TomlDoc::Int(i) => if year_in_range(i) {
                Option::Some(Option::Some(i as u16))
            } else {
                Option::None
            },
            _ => Option::None,
        },
        Option::None => Option::Some(Option::None),
    }
}

/// The text of a text leaf; other documents yield the empty text.
pub open spec fn text_of(d: TomlDoc) -> Seq<char> {
    match d {
        TomlDoc::Text(s) => s,
        _ => Seq::empty(),
    }
}

/// A list of strings, if the document is an array of text leaves.
pub open spec fn str_seq(d: TomlDoc) -> Option<Seq<Seq<char>>> {
    match d {
        TomlDoc::Arr(items) => if forall|i: int| 0 <= i < items.len() ==> items[i] is Text {
            Option::Some(Seq::new(items.len(), |i: int| text_of(items[i])))
        } else {
            Option::None
        },
        _ => Option::None,
    }
}

/// A required list-of-strings key.
pub open spec fn req_str_list(es: Seq<(Seq<char>, TomlDoc)>, key: Seq<char>) -> Option<
    Seq<Seq<char>>,
> {
    match doc_get(es, key) {
        Option::Some(d) => str_seq(d),
        Option::None => Option::None,
    }
}

/// An optional list-of-strings key: absence is allowed.
pub open spec fn opt_str_list(es: Seq<(Seq<char>, TomlDoc)>, key: Seq<char>) -> Option<
    Option<Seq<Seq<char>>>,
> {
    match doc_get(es, key) {
        Option::Some(d) => match str_seq(d) {
            Option::Some(list) => Option::Some(Option::Some(list)),
            Option::None => Option::None,
        },
        Option::None => Option::Some(Option::None),
    }
}

/// The personal-information record that a document describes, if any.
pub open spec fn personal_of(d: TomlDoc) -> Option<PersonalInfoV> {
    match d {
        TomlDoc::Tab(es) => if req_str(es, "full_name"@) is Some && req_str(es, "title"@) is Some
            && req_str(es, "location"@) is Some && req_str(es, "email"@) is Some && opt_str(
            es,
            "telegram"@,
        ) is Some && opt_str(es, "github"@) is Some && opt_str(es, "linkedin"@) is Some {
            Option::Some(
                PersonalInfoV {
                    full_name: req_str(es, "full_name"@)->Some_0,
                    title: req_str(es, "title"@)->Some_0,
                    location: req_str(es, "location"@)->Some_0,
                    email: req_str(es, "email"@)->Some_0,
                    telegram: opt_str(es, "telegram"@)->Some_0,
                    github: opt_str(es, "github"@)->Some_0,
                    linkedin: opt_str(es, "linkedin"@)->Some_0,
                },
            )
        } else {
            Option::None
        },
        _ => Option::None,
    }
}

/// The skill category that a document describes, if any.
pub open spec fn category_of(d: TomlDoc) -> Option<TechnicalSkillsCategoryV> {
    match d {
        TomlDoc::Tab(es) => if req_str(es, "name"@) is Some && req_str_list(es, "skills"@)
            is Some {
            Option::Some(
                TechnicalSkillsCategoryV {
                    name: req_str(es, "name"@)->Some_0,
                    skills: req_str_list(es, "skills"@)->Some_0,
                },
            )
        } else {
            Option::None
        },
        _ => Option::None,
    }
}

/// The list of skill categories that a document describes, if any.
pub open spec fn category_seq_of(d: TomlDoc) -> Option<Seq<TechnicalSkillsCategoryV>> {
    match d {
        TomlDoc::Arr(items) => if forall|i: int|
            0 <= i < items.len() ==> category_of(#[trigger] items[i]) is Some {
            Option::Some(Seq::new(items.len(), |i: int| category_of(items[i])->Some_0))
        } else {
            Option::None
        },
        _ => Option::None,
    }
}

/// The skills section that a document describes, if any.
pub open spec fn skills_of(d: TomlDoc) -> Option<TechnicalSkillsV> {
    match d {
        TomlDoc::Tab(es) => match doc_get(es, "category_skills"@) {
            Option::Some(cd) => match category_seq_of(cd) {
                Option::Some(cats) => Option::Some(TechnicalSkillsV { category_skills: cats }),
                Option::None => Option::None,
            },
            Option::None => Option::None,
        },
        _ => Option::None,
    }
}

/// The work-experience entry that a document describes, if any.
pub open spec fn work_of(d: TomlDoc) -> Option<WorkExperienceV> {
    match d {
        TomlDoc::Tab(es) => if req_str(es, "company"@) is Some && req_str(es, "position"@) is Some
            && req_str(es, "start_date"@) is Some && opt_str(es, "end_date"@) is Some
            && req_str_list(es, "responsibilities"@) is Some {
            Option::Some(
                WorkExperienceV {
                    company: req_str(es, "company"@)->Some_0,
                    position: req_str(es, "position"@)->Some_0,
                    start_date: req_str(es, "start_date"@)->Some_0,
                    end_date: opt_str(es, "end_date"@)->Some_0,
                    responsibilities: req_str_list(es, "responsibilities"@)->Some_0,
                },
            )
        } else {
            Option::None
        },
        _ => Option::None,
    }
}

/// The list of work-experience entries that a document describes, if any.
pub open spec fn work_seq_of(d: TomlDoc) -> Option<Seq<WorkExperienceV>> {
    match d {
        TomlDoc::Arr(items) => if forall|i: int|
            0 <= i < items.len() ==> work_of(#[trigger] items[i]) is Some {
            Option::Some(Seq::new(items.len(), |i: int| work_of(items[i])->Some_0))
        } else {
            Option::None
        },
        _ => Option::None,
    }
}

/// The project entry that a document describes, if any.
pub open spec fn project_of(d: TomlDoc) -> Option<ProjectV> {
    match d {
        TomlDoc::Tab(es) => if req_str(es, "name"@) is Some && req_str(es, "description"@)
            is Some && req_str_list(es, "stack"@) is Some && req_str_list(es, "highlights"@)
            is Some && opt_str(es, "github_url"@) is Some {
            Option::Some(
                ProjectV {
                    name: req_str(es, "name"@)->Some_0,
                    description: req_str(es, "description"@)->Some_0,
                    stack: req_str_list(es, "stack"@)->Some_0,
                    highlights: req_str_list(es, "highlights"@)->Some_0,
                    github_url: opt_str(es, "github_url"@)->Some_0,
                },
            )
        } else {
            Option::None
        },
        _ => Option::None,
    }
}

/// The list of project entries that a document describes, if any.
pub open spec fn project_seq_of(d: TomlDoc) -> Option<Seq<ProjectV>> {
    match d {
        TomlDoc::Arr(items) => if forall|i: int|
            0 <= i < items.len() ==> project_of(#[trigger] items[i]) is Some {
            Option::Some(Seq::new(items.len(), |i: int| project_of(items[i])->Some_0))
        } else {
            Option::None
        },
        _ => Option::None,
    }
}

/// The education entry that a document describes, if any.
pub open spec fn education_of(d: TomlDoc) -> Option<EducationV> {
    match d {
        TomlDoc::Tab(es) => if req_str(es, "degree"@) is Some && req_str(es, "institution"@)
            is Some && req_year(es, "start_year"@) is Some && opt_year(es, "end_year"@) is Some {
            Option::Some(
                EducationV {
                    degree: req_str(es, "degree"@)->Some_0,
                    institution: req_str(es, "institution"@)->Some_0,
                    start_year: req_year(es, "start_year"@)->Some_0,
                    end_year: opt_year(es, "end_year"@)->Some_0,
                },
            )
        } else {
            Option::None
        },
        _ => Option::None,
    }
}

/// The list of education entries that a document describes, if any.
pub open spec fn education_seq_of(d: TomlDoc) -> Option<Seq<EducationV>> {
    match d {
        TomlDoc::Arr(items) => if forall|i: int|
            0 <= i < items.len() ==> education_of(#[trigger] items[i]) is Some {
            Option::Some(Seq::new(items.len(), |i: int| education_of(items[i])->Some_0))
        } else {
            Option::None
        },
        _ => Option::None,
    }
}

/// The additional-information block that a document describes, if any.
pub open spec fn additional_of(d: TomlDoc) -> Option<AdditionalV> {
    match d {
        TomlDoc::Tab(es) => if opt_str(es, "english_level"@) is Some && opt_bool(
            es,
            "relocation_ready"@,
        ) is Some && opt_str_list(es, "interests"@) is Some {
            Option::Some(
                AdditionalV {
                    english_level: opt_str(es, "english_level"@)->Some_0,
                    relocation_ready: opt_bool(es, "relocation_ready"@)->Some_0,
                    interests: opt_str_list(es, "interests"@)->Some_0,
                },
            )
        } else {
            Option::None
        },
        _ => Option::None,
    }
}

/// The whole resume that a document describes, if any: `projects` defaults
/// to the empty list and `additional` to absent; every other section is
/// required.
pub open spec fn resume_of_doc(d: TomlDoc) -> Option<ResumeV> {
    match d {
        TomlDoc::Tab(es) => {
            let personal = match doc_get(es, "personal_info"@) {
                Option::Some(pd) => personal_of(pd),
                Option::None => Option::None,
            };
            let skills = match doc_get(es, "technical_skills"@) {
                Option::Some(sd) => skills_of(sd),
                Option::None => Option::None,
            };
            let work = match doc_get(es, "work_experience"@) {
                Option::Some(wd) => work_seq_of(wd),
                Option::None => Option::None,
            };
            let projects = match doc_get(es, "projects"@) {
                Option::Some(pd) => project_seq_of(pd),
                Option::None => Option::Some(Seq::empty()),
            };
            let education = match doc_get(es, "education"@) {
                Option::Some(ed) => education_seq_of(ed),
                Option::None => Option::None,
            };
            let additional = match doc_get(es, "additional"@) {
                Option::Some(ad) => match additional_of(ad) {
                    Option::Some(a) => Option::Some(Option::Some(a)),
                    Option::None => Option::None,
                },
                Option::None => Option::Some(Option::None),
            };
            if personal is Some && req_str(es, "summary"@) is Some && skills is Some && work
                is Some && projects is Some && education is Some && additional is Some {
                Option::Some(
                    ResumeV {
                        personal_info: personal->Some_0,
                        summary: req_str(es, "summary"@)->Some_0,
                        technical_skills: skills->Some_0,
                        work_experience: work->Some_0,
                        projects: projects->Some_0,
                        education: education->Some_0,
                        additional: additional->Some_0,
                    },
                )
            } else {
                Option::None
            }
        },
        _ => Option::None,
    }
}

/// The resume that TOML text describes, if the text parses and fits the
/// schema.
pub open spec fn text_resume(text: Seq<char>) -> Option<ResumeV> {
    match toml_doc(text) {
        Option::Some(d) => resume_of_doc(d),
        Option::None => Option::None,
    }
}

} // verus!

verus! {

/// A schema-violation message naming the offending key or section.
fn schema_err(context: &str) -> (r: String)
    ensures
        r@ == "the resume schema is violated at "@ + context@,
{
    let mut s: String = "the resume schema is violated at ".to_owned();
    s.append(context);
    s
}

/// Reads a required string key.
fn get_req_str(
    entries: &Vec<(String, TomlVal)>,
    key: &str,
    Ghost(ds): Ghost<Seq<(Seq<char>, TomlDoc)>>,
) -> (r: Result<String, String>)
    requires
        val_is(TomlVal::Tab(*entries), TomlDoc::Tab(ds)),
    ensures
        match r {
            Result::Ok(s) => req_str(ds, key@) == Option::Some(s@),
            Result::Err(_) => req_str(ds, key@) is None,
        },
{
    match tab_get(entries, key, Ghost(ds)) {
        Option::Some(v) => match v {
            TomlVal::Text(s) => Result::Ok(s.clone()),
            _ => Result::Err(schema_err(key)),
        },
        Option::None => Result::Err(schema_err(key)),
    }
}

/// Reads an optional string key.
fn get_opt_str(
    entries: &Vec<(String, TomlVal)>,
    key: &str,
    Ghost(ds): Ghost<Seq<(Seq<char>, TomlDoc)>>,
) -> (r: Result<Option<String>, String>)
    requires
        val_is(TomlVal::Tab(*entries), TomlDoc::Tab(ds)),
    ensures
        match r {
            Result::Ok(o) => opt_str(ds, key@) == Option::Some(o.deep_view()),
            Result::Err(_) => opt_str(ds, key@) is None,
        },
{
    match tab_get(entries, key, Ghost(ds)) {
        Option::Some(v) => match v {
            TomlVal::Text(s) => Result::Ok(Option::Some(s.clone())),
            _ => Result::Err(schema_err(key)),
        },
        Option::None => Result::Ok(Option::None),
    }
}

/// Reads an optional boolean key.
fn get_opt_bool(
    entries: &Vec<(String, TomlVal)>,
    key: &str,
    Ghost(ds): Ghost<Seq<(Seq<char>, TomlDoc)>>,
) -> (r: Result<Option<bool>, String>)
    requires
        val_is(TomlVal::Tab(*entries), TomlDoc::Tab(ds)),
    ensures
        match r {
            Result::Ok(o) => opt_bool(ds, key@) == Option::Some(o),
            Result::Err(_) => opt_bool(ds, key@) is None,
        },
{
    match tab_get(entries, key, Ghost(ds)) {
        Option::Some(v) => match v {
            TomlVal::Bool(b) => Result::Ok(Option::Some(*b)),
            _ => Result::Err(schema_err(key)),
        },
        Option::None => Result::Ok(Option::None),
    }
}

/// Reads a required year key, checking the integer's range.
fn get_req_year(
    entries: &Vec<(String, TomlVal)>,
    key: &str,
    Ghost(ds): Ghost<Seq<(Seq<char>, TomlDoc)>>,
) -> (r: Result<u16, String>)
    requires
        val_is(TomlVal::Tab(*entries), TomlDoc::Tab(ds)),
    ensures
        match r {
            Result::Ok(y) => req_year(ds, key@) == Option::Some(y),
            Result::Err(_) => req_year(ds, key@) is None,
        },
{
    match tab_get(entries, key, Ghost(ds)) {
        Option::Some(v) => match v {
            TomlVal::Int(i) => if 0 <= *i && *i <= u16::MAX as i64 {
                Result::Ok(*i as u16)
            } else {
                Result::Err(schema_err(key))
            },
            _ => Result::Err(schema_err(key)),
        },
        Option::None => Result::Err(schema_err(key)),
    }
}

/// Reads an optional year key, checking the integer's range.
fn get_opt_year(
    entries: &Vec<(String, TomlVal)>,
    key: &str,
    Ghost(ds): Ghost<Seq<(Seq<char>, TomlDoc)>>,
) -> (r: Result<Option<u16>, String>)
    requires
        val_is(TomlVal::Tab(*entries), TomlDoc::Tab(ds)),
    ensures
        match r {
            Result::Ok(o) => opt_year(ds, key@) == Option::Some(o),
            Result::Err(_) => opt_year(ds, key@) is None,
        },
{
    match tab_get(entries, key, Ghost(ds)) {
        Option::Some(v) => match v {
            TomlVal::Int(i) => if 0 <= *i && *i <= u16::MAX as i64 {
                Result::Ok(Option::Some(*i as u16))
            } else {
                Result::Err(schema_err(key))
            },
            _ => Result::Err(schema_err(key)),
        },
        Option::None => Result::Ok(Option::None),
    }
}

/// Reads an array of text leaves as a list of strings.
fn parse_str_list(v: &TomlVal, Ghost(d): Ghost<TomlDoc>) -> (r: Result<Vec<String>, String>)
    requires
        val_is(*v, d),
    ensures
        match r {
            Result::Ok(list) => str_seq(d) == Option::Some(list.deep_view()),
            Result::Err(_) => str_seq(d) is None,
        },
{
    match v {
        TomlVal::Arr(items) => {
            let ghost ds = d->Arr_0;
            let mut out: Vec<String> = Vec::new();
            let mut i: usize = 0;
            while i < items.len()
                invariant
                    val_is(*v, d),
                    *v == TomlVal::Arr(*items),
                    d == TomlDoc::Arr(ds),
                    items@.len() == ds.len(),
                    i <= items.len(),
                    out@.len() == i,
                    forall|j: int| #![all_triggers] 0 <= j < i ==> ds[j] is Text && out@[j]@
                        == text_of(ds[j]),
                decreases items.len() - i,
            {
                match &items[i] {
                    TomlVal::Text(s) => {
                        proof {
                            assert(val_is(items@[i as int], ds[i as int]));
                        }
                        out.push(s.clone());
                    },
                    _ => {
                        proof {
                            assert(val_is(items@[i as int], ds[i as int]));
                        }
                        return Result::Err(schema_err("a list of strings"));
                    },
                }
                i += 1;
            }
            proof {
                assert(str_seq(d) matches Option::Some(expect) && out.deep_view() =~= expect);
            }
            Result::Ok(out)
        },
        _ => Result::Err(schema_err("a list of strings")),
    }
}

/// Reads a required list-of-strings key.
fn get_req_str_list(
    entries: &Vec<(String, TomlVal)>,
    key: &str,
    Ghost(ds): Ghost<Seq<(Seq<char>, TomlDoc)>>,
) -> (r: Result<Vec<String>, String>)
    requires
        val_is(TomlVal::Tab(*entries), TomlDoc::Tab(ds)),
    ensures
        match r {
            Result::Ok(list) => req_str_list(ds, key@) == Option::Some(list.deep_view()),
            Result::Err(_) => req_str_list(ds, key@) is None,
        },
{
    match tab_get(entries, key, Ghost(ds)) {
        Option::Some(v) => parse_str_list(v, Ghost(doc_get(ds, key@)->Some_0)),
        Option::None => Result::Err(schema_err(key)),
    }
}

/// Reads an optional list-of-strings key.
fn get_opt_str_list(
    entries: &Vec<(String, TomlVal)>,
    key: &str,
    Ghost(ds): Ghost<Seq<(Seq<char>, TomlDoc)>>,
) -> (r: Result<Option<Vec<String>>, String>)
    requires
        val_is(TomlVal::Tab(*entries), TomlDoc::Tab(ds)),
    ensures
        match r {
            Result::Ok(o) => opt_str_list(ds, key@) == Option::Some(o.deep_view()),
            Result::Err(_) => opt_str_list(ds, key@) is None,
        },
{
    match tab_get(entries, key, Ghost(ds)) {
        Option::Some(v) => match parse_str_list(v, Ghost(doc_get(ds, key@)->Some_0)) {
            Result::Ok(list) => Result::Ok(Option::Some(list)),
            Result::Err(e) => Result::Err(e),
        },
        Option::None => Result::Ok(Option::None),
    }
}

} // verus!

verus! {

/// Reads a personal-information table.
fn parse_personal(v: &TomlVal, Ghost(d): Ghost<TomlDoc>) -> (r: Result<PersonalInfo, String>)
    requires
        val_is(*v, d),
    ensures
        match r {
            Result::Ok(p) => personal_of(d) == Option::Some(p.deep_view()),
            Result::Err(_) => personal_of(d) is None,
        },
{
    match v {
        TomlVal::Tab(entries) => {
            let ghost ds = d->Tab_0;
            let full_name = get_req_str(entries, "full_name", Ghost(ds))?;
            let title = get_req_str(entries, "title", Ghost(ds))?;
            let location = get_req_str(entries, "location", Ghost(ds))?;
            let email = get_req_str(entries, "email", Ghost(ds))?;
            let telegram = get_opt_str(entries, "telegram", Ghost(ds))?;
            let github = get_opt_str(entries, "github", Ghost(ds))?;
            let linkedin = get_opt_str(entries, "linkedin", Ghost(ds))?;
            Result::Ok(PersonalInfo { full_name, title, location, email, telegram, github, linkedin })
        },
        _ => Result::Err(schema_err("personal_info")),
    }
}

/// Reads one skill category.
fn parse_category(v: &TomlVal, Ghost(d): Ghost<TomlDoc>) -> (r: Result<
    TechnicalSkillsCategory,
    String,
>)
    requires
        val_is(*v, d),
    ensures
        match r {
            Result::Ok(c) => category_of(d) == Option::Some(c.deep_view()),
            Result::Err(_) => category_of(d) is None,
        },
{
    match v {
        TomlVal::Tab(entries) => {
            let ghost ds = d->Tab_0;
            let name = get_req_str(entries, "name", Ghost(ds))?;
            let skills = get_req_str_list(entries, "skills", Ghost(ds))?;
            Result::Ok(TechnicalSkillsCategory { name, skills })
        },
        _ => Result::Err(schema_err("category_skills")),
    }
}

/// Reads the skills section.
fn parse_skills(v: &TomlVal, Ghost(d): Ghost<TomlDoc>) -> (r: Result<TechnicalSkills, String>)
    requires
        val_is(*v, d),
    ensures
        match r {
            Result::Ok(s) => skills_of(d) == Option::Some(s.deep_view()),
            Result::Err(_) => skills_of(d) is None,
        },
{
    match v {
        TomlVal::Tab(entries) => {
            let ghost ds = d->Tab_0;
            match tab_get(entries, "category_skills", Ghost(ds)) {
                Option::Some(cv) => {
                    let ghost cd = doc_get(ds, "category_skills"@)->Some_0;
                    match cv {
                        TomlVal::Arr(items) => {
                            let ghost cds = cd->Arr_0;
                            let mut out: Vec<TechnicalSkillsCategory> = Vec::new();
                            let mut i: usize = 0;
                            while i < items.len()
                                invariant
                                    d == TomlDoc::Tab(ds),
                                    doc_get(ds, "category_skills"@) == Option::Some(cd),
                                    val_is(*cv, cd),
                                    *cv == TomlVal::Arr(*items),
                                    cd == TomlDoc::Arr(cds),
                                    items@.len() == cds.len(),
                                    i <= items.len(),
                                    out@.len() == i,
                                    forall|j: int| #![all_triggers] 0 <= j < i ==> category_of(
                                        cds[j],
                                    ) == Option::Some(out@[j].deep_view()),
                                decreases items.len() - i,
                            {
                                proof {
                                    assert(val_is(items@[i as int], cds[i as int]));
                                }
                                match parse_category(&items[i], Ghost(cds[i as int])) {
                                    Result::Ok(c) => {
                                        out.push(c);
                                    },
                                    Result::Err(e) => {
                                        proof {
                                            assert(cd->Arr_0 == cds);
                                            assert(!(category_of(cds[i as int]) is Some));
                                            assert(category_seq_of(cd) is None);
                                            assert(d == TomlDoc::Tab(ds));
                                            assert(doc_get(ds, "category_skills"@)
                                                == Option::Some(cd));
                                            assert(skills_of(d) is None);
                                        }
                                        return Result::Err(e);
                                    },
                                }
                                i += 1;
                            }
                            proof {
                                assert(category_seq_of(cd) matches Option::Some(expect)
                                    && out.deep_view() =~= expect);
                            }
                            Result::Ok(TechnicalSkills { category_skills: out })
                        },
                        _ => Result::Err(schema_err("category_skills")),
                    }
                },
                Option::None => Result::Err(schema_err("category_skills")),
            }
        },
        _ => Result::Err(schema_err("technical_skills")),
    }
}

/// Reads one work-experience entry.
fn parse_work(v: &TomlVal, Ghost(d): Ghost<TomlDoc>) -> (r: Result<WorkExperience, String>)
    requires
        val_is(*v, d),
    ensures
        match r {
            Result::Ok(w) => work_of(d) == Option::Some(w.deep_view()),
            Result::Err(_) => work_of(d) is None,
        },
{
    match v {
        TomlVal::Tab(entries) => {
            let ghost ds = d->Tab_0;
            let company = get_req_str(entries, "company", Ghost(ds))?;
            let position = get_req_str(entries, "position", Ghost(ds))?;
            let start_date = get_req_str(entries, "start_date", Ghost(ds))?;
            let end_date = get_opt_str(entries, "end_date", Ghost(ds))?;
            let responsibilities = get_req_str_list(entries, "responsibilities", Ghost(ds))?;
            Result::Ok(WorkExperience { company, position, start_date, end_date, responsibilities })
        },
        _ => Result::Err(schema_err("work_experience")),
    }
}

/// Reads the list of work-experience entries.
fn parse_work_list(v: &TomlVal, Ghost(d): Ghost<TomlDoc>) -> (r: Result<
    Vec<WorkExperience>,
    String,
>)
    requires
        val_is(*v, d),
    ensures
        match r {
            Result::Ok(list) => work_seq_of(d) == Option::Some(list.deep_view()),
            Result::Err(_) => work_seq_of(d) is None,
        },
{
    match v {
        TomlVal::Arr(items) => {
            let ghost ds = d->Arr_0;
            let mut out: Vec<WorkExperience> = Vec::new();
            let mut i: usize = 0;
            while i < items.len()
                invariant
                    val_is(*v, d),
                    *v == TomlVal::Arr(*items),
                    d == TomlDoc::Arr(ds),
                    items@.len() == ds.len(),
                    i <= items.len(),
                    out@.len() == i,
                    forall|j: int| #![all_triggers] 0 <= j < i ==> work_of(ds[j])
                        == Option::Some(out@[j].deep_view()),
                decreases items.len() - i,
            {
                proof {
                    assert(val_is(items@[i as int], ds[i as int]));
                }
                let w = parse_work(&items[i], Ghost(ds[i as int]))?;
                out.push(w);
                i += 1;
            }
            proof {
                assert(work_seq_of(d) matches Option::Some(expect) && out.deep_view() =~= expect);
            }
            Result::Ok(out)
        },
        _ => Result::Err(schema_err("work_experience")),
    }
}

/// Reads one project entry.
fn parse_project(v: &TomlVal, Ghost(d): Ghost<TomlDoc>) -> (r: Result<Project, String>)
    requires
        val_is(*v, d),
    ensures
        match r {
            Result::Ok(p) => project_of(d) == Option::Some(p.deep_view()),
            Result::Err(_) => project_of(d) is None,
        },
{
    match v {
        TomlVal::Tab(entries) => {
            let ghost ds = d->Tab_0;
            let name = get_req_str(entries, "name", Ghost(ds))?;
            let description = get_req_str(entries, "description", Ghost(ds))?;
            let stack = get_req_str_list(entries, "stack", Ghost(ds))?;
            let highlights = get_req_str_list(entries, "highlights", Ghost(ds))?;
            let github_url = get_opt_str(entries, "github_url", Ghost(ds))?;
            Result::Ok(Project { name, description, stack, highlights, github_url })
        },
        _ => Result::Err(schema_err("projects")),
    }
}

/// Reads the list of project entries.
fn parse_project_list(v: &TomlVal, Ghost(d): Ghost<TomlDoc>) -> (r: Result<Vec<Project>, String>)
    requires
        val_is(*v, d),
    ensures
        match r {
            Result::Ok(list) => project_seq_of(d) == Option::Some(list.deep_view()),
            Result::Err(_) => project_seq_of(d) is None,
        },
{
    match v {
        TomlVal::Arr(items) => {
            let ghost ds = d->Arr_0;
            let mut out: Vec<Project> = Vec::new();
            let mut i: usize = 0;
            while i < items.len()
                invariant
                    val_is(*v, d),
                    *v == TomlVal::Arr(*items),
                    d == TomlDoc::Arr(ds),
                    items@.len() == ds.len(),
                    i <= items.len(),
                    out@.len() == i,
                    forall|j: int| #![all_triggers] 0 <= j < i ==> project_of(ds[j])
                        == Option::Some(out@[j].deep_view()),
                decreases items.len() - i,
            {
                proof {
                    assert(val_is(items@[i as int], ds[i as int]));
                }
                let p = parse_project(&items[i], Ghost(ds[i as int]))?;
                out.push(p);
                i += 1;
            }
            proof {
                assert(project_seq_of(d) matches Option::Some(expect) && out.deep_view()
                    =~= expect);
            }
            Result::Ok(out)
        },
        _ => Result::Err(schema_err("projects")),
    }
}

/// Reads one education entry.
fn parse_education(v: &TomlVal, Ghost(d): Ghost<TomlDoc>) -> (r: Result<Education, String>)
    requires
        val_is(*v, d),
    ensures
        match r {
            Result::Ok(e) => education_of(d) == Option::Some(e.deep_view()),
            Result::Err(_) => education_of(d) is None,
        },
{
    match v {
        TomlVal::Tab(entries) => {
            let ghost ds = d->Tab_0;
            let degree = get_req_str(entries, "degree", Ghost(ds))?;
            let institution = get_req_str(entries, "institution", Ghost(ds))?;
            let start_year = get_req_year(entries, "start_year", Ghost(ds))?;
            let end_year = get_opt_year(entries, "end_year", Ghost(ds))?;
            Result::Ok(Education { degree, institution, start_year, end_year })
        },
        _ => Result::Err(schema_err("education")),
    }
}

/// Reads the list of education entries.
fn parse_education_list(v: &TomlVal, Ghost(d): Ghost<TomlDoc>) -> (r: Result<
    Vec<Education>,
    String,
>)
    requires
        val_is(*v, d),
    ensures
        match r {
            Result::Ok(list) => education_seq_of(d) == Option::Some(list.deep_view()),
            Result::Err(_) => education_seq_of(d) is None,
        },
{
    match v {
        TomlVal::Arr(items) => {
            let ghost ds = d->Arr_0;
            let mut out: Vec<Education> = Vec::new();
            let mut i: usize = 0;
            while i < items.len()
                invariant
                    val_is(*v, d),
                    *v == TomlVal::Arr(*items),
                    d == TomlDoc::Arr(ds),
                    items@.len() == ds.len(),
                    i <= items.len(),
                    out@.len() == i,
                    forall|j: int| #![all_triggers] 0 <= j < i ==> education_of(ds[j])
                        == Option::Some(out@[j].deep_view()),
                decreases items.len() - i,
            {
                proof {
                    assert(val_is(items@[i as int], ds[i as int]));
                }
                let e = parse_education(&items[i], Ghost(ds[i as int]))?;
                out.push(e);
                i += 1;
            }
            proof {
                assert(education_seq_of(d) matches Option::Some(expect) && out.deep_view()
                    =~= expect);
            }
            Result::Ok(out)
        },
        _ => Result::Err(schema_err("education")),
    }
}

/// Reads the additional-information block.
fn parse_additional(v: &TomlVal, Ghost(d): Ghost<TomlDoc>) -> (r: Result<Additional, String>)
    requires
        val_is(*v, d),
    ensures
        match r {
            Result::Ok(a) => additional_of(d) == Option::Some(a.deep_view()),
            Result::Err(_) => additional_of(d) is None,
        },
{
    match v {
        TomlVal::Tab(entries) => {
            let ghost ds = d->Tab_0;
            let english_level = get_opt_str(entries, "english_level", Ghost(ds))?;
            let relocation_ready = get_opt_bool(entries, "relocation_ready", Ghost(ds))?;
            let interests = get_opt_str_list(entries, "interests", Ghost(ds))?;
            Result::Ok(Additional { english_level, relocation_ready, interests })
        },
        _ => Result::Err(schema_err("additional")),
    }
}

/// Reads a whole resume from a parsed document.
fn resume_from_val(v: &TomlVal, Ghost(d): Ghost<TomlDoc>) -> (r: Result<Resume, String>)
    requires
        val_is(*v, d),
    ensures
        match r {
            Result::Ok(res) => resume_of_doc(d) == Option::Some(res.deep_view()),
            Result::Err(_) => resume_of_doc(d) is None,
        },
{
    match v {
        TomlVal::Tab(entries) => {
            let ghost ds = d->Tab_0;
            let personal_info = match tab_get(entries, "personal_info", Ghost(ds)) {
                Option::Some(pv) => parse_personal(
                    pv,
                    Ghost(doc_get(ds, "personal_info"@)->Some_0),
                )?,
                Option::None => return Result::Err(schema_err("personal_info")),
            };
            let summary = get_req_str(entries, "summary", Ghost(ds))?;
            let technical_skills = match tab_get(entries, "technical_skills", Ghost(ds)) {
                Option::Some(sv) => parse_skills(
                    sv,
                    Ghost(doc_get(ds, "technical_skills"@)->Some_0),
                )?,
                Option::None => return Result::Err(schema_err("technical_skills")),
            };
            let work_experience = match tab_get(entries, "work_experience", Ghost(ds)) {
                Option::Some(wv) => parse_work_list(
                    wv,
                    Ghost(doc_get(ds, "work_experience"@)->Some_0),
                )?,
                Option::None => return Result::Err(schema_err("work_experience")),
            };
            let projects = match tab_get(entries, "projects", Ghost(ds)) {
                Option::Some(pv) => parse_project_list(
                    pv,
                    Ghost(doc_get(ds, "projects"@)->Some_0),
                )?,
                Option::None => Vec::new(),
            };
            let education = match tab_get(entries, "education", Ghost(ds)) {
                Option::Some(ev) => parse_education_list(
                    ev,
                    Ghost(doc_get(ds, "education"@)->Some_0),
                )?,
                Option::None => return Result::Err(schema_err("education")),
            };
            let additional = match tab_get(entries, "additional", Ghost(ds)) {
                Option::Some(av) => Option::Some(
                    parse_additional(av, Ghost(doc_get(ds, "additional"@)->Some_0))?,
                ),
                Option::None => Option::None,
            };
            let res = Resume {
                personal_info,
                summary,
                technical_skills,
                work_experience,
                projects,
                education,
                additional,
            };
            proof {
                assert(res.projects.deep_view() =~= resume_of_doc(d)->Some_0.projects);
            }
            Result::Ok(res)
        },
        _ => Result::Err(schema_err("resume")),
    }
}

/// Parses TOML text into a resume: first the text into a document through
/// the `toml` crate, then the document against the resume schema.
pub fn parse_resume(text: &str) -> (r: Result<Resume, String>)
    ensures
        match r {
            Result::Ok(res) => text_resume(text@) == Option::Some(res.deep_view()),
            Result::Err(_) => text_resume(text@) is None,
        },
{
    match parse_toml_text(text) {
        Result::Ok(v) => {
            let ghost d = toml_doc(text@)->Some_0;
            resume_from_val(&v, Ghost(d))
        },
        Result::Err(e) => Result::Err(e),
    }
}

} // verus!

verus! {

/// The array document of a list of strings.
pub open spec fn text_arr(list: Seq<Seq<char>>) -> TomlDoc {
    TomlDoc::Arr(Seq::new(list.len(), |i: int| TomlDoc::Text(list[i])))
}

/// The table entries that a personal-information record writes: the
/// required keys in order, then whichever optional keys are present.
pub open spec fn personal_entries(p: PersonalInfoV) -> Seq<(Seq<char>, TomlDoc)> {
    let base = seq![
        ("full_name"@, TomlDoc::Text(p.full_name)),
        ("title"@, TomlDoc::Text(p.title)),
        ("location"@, TomlDoc::Text(p.location)),
        ("email"@, TomlDoc::Text(p.email)),
    ];
    let with_telegram = if p.telegram is Some {
        base.push(("telegram"@, TomlDoc::Text(p.telegram->Some_0)))
    } else {
        base
    };
    let with_github = if p.github is Some {
        with_telegram.push(("github"@, TomlDoc::Text(p.github->Some_0)))
    } else {
        with_telegram
    };
    if p.linkedin is Some {
        with_github.push(("linkedin"@, TomlDoc::Text(p.linkedin->Some_0)))
    } else {
        with_github
    }
}

/// The table entries that a skill category writes.
pub open spec fn category_entries(c: TechnicalSkillsCategoryV) -> Seq<(Seq<char>, TomlDoc)> {
    seq![("name"@, TomlDoc::Text(c.name)), ("skills"@, text_arr(c.skills))]
}

/// The table entries that the skills section writes.
pub open spec fn skills_entries(s: TechnicalSkillsV) -> Seq<(Seq<char>, TomlDoc)> {
    seq![
        (
            "category_skills"@,
            TomlDoc::Arr(
                Seq::new(
                    s.category_skills.len(),
                    |i: int| TomlDoc::Tab(category_entries(s.category_skills[i])),
                ),
            ),
        ),
    ]
}

/// The table entries that a work-experience entry writes; an absent end
/// date writes no key.
pub open spec fn work_entries(w: WorkExperienceV) -> Seq<(Seq<char>, TomlDoc)> {
    let base = seq![
        ("company"@, TomlDoc::Text(w.company)),
        ("position"@, TomlDoc::Text(w.position)),
        ("start_date"@, TomlDoc::Text(w.start_date)),
        ("responsibilities"@, text_arr(w.responsibilities)),
    ];
    if w.end_date is Some {
        base.push(("end_date"@, TomlDoc::Text(w.end_date->Some_0)))
    } else {
        base
    }
}

/// The table entries that a project entry writes.
pub open spec fn project_entries(p: ProjectV) -> Seq<(Seq<char>, TomlDoc)> {
    let base = seq![
        ("name"@, TomlDoc::Text(p.name)),
        ("description"@, TomlDoc::Text(p.description)),
        ("stack"@, text_arr(p.stack)),
        ("highlights"@, text_arr(p.highlights)),
    ];
    if p.github_url is Some {
        base.push(("github_url"@, TomlDoc::Text(p.github_url->Some_0)))
    } else {
        base
    }
}

/// The table entries that an education entry writes.
pub open spec fn education_entries(e: EducationV) -> Seq<(Seq<char>, TomlDoc)> {
    let base = seq![
        ("degree"@, TomlDoc::Text(e.degree)),
        ("institution"@, TomlDoc::Text(e.institution)),
        ("start_year"@, TomlDoc::Int(e.start_year as int)),
    ];
    if e.end_year is Some {
        base.push(("end_year"@, TomlDoc::Int(e.end_year->Some_0 as int)))
    } else {
        base
    }
}

/// The table entries that the additional-information block writes: only
/// the fields that are present.
pub open spec fn additional_entries(a: AdditionalV) -> Seq<(Seq<char>, TomlDoc)> {
    let base = Seq::<(Seq<char>, TomlDoc)>::empty();
    let with_level = if a.english_level is Some {
        base.push(("english_level"@, TomlDoc::Text(a.english_level->Some_0)))
    } else {
        base
    };
    let with_relocation = if a.relocation_ready is Some {
        with_level.push(("relocation_ready"@, TomlDoc::Bool(a.relocation_ready->Some_0)))
    } else {
        with_level
    };
    if a.interests is Some {
        with_relocation.push(("interests"@, text_arr(a.interests->Some_0)))
    } else {
        with_relocation
    }
}

/// The table entries that a whole resume writes: every section under its
/// key, the additional block only when present.
pub open spec fn resume_entries(r: ResumeV) -> Seq<(Seq<char>, TomlDoc)> {
    let base = seq![
        ("personal_info"@, TomlDoc::Tab(personal_entries(r.personal_info))),
        ("summary"@, TomlDoc::Text(r.summary)),
        ("technical_skills"@, TomlDoc::Tab(skills_entries(r.technical_skills))),
        (
            "work_experience"@,
            TomlDoc::Arr(
                Seq::new(
                    r.work_experience.len(),
                    |i: int| TomlDoc::Tab(work_entries(r.work_experience[i])),
                ),
            ),
        ),
        (
            "projects"@,
            TomlDoc::Arr(
                Seq::new(r.projects.len(), |i: int| TomlDoc::Tab(project_entries(r.projects[i]))),
            ),
        ),
        (
            "education"@,
            TomlDoc::Arr(
                Seq::new(
                    r.education.len(),
                    |i: int| TomlDoc::Tab(education_entries(r.education[i])),
                ),
            ),
        ),
    ];
    if r.additional is Some {
        base.push(("additional"@, TomlDoc::Tab(additional_entries(r.additional->Some_0))))
    } else {
        base
    }
}

/// The document that a whole resume writes.
pub open spec fn resume_doc(r: ResumeV) -> TomlDoc {
    TomlDoc::Tab(resume_entries(r))
}

} // verus!

verus! {

/// Writes a list of strings as an array value.
fn strings_to_val(list: &Vec<String>) -> (v: TomlVal)
    ensures
        val_is(v, text_arr(list.deep_view())),
{
    let mut items: Vec<TomlVal> = Vec::new();
    let mut i: usize = 0;
    while i < list.len()
        invariant
            i <= list.len(),
            items@.len() == i,
            forall|j: int| #![all_triggers] 0 <= j < i ==> items@[j]
                == TomlVal::Text(list@[j]) && val_is(items@[j], TomlDoc::Text(list@[j].deep_view())),
        decreases list.len() - i,
    {
        items.push(TomlVal::Text(list[i].clone()));
        i += 1;
    }
    let v = TomlVal::Arr(items);
    proof {
        let expect = text_arr(list.deep_view());
        assert(expect->Arr_0.len() == list.deep_view().len());
        assert forall|j: int| 0 <= j < list.deep_view().len() implies val_is(
            #[trigger] v->Arr_0@[j],
            expect->Arr_0[j],
        ) by {
            assert(list.deep_view()[j] == list@[j].deep_view());
        }
    }
    v
}

/// Writes a personal-information record as table entries.
fn personal_to_entries(p: &PersonalInfo) -> (es: Vec<(String, TomlVal)>)
    ensures
        val_is(TomlVal::Tab(es), TomlDoc::Tab(personal_entries(p.deep_view()))),
{
    let mut es: Vec<(String, TomlVal)> = Vec::new();
    es.push(("full_name".to_owned(), TomlVal::Text(p.full_name.clone())));
    es.push(("title".to_owned(), TomlVal::Text(p.title.clone())));
    es.push(("location".to_owned(), TomlVal::Text(p.location.clone())));
    es.push(("email".to_owned(), TomlVal::Text(p.email.clone())));
    match &p.telegram {
        Option::Some(s) => es.push(("telegram".to_owned(), TomlVal::Text(s.clone()))),
        Option::None => (),
    }
    match &p.github {
        Option::Some(s) => es.push(("github".to_owned(), TomlVal::Text(s.clone()))),
        Option::None => (),
    }
    match &p.linkedin {
        Option::Some(s) => es.push(("linkedin".to_owned(), TomlVal::Text(s.clone()))),
        Option::None => (),
    }
    proof {
        let expect = personal_entries(p.deep_view());
        assert(es@.len() == expect.len());
        assert forall|j: int| 0 <= j < expect.len() implies (#[trigger] es@[j]).0@
            == expect[j].0 && val_is(es@[j].1, expect[j].1) by {}
        assert(val_is(TomlVal::Tab(es), TomlDoc::Tab(expect)));
    }
    es
}

/// Writes one skill category as table entries.
fn category_to_entries(c: &TechnicalSkillsCategory) -> (es: Vec<(String, TomlVal)>)
    ensures
        val_is(TomlVal::Tab(es), TomlDoc::Tab(category_entries(c.deep_view()))),
{
    let mut es: Vec<(String, TomlVal)> = Vec::new();
    es.push(("name".to_owned(), TomlVal::Text(c.name.clone())));
    es.push(("skills".to_owned(), strings_to_val(&c.skills)));
    proof {
        let expect = category_entries(c.deep_view());
        assert(es@.len() == 2);
        assert(expect.len() == 2);
        assert(es@[0].0@ == "name"@);
        assert(es@[1].0@ == "skills"@);
        assert(val_is(es@[0].1, expect[0].1));
        assert(val_is(es@[1].1, expect[1].1));
        assert(val_is(TomlVal::Tab(es), TomlDoc::Tab(expect)));
    }
    es
}

/// Writes the skills section as table entries.
fn skills_to_entries(s: &TechnicalSkills) -> (es: Vec<(String, TomlVal)>)
    ensures
        val_is(TomlVal::Tab(es), TomlDoc::Tab(skills_entries(s.deep_view()))),
{
    let mut cats: Vec<TomlVal> = Vec::new();
    let mut i: usize = 0;
    while i < s.category_skills.len()
        invariant
            i <= s.category_skills.len(),
            cats@.len() == i,
            forall|j: int| #![all_triggers] 0 <= j < i ==> val_is(
                cats@[j],
                TomlDoc::Tab(category_entries(s.category_skills@[j].deep_view())),
            ),
        decreases s.category_skills.len() - i,
    {
        cats.push(TomlVal::Tab(category_to_entries(&s.category_skills[i])));
        i += 1;
    }
    let mut es: Vec<(String, TomlVal)> = Vec::new();
    es.push(("category_skills".to_owned(), TomlVal::Arr(cats)));
    proof {
        let sv = s.deep_view();
        let expect = skills_entries(sv);
        assert(sv.category_skills.len() == s.category_skills@.len());
        assert forall|j: int| 0 <= j < sv.category_skills.len() implies val_is(
            #[trigger] es@[0].1->Arr_0@[j],
            TomlDoc::Tab(category_entries(sv.category_skills[j])),
        ) by {
            assert(sv.category_skills[j] == s.category_skills@[j].deep_view());
        }
        assert(es@.len() == expect.len());
        assert(es@[0].0@ == expect[0].0);
        assert(val_is(es@[0].1, expect[0].1));
        assert(val_is(TomlVal::Tab(es), TomlDoc::Tab(expect)));
    }
    es
}

/// Writes one work-experience entry as table entries.
fn work_to_entries(w: &WorkExperience) -> (es: Vec<(String, TomlVal)>)
    ensures
        val_is(TomlVal::Tab(es), TomlDoc::Tab(work_entries(w.deep_view()))),
{
    let mut es: Vec<(String, TomlVal)> = Vec::new();
    es.push(("company".to_owned(), TomlVal::Text(w.company.clone())));
    es.push(("position".to_owned(), TomlVal::Text(w.position.clone())));
    es.push(("start_date".to_owned(), TomlVal::Text(w.start_date.clone())));
    es.push(("responsibilities".to_owned(), strings_to_val(&w.responsibilities)));
    match &w.end_date {
        Option::Some(s) => es.push(("end_date".to_owned(), TomlVal::Text(s.clone()))),
        Option::None => (),
    }
    proof {
        let expect = work_entries(w.deep_view());
        assert(es@.len() == expect.len());
        assert forall|j: int| 0 <= j < expect.len() implies (#[trigger] es@[j]).0@
            == expect[j].0 && val_is(es@[j].1, expect[j].1) by {}
        assert(val_is(TomlVal::Tab(es), TomlDoc::Tab(expect)));
    }
    es
}

/// Writes one project entry as table entries.
fn project_to_entries(p: &Project) -> (es: Vec<(String, TomlVal)>)
    ensures
        val_is(TomlVal::Tab(es), TomlDoc::Tab(project_entries(p.deep_view()))),
{
    let mut es: Vec<(String, TomlVal)> = Vec::new();
    es.push(("name".to_owned(), TomlVal::Text(p.name.clone())));
    es.push(("description".to_owned(), TomlVal::Text(p.description.clone())));
    es.push(("stack".to_owned(), strings_to_val(&p.stack)));
    es.push(("highlights".to_owned(), strings_to_val(&p.highlights)));
    match &p.github_url {
        Option::Some(s) => es.push(("github_url".to_owned(), TomlVal::Text(s.clone()))),
        Option::None => (),
    }
    proof {
        let expect = project_entries(p.deep_view());
        assert(es@.len() == expect.len());
        assert forall|j: int| 0 <= j < expect.len() implies (#[trigger] es@[j]).0@
            == expect[j].0 && val_is(es@[j].1, expect[j].1) by {}
        assert(val_is(TomlVal::Tab(es), TomlDoc::Tab(expect)));
    }
    es
}

/// Writes one education entry as table entries.
fn education_to_entries(e: &Education) -> (es: Vec<(String, TomlVal)>)
    ensures
        val_is(TomlVal::Tab(es), TomlDoc::Tab(education_entries(e.deep_view()))),
{
    let mut es: Vec<(String, TomlVal)> = Vec::new();
    es.push(("degree".to_owned(), TomlVal::Text(e.degree.clone())));
    es.push(("institution".to_owned(), TomlVal::Text(e.institution.clone())));
    es.push(("start_year".to_owned(), TomlVal::Int(e.start_year as i64)));
    match e.end_year {
        Option::Some(y) => es.push(("end_year".to_owned(), TomlVal::Int(y as i64))),
        Option::None => (),
    }
    proof {
        let expect = education_entries(e.deep_view());
        assert(es@.len() == expect.len());
        assert forall|j: int| 0 <= j < expect.len() implies (#[trigger] es@[j]).0@
            == expect[j].0 && val_is(es@[j].1, expect[j].1) by {}
        assert(val_is(TomlVal::Tab(es), TomlDoc::Tab(expect)));
    }
    es
}

/// Writes the additional-information block as table entries.
fn additional_to_entries(a: &Additional) -> (es: Vec<(String, TomlVal)>)
    ensures
        val_is(TomlVal::Tab(es), TomlDoc::Tab(additional_entries(a.deep_view()))),
{
    let mut es: Vec<(String, TomlVal)> = Vec::new();
    match &a.english_level {
        Option::Some(s) => es.push(("english_level".to_owned(), TomlVal::Text(s.clone()))),
        Option::None => (),
    }
    match a.relocation_ready {
        Option::Some(b) => es.push(("relocation_ready".to_owned(), TomlVal::Bool(b))),
        Option::None => (),
    }
    match &a.interests {
        Option::Some(list) => es.push(("interests".to_owned(), strings_to_val(list))),
        Option::None => (),
    }
    proof {
        let expect = additional_entries(a.deep_view());
        assert(es@.len() == expect.len());
        assert forall|j: int| 0 <= j < expect.len() implies (#[trigger] es@[j]).0@
            == expect[j].0 && val_is(es@[j].1, expect[j].1) by {}
        assert(val_is(TomlVal::Tab(es), TomlDoc::Tab(expect)));
    }
    es
}

/// Writes a whole resume as table entries.
fn resume_to_entries(r: &Resume) -> (es: Vec<(String, TomlVal)>)
    ensures
        val_is(TomlVal::Tab(es), TomlDoc::Tab(resume_entries(r.deep_view()))),
{
    let mut es: Vec<(String, TomlVal)> = Vec::new();
    es.push(("personal_info".to_owned(), TomlVal::Tab(personal_to_entries(&r.personal_info))));
    es.push(("summary".to_owned(), TomlVal::Text(r.summary.clone())));
    es.push(
        ("technical_skills".to_owned(), TomlVal::Tab(skills_to_entries(&r.technical_skills))),
    );
    let mut work: Vec<TomlVal> = Vec::new();
    let mut i: usize = 0;
    while i < r.work_experience.len()
        invariant
            i <= r.work_experience.len(),
            work@.len() == i,
            forall|j: int| #![all_triggers] 0 <= j < i ==> val_is(
                work@[j],
                TomlDoc::Tab(work_entries(r.work_experience@[j].deep_view())),
            ),
        decreases r.work_experience.len() - i,
    {
        work.push(TomlVal::Tab(work_to_entries(&r.work_experience[i])));
        i += 1;
    }
    es.push(("work_experience".to_owned(), TomlVal::Arr(work)));
    let mut projects: Vec<TomlVal> = Vec::new();
    let mut i: usize = 0;
    while i < r.projects.len()
        invariant
            i <= r.projects.len(),
            projects@.len() == i,
            forall|j: int| #![all_triggers] 0 <= j < i ==> val_is(
                projects@[j],
                TomlDoc::Tab(project_entries(r.projects@[j].deep_view())),
            ),
        decreases r.projects.len() - i,
    {
        projects.push(TomlVal::Tab(project_to_entries(&r.projects[i])));
        i += 1;
    }
    es.push(("projects".to_owned(), TomlVal::Arr(projects)));
    let mut education: Vec<TomlVal> = Vec::new();
    let mut i: usize = 0;
    while i < r.education.len()
        invariant
            i <= r.education.len(),
            education@.len() == i,
            forall|j: int| #![all_triggers] 0 <= j < i ==> val_is(
                education@[j],
                TomlDoc::Tab(education_entries(r.education@[j].deep_view())),
            ),
        decreases r.education.len() - i,
    {
        education.push(TomlVal::Tab(education_to_entries(&r.education[i])));
        i += 1;
    }
    es.push(("education".to_owned(), TomlVal::Arr(education)));
    match &r.additional {
        Option::Some(a) => es.push(("additional".to_owned(), TomlVal::Tab(additional_to_entries(a)))),
        Option::None => (),
    }
    proof {
        let rv = r.deep_view();
        let expect = resume_entries(rv);
        assert forall|j: int| 0 <= j < rv.work_experience.len() implies val_is(
            #[trigger] es@[3].1->Arr_0@[j],
            TomlDoc::Tab(work_entries(rv.work_experience[j])),
        ) by {
            assert(rv.work_experience[j] == r.work_experience@[j].deep_view());
        }
        assert forall|j: int| 0 <= j < rv.projects.len() implies val_is(
            #[trigger] es@[4].1->Arr_0@[j],
            TomlDoc::Tab(project_entries(rv.projects[j])),
        ) by {
            assert(rv.projects[j] == r.projects@[j].deep_view());
        }
        assert forall|j: int| 0 <= j < rv.education.len() implies val_is(
            #[trigger] es@[5].1->Arr_0@[j],
            TomlDoc::Tab(education_entries(rv.education[j])),
        ) by {
            assert(rv.education[j] == r.education@[j].deep_view());
        }
        assert(es@.len() == expect.len());
        assert forall|j: int| 0 <= j < expect.len() implies (#[trigger] es@[j]).0@
            == expect[j].0 && val_is(es@[j].1, expect[j].1) by {}
        assert(val_is(TomlVal::Tab(es), TomlDoc::Tab(expect)));
    }
    es
}

} // verus!

verus! {

/// Serializes a resume to TOML text: the resume writes its document, and
/// the `toml` crate renders it.
pub fn to_toml_string(r: &Resume) -> (t: Result<String, String>)
    ensures
        match t {
            Result::Ok(s) => toml_text(resume_doc(r.deep_view())) == Option::Some(s@),
            Result::Err(_) => toml_text(resume_doc(r.deep_view())) is None,
        },
{
    let es = resume_to_entries(r);
    let t = table_to_text(&es);
    proof {
        assert(val_is(TomlVal::Tab(es), TomlDoc::Tab(resume_entries(r.deep_view()))));
    }
    t
}

} // verus!


verus! {

/// An array of text leaves reads back as exactly its list of strings.
pub proof fn lemma_text_arr(list: Seq<Seq<char>>)
    ensures
        str_seq(text_arr(list)) == Option::Some(list),
{
    let items = text_arr(list)->Arr_0;
    assert forall|i: int| 0 <= i < items.len() implies items[i] is Text by {}
    assert(str_seq(text_arr(list))->Some_0 =~= list);
}

/// A personal record written out reads back as itself.
pub proof fn lemma_personal_round_trip(p: PersonalInfoV)
    ensures
        personal_of(TomlDoc::Tab(personal_entries(p))) == Option::Some(p),
{
    reveal_strlit("full_name");
    reveal_strlit("title");
    reveal_strlit("location");
    reveal_strlit("email");
    reveal_strlit("telegram");
    reveal_strlit("github");
    reveal_strlit("linkedin");
    assert("full_name"@.len() == 9);
    assert("full_name"@[0] == 'f');
    assert("full_name"@[1] == 'u');
    assert("title"@.len() == 5);
    assert("title"@[0] == 't');
    assert("title"@[1] == 'i');
    assert("location"@.len() == 8);
    assert("location"@[0] == 'l');
    assert("location"@[1] == 'o');
    assert("email"@.len() == 5);
    assert("email"@[0] == 'e');
    assert("email"@[1] == 'm');
    assert("telegram"@.len() == 8);
    assert("telegram"@[0] == 't');
    assert("telegram"@[1] == 'e');
    assert("github"@.len() == 6);
    assert("github"@[0] == 'g');
    assert("github"@[1] == 'i');
    assert("linkedin"@.len() == 8);
    assert("linkedin"@[0] == 'l');
    assert("linkedin"@[1] == 'i');
    let e0 = Seq::<(Seq<char>, TomlDoc)>::empty();
    let e1 = e0.push(("full_name"@, TomlDoc::Text(p.full_name)));
    let e2 = e1.push(("title"@, TomlDoc::Text(p.title)));
    let e3 = e2.push(("location"@, TomlDoc::Text(p.location)));
    let e4 = e3.push(("email"@, TomlDoc::Text(p.email)));
    assert(seq![("full_name"@, TomlDoc::Text(p.full_name)), ("title"@, TomlDoc::Text(p.title)), ("location"@, TomlDoc::Text(p.location)), ("email"@, TomlDoc::Text(p.email))] =~= e4);
    let w0 = if p.telegram is Some { e4.push(("telegram"@, TomlDoc::Text(p.telegram->Some_0))) } else { e4 };
    let w1 = if p.github is Some { w0.push(("github"@, TomlDoc::Text(p.github->Some_0))) } else { w0 };
    let w2 = if p.linkedin is Some { w1.push(("linkedin"@, TomlDoc::Text(p.linkedin->Some_0))) } else { w1 };
    let es = personal_entries(p);
    assert(es == w2);
    if p.linkedin is Some {
        lemma_doc_get_push(w1, "full_name"@, "linkedin"@, TomlDoc::Text(p.linkedin->Some_0));
    }
    if p.github is Some {
        lemma_doc_get_push(w0, "full_name"@, "github"@, TomlDoc::Text(p.github->Some_0));
    }
    if p.telegram is Some {
        lemma_doc_get_push(e4, "full_name"@, "telegram"@, TomlDoc::Text(p.telegram->Some_0));
    }
    lemma_doc_get_push(e3, "full_name"@, "email"@, TomlDoc::Text(p.email));
    lemma_doc_get_push(e2, "full_name"@, "location"@, TomlDoc::Text(p.location));
    lemma_doc_get_push(e1, "full_name"@, "title"@, TomlDoc::Text(p.title));
    lemma_doc_get_push(e0, "full_name"@, "full_name"@, TomlDoc::Text(p.full_name));
    assert(doc_get(e0, "full_name"@) is None);
    assert(doc_get(es, "full_name"@) == Option::Some(TomlDoc::Text(p.full_name)));
    assert(req_str(es, "full_name"@) == Option::Some(p.full_name));
    if p.linkedin is Some {
        lemma_doc_get_push(w1, "title"@, "linkedin"@, TomlDoc::Text(p.linkedin->Some_0));
    }
    if p.github is Some {
        lemma_doc_get_push(w0, "title"@, "github"@, TomlDoc::Text(p.github->Some_0));
    }
    if p.telegram is Some {
        lemma_doc_get_push(e4, "title"@, "telegram"@, TomlDoc::Text(p.telegram->Some_0));
    }
    lemma_doc_get_push(e3, "title"@, "email"@, TomlDoc::Text(p.email));
    lemma_doc_get_push(e2, "title"@, "location"@, TomlDoc::Text(p.location));
    lemma_doc_get_push(e1, "title"@, "title"@, TomlDoc::Text(p.title));
    lemma_doc_get_push(e0, "title"@, "full_name"@, TomlDoc::Text(p.full_name));
    assert(doc_get(e0, "title"@) is None);
    assert(doc_get(es, "title"@) == Option::Some(TomlDoc::Text(p.title)));
    assert(req_str(es, "title"@) == Option::Some(p.title));
    if p.linkedin is Some {
        lemma_doc_get_push(w1, "location"@, "linkedin"@, TomlDoc::Text(p.linkedin->Some_0));
    }
    if p.github is Some {
        lemma_doc_get_push(w0, "location"@, "github"@, TomlDoc::Text(p.github->Some_0));
    }
    if p.telegram is Some {
        lemma_doc_get_push(e4, "location"@, "telegram"@, TomlDoc::Text(p.telegram->Some_0));
    }
    lemma_doc_get_push(e3, "location"@, "email"@, TomlDoc::Text(p.email));
    lemma_doc_get_push(e2, "location"@, "location"@, TomlDoc::Text(p.location));
    lemma_doc_get_push(e1, "location"@, "title"@, TomlDoc::Text(p.title));
    lemma_doc_get_push(e0, "location"@, "full_name"@, TomlDoc::Text(p.full_name));
    assert(doc_get(e0, "location"@) is None);
    assert(doc_get(es, "location"@) == Option::Some(TomlDoc::Text(p.location)));
    assert(req_str(es, "location"@) == Option::Some(p.location));
    if p.linkedin is Some {
        lemma_doc_get_push(w1, "email"@, "linkedin"@, TomlDoc::Text(p.linkedin->Some_0));
    }
    if p.github is Some {
        lemma_doc_get_push(w0, "email"@, "github"@, TomlDoc::Text(p.github->Some_0));
    }
    if p.telegram is Some {
        lemma_doc_get_push(e4, "email"@, "telegram"@, TomlDoc::Text(p.telegram->Some_0));
    }
    lemma_doc_get_push(e3, "email"@, "email"@, TomlDoc::Text(p.email));
    lemma_doc_get_push(e2, "email"@, "location"@, TomlDoc::Text(p.location));
    lemma_doc_get_push(e1, "email"@, "title"@, TomlDoc::Text(p.title));
    lemma_doc_get_push(e0, "email"@, "full_name"@, TomlDoc::Text(p.full_name));
    assert(doc_get(e0, "email"@) is None);
    assert(doc_get(es, "email"@) == Option::Some(TomlDoc::Text(p.email)));
    assert(req_str(es, "email"@) == Option::Some(p.email));
    if p.linkedin is Some {
        lemma_doc_get_push(w1, "telegram"@, "linkedin"@, TomlDoc::Text(p.linkedin->Some_0));
    }
    if p.github is Some {
        lemma_doc_get_push(w0, "telegram"@, "github"@, TomlDoc::Text(p.github->Some_0));
    }
    if p.telegram is Some {
        lemma_doc_get_push(e4, "telegram"@, "telegram"@, TomlDoc::Text(p.telegram->Some_0));
    }
    lemma_doc_get_push(e3, "telegram"@, "email"@, TomlDoc::Text(p.email));
    lemma_doc_get_push(e2, "telegram"@, "location"@, TomlDoc::Text(p.location));
    lemma_doc_get_push(e1, "telegram"@, "title"@, TomlDoc::Text(p.title));
    lemma_doc_get_push(e0, "telegram"@, "full_name"@, TomlDoc::Text(p.full_name));
    assert(doc_get(e0, "telegram"@) is None);
    if p.telegram is Some {
        assert(doc_get(es, "telegram"@) == Option::Some(TomlDoc::Text(p.telegram->Some_0)));
    } else {
        assert(doc_get(es, "telegram"@) is None);
    }
    assert(opt_str(es, "telegram"@) == Option::Some(p.telegram));
    if p.linkedin is Some {
        lemma_doc_get_push(w1, "github"@, "linkedin"@, TomlDoc::Text(p.linkedin->Some_0));
    }
    if p.github is Some {
        lemma_doc_get_push(w0, "github"@, "github"@, TomlDoc::Text(p.github->Some_0));
    }
    if p.telegram is Some {
        lemma_doc_get_push(e4, "github"@, "telegram"@, TomlDoc::Text(p.telegram->Some_0));
    }
    lemma_doc_get_push(e3, "github"@, "email"@, TomlDoc::Text(p.email));
    lemma_doc_get_push(e2, "github"@, "location"@, TomlDoc::Text(p.location));
    lemma_doc_get_push(e1, "github"@, "title"@, TomlDoc::Text(p.title));
    lemma_doc_get_push(e0, "github"@, "full_name"@, TomlDoc::Text(p.full_name));
    assert(doc_get(e0, "github"@) is None);
    if p.github is Some {
        assert(doc_get(es, "github"@) == Option::Some(TomlDoc::Text(p.github->Some_0)));
    } else {
        assert(doc_get(es, "github"@) is None);
    }
    assert(opt_str(es, "github"@) == Option::Some(p.github));
    if p.linkedin is Some {
        lemma_doc_get_push(w1, "linkedin"@, "linkedin"@, TomlDoc::Text(p.linkedin->Some_0));
    }
    if p.github is Some {
        lemma_doc_get_push(w0, "linkedin"@, "github"@, TomlDoc::Text(p.github->Some_0));
    }
    if p.telegram is Some {
        lemma_doc_get_push(e4, "linkedin"@, "telegram"@, TomlDoc::Text(p.telegram->Some_0));
    }
    lemma_doc_get_push(e3, "linkedin"@, "email"@, TomlDoc::Text(p.email));
    lemma_doc_get_push(e2, "linkedin"@, "location"@, TomlDoc::Text(p.location));
    lemma_doc_get_push(e1, "linkedin"@, "title"@, TomlDoc::Text(p.title));
    lemma_doc_get_push(e0, "linkedin"@, "full_name"@, TomlDoc::Text(p.full_name));
    assert(doc_get(e0, "linkedin"@) is None);
    if p.linkedin is Some {
        assert(doc_get(es, "linkedin"@) == Option::Some(TomlDoc::Text(p.linkedin->Some_0)));
    } else {
        assert(doc_get(es, "linkedin"@) is None);
    }
    assert(opt_str(es, "linkedin"@) == Option::Some(p.linkedin));
    assert(personal_of(TomlDoc::Tab(es)) == Option::Some(p));
}

/// A category record written out reads back as itself.
pub proof fn lemma_category_round_trip(c: TechnicalSkillsCategoryV)
    ensures
        category_of(TomlDoc::Tab(category_entries(c))) == Option::Some(c),
{
    reveal_strlit("name");
    reveal_strlit("skills");
    assert("name"@.len() == 4);
    assert("name"@[0] == 'n');
    assert("name"@[1] == 'a');
    assert("skills"@.len() == 6);
    assert("skills"@[0] == 's');
    assert("skills"@[1] == 'k');
    let e0 = Seq::<(Seq<char>, TomlDoc)>::empty();
    let e1 = e0.push(("name"@, TomlDoc::Text(c.name)));
    let e2 = e1.push(("skills"@, text_arr(c.skills)));
    assert(seq![("name"@, TomlDoc::Text(c.name)), ("skills"@, text_arr(c.skills))] =~= e2);
    let es = category_entries(c);
    assert(es == e2);
    lemma_doc_get_push(e1, "name"@, "skills"@, text_arr(c.skills));
    lemma_doc_get_push(e0, "name"@, "name"@, TomlDoc::Text(c.name));
    assert(doc_get(e0, "name"@) is None);
    assert(doc_get(es, "name"@) == Option::Some(TomlDoc::Text(c.name)));
    assert(req_str(es, "name"@) == Option::Some(c.name));
    lemma_doc_get_push(e1, "skills"@, "skills"@, text_arr(c.skills));
    lemma_doc_get_push(e0, "skills"@, "name"@, TomlDoc::Text(c.name));
    assert(doc_get(e0, "skills"@) is None);
    assert(doc_get(es, "skills"@) == Option::Some(text_arr(c.skills)));
    lemma_text_arr(c.skills);
    assert(req_str_list(es, "skills"@) == Option::Some(c.skills));
    assert(category_of(TomlDoc::Tab(es)) == Option::Some(c));
}

/// A work record written out reads back as itself.
pub proof fn lemma_work_round_trip(w: WorkExperienceV)
    ensures
        work_of(TomlDoc::Tab(work_entries(w))) == Option::Some(w),
{
    reveal_strlit("company");
    reveal_strlit("position");
    reveal_strlit("start_date");
    reveal_strlit("responsibilities");
    reveal_strlit("end_date");
    assert("company"@.len() == 7);
    assert("company"@[0] == 'c');
    assert("company"@[1] == 'o');
    assert("position"@.len() == 8);
    assert("position"@[0] == 'p');
    assert("position"@[1] == 'o');
    assert("start_date"@.len() == 10);
    assert("start_date"@[0] == 's');
    assert("start_date"@[1] == 't');
    assert("responsibilities"@.len() == 16);
    assert("responsibilities"@[0] == 'r');
    assert("responsibilities"@[1] == 'e');
    assert("end_date"@.len() == 8);
    assert("end_date"@[0] == 'e');
    assert("end_date"@[1] == 'n');
    let e0 = Seq::<(Seq<char>, TomlDoc)>::empty();
    let e1 = e0.push(("company"@, TomlDoc::Text(w.company)));
    let e2 = e1.push(("position"@, TomlDoc::Text(w.position)));
    let e3 = e2.push(("start_date"@, TomlDoc::Text(w.start_date)));
    let e4 = e3.push(("responsibilities"@, text_arr(w.responsibilities)));
    assert(seq![("company"@, TomlDoc::Text(w.company)), ("position"@, TomlDoc::Text(w.position)), ("start_date"@, TomlDoc::Text(w.start_date)), ("responsibilities"@, text_arr(w.responsibilities))] =~= e4);
    let w0 = if w.end_date is Some { e4.push(("end_date"@, TomlDoc::Text(w.end_date->Some_0))) } else { e4 };
    let es = work_entries(w);
    assert(es == w0);
    if w.end_date is Some {
        lemma_doc_get_push(e4, "company"@, "end_date"@, TomlDoc::Text(w.end_date->Some_0));
    }
    lemma_doc_get_push(e3, "company"@, "responsibilities"@, text_arr(w.responsibilities));
    lemma_doc_get_push(e2, "company"@, "start_date"@, TomlDoc::Text(w.start_date));
    lemma_doc_get_push(e1, "company"@, "position"@, TomlDoc::Text(w.position));
    lemma_doc_get_push(e0, "company"@, "company"@, TomlDoc::Text(w.company));
    assert(doc_get(e0, "company"@) is None);
    assert(doc_get(es, "company"@) == Option::Some(TomlDoc::Text(w.company)));
    assert(req_str(es, "company"@) == Option::Some(w.company));
    if w.end_date is Some {
        lemma_doc_get_push(e4, "position"@, "end_date"@, TomlDoc::Text(w.end_date->Some_0));
    }
    lemma_doc_get_push(e3, "position"@, "responsibilities"@, text_arr(w.responsibilities));
    lemma_doc_get_push(e2, "position"@, "start_date"@, TomlDoc::Text(w.start_date));
    lemma_doc_get_push(e1, "position"@, "position"@, TomlDoc::Text(w.position));
    lemma_doc_get_push(e0, "position"@, "company"@, TomlDoc::Text(w.company));
    assert(doc_get(e0, "position"@) is None);
    assert(doc_get(es, "position"@) == Option::Some(TomlDoc::Text(w.position)));
    assert(req_str(es, "position"@) == Option::Some(w.position));
    if w.end_date is Some {
        lemma_doc_get_push(e4, "start_date"@, "end_date"@, TomlDoc::Text(w.end_date->Some_0));
    }
    lemma_doc_get_push(e3, "start_date"@, "responsibilities"@, text_arr(w.responsibilities));
    lemma_doc_get_push(e2, "start_date"@, "start_date"@, TomlDoc::Text(w.start_date));
    lemma_doc_get_push(e1, "start_date"@, "position"@, TomlDoc::Text(w.position));
    lemma_doc_get_push(e0, "start_date"@, "company"@, TomlDoc::Text(w.company));
    assert(doc_get(e0, "start_date"@) is None);
    assert(doc_get(es, "start_date"@) == Option::Some(TomlDoc::Text(w.start_date)));
    assert(req_str(es, "start_date"@) == Option::Some(w.start_date));
    if w.end_date is Some {
        lemma_doc_get_push(e4, "responsibilities"@, "end_date"@, TomlDoc::Text(w.end_date->Some_0));
    }
    lemma_doc_get_push(e3, "responsibilities"@, "responsibilities"@, text_arr(w.responsibilities));
    lemma_doc_get_push(e2, "responsibilities"@, "start_date"@, TomlDoc::Text(w.start_date));
    lemma_doc_get_push(e1, "responsibilities"@, "position"@, TomlDoc::Text(w.position));
    lemma_doc_get_push(e0, "responsibilities"@, "company"@, TomlDoc::Text(w.company));
    assert(doc_get(e0, "responsibilities"@) is None);
    assert(doc_get(es, "responsibilities"@) == Option::Some(text_arr(w.responsibilities)));
    lemma_text_arr(w.responsibilities);
    assert(req_str_list(es, "responsibilities"@) == Option::Some(w.responsibilities));
    if w.end_date is Some {
        lemma_doc_get_push(e4, "end_date"@, "end_date"@, TomlDoc::Text(w.end_date->Some_0));
    }
    lemma_doc_get_push(e3, "end_date"@, "responsibilities"@, text_arr(w.responsibilities));
    lemma_doc_get_push(e2, "end_date"@, "start_date"@, TomlDoc::Text(w.start_date));
    lemma_doc_get_push(e1, "end_date"@, "position"@, TomlDoc::Text(w.position));
    lemma_doc_get_push(e0, "end_date"@, "company"@, TomlDoc::Text(w.company));
    assert(doc_get(e0, "end_date"@) is None);
    if w.end_date is Some {
        assert(doc_get(es, "end_date"@) == Option::Some(TomlDoc::Text(w.end_date->Some_0)));
    } else {
        assert(doc_get(es, "end_date"@) is None);
    }
    assert(opt_str(es, "end_date"@) == Option::Some(w.end_date));
    assert(work_of(TomlDoc::Tab(es)) == Option::Some(w));
}

/// A project record written out reads back as itself.
pub proof fn lemma_project_round_trip(p: ProjectV)
    ensures
        project_of(TomlDoc::Tab(project_entries(p))) == Option::Some(p),
{
    reveal_strlit("name");
    reveal_strlit("description");
    reveal_strlit("stack");
    reveal_strlit("highlights");
    reveal_strlit("github_url");
    assert("name"@.len() == 4);
    assert("name"@[0] == 'n');
    assert("name"@[1] == 'a');
    assert("description"@.len() == 11);
    assert("description"@[0] == 'd');
    assert("description"@[1] == 'e');
    assert("stack"@.len() == 5);
    assert("stack"@[0] == 's');
    assert("stack"@[1] == 't');
    assert("highlights"@.len() == 10);
    assert("highlights"@[0] == 'h');
    assert("highlights"@[1] == 'i');
    assert("github_url"@.len() == 10);
    assert("github_url"@[0] == 'g');
    assert("github_url"@[1] == 'i');
    let e0 = Seq::<(Seq<char>, TomlDoc)>::empty();
    let e1 = e0.push(("name"@, TomlDoc::Text(p.name)));
    let e2 = e1.push(("description"@, TomlDoc::Text(p.description)));
    let e3 = e2.push(("stack"@, text_arr(p.stack)));
    let e4 = e3.push(("highlights"@, text_arr(p.highlights)));
    assert(seq![("name"@, TomlDoc::Text(p.name)), ("description"@, TomlDoc::Text(p.description)), ("stack"@, text_arr(p.stack)), ("highlights"@, text_arr(p.highlights))] =~= e4);
    let w0 = if p.github_url is Some { e4.push(("github_url"@, TomlDoc::Text(p.github_url->Some_0))) } else { e4 };
    let es = project_entries(p);
    assert(es == w0);
    if p.github_url is Some {
        lemma_doc_get_push(e4, "name"@, "github_url"@, TomlDoc::Text(p.github_url->Some_0));
    }
    lemma_doc_get_push(e3, "name"@, "highlights"@, text_arr(p.highlights));
    lemma_doc_get_push(e2, "name"@, "stack"@, text_arr(p.stack));
    lemma_doc_get_push(e1, "name"@, "description"@, TomlDoc::Text(p.description));
    lemma_doc_get_push(e0, "name"@, "name"@, TomlDoc::Text(p.name));
    assert(doc_get(e0, "name"@) is None);
    assert(doc_get(es, "name"@) == Option::Some(TomlDoc::Text(p.name)));
    assert(req_str(es, "name"@) == Option::Some(p.name));
    if p.github_url is Some {
        lemma_doc_get_push(e4, "description"@, "github_url"@, TomlDoc::Text(p.github_url->Some_0));
    }
    lemma_doc_get_push(e3, "description"@, "highlights"@, text_arr(p.highlights));
    lemma_doc_get_push(e2, "description"@, "stack"@, text_arr(p.stack));
    lemma_doc_get_push(e1, "description"@, "description"@, TomlDoc::Text(p.description));
    lemma_doc_get_push(e0, "description"@, "name"@, TomlDoc::Text(p.name));
    assert(doc_get(e0, "description"@) is None);
    assert(doc_get(es, "description"@) == Option::Some(TomlDoc::Text(p.description)));
    assert(req_str(es, "description"@) == Option::Some(p.description));
    if p.github_url is Some {
        lemma_doc_get_push(e4, "stack"@, "github_url"@, TomlDoc::Text(p.github_url->Some_0));
    }
    lemma_doc_get_push(e3, "stack"@, "highlights"@, text_arr(p.highlights));
    lemma_doc_get_push(e2, "stack"@, "stack"@, text_arr(p.stack));
    lemma_doc_get_push(e1, "stack"@, "description"@, TomlDoc::Text(p.description));
    lemma_doc_get_push(e0, "stack"@, "name"@, TomlDoc::Text(p.name));
    assert(doc_get(e0, "stack"@) is None);
    assert(doc_get(es, "stack"@) == Option::Some(text_arr(p.stack)));
    lemma_text_arr(p.stack);
    assert(req_str_list(es, "stack"@) == Option::Some(p.stack));
    if p.github_url is Some {
        lemma_doc_get_push(e4, "highlights"@, "github_url"@, TomlDoc::Text(p.github_url->Some_0));
    }
    lemma_doc_get_push(e3, "highlights"@, "highlights"@, text_arr(p.highlights));
    lemma_doc_get_push(e2, "highlights"@, "stack"@, text_arr(p.stack));
    lemma_doc_get_push(e1, "highlights"@, "description"@, TomlDoc::Text(p.description));
    lemma_doc_get_push(e0, "highlights"@, "name"@, TomlDoc::Text(p.name));
    assert(doc_get(e0, "highlights"@) is None);
    assert(doc_get(es, "highlights"@) == Option::Some(text_arr(p.highlights)));
    lemma_text_arr(p.highlights);
    assert(req_str_list(es, "highlights"@) == Option::Some(p.highlights));
    if p.github_url is Some {
        lemma_doc_get_push(e4, "github_url"@, "github_url"@, TomlDoc::Text(p.github_url->Some_0));
    }
    lemma_doc_get_push(e3, "github_url"@, "highlights"@, text_arr(p.highlights));
    lemma_doc_get_push(e2, "github_url"@, "stack"@, text_arr(p.stack));
    lemma_doc_get_push(e1, "github_url"@, "description"@, TomlDoc::Text(p.description));
    lemma_doc_get_push(e0, "github_url"@, "name"@, TomlDoc::Text(p.name));
    assert(doc_get(e0, "github_url"@) is None);
    if p.github_url is Some {
        assert(doc_get(es, "github_url"@) == Option::Some(TomlDoc::Text(p.github_url->Some_0)));
    } else {
        assert(doc_get(es, "github_url"@) is None);
    }
    assert(opt_str(es, "github_url"@) == Option::Some(p.github_url));
    assert(project_of(TomlDoc::Tab(es)) == Option::Some(p));
}

/// A education record written out reads back as itself.
pub proof fn lemma_education_round_trip(e: EducationV)
    ensures
        education_of(TomlDoc::Tab(education_entries(e))) == Option::Some(e),
{
    reveal_strlit("degree");
    reveal_strlit("institution");
    reveal_strlit("start_year");
    reveal_strlit("end_year");
    assert("degree"@.len() == 6);
    assert("degree"@[0] == 'd');
    assert("degree"@[1] == 'e');
    assert("institution"@.len() == 11);
    assert("institution"@[0] == 'i');
    assert("institution"@[1] == 'n');
    assert("start_year"@.len() == 10);
    assert("start_year"@[0] == 's');
    assert("start_year"@[1] == 't');
    assert("end_year"@.len() == 8);
    assert("end_year"@[0] == 'e');
    assert("end_year"@[1] == 'n');
    let e0 = Seq::<(Seq<char>, TomlDoc)>::empty();
    let e1 = e0.push(("degree"@, TomlDoc::Text(e.degree)));
    let e2 = e1.push(("institution"@, TomlDoc::Text(e.institution)));
    let e3 = e2.push(("start_year"@, TomlDoc::Int(e.start_year as int)));
    assert(seq![("degree"@, TomlDoc::Text(e.degree)), ("institution"@, TomlDoc::Text(e.institution)), ("start_year"@, TomlDoc::Int(e.start_year as int))] =~= e3);
    let w0 = if e.end_year is Some { e3.push(("end_year"@, TomlDoc::Int(e.end_year->Some_0 as int))) } else { e3 };
    let es = education_entries(e);
    assert(es == w0);
    if e.end_year is Some {
        lemma_doc_get_push(e3, "degree"@, "end_year"@, TomlDoc::Int(e.end_year->Some_0 as int));
    }
    lemma_doc_get_push(e2, "degree"@, "start_year"@, TomlDoc::Int(e.start_year as int));
    lemma_doc_get_push(e1, "degree"@, "institution"@, TomlDoc::Text(e.institution));
    lemma_doc_get_push(e0, "degree"@, "degree"@, TomlDoc::Text(e.degree));
    assert(doc_get(e0, "degree"@) is None);
    assert(doc_get(es, "degree"@) == Option::Some(TomlDoc::Text(e.degree)));
    assert(req_str(es, "degree"@) == Option::Some(e.degree));
    if e.end_year is Some {
        lemma_doc_get_push(e3, "institution"@, "end_year"@, TomlDoc::Int(e.end_year->Some_0 as int));
    }
    lemma_doc_get_push(e2, "institution"@, "start_year"@, TomlDoc::Int(e.start_year as int));
    lemma_doc_get_push(e1, "institution"@, "institution"@, TomlDoc::Text(e.institution));
    lemma_doc_get_push(e0, "institution"@, "degree"@, TomlDoc::Text(e.degree));
    assert(doc_get(e0, "institution"@) is None);
    assert(doc_get(es, "institution"@) == Option::Some(TomlDoc::Text(e.institution)));
    assert(req_str(es, "institution"@) == Option::Some(e.institution));
    if e.end_year is Some {
        lemma_doc_get_push(e3, "start_year"@, "end_year"@, TomlDoc::Int(e.end_year->Some_0 as int));
    }
    lemma_doc_get_push(e2, "start_year"@, "start_year"@, TomlDoc::Int(e.start_year as int));
    lemma_doc_get_push(e1, "start_year"@, "institution"@, TomlDoc::Text(e.institution));
    lemma_doc_get_push(e0, "start_year"@, "degree"@, TomlDoc::Text(e.degree));
    assert(doc_get(e0, "start_year"@) is None);
    assert(doc_get(es, "start_year"@) == Option::Some(TomlDoc::Int(e.start_year as int)));
    assert(req_year(es, "start_year"@) == Option::Some(e.start_year));
    if e.end_year is Some {
        lemma_doc_get_push(e3, "end_year"@, "end_year"@, TomlDoc::Int(e.end_year->Some_0 as int));
    }
    lemma_doc_get_push(e2, "end_year"@, "start_year"@, TomlDoc::Int(e.start_year as int));
    lemma_doc_get_push(e1, "end_year"@, "institution"@, TomlDoc::Text(e.institution));
    lemma_doc_get_push(e0, "end_year"@, "degree"@, TomlDoc::Text(e.degree));
    assert(doc_get(e0, "end_year"@) is None);
    if e.end_year is Some {
        assert(doc_get(es, "end_year"@) == Option::Some(TomlDoc::Int(e.end_year->Some_0 as int)));
    } else {
        assert(doc_get(es, "end_year"@) is None);
    }
    assert(opt_year(es, "end_year"@) == Option::Some(e.end_year));
    assert(education_of(TomlDoc::Tab(es)) == Option::Some(e));
}

/// A additional record written out reads back as itself.
pub proof fn lemma_additional_round_trip(a: AdditionalV)
    ensures
        additional_of(TomlDoc::Tab(additional_entries(a))) == Option::Some(a),
{
    reveal_strlit("english_level");
    reveal_strlit("relocation_ready");
    reveal_strlit("interests");
    assert("english_level"@.len() == 13);
    assert("english_level"@[0] == 'e');
    assert("english_level"@[1] == 'n');
    assert("relocation_ready"@.len() == 16);
    assert("relocation_ready"@[0] == 'r');
    assert("relocation_ready"@[1] == 'e');
    assert("interests"@.len() == 9);
    assert("interests"@[0] == 'i');
    assert("interests"@[1] == 'n');
    let e0 = Seq::<(Seq<char>, TomlDoc)>::empty();
    let w0 = if a.english_level is Some { e0.push(("english_level"@, TomlDoc::Text(a.english_level->Some_0))) } else { e0 };
    let w1 = if a.relocation_ready is Some { w0.push(("relocation_ready"@, TomlDoc::Bool(a.relocation_ready->Some_0))) } else { w0 };
    let w2 = if a.interests is Some { w1.push(("interests"@, text_arr(a.interests->Some_0))) } else { w1 };
    let es = additional_entries(a);
    assert(es == w2);
    if a.interests is Some {
        lemma_doc_get_push(w1, "english_level"@, "interests"@, text_arr(a.interests->Some_0));
    }
    if a.relocation_ready is Some {
        lemma_doc_get_push(w0, "english_level"@, "relocation_ready"@, TomlDoc::Bool(a.relocation_ready->Some_0));
    }
    if a.english_level is Some {
        lemma_doc_get_push(e0, "english_level"@, "english_level"@, TomlDoc::Text(a.english_level->Some_0));
    }
    assert(doc_get(e0, "english_level"@) is None);
    if a.english_level is Some {
        assert(doc_get(es, "english_level"@) == Option::Some(TomlDoc::Text(a.english_level->Some_0)));
    } else {
        assert(doc_get(es, "english_level"@) is None);
    }
    assert(opt_str(es, "english_level"@) == Option::Some(a.english_level));
    if a.interests is Some {
        lemma_doc_get_push(w1, "relocation_ready"@, "interests"@, text_arr(a.interests->Some_0));
    }
    if a.relocation_ready is Some {
        lemma_doc_get_push(w0, "relocation_ready"@, "relocation_ready"@, TomlDoc::Bool(a.relocation_ready->Some_0));
    }
    if a.english_level is Some {
        lemma_doc_get_push(e0, "relocation_ready"@, "english_level"@, TomlDoc::Text(a.english_level->Some_0));
    }
    assert(doc_get(e0, "relocation_ready"@) is None);
    if a.relocation_ready is Some {
        assert(doc_get(es, "relocation_ready"@) == Option::Some(TomlDoc::Bool(a.relocation_ready->Some_0)));
    } else {
        assert(doc_get(es, "relocation_ready"@) is None);
    }
    assert(opt_bool(es, "relocation_ready"@) == Option::Some(a.relocation_ready));
    if a.interests is Some {
        lemma_doc_get_push(w1, "interests"@, "interests"@, text_arr(a.interests->Some_0));
    }
    if a.relocation_ready is Some {
        lemma_doc_get_push(w0, "interests"@, "relocation_ready"@, TomlDoc::Bool(a.relocation_ready->Some_0));
    }
    if a.english_level is Some {
        lemma_doc_get_push(e0, "interests"@, "english_level"@, TomlDoc::Text(a.english_level->Some_0));
    }
    assert(doc_get(e0, "interests"@) is None);
    if a.interests is Some {
        assert(doc_get(es, "interests"@) == Option::Some(text_arr(a.interests->Some_0)));
        lemma_text_arr(a.interests->Some_0);
    } else {
        assert(doc_get(es, "interests"@) is None);
    }
    assert(opt_str_list(es, "interests"@) == Option::Some(a.interests));
    assert(additional_of(TomlDoc::Tab(es)) == Option::Some(a));
}


/// The skills section written out reads back as itself.
pub proof fn lemma_skills_round_trip(s: TechnicalSkillsV)
    ensures
        skills_of(TomlDoc::Tab(skills_entries(s))) == Option::Some(s),
{
    reveal_strlit("category_skills");
    let arr = Seq::new(
        s.category_skills.len(),
        |i: int| TomlDoc::Tab(category_entries(s.category_skills[i])),
    );
    let e0 = Seq::<(Seq<char>, TomlDoc)>::empty();
    let e1 = e0.push(("category_skills"@, TomlDoc::Arr(arr)));
    let es = skills_entries(s);
    assert(es =~= e1);
    lemma_doc_get_push(e0, "category_skills"@, "category_skills"@, TomlDoc::Arr(arr));
    assert(doc_get(e0, "category_skills"@) is None);
    assert(doc_get(es, "category_skills"@) == Option::Some(TomlDoc::Arr(arr)));
    assert forall|i: int| 0 <= i < arr.len() implies category_of(#[trigger] arr[i])
        == Option::Some(s.category_skills[i]) by {
        lemma_category_round_trip(s.category_skills[i]);
    }
    assert(category_seq_of(TomlDoc::Arr(arr))->Some_0 =~= s.category_skills);
    assert(skills_of(TomlDoc::Tab(es)) == Option::Some(s));
}

} // verus!

verus! {

/// The round-trip law: any resume written to its document reads back from
/// that document as exactly itself. Together with the writers' and
/// readers' own contracts, this pins serialization and parsing to each
/// other; only the `toml` crate's text rendering stands between this law
/// and the byte-level round trip, which the tests exercise.
pub proof fn lemma_resume_round_trip(rv: ResumeV)
    ensures
        resume_of_doc(resume_doc(rv)) == Option::Some(rv),
{
    reveal_strlit("personal_info");
    reveal_strlit("summary");
    reveal_strlit("technical_skills");
    reveal_strlit("work_experience");
    reveal_strlit("projects");
    reveal_strlit("education");
    reveal_strlit("additional");
    assert("personal_info"@.len() == 13);
    assert("summary"@.len() == 7);
    assert("technical_skills"@.len() == 16);
    assert("work_experience"@.len() == 15);
    assert("projects"@.len() == 8);
    assert("education"@.len() == 9);
    assert("additional"@.len() == 10);
    let warr = Seq::new(
        rv.work_experience.len(),
        |i: int| TomlDoc::Tab(work_entries(rv.work_experience[i])),
    );
    let parr = Seq::new(rv.projects.len(), |i: int| TomlDoc::Tab(project_entries(rv.projects[i])));
    let earr = Seq::new(rv.education.len(), |i: int| TomlDoc::Tab(education_entries(rv.education[i])));
    let e0 = Seq::<(Seq<char>, TomlDoc)>::empty();
    let e1 = e0.push(("personal_info"@, TomlDoc::Tab(personal_entries(rv.personal_info))));
    let e2 = e1.push(("summary"@, TomlDoc::Text(rv.summary)));
    let e3 = e2.push(("technical_skills"@, TomlDoc::Tab(skills_entries(rv.technical_skills))));
    let e4 = e3.push(("work_experience"@, TomlDoc::Arr(warr)));
    let e5 = e4.push(("projects"@, TomlDoc::Arr(parr)));
    let e6 = e5.push(("education"@, TomlDoc::Arr(earr)));
    assert(seq![("personal_info"@, TomlDoc::Tab(personal_entries(rv.personal_info))), ("summary"@, TomlDoc::Text(rv.summary)), ("technical_skills"@, TomlDoc::Tab(skills_entries(rv.technical_skills))), ("work_experience"@, TomlDoc::Arr(warr)), ("projects"@, TomlDoc::Arr(parr)), ("education"@, TomlDoc::Arr(earr))] =~= e6);
    let w0 = if rv.additional is Some {
        e6.push(("additional"@, TomlDoc::Tab(additional_entries(rv.additional->Some_0))))
    } else {
        e6
    };
    let es = resume_entries(rv);
    assert(es == w0);
    if rv.additional is Some {
        lemma_doc_get_push(e6, "personal_info"@, "additional"@, TomlDoc::Tab(additional_entries(rv.additional->Some_0)));
    }
    lemma_doc_get_push(e5, "personal_info"@, "education"@, TomlDoc::Arr(earr));
    lemma_doc_get_push(e4, "personal_info"@, "projects"@, TomlDoc::Arr(parr));
    lemma_doc_get_push(e3, "personal_info"@, "work_experience"@, TomlDoc::Arr(warr));
    lemma_doc_get_push(e2, "personal_info"@, "technical_skills"@, TomlDoc::Tab(skills_entries(rv.technical_skills)));
    lemma_doc_get_push(e1, "personal_info"@, "summary"@, TomlDoc::Text(rv.summary));
    lemma_doc_get_push(e0, "personal_info"@, "personal_info"@, TomlDoc::Tab(personal_entries(rv.personal_info)));
    assert(doc_get(e0, "personal_info"@) is None);
    assert(doc_get(es, "personal_info"@) == Option::Some(TomlDoc::Tab(personal_entries(rv.personal_info))));
    if rv.additional is Some {
        lemma_doc_get_push(e6, "summary"@, "additional"@, TomlDoc::Tab(additional_entries(rv.additional->Some_0)));
    }
    lemma_doc_get_push(e5, "summary"@, "education"@, TomlDoc::Arr(earr));
    lemma_doc_get_push(e4, "summary"@, "projects"@, TomlDoc::Arr(parr));
    lemma_doc_get_push(e3, "summary"@, "work_experience"@, TomlDoc::Arr(warr));
    lemma_doc_get_push(e2, "summary"@, "technical_skills"@, TomlDoc::Tab(skills_entries(rv.technical_skills)));
    lemma_doc_get_push(e1, "summary"@, "summary"@, TomlDoc::Text(rv.summary));
    lemma_doc_get_push(e0, "summary"@, "personal_info"@, TomlDoc::Tab(personal_entries(rv.personal_info)));
    assert(doc_get(e0, "summary"@) is None);
    assert(doc_get(es, "summary"@) == Option::Some(TomlDoc::Text(rv.summary)));
    if rv.additional is Some {
        lemma_doc_get_push(e6, "technical_skills"@, "additional"@, TomlDoc::Tab(additional_entries(rv.additional->Some_0)));
    }
    lemma_doc_get_push(e5, "technical_skills"@, "education"@, TomlDoc::Arr(earr));
    lemma_doc_get_push(e4, "technical_skills"@, "projects"@, TomlDoc::Arr(parr));
    lemma_doc_get_push(e3, "technical_skills"@, "work_experience"@, TomlDoc::Arr(warr));
    lemma_doc_get_push(e2, "technical_skills"@, "technical_skills"@, TomlDoc::Tab(skills_entries(rv.technical_skills)));
    lemma_doc_get_push(e1, "technical_skills"@, "summary"@, TomlDoc::Text(rv.summary));
    lemma_doc_get_push(e0, "technical_skills"@, "personal_info"@, TomlDoc::Tab(personal_entries(rv.personal_info)));
    assert(doc_get(e0, "technical_skills"@) is None);
    assert(doc_get(es, "technical_skills"@) == Option::Some(TomlDoc::Tab(skills_entries(rv.technical_skills))));
    if rv.additional is Some {
        lemma_doc_get_push(e6, "work_experience"@, "additional"@, TomlDoc::Tab(additional_entries(rv.additional->Some_0)));
    }
    lemma_doc_get_push(e5, "work_experience"@, "education"@, TomlDoc::Arr(earr));
    lemma_doc_get_push(e4, "work_experience"@, "projects"@, TomlDoc::Arr(parr));
    lemma_doc_get_push(e3, "work_experience"@, "work_experience"@, TomlDoc::Arr(warr));
    lemma_doc_get_push(e2, "work_experience"@, "technical_skills"@, TomlDoc::Tab(skills_entries(rv.technical_skills)));
    lemma_doc_get_push(e1, "work_experience"@, "summary"@, TomlDoc::Text(rv.summary));
    lemma_doc_get_push(e0, "work_experience"@, "personal_info"@, TomlDoc::Tab(personal_entries(rv.personal_info)));
    assert(doc_get(e0, "work_experience"@) is None);
    assert(doc_get(es, "work_experience"@) == Option::Some(TomlDoc::Arr(warr)));
    if rv.additional is Some {
        lemma_doc_get_push(e6, "projects"@, "additional"@, TomlDoc::Tab(additional_entries(rv.additional->Some_0)));
    }
    lemma_doc_get_push(e5, "projects"@, "education"@, TomlDoc::Arr(earr));
    lemma_doc_get_push(e4, "projects"@, "projects"@, TomlDoc::Arr(parr));
    lemma_doc_get_push(e3, "projects"@, "work_experience"@, TomlDoc::Arr(warr));
    lemma_doc_get_push(e2, "projects"@, "technical_skills"@, TomlDoc::Tab(skills_entries(rv.technical_skills)));
    lemma_doc_get_push(e1, "projects"@, "summary"@, TomlDoc::Text(rv.summary));
    lemma_doc_get_push(e0, "projects"@, "personal_info"@, TomlDoc::Tab(personal_entries(rv.personal_info)));
    assert(doc_get(e0, "projects"@) is None);
    assert(doc_get(es, "projects"@) == Option::Some(TomlDoc::Arr(parr)));
    if rv.additional is Some {
        lemma_doc_get_push(e6, "education"@, "additional"@, TomlDoc::Tab(additional_entries(rv.additional->Some_0)));
    }
    lemma_doc_get_push(e5, "education"@, "education"@, TomlDoc::Arr(earr));
    lemma_doc_get_push(e4, "education"@, "projects"@, TomlDoc::Arr(parr));
    lemma_doc_get_push(e3, "education"@, "work_experience"@, TomlDoc::Arr(warr));
    lemma_doc_get_push(e2, "education"@, "technical_skills"@, TomlDoc::Tab(skills_entries(rv.technical_skills)));
    lemma_doc_get_push(e1, "education"@, "summary"@, TomlDoc::Text(rv.summary));
    lemma_doc_get_push(e0, "education"@, "personal_info"@, TomlDoc::Tab(personal_entries(rv.personal_info)));
    assert(doc_get(e0, "education"@) is None);
    assert(doc_get(es, "education"@) == Option::Some(TomlDoc::Arr(earr)));
    if rv.additional is Some {
        lemma_doc_get_push(e6, "additional"@, "additional"@, TomlDoc::Tab(additional_entries(rv.additional->Some_0)));
    }
    lemma_doc_get_push(e5, "additional"@, "education"@, TomlDoc::Arr(earr));
    lemma_doc_get_push(e4, "additional"@, "projects"@, TomlDoc::Arr(parr));
    lemma_doc_get_push(e3, "additional"@, "work_experience"@, TomlDoc::Arr(warr));
    lemma_doc_get_push(e2, "additional"@, "technical_skills"@, TomlDoc::Tab(skills_entries(rv.technical_skills)));
    lemma_doc_get_push(e1, "additional"@, "summary"@, TomlDoc::Text(rv.summary));
    lemma_doc_get_push(e0, "additional"@, "personal_info"@, TomlDoc::Tab(personal_entries(rv.personal_info)));
    assert(doc_get(e0, "additional"@) is None);
    lemma_personal_round_trip(rv.personal_info);
    assert(req_str(es, "summary"@) == Option::Some(rv.summary));
    lemma_skills_round_trip(rv.technical_skills);
    assert forall|i: int| 0 <= i < warr.len() implies work_of(#[trigger] warr[i])
        == Option::Some(rv.work_experience[i]) by {
        lemma_work_round_trip(rv.work_experience[i]);
    }
    assert(work_seq_of(TomlDoc::Arr(warr))->Some_0 =~= rv.work_experience);
    assert forall|i: int| 0 <= i < parr.len() implies project_of(#[trigger] parr[i])
        == Option::Some(rv.projects[i]) by {
        lemma_project_round_trip(rv.projects[i]);
    }
    assert(project_seq_of(TomlDoc::Arr(parr))->Some_0 =~= rv.projects);
    assert forall|i: int| 0 <= i < earr.len() implies education_of(#[trigger] earr[i])
        == Option::Some(rv.education[i]) by {
        lemma_education_round_trip(rv.education[i]);
    }
    assert(education_seq_of(TomlDoc::Arr(earr))->Some_0 =~= rv.education);
    if rv.additional is Some {
        assert(doc_get(es, "additional"@) == Option::Some(
            TomlDoc::Tab(additional_entries(rv.additional->Some_0)),
        ));
        lemma_additional_round_trip(rv.additional->Some_0);
    } else {
        assert(doc_get(es, "additional"@) is None);
    }
    assert(resume_of_doc(TomlDoc::Tab(es)) == Option::Some(rv));
}

} // verus!
