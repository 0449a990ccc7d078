//! The resume data model: the closed set of display languages, the resume
//! record with its nested sections, and the per-language table of fixed
//! interface labels.

use vstd::prelude::*;

verus! {

/// A display language for the resume, out of a fixed, closed set.
#[derive(Clone, Copy, Debug, PartialEq, Eq, Hash, Structural)]
pub enum Language {
    Russian,
    English,
    Thai,
}

/// The canonical short code of a language, as used in file names and URL paths.
pub open spec fn code_spec(lang: Language) -> Seq<char> {
    match lang {
        Language::Russian => "ru"@,
        Language::English => "en"@,
        Language::Thai => "th"@,
    }
}

/// The language that a short code stands for. The known codes "ru" and "th"
/// map to their languages; every other string, "en" included, maps to English.
pub open spec fn lang_of_code(code: Seq<char>) -> Language {
    if code == "ru"@ {
        Language::Russian
    } else if code == "th"@ {
        Language::Thai
    } else {
        Language::English
    }
}

/// The language that an optional URL path segment resolves to: no segment
/// means the default language, a segment is read as a short code.
pub open spec fn resolved_lang(segment: Option<Seq<char>>) -> Language {
    match segment {
        Option::None => Language::Russian,
        Option::Some(code) => lang_of_code(code),
    }
}

impl Language {
    /// The canonical short code: "ru", "en" or "th".
    pub fn code(&self) -> (r: &'static str)
        ensures
            r@ == code_spec(*self),
    {
        match self {
            Language::Russian => "ru",
            Language::English => "en",
            Language::Thai => "th",
        }
    }

    /// Reads a short code. Unrecognized codes, the empty string included,
    /// deliberately fall back to English rather than failing.
    pub fn from_code(code: &str) -> (r: Language)
        ensures
            r == lang_of_code(code@),
    {
        let owned: String = code.to_owned();
        if owned == "ru".to_owned() {
            Language::Russian
        } else if owned == "th".to_owned() {
            Language::Thai
        } else {
            Language::English
        }
    }

    /// Resolves an optional URL path segment to a language.
    pub fn resolve(segment: Option<&str>) -> (r: Language)
        ensures
            r == resolved_lang(segment.deep_view()),
    {
        match segment {
            Option::None => Language::Russian,
            Option::Some(code) => Language::from_code(code),
        }
    }
}

impl Default for Language {
    /// The default language is Russian.
    fn default() -> (r: Self)
        ensures
            r == Language::Russian,
    {
        Language::Russian
    }
}

/// The language chosen by a request, as carried in its path or query.
#[derive(Clone, Copy, Debug, PartialEq, Eq, Structural)]
pub struct QueryTemplate {
    pub lang: Language,
}

} // verus!

verus! {

/// The deep view of a personal-information record.
pub ghost struct PersonalInfoV {
    pub full_name: Seq<char>,
    pub title: Seq<char>,
    pub location: Seq<char>,
    pub email: Seq<char>,
    pub telegram: Option<Seq<char>>,
    pub github: Option<Seq<char>>,
    pub linkedin: Option<Seq<char>>,
}

/// Name, contacts and location of the resume's subject.
#[derive(Debug, PartialEq)]
pub struct PersonalInfo {
    pub full_name: String,
    pub title: String,
    pub location: String,
    pub email: String,
    pub telegram: Option<String>,
    pub github: Option<String>,
    pub linkedin: Option<String>,
}

impl DeepView for PersonalInfo {
    type V = PersonalInfoV;

    open spec fn deep_view(&self) -> PersonalInfoV {
        PersonalInfoV {
            full_name: self.full_name.deep_view(),
            title: self.title.deep_view(),
            location: self.location.deep_view(),
            email: self.email.deep_view(),
            telegram: self.telegram.deep_view(),
            github: self.github.deep_view(),
            linkedin: self.linkedin.deep_view(),
        }
    }
}

impl Clone for PersonalInfo {
    fn clone(&self) -> (r: Self)
        ensures
            r.deep_view() == self.deep_view(),
    {
        PersonalInfo {
            full_name: self.full_name.clone(),
            title: self.title.clone(),
            location: self.location.clone(),
            email: self.email.clone(),
            telegram: self.telegram.clone(),
            github: self.github.clone(),
            linkedin: self.linkedin.clone(),
        }
    }
}

/// The deep view of one named skill category.
pub ghost struct TechnicalSkillsCategoryV {
    pub name: Seq<char>,
    pub skills: Seq<Seq<char>>,
}

/// One named category of technical skills, in the order they are shown.
#[derive(Debug, PartialEq)]
pub struct TechnicalSkillsCategory {
    pub name: String,
    pub skills: Vec<String>,
}

impl DeepView for TechnicalSkillsCategory {
    type V = TechnicalSkillsCategoryV;

    open spec fn deep_view(&self) -> TechnicalSkillsCategoryV {
        TechnicalSkillsCategoryV {
            name: self.name.deep_view(),
            skills: self.skills.deep_view(),
        }
    }
}

impl Clone for TechnicalSkillsCategory {
    fn clone(&self) -> (r: Self)
        ensures
            r.deep_view() == self.deep_view(),
    {
        let r = TechnicalSkillsCategory {
            name: self.name.clone(),
            skills: self.skills.clone(),
        };
        proof {
            lemma_clone_vec_string(self.skills, r.skills);
        }
        r
    }
}

/// Clones of strings keep their characters, so a cloned vector of strings
/// keeps its deep view.
proof fn lemma_clone_vec_string(a: Vec<String>, b: Vec<String>)
    requires
        b.len() == a.len(),
        forall|i: int| #![all_triggers] 0 <= i < a.len() ==> cloned::<String>(a[i], b[i]),
    ensures
        b.deep_view() == a.deep_view(),
{
    assert forall|i: int| 0 <= i < a@.len() implies a.deep_view()[i] == b.deep_view()[i] by {
        assert(cloned::<String>(a[i], b[i]));
    }
    assert(a.deep_view() =~= b.deep_view());
}

/// The deep view of the skills section.
pub ghost struct TechnicalSkillsV {
    pub category_skills: Seq<TechnicalSkillsCategoryV>,
}

/// The skills section: an ordered list of named categories.
#[derive(Debug, PartialEq)]
pub struct TechnicalSkills {
    pub category_skills: Vec<TechnicalSkillsCategory>,
}

impl DeepView for TechnicalSkills {
    type V = TechnicalSkillsV;

    open spec fn deep_view(&self) -> TechnicalSkillsV {
        TechnicalSkillsV { category_skills: self.category_skills.deep_view() }
    }
}

impl Clone for TechnicalSkills {
    fn clone(&self) -> (r: Self)
        ensures
            r.deep_view() == self.deep_view(),
    {
        let r = TechnicalSkills { category_skills: clone_vec_categories(&self.category_skills) };
        r
    }
}

/// Clones a vector of skill categories, keeping its deep view.
fn clone_vec_categories(a: &Vec<TechnicalSkillsCategory>) -> (r: Vec<TechnicalSkillsCategory>)
    ensures
        r.deep_view() == a.deep_view(),
{
    let mut r: Vec<TechnicalSkillsCategory> = Vec::new();
    let mut i: usize = 0;
    while i < a.len()
        invariant
            i <= a.len(),
            r@.len() == i,
            forall|j: int| #![all_triggers] 0 <= j < i ==> r@[j].deep_view() == a@[j].deep_view(),
        decreases a.len() - i,
    {
        r.push(a[i].clone());
        i += 1;
    }
    proof {
        assert(r.deep_view() =~= a.deep_view());
    }
    r
}

} // verus!

verus! {

/// The deep view of one work-experience entry.
pub ghost struct WorkExperienceV {
    pub company: Seq<char>,
    pub position: Seq<char>,
    pub start_date: Seq<char>,
    pub end_date: Option<Seq<char>>,
    pub responsibilities: Seq<Seq<char>>,
}

/// One work-experience entry; an absent end date means the position is
/// still held.
#[derive(Debug, PartialEq)]
pub struct WorkExperience {
    pub company: String,
    pub position: String,
    pub start_date: String,
    pub end_date: Option<String>,
    pub responsibilities: Vec<String>,
}

impl DeepView for WorkExperience {
    type V = WorkExperienceV;

    open spec fn deep_view(&self) -> WorkExperienceV {
        WorkExperienceV {
            company: self.company.deep_view(),
            position: self.position.deep_view(),
            start_date: self.start_date.deep_view(),
            end_date: self.end_date.deep_view(),
            responsibilities: self.responsibilities.deep_view(),
        }
    }
}

impl Clone for WorkExperience {
    fn clone(&self) -> (r: Self)
        ensures
            r.deep_view() == self.deep_view(),
    {
        let r = WorkExperience {
            company: self.company.clone(),
            position: self.position.clone(),
            start_date: self.start_date.clone(),
            end_date: self.end_date.clone(),
            responsibilities: self.responsibilities.clone(),
        };
        proof {
            lemma_clone_vec_string(self.responsibilities, r.responsibilities);
        }
        r
    }
}

/// The deep view of one project entry.
pub ghost struct ProjectV {
    pub name: Seq<char>,
    pub description: Seq<char>,
    pub stack: Seq<Seq<char>>,
    pub highlights: Seq<Seq<char>>,
    pub github_url: Option<Seq<char>>,
}

/// One project entry, with its technology stack and highlights.
#[derive(Debug, PartialEq)]
pub struct Project {
    pub name: String,
    pub description: String,
    pub stack: Vec<String>,
    pub highlights: Vec<String>,
    pub github_url: Option<String>,
}

impl DeepView for Project {
    type V = ProjectV;

    open spec fn deep_view(&self) -> ProjectV {
        ProjectV {
            name: self.name.deep_view(),
            description: self.description.deep_view(),
            stack: self.stack.deep_view(),
            highlights: self.highlights.deep_view(),
            github_url: self.github_url.deep_view(),
        }
    }
}

impl Clone for Project {
    fn clone(&self) -> (r: Self)
        ensures
            r.deep_view() == self.deep_view(),
    {
        let r = Project {
            name: self.name.clone(),
            description: self.description.clone(),
            stack: self.stack.clone(),
            highlights: self.highlights.clone(),
            github_url: self.github_url.clone(),
        };
        proof {
            lemma_clone_vec_string(self.stack, r.stack);
            lemma_clone_vec_string(self.highlights, r.highlights);
        }
        r
    }
}

/// The deep view of one education entry.
pub ghost struct EducationV {
    pub degree: Seq<char>,
    pub institution: Seq<char>,
    pub start_year: u16,
    pub end_year: Option<u16>,
}

/// One education entry; an absent end year means the degree is in progress.
#[derive(Debug, PartialEq)]
pub struct Education {
    pub degree: String,
    pub institution: String,
    pub start_year: u16,
    pub end_year: Option<u16>,
}

impl DeepView for Education {
    type V = EducationV;

    open spec fn deep_view(&self) -> EducationV {
        EducationV {
            degree: self.degree.deep_view(),
            institution: self.institution.deep_view(),
            start_year: self.start_year,
            end_year: self.end_year,
        }
    }
}

impl Clone for Education {
    fn clone(&self) -> (r: Self)
        ensures
            r.deep_view() == self.deep_view(),
    {
        Education {
            degree: self.degree.clone(),
            institution: self.institution.clone(),
            start_year: self.start_year,
            end_year: self.end_year,
        }
    }
}

/// The deep view of the optional additional-information block.
pub ghost struct AdditionalV {
    pub english_level: Option<Seq<char>>,
    pub relocation_ready: Option<bool>,
    pub interests: Option<Seq<Seq<char>>>,
}

/// Optional extra facts: spoken-English level, readiness to relocate,
/// and interests.
#[derive(Debug, PartialEq)]
pub struct Additional {
    pub english_level: Option<String>,
    pub relocation_ready: Option<bool>,
    pub interests: Option<Vec<String>>,
}

impl DeepView for Additional {
    type V = AdditionalV;

    open spec fn deep_view(&self) -> AdditionalV {
        AdditionalV {
            english_level: self.english_level.deep_view(),
            relocation_ready: self.relocation_ready,
            interests: self.interests.deep_view(),
        }
    }
}

impl Clone for Additional {
    fn clone(&self) -> (r: Self)
        ensures
            r.deep_view() == self.deep_view(),
    {
        let interests = match &self.interests {
            Option::Some(list) => {
                let copy = clone_vec_string(list);
                Option::Some(copy)
            },
            Option::None => Option::None,
        };
        Additional {
            english_level: self.english_level.clone(),
            relocation_ready: self.relocation_ready,
            interests,
        }
    }
}

/// Clones a vector of strings, keeping its deep view.
fn clone_vec_string(a: &Vec<String>) -> (r: Vec<String>)
    ensures
        r.deep_view() == a.deep_view(),
{
    let r = a.clone();
    proof {
        lemma_clone_vec_string(*a, r);
    }
    r
}

/// The deep view of a whole resume.
pub ghost struct ResumeV {
    pub personal_info: PersonalInfoV,
    pub summary: Seq<char>,
    pub technical_skills: TechnicalSkillsV,
    pub work_experience: Seq<WorkExperienceV>,
    pub projects: Seq<ProjectV>,
    pub education: Seq<EducationV>,
    pub additional: Option<AdditionalV>,
}

/// A whole resume: the aggregate record that one source file describes.
#[derive(Debug, PartialEq)]
pub struct Resume {
    pub personal_info: PersonalInfo,
    pub summary: String,
    pub technical_skills: TechnicalSkills,
    pub work_experience: Vec<WorkExperience>,
    pub projects: Vec<Project>,
    pub education: Vec<Education>,
    pub additional: Option<Additional>,
}

impl DeepView for Resume {
    type V = ResumeV;

    open spec fn deep_view(&self) -> ResumeV {
        ResumeV {
            personal_info: self.personal_info.deep_view(),
            summary: self.summary.deep_view(),
            technical_skills: self.technical_skills.deep_view(),
            work_experience: self.work_experience.deep_view(),
            projects: self.projects.deep_view(),
            education: self.education.deep_view(),
            additional: self.additional.deep_view(),
        }
    }
}

impl Clone for Resume {
    fn clone(&self) -> (r: Self)
        ensures
            r.deep_view() == self.deep_view(),
    {
        Resume {
            personal_info: self.personal_info.clone(),
            summary: self.summary.clone(),
            technical_skills: self.technical_skills.clone(),
            work_experience: clone_vec_work(&self.work_experience),
            projects: clone_vec_projects(&self.projects),
            education: clone_vec_education(&self.education),
            additional: match &self.additional {
                Option::Some(a) => Option::Some(a.clone()),
                Option::None => Option::None,
            },
        }
    }
}

/// Clones a vector of work-experience entries, keeping its deep view.
fn clone_vec_work(a: &Vec<WorkExperience>) -> (r: Vec<WorkExperience>)
    ensures
        r.deep_view() == a.deep_view(),
{
    let mut r: Vec<WorkExperience> = Vec::new();
    let mut i: usize = 0;
    while i < a.len()
        invariant
            i <= a.len(),
            r@.len() == i,
            forall|j: int| #![all_triggers] 0 <= j < i ==> r@[j].deep_view() == a@[j].deep_view(),
        decreases a.len() - i,
    {
        r.push(a[i].clone());
        i += 1;
    }
    proof {
        assert(r.deep_view() =~= a.deep_view());
    }
    r
}

/// Clones a vector of project entries, keeping its deep view.
fn clone_vec_projects(a: &Vec<Project>) -> (r: Vec<Project>)
    ensures
        r.deep_view() == a.deep_view(),
{
    let mut r: Vec<Project> = Vec::new();
    let mut i: usize = 0;
    while i < a.len()
        invariant
            i <= a.len(),
            r@.len() == i,
            forall|j: int| #![all_triggers] 0 <= j < i ==> r@[j].deep_view() == a@[j].deep_view(),
        decreases a.len() - i,
    {
        r.push(a[i].clone());
        i += 1;
    }
    proof {
        assert(r.deep_view() =~= a.deep_view());
    }
    r
}

/// Clones a vector of education entries, keeping its deep view.
fn clone_vec_education(a: &Vec<Education>) -> (r: Vec<Education>)
    ensures
        r.deep_view() == a.deep_view(),
{
    let mut r: Vec<Education> = Vec::new();
    let mut i: usize = 0;
    while i < a.len()
        invariant
            i <= a.len(),
            r@.len() == i,
            forall|j: int| #![all_triggers] 0 <= j < i ==> r@[j].deep_view() == a@[j].deep_view(),
        decreases a.len() - i,
    {
        r.push(a[i].clone());
        i += 1;
    }
    proof {
        assert(r.deep_view() =~= a.deep_view());
    }
    r
}

} // verus!

verus! {

/// The fixed interface labels that the renderer shows, in one language.
#[derive(Debug, PartialEq)]
pub struct TemplateTranslation {
    pub summary: String,
    pub technical_skills: String,
    pub languages: String,
    pub backend: String,
    pub concurrency: String,
    pub databases: String,
    pub devops: String,
    pub testing: String,
    pub work_experience: String,
    pub projects: String,
    pub education: String,
    pub additional: String,
    pub present: String,
    pub view_project: String,
    pub english_level: String,
    pub relocation: String,
    pub interests: String,
    pub yes: String,
    pub no: String,
}

/// Whether a label table holds exactly the fixed English labels.
pub open spec fn is_english(t: TemplateTranslation) -> bool {
    &&& t.summary@ == "Professional Summary"@
    &&& t.technical_skills@ == "Technical Skills"@
    &&& t.languages@ == "Languages"@
    &&& t.backend@ == "Backend"@
    &&& t.concurrency@ == "Concurrency"@
    &&& t.databases@ == "Databases"@
    &&& t.devops@ == "DevOps & Tools"@
    &&& t.testing@ == "Testing"@
    &&& t.work_experience@ == "Work Experience"@
    &&& t.projects@ == "Projects"@
    &&& t.education@ == "Education"@
    &&& t.additional@ == "Additional Information"@
    &&& t.present@ == "Present"@
    &&& t.view_project@ == "View Project"@
    &&& t.english_level@ == "English Level"@
    &&& t.relocation@ == "Relocation"@
    &&& t.interests@ == "Interests"@
    &&& t.yes@ == "Yes"@
    &&& t.no@ == "No"@
}

/// Whether a label table holds exactly the fixed Russian labels.
pub open spec fn is_russian(t: TemplateTranslation) -> bool {
    &&& t.summary@ == "О себе"@
    &&& t.technical_skills@ == "Технические навыки"@
    &&& t.languages@ == "Языки программирования"@
    &&& t.backend@ == "Backend"@
    &&& t.concurrency@ == "Многопоточность"@
    &&& t.databases@ == "Базы данных"@
    &&& t.devops@ == "DevOps и инструменты"@
    &&& t.testing@ == "Тестирование"@
    &&& t.work_experience@ == "Опыт работы"@
    &&& t.projects@ == "Проекты"@
    &&& t.education@ == "Образование"@
    &&& t.additional@ == "Дополнительная информация"@
    &&& t.present@ == "По настоящее время"@
    &&& t.view_project@ == "Посмотреть проект"@
    &&& t.english_level@ == "Уровень английского"@
    &&& t.relocation@ == "Релокация"@
    &&& t.interests@ == "Интересы"@
    &&& t.yes@ == "Да"@
    &&& t.no@ == "Нет"@
}

/// Whether a label table holds exactly the fixed Thai labels.
pub open spec fn is_thai(t: TemplateTranslation) -> bool {
    &&& t.summary@ == "ข้อมูลส่วนตัว"@
    &&& t.technical_skills@ == "ทักษะทางเทคนิค"@
    &&& t.languages@ == "ภาษาโปรแกรม"@
    &&& t.backend@ == "Backend"@
    &&& t.concurrency@ == "Concurrency"@
    &&& t.databases@ == "ฐานข้อมูล"@
    &&& t.devops@ == "DevOps และเครื่องมือ"@
    &&& t.testing@ == "การทดสอบ"@
    &&& t.work_experience@ == "ประสบการณ์การทำงาน"@
    &&& t.projects@ == "โครงการ"@
    &&& t.education@ == "การศึกษา"@
    &&& t.additional@ == "ข้อมูลเพิ่มเติม"@
    &&& t.present@ == "ปัจจุบัน"@
    &&& t.view_project@ == "ดูโครงการ"@
    &&& t.english_level@ == "ระดับภาษาอังกฤษ"@
    &&& t.relocation@ == "การย้ายที่อยู่"@
    &&& t.interests@ == "ความสนใจ"@
    &&& t.yes@ == "ใช่"@
    &&& t.no@ == "ไม่"@
}

/// Whether a label table holds exactly the fixed labels of a language.
pub open spec fn translation_is(t: TemplateTranslation, lang: Language) -> bool {
    match lang {
        Language::English => is_english(t),
        Language::Russian => is_russian(t),
        Language::Thai => is_thai(t),
    }
}

impl TemplateTranslation {
    /// The complete label table of a language. Every language of the closed
    /// set has a full, fixed table: construction cannot fail and no label is
    /// ever missing.
    pub fn new(lang: &Language) -> (r: Self)
        ensures
            translation_is(r, *lang),
    {
        match lang {
            Language::Russian => Self::russian(),
            Language::Thai => Self::thai(),
            Language::English => Self::english(),
        }
    }

    /// The fixed English label table.
    pub fn english() -> (r: Self)
        ensures
            is_english(r),
    {
        TemplateTranslation {
            summary: "Professional Summary".to_owned(),
            technical_skills: "Technical Skills".to_owned(),
            languages: "Languages".to_owned(),
            backend: "Backend".to_owned(),
            concurrency: "Concurrency".to_owned(),
            databases: "Databases".to_owned(),
            devops: "DevOps & Tools".to_owned(),
            testing: "Testing".to_owned(),
            work_experience: "Work Experience".to_owned(),
            projects: "Projects".to_owned(),
            education: "Education".to_owned(),
            additional: "Additional Information".to_owned(),
            present: "Present".to_owned(),
            view_project: "View Project".to_owned(),
            english_level: "English Level".to_owned(),
            relocation: "Relocation".to_owned(),
            interests: "Interests".to_owned(),
            yes: "Yes".to_owned(),
            no: "No".to_owned(),
        }
    }

    /// The fixed Russian label table.
    pub fn russian() -> (r: Self)
        ensures
            is_russian(r),
    {
        TemplateTranslation {
            summary: "О себе".to_owned(),
            technical_skills: "Технические навыки".to_owned(),
            languages: "Языки программирования".to_owned(),
            backend: "Backend".to_owned(),
            concurrency: "Многопоточность".to_owned(),
            databases: "Базы данных".to_owned(),
            devops: "DevOps и инструменты".to_owned(),
            testing: "Тестирование".to_owned(),
            work_experience: "Опыт работы".to_owned(),
            projects: "Проекты".to_owned(),
            education: "Образование".to_owned(),
            additional: "Дополнительная информация".to_owned(),
            present: "По настоящее время".to_owned(),
            view_project: "Посмотреть проект".to_owned(),
            english_level: "Уровень английского".to_owned(),
            relocation: "Релокация".to_owned(),
            interests: "Интересы".to_owned(),
            yes: "Да".to_owned(),
            no: "Нет".to_owned(),
        }
    }

    /// The fixed Thai label table.
    pub fn thai() -> (r: Self)
        ensures
            is_thai(r),
    {
        TemplateTranslation {
            summary: "ข้อมูลส่วนตัว".to_owned(),
            technical_skills: "ทักษะทางเทคนิค".to_owned(),
            languages: "ภาษาโปรแกรม".to_owned(),
            backend: "Backend".to_owned(),
            concurrency: "Concurrency".to_owned(),
            databases: "ฐานข้อมูล".to_owned(),
            devops: "DevOps และเครื่องมือ".to_owned(),
            testing: "การทดสอบ".to_owned(),
            work_experience: "ประสบการณ์การทำงาน".to_owned(),
            projects: "โครงการ".to_owned(),
            education: "การศึกษา".to_owned(),
            additional: "ข้อมูลเพิ่มเติม".to_owned(),
            present: "ปัจจุบัน".to_owned(),
            view_project: "ดูโครงการ".to_owned(),
            english_level: "ระดับภาษาอังกฤษ".to_owned(),
            relocation: "การย้ายที่อยู่".to_owned(),
            interests: "ความสนใจ".to_owned(),
            yes: "ใช่".to_owned(),
            no: "ไม่".to_owned(),
        }
    }
}

impl Clone for TemplateTranslation {
    fn clone(&self) -> (r: Self)
        ensures
            r.summary@ == self.summary@,
            r.technical_skills@ == self.technical_skills@,
            r.languages@ == self.languages@,
            r.backend@ == self.backend@,
            r.concurrency@ == self.concurrency@,
            r.databases@ == self.databases@,
            r.devops@ == self.devops@,
            r.testing@ == self.testing@,
            r.work_experience@ == self.work_experience@,
            r.projects@ == self.projects@,
            r.education@ == self.education@,
            r.additional@ == self.additional@,
            r.present@ == self.present@,
            r.view_project@ == self.view_project@,
            r.english_level@ == self.english_level@,
            r.relocation@ == self.relocation@,
            r.interests@ == self.interests@,
            r.yes@ == self.yes@,
            r.no@ == self.no@,
    {
        TemplateTranslation {
            summary: self.summary.clone(),
            technical_skills: self.technical_skills.clone(),
            languages: self.languages.clone(),
            backend: self.backend.clone(),
            concurrency: self.concurrency.clone(),
            databases: self.databases.clone(),
            devops: self.devops.clone(),
            testing: self.testing.clone(),
            work_experience: self.work_experience.clone(),
            projects: self.projects.clone(),
            education: self.education.clone(),
            additional: self.additional.clone(),
            present: self.present.clone(),
            view_project: self.view_project.clone(),
            english_level: self.english_level.clone(),
            relocation: self.relocation.clone(),
            interests: self.interests.clone(),
            yes: self.yes.clone(),
            no: self.no.clone(),
        }
    }
}

} // verus!

verus! {

/// No label of any language's table is empty: every language's table is
/// complete, with a non-empty string under each of its fixed keys.
pub proof fn lemma_translation_labels_nonempty(t: TemplateTranslation, lang: Language)
    requires
        translation_is(t, lang),
    ensures
        t.summary@.len() > 0,
        t.technical_skills@.len() > 0,
        t.languages@.len() > 0,
        t.backend@.len() > 0,
        t.concurrency@.len() > 0,
        t.databases@.len() > 0,
        t.devops@.len() > 0,
        t.testing@.len() > 0,
        t.work_experience@.len() > 0,
        t.projects@.len() > 0,
        t.education@.len() > 0,
        t.additional@.len() > 0,
        t.present@.len() > 0,
        t.view_project@.len() > 0,
        t.english_level@.len() > 0,
        t.relocation@.len() > 0,
        t.interests@.len() > 0,
        t.yes@.len() > 0,
        t.no@.len() > 0,
{
    match lang {
        Language::English => {
            reveal_strlit("Additional Information");
            reveal_strlit("Backend");
            reveal_strlit("Concurrency");
            reveal_strlit("Databases");
            reveal_strlit("DevOps & Tools");
            reveal_strlit("Education");
            reveal_strlit("English Level");
            reveal_strlit("Interests");
            reveal_strlit("Languages");
            reveal_strlit("No");
            reveal_strlit("Present");
            reveal_strlit("Professional Summary");
            reveal_strlit("Projects");
            reveal_strlit("Relocation");
            reveal_strlit("Technical Skills");
            reveal_strlit("Testing");
            reveal_strlit("View Project");
            reveal_strlit("Work Experience");
            reveal_strlit("Yes");
        },
        Language::Russian => {
            reveal_strlit("Backend");
            reveal_strlit("DevOps и инструменты");
            reveal_strlit("Базы данных");
            reveal_strlit("Да");
            reveal_strlit("Дополнительная информация");
            reveal_strlit("Интересы");
            reveal_strlit("Многопоточность");
            reveal_strlit("Нет");
            reveal_strlit("О себе");
            reveal_strlit("Образование");
            reveal_strlit("Опыт работы");
            reveal_strlit("По настоящее время");
            reveal_strlit("Посмотреть проект");
            reveal_strlit("Проекты");
            reveal_strlit("Релокация");
            reveal_strlit("Тестирование");
            reveal_strlit("Технические навыки");
            reveal_strlit("Уровень английского");
            reveal_strlit("Языки программирования");
        },
        Language::Thai => {
            reveal_strlit("Backend");
            reveal_strlit("Concurrency");
            reveal_strlit("DevOps และเครื่องมือ");
            reveal_strlit("การทดสอบ");
            reveal_strlit("การย้ายที่อยู่");
            reveal_strlit("การศึกษา");
            reveal_strlit("ข้อมูลส่วนตัว");
            reveal_strlit("ข้อมูลเพิ่มเติม");
            reveal_strlit("ความสนใจ");
            reveal_strlit("ฐานข้อมูล");
            reveal_strlit("ดูโครงการ");
            reveal_strlit("ทักษะทางเทคนิค");
            reveal_strlit("ประสบการณ์การทำงาน");
            reveal_strlit("ปัจจุบัน");
            reveal_strlit("ภาษาโปรแกรม");
            reveal_strlit("ระดับภาษาอังกฤษ");
            reveal_strlit("โครงการ");
            reveal_strlit("ใช่");
            reveal_strlit("ไม่");
        },
    }
}

} // verus!
