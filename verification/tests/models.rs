//! Data-model behaviour: language resolution, the golden label tables,
//! the present-label substitution, and the static build's page layout.

use mycv::models::{Language, QueryTemplate, TemplateTranslation};
use mycv::templates::{copies_to_root, root_output_path, static_output_path, CvTemplate};

#[test]
fn language_codes_are_canonical() {
    assert_eq!(Language::Russian.code(), "ru");
    assert_eq!(Language::English.code(), "en");
    assert_eq!(Language::Thai.code(), "th");
}

#[test]
fn language_resolution_matches_the_fixed_policy() {
    assert_eq!(Language::resolve(None), Language::Russian);
    assert_eq!(Language::resolve(Some("ru")), Language::Russian);
    assert_eq!(Language::resolve(Some("th")), Language::Thai);
    assert_eq!(Language::resolve(Some("en")), Language::English);
    assert_eq!(Language::resolve(Some("xx")), Language::English);
    assert_eq!(Language::resolve(Some("")), Language::English);
}

#[test]
fn unknown_path_segment_serves_english() {
    assert_eq!(Language::resolve(Some("unknownlang")), Language::English);
}

#[test]
fn default_language_is_russian() {
    assert_eq!(Language::default(), Language::Russian);
}

#[test]
fn query_template_carries_its_language() {
    let q = QueryTemplate { lang: Language::Thai };
    assert_eq!(q.lang, Language::Thai);
}

#[test]
fn russian_labels_match_the_fixed_table() {
    let t = TemplateTranslation::new(&Language::Russian);
    assert_eq!(t.summary, "О себе");
    assert_eq!(t.technical_skills, "Технические навыки");
    assert_eq!(t.languages, "Языки программирования");
    assert_eq!(t.backend, "Backend");
    assert_eq!(t.concurrency, "Многопоточность");
    assert_eq!(t.databases, "Базы данных");
    assert_eq!(t.devops, "DevOps и инструменты");
    assert_eq!(t.testing, "Тестирование");
    assert_eq!(t.work_experience, "Опыт работы");
    assert_eq!(t.projects, "Проекты");
    assert_eq!(t.education, "Образование");
    assert_eq!(t.additional, "Дополнительная информация");
    assert_eq!(t.present, "По настоящее время");
    assert_eq!(t.view_project, "Посмотреть проект");
    assert_eq!(t.english_level, "Уровень английского");
    assert_eq!(t.relocation, "Релокация");
    assert_eq!(t.interests, "Интересы");
    assert_eq!(t.yes, "Да");
    assert_eq!(t.no, "Нет");
}

#[test]
fn english_labels_match_the_fixed_table() {
    let t = TemplateTranslation::new(&Language::English);
    assert_eq!(t.summary, "Professional Summary");
    assert_eq!(t.technical_skills, "Technical Skills");
    assert_eq!(t.languages, "Languages");
    assert_eq!(t.backend, "Backend");
    assert_eq!(t.concurrency, "Concurrency");
    assert_eq!(t.databases, "Databases");
    assert_eq!(t.devops, "DevOps & Tools");
    assert_eq!(t.testing, "Testing");
    assert_eq!(t.work_experience, "Work Experience");
    assert_eq!(t.projects, "Projects");
    assert_eq!(t.education, "Education");
    assert_eq!(t.additional, "Additional Information");
    assert_eq!(t.present, "Present");
    assert_eq!(t.view_project, "View Project");
    assert_eq!(t.english_level, "English Level");
    assert_eq!(t.relocation, "Relocation");
    assert_eq!(t.interests, "Interests");
    assert_eq!(t.yes, "Yes");
    assert_eq!(t.no, "No");
}

#[test]
fn thai_labels_match_the_fixed_table() {
    let t = TemplateTranslation::new(&Language::Thai);
    assert_eq!(t.summary, "ข้อมูลส่วนตัว");
    assert_eq!(t.technical_skills, "ทักษะทางเทคนิค");
    assert_eq!(t.languages, "ภาษาโปรแกรม");
    assert_eq!(t.backend, "Backend");
    assert_eq!(t.concurrency, "Concurrency");
    assert_eq!(t.databases, "ฐานข้อมูล");
    assert_eq!(t.devops, "DevOps และเครื่องมือ");
    assert_eq!(t.testing, "การทดสอบ");
    assert_eq!(t.work_experience, "ประสบการณ์การทำงาน");
    assert_eq!(t.projects, "โครงการ");
    assert_eq!(t.education, "การศึกษา");
    assert_eq!(t.additional, "ข้อมูลเพิ่มเติม");
    assert_eq!(t.present, "ปัจจุบัน");
    assert_eq!(t.view_project, "ดูโครงการ");
    assert_eq!(t.english_level, "ระดับภาษาอังกฤษ");
    assert_eq!(t.relocation, "การย้ายที่อยู่");
    assert_eq!(t.interests, "ความสนใจ");
    assert_eq!(t.yes, "ใช่");
    assert_eq!(t.no, "ไม่");
}

#[test]
fn every_label_is_non_empty_in_every_language() {
    for lang in [Language::Russian, Language::English, Language::Thai] {
        let t = TemplateTranslation::new(&lang);
        let labels = [
            t.summary, t.technical_skills, t.languages, t.backend, t.concurrency,
            t.databases, t.devops, t.testing, t.work_experience, t.projects, t.education,
            t.additional, t.present, t.view_project, t.english_level, t.relocation,
            t.interests, t.yes, t.no,
        ];
        assert_eq!(labels.len(), 19);
        for label in labels {
            assert!(!label.is_empty());
        }
    }
}

#[test]
fn open_ended_position_shows_the_present_label() {
    let entry = mycv::models::WorkExperience {
        company: "Tech Company".to_string(),
        position: "Rust Backend Developer".to_string(),
        start_date: "2024-01".to_string(),
        end_date: None,
        responsibilities: vec!["Developed gRPC services using tonic".to_string()],
    };
    let english = TemplateTranslation::new(&Language::English);
    assert_eq!(entry.end_date_text(&english), "Present");
    let russian = TemplateTranslation::new(&Language::Russian);
    assert_eq!(entry.end_date_text(&russian), "По настоящее время");
}

#[test]
fn closed_position_shows_its_end_date() {
    let entry = mycv::models::WorkExperience {
        company: "Tech Company".to_string(),
        position: "Rust Backend Developer".to_string(),
        start_date: "2022-01".to_string(),
        end_date: Some("2023-12".to_string()),
        responsibilities: vec![],
    };
    let english = TemplateTranslation::new(&Language::English);
    assert_eq!(entry.end_date_text(&english), "2023-12");
}

#[test]
fn template_data_carries_code_and_labels() {
    let entry = mycv::models::WorkExperience {
        company: "Tech Company".to_string(),
        position: "Dev".to_string(),
        start_date: "2024-01".to_string(),
        end_date: None,
        responsibilities: vec![],
    };
    let resume = mycv::models::Resume {
        personal_info: mycv::models::PersonalInfo {
            full_name: "Aleksey Dev".to_string(),
            title: "Dev".to_string(),
            location: "Bangkok".to_string(),
            email: "a@example.com".to_string(),
            telegram: None,
            github: None,
            linkedin: None,
        },
        summary: "Summary".to_string(),
        technical_skills: mycv::models::TechnicalSkills { category_skills: vec![] },
        work_experience: vec![entry],
        projects: vec![],
        education: vec![],
        additional: None,
    };
    let page = CvTemplate::new(&Language::Thai, resume);
    assert_eq!(page.lang, "th");
    assert_eq!(page.t.present, "ปัจจุบัน");
    assert_eq!(page.resume.personal_info.full_name, "Aleksey Dev");
}

#[test]
fn static_build_writes_one_page_per_language_and_copies_english_to_root() {
    assert_eq!(static_output_path("docs", &Language::Russian), "docs/ru/index.html");
    assert_eq!(static_output_path("docs", &Language::English), "docs/en/index.html");
    assert_eq!(static_output_path("docs", &Language::Thai), "docs/th/index.html");
    assert_eq!(root_output_path("docs"), "docs/index.html");
    assert!(copies_to_root(&Language::English));
    assert!(!copies_to_root(&Language::Russian));
    assert!(!copies_to_root(&Language::Thai));
}
