//! Repository behaviour: eager construction over the three languages,
//! fail-fast errors, cached copies, and fresh loads.

use mycv::models::Language;
use mycv::repositories::{RepoError, ResumeRepository, TomlResumeRepository};

fn sample_toml() -> String {
    [
        "summary = \"Rust backend developer with experience in Axum and gRPC (tonic).\"",
        "",
        "[personal_info]",
        "full_name = \"Aleksey Dev\"",
        "title = \"Rust Backend Developer\"",
        "location = \"Bangkok, Thailand\"",
        "email = \"aleksey@example.com\"",
        "telegram = \"@alekseydev\"",
        "",
        "[technical_skills]",
        "category_skills = [ { name = \"Languages\", skills = [\"Rust\", \"SQL\"] } ]",
        "",
        "[[work_experience]]",
        "company = \"Tech Company\"",
        "position = \"Rust Backend Developer\"",
        "start_date = \"2024-01\"",
        "responsibilities = [\"Developed gRPC services using tonic\"]",
        "",
        "[[education]]",
        "degree = \"Bachelor of Computer Science\"",
        "institution = \"University Name\"",
        "start_year = 2018",
        "end_year = 2022",
    ]
    .join("\n")
}

fn full_repo() -> TomlResumeRepository {
    TomlResumeRepository::new(
        "assets".to_string(),
        Ok(sample_toml()),
        Ok(sample_toml()),
        Ok(sample_toml()),
    )
    .unwrap()
}

#[test]
fn test_cv_toml_reader() {
    let repo = full_repo();
    let resume = repo.get_resume(&Language::Russian);

    assert!(resume.is_some());
}

#[test]
fn repository_serves_every_language() {
    let repo = full_repo();
    assert!(repo.get_resume(&Language::Russian).is_some());
    assert!(repo.get_resume(&Language::English).is_some());
    assert!(repo.get_resume(&Language::Thai).is_some());
}

#[test]
fn missing_file_fails_construction_naming_the_language() {
    let r = TomlResumeRepository::new(
        "assets".to_string(),
        Ok(sample_toml()),
        Err("No such file or directory (os error 2)".to_string()),
        Ok(sample_toml()),
    );
    match r {
        Err(RepoError::FileRead { lang, detail }) => {
            assert_eq!(lang, Language::English);
            assert_eq!(detail, "No such file or directory (os error 2)");
        },
        _ => panic!("expected a file-read error for English"),
    }
}

#[test]
fn first_failing_language_wins() {
    let r = TomlResumeRepository::new(
        "assets".to_string(),
        Err("missing ru".to_string()),
        Err("missing en".to_string()),
        Ok(sample_toml()),
    );
    match r {
        Err(RepoError::FileRead { lang, .. }) => assert_eq!(lang, Language::Russian),
        _ => panic!("expected a file-read error for Russian"),
    }
}

#[test]
fn unparseable_text_fails_construction_as_parse_error() {
    let r = TomlResumeRepository::new(
        "assets".to_string(),
        Ok(sample_toml()),
        Ok(sample_toml()),
        Ok("this is [ not valid toml".to_string()),
    );
    match r {
        Err(RepoError::Parse { lang, .. }) => assert_eq!(lang, Language::Thai),
        _ => panic!("expected a parse error for Thai"),
    }
}

#[test]
fn schema_violation_is_a_parse_error() {
    let no_summary = sample_toml().replace("summary", "about");
    let r = TomlResumeRepository::new(
        "assets".to_string(),
        Ok(no_summary),
        Ok(sample_toml()),
        Ok(sample_toml()),
    );
    match r {
        Err(RepoError::Parse { lang, .. }) => assert_eq!(lang, Language::Russian),
        _ => panic!("expected a parse error for Russian"),
    }
}

#[test]
fn out_of_range_year_is_a_parse_error() {
    let bad = sample_toml().replace("start_year = 2018", "start_year = 70000");
    let r = TomlResumeRepository::new(
        "assets".to_string(),
        Ok(bad),
        Ok(sample_toml()),
        Ok(sample_toml()),
    );
    assert!(matches!(r, Err(RepoError::Parse { .. })));
}

#[test]
fn get_resume_returns_parsed_content() {
    let repo = full_repo();
    let resume = repo.get_resume(&Language::English).unwrap();
    assert_eq!(resume.personal_info.full_name, "Aleksey Dev");
    assert_eq!(resume.personal_info.telegram.as_deref(), Some("@alekseydev"));
    assert_eq!(resume.personal_info.github, None);
    assert_eq!(resume.summary, "Rust backend developer with experience in Axum and gRPC (tonic).");
    assert_eq!(resume.technical_skills.category_skills.len(), 1);
    assert_eq!(resume.technical_skills.category_skills[0].name, "Languages");
    assert_eq!(resume.technical_skills.category_skills[0].skills, vec!["Rust", "SQL"]);
    assert_eq!(resume.work_experience.len(), 1);
    assert_eq!(resume.work_experience[0].end_date, None);
    assert_eq!(resume.projects.len(), 0);
    assert_eq!(resume.education[0].start_year, 2018);
    assert_eq!(resume.education[0].end_year, Some(2022));
    assert_eq!(resume.additional, None);
}

#[test]
fn load_resume_reads_fresh_text() {
    let repo = full_repo();
    let changed = sample_toml().replace("Aleksey Dev", "Fresh Name");
    let resume = repo.load_resume(&Language::English, Ok(changed)).unwrap();
    assert_eq!(resume.personal_info.full_name, "Fresh Name");
}

#[test]
fn load_resume_surfaces_read_errors() {
    let repo = full_repo();
    let r = repo.load_resume(&Language::Thai, Err("permission denied".to_string()));
    match r {
        Err(RepoError::FileRead { lang, detail }) => {
            assert_eq!(lang, Language::Thai);
            assert_eq!(detail, "permission denied");
        },
        _ => panic!("expected a file-read error"),
    }
}

#[test]
fn resume_file_path_names_the_language_file() {
    let repo = full_repo();
    assert_eq!(repo.resume_file_path(&Language::Russian), "assets/resume_ru.toml");
    assert_eq!(repo.resume_file_path(&Language::English), "assets/resume_en.toml");
    assert_eq!(repo.resume_file_path(&Language::Thai), "assets/resume_th.toml");
}
