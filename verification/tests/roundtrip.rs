//! Serialization behaviour: a resume written to TOML text and parsed back
//! is the same resume, with optional fields absent and present; and the
//! full example resume serializes without error.

use mycv::models::{
    Additional, Education, PersonalInfo, Project, Resume, TechnicalSkills,
    TechnicalSkillsCategory, WorkExperience,
};
use mycv::schema::{parse_resume, to_toml_string};

fn example_resume() -> Resume {
    Resume {
        personal_info: PersonalInfo {
            full_name: "Aleksey Dev".to_string(),
            title: "Rust Backend Developer".to_string(),
            location: "Bangkok, Thailand".to_string(),
            email: "aleksey@example.com".to_string(),
            telegram: Some("@alekseydev".to_string()),
            github: Some("https://github.com/alekseydev".to_string()),
            linkedin: None,
        },
        summary: "Rust backend developer with experience in Axum and gRPC (tonic).".to_string(),
        technical_skills: TechnicalSkills {
            category_skills: vec![
                TechnicalSkillsCategory {
                    name: "Languages".into(),
                    skills: vec!["Rust".into(), "SQL".into()],
                },
                TechnicalSkillsCategory {
                    name: "Backend".into(),
                    skills: vec!["Axum".into(), "Tonic".into(), "REST".into()],
                },
                TechnicalSkillsCategory {
                    name: "Concurrency".into(),
                    skills: vec!["Tokio".into(), "Arc".into(), "Mutex".into()],
                },
                TechnicalSkillsCategory {
                    name: "Databases".into(),
                    skills: vec!["PostgreSQL".into()],
                },
                TechnicalSkillsCategory {
                    name: "DevOps".into(),
                    skills: vec!["Docker".into(), "CI/CD".into()],
                },
                TechnicalSkillsCategory {
                    name: "Testing".into(),
                    skills: vec!["cargo test".into(), "integration tests".into()],
                },
            ],
        },
        work_experience: vec![WorkExperience {
            company: "Tech Company".into(),
            position: "Rust Backend Developer".into(),
            start_date: "2024-01".into(),
            end_date: None,
            responsibilities: vec![
                "Developed gRPC services using tonic".into(),
                "Optimized Docker images (2GB -> 150MB)".into(),
            ],
        }],
        projects: vec![Project {
            name: "Accounting Category Service".into(),
            description: "gRPC CRUD service for category management".into(),
            stack: vec![
                "Rust".into(),
                "Tonic".into(),
                "PostgreSQL".into(),
                "Docker".into(),
            ],
            highlights: vec![
                "Thread-safe state with Arc<Mutex<_>>".into(),
                "Multi-stage Docker build".into(),
            ],
            github_url: Some("https://github.com/alekseydev/accounting-category".into()),
        }],
        education: vec![Education {
            degree: "Bachelor of Computer Science".into(),
            institution: "University Name".into(),
            start_year: 2018,
            end_year: Some(2022),
        }],
        additional: Some(Additional {
            english_level: Some("B2".into()),
            relocation_ready: Some(true),
            interests: Some(vec!["High-load systems".into(), "Microservices".into()]),
        }),
    }
}

#[test]
fn test_example() {
    let resume = example_resume();

    let toml = to_toml_string(&resume).unwrap();

    println!("{}", toml);
}

#[test]
fn round_trip_with_optional_fields_present() {
    let resume = example_resume();
    let text = to_toml_string(&resume).unwrap();
    let back = parse_resume(&text).unwrap();
    assert_eq!(back, resume);
}

#[test]
fn round_trip_with_optional_fields_absent() {
    let resume = Resume {
        personal_info: PersonalInfo {
            full_name: "Someone".to_string(),
            title: "Engineer".to_string(),
            location: "Nowhere".to_string(),
            email: "someone@example.com".to_string(),
            telegram: None,
            github: None,
            linkedin: None,
        },
        summary: "".to_string(),
        technical_skills: TechnicalSkills { category_skills: vec![] },
        work_experience: vec![],
        projects: vec![],
        education: vec![Education {
            degree: "BSc".into(),
            institution: "U".into(),
            start_year: 2000,
            end_year: None,
        }],
        additional: None,
    };
    let text = to_toml_string(&resume).unwrap();
    let back = parse_resume(&text).unwrap();
    assert_eq!(back, resume);
}

#[test]
fn serialized_text_is_real_toml() {
    let text = to_toml_string(&example_resume()).unwrap();
    assert!(text.contains("full_name = \"Aleksey Dev\""));
    assert!(text.contains("[[work_experience]]"));
}

#[test]
fn unparseable_text_is_rejected() {
    assert!(parse_resume("this is [ not toml").is_err());
    assert!(parse_resume("").is_err());
}

#[test]
fn wrong_field_type_is_rejected() {
    let text = "summary = 3.5\n";
    assert!(parse_resume(text).is_err());
}

#[test]
fn unknown_keys_are_ignored() {
    let text = to_toml_string(&example_resume()).unwrap() + "\nunrelated_key = 7\n";
    assert!(parse_resume(&text).is_ok());
}

#[test]
fn datetime_in_a_string_position_is_rejected() {
    let base = to_toml_string(&example_resume()).unwrap();
    let text = base.replace("start_date = \"2024-01\"", "start_date = 2024-01-01");
    assert!(parse_resume(&text).is_err());
}
