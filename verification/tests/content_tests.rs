use folio_backend::content::coerce_featured;
use folio_backend::content::create_project;
use folio_backend::content::create_skill;
use folio_backend::content::delete_project;
use folio_backend::content::delete_skill;
use folio_backend::content::get_projects;
use folio_backend::content::get_skills;
use folio_backend::content::set_featured;
use folio_backend::content::update_project;
use folio_backend::content::update_skill;
use folio_backend::content::CreateProjectRequest;
use folio_backend::content::CreateSkillRequest;
use folio_backend::content::FlagValue;
use folio_backend::content::Store;
use folio_backend::content::UpdateProjectRequest;
use folio_backend::content::UpdateSkillRequest;
use folio_backend::error::AppError;

fn project_payload(title: &str) -> CreateProjectRequest {
    CreateProjectRequest {
        title: title.to_string(),
        description: "a thing I built".to_string(),
        tech_stack: vec!["rust".to_string(), "sql".to_string()],
        image_url: None,
        github_url: Some("https://example.org/repo".to_string()),
        demo_url: None,
    }
}

fn skill_payload(name: &str) -> CreateSkillRequest {
    CreateSkillRequest {
        name: name.to_string(),
        category: "backend".to_string(),
        proficiency: "advanced".to_string(),
        icon: Some("gear".to_string()),
    }
}

#[test]
fn create_then_get_round_trips_fields() {
    let mut store = Store::new();
    let created = create_project(&mut store, &project_payload("Portfolio"), 7, 1234).unwrap();
    assert_eq!(created.id, 7);
    assert_eq!(created.created_at, 1234);
    assert_eq!(created.title, "Portfolio");
    assert_eq!(created.description, "a thing I built");
    assert_eq!(created.tech_stack, vec!["rust".to_string(), "sql".to_string()]);
    assert_eq!(created.image_url, None);
    assert_eq!(created.github_url, Some("https://example.org/repo".to_string()));
    assert_eq!(created.demo_url, None);
    assert!(!created.is_featured);

    let listed = get_projects(&store);
    assert_eq!(listed.len(), 1);
    assert_eq!(listed[0].id, 7);
    assert_eq!(listed[0].title, "Portfolio");
    assert_eq!(listed[0].tech_stack, created.tech_stack);
}

#[test]
fn create_project_empty_title_rejected_and_nothing_stored() {
    let mut store = Store::new();
    let err = create_project(&mut store, &project_payload(""), 1, 0).unwrap_err();
    assert!(matches!(&err, AppError::ValidationError(m) if m == "Title cannot be empty"));
    assert_eq!(get_projects(&store).len(), 0);
}

#[test]
fn create_project_whitespace_title_rejected() {
    let mut store = Store::new();
    let err = create_project(&mut store, &project_payload("   "), 1, 0).unwrap_err();
    assert!(matches!(&err, AppError::ValidationError(m) if m == "Title cannot be empty"));
    assert_eq!(get_projects(&store).len(), 0);
}

#[test]
fn delete_project_twice_succeeds_both_times() {
    let mut store = Store::new();
    create_project(&mut store, &project_payload("One"), 1, 0).unwrap();
    create_project(&mut store, &project_payload("Two"), 2, 0).unwrap();
    delete_project(&mut store, 1);
    assert_eq!(get_projects(&store).len(), 1);
    // The second deletion of the same id is the same successful no-op shape.
    delete_project(&mut store, 1);
    assert_eq!(get_projects(&store).len(), 1);
    assert_eq!(get_projects(&store)[0].id, 2);
}

#[test]
fn update_project_replaces_fields_and_keeps_server_ones() {
    let mut store = Store::new();
    create_project(&mut store, &project_payload("Before"), 5, 99).unwrap();
    set_featured(&mut store, 5);
    let upd = UpdateProjectRequest {
        title: "After".to_string(),
        description: "new words".to_string(),
        tech_stack: vec!["zig".to_string()],
        image_url: Some("https://example.org/pic.png".to_string()),
        github_url: None,
        demo_url: None,
    };
    let updated = update_project(&mut store, 5, &upd).unwrap();
    assert_eq!(updated.id, 5);
    assert_eq!(updated.created_at, 99);
    assert!(updated.is_featured);
    assert_eq!(updated.title, "After");
    assert_eq!(updated.tech_stack, vec!["zig".to_string()]);
    assert_eq!(get_projects(&store)[0].title, "After");
}

#[test]
fn update_project_missing_id_is_not_found() {
    let mut store = Store::new();
    create_project(&mut store, &project_payload("Here"), 1, 0).unwrap();
    let upd = UpdateProjectRequest {
        title: "New".to_string(),
        description: String::new(),
        tech_stack: vec![],
        image_url: None,
        github_url: None,
        demo_url: None,
    };
    let err = update_project(&mut store, 404, &upd).unwrap_err();
    assert!(matches!(&err, AppError::NotFound(m) if m == "Project not found"));
    assert_eq!(get_projects(&store)[0].title, "Here");
}

#[test]
fn update_project_empty_title_rejected() {
    let mut store = Store::new();
    create_project(&mut store, &project_payload("Keep"), 1, 0).unwrap();
    let upd = UpdateProjectRequest {
        title: "".to_string(),
        description: String::new(),
        tech_stack: vec![],
        image_url: None,
        github_url: None,
        demo_url: None,
    };
    let err = update_project(&mut store, 1, &upd).unwrap_err();
    assert!(matches!(&err, AppError::ValidationError(m) if m == "Title cannot be empty"));
    assert_eq!(get_projects(&store)[0].title, "Keep");
}

#[test]
fn featured_flag_is_exclusive() {
    let mut store = Store::new();
    create_project(&mut store, &project_payload("A"), 1, 0).unwrap();
    create_project(&mut store, &project_payload("B"), 2, 0).unwrap();
    create_project(&mut store, &project_payload("C"), 3, 0).unwrap();
    set_featured(&mut store, 2);
    let flags: Vec<(u128, bool)> = get_projects(&store).iter().map(|p| (p.id, p.is_featured)).collect();
    assert_eq!(flags, vec![(1, false), (2, true), (3, false)]);

    // Featuring another project clears the earlier one.
    set_featured(&mut store, 3);
    let featured: Vec<u128> =
        get_projects(&store).iter().filter(|p| p.is_featured).map(|p| p.id).collect();
    assert_eq!(featured, vec![3]);
}

#[test]
fn skill_lifecycle_mirrors_projects() {
    let mut store = Store::new();
    let created = create_skill(&mut store, &skill_payload("Rust"), 10, 1).unwrap();
    assert_eq!(created.name, "Rust");
    assert_eq!(created.icon, Some("gear".to_string()));
    assert_eq!(get_skills(&store).len(), 1);

    let err = create_skill(&mut store, &skill_payload(" "), 11, 1).unwrap_err();
    assert!(matches!(&err, AppError::ValidationError(m) if m == "Name cannot be empty"));

    let upd = UpdateSkillRequest {
        name: "Rust 2024".to_string(),
        category: "systems".to_string(),
        proficiency: "expert".to_string(),
        icon: None,
    };
    let updated = update_skill(&mut store, 10, &upd).unwrap();
    assert_eq!(updated.name, "Rust 2024");
    assert_eq!(updated.created_at, 1);

    let err = update_skill(&mut store, 99, &upd).unwrap_err();
    assert!(matches!(&err, AppError::NotFound(m) if m == "Skill not found"));

    delete_skill(&mut store, 10);
    assert_eq!(get_skills(&store).len(), 0);
    delete_skill(&mut store, 10);
    assert_eq!(get_skills(&store).len(), 0);
}

#[test]
fn loose_featured_flag_coercion() {
    assert!(!coerce_featured(&FlagValue::Missing));
    assert!(coerce_featured(&FlagValue::Truth(true)));
    assert!(!coerce_featured(&FlagValue::Truth(false)));
    assert!(coerce_featured(&FlagValue::Number(1)));
    assert!(coerce_featured(&FlagValue::Number(-3)));
    assert!(!coerce_featured(&FlagValue::Number(0)));
    assert!(coerce_featured(&FlagValue::Text("true".to_string())));
    assert!(coerce_featured(&FlagValue::Text("1".to_string())));
    assert!(!coerce_featured(&FlagValue::Text("yes".to_string())));
    assert!(!coerce_featured(&FlagValue::Text(String::new())));
}
