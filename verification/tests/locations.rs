use keymap_core::context::ProjectContext;
use keymap_core::error::ValidationError;
use keymap_core::paths::resolve_against;
use std::path::Path;

#[test]
fn context_keeps_its_directories() {
    let ctx = ProjectContext::new("/home/user/project", "/home/user/project/example");
    assert_eq!(ctx.root_dir(), "/home/user/project");
    assert_eq!(ctx.keyboards_dir(), "/home/user/project/example");
}

#[test]
fn build_dir_is_root_build_id() {
    let ctx = ProjectContext::new("/home/user/project", "example");
    let dir = ctx.get_build_dir("planck").unwrap();
    assert_eq!(Path::new(&dir), Path::new("/home/user/project").join("build").join("planck"));
    assert_eq!(ctx.get_build_dir("planck"), Ok(dir));
}

#[test]
fn config_path_is_keyboards_dir_id_config_json() {
    let ctx = ProjectContext::new("/home/user/project", "example");
    let path = ctx.config_path("planck").unwrap();
    assert_eq!(Path::new(&path), Path::new("example").join("planck").join("config.json"));
}

#[test]
fn locations_on_a_slash_separated_platform() {
    if std::path::MAIN_SEPARATOR != '/' {
        return;
    }
    let ctx = ProjectContext::new("/home/user/project", "example");
    assert_eq!(ctx.get_build_dir("planck"), Ok("/home/user/project/build/planck".to_string()));
    assert_eq!(ctx.config_path("planck"), Ok("example/planck/config.json".to_string()));

    let trailing = ProjectContext::new("/home/user/project/", "example/");
    assert_eq!(trailing.get_build_dir("k-1"), Ok("/home/user/project/build/k-1".to_string()));
    assert_eq!(trailing.config_path("k-1"), Ok("example/k-1/config.json".to_string()));

    let bare = ProjectContext::new("", "");
    assert_eq!(bare.get_build_dir("k_2"), Ok("build/k_2".to_string()));
    assert_eq!(bare.config_path("k_2"), Ok("k_2/config.json".to_string()));
}

#[test]
fn locations_do_not_depend_on_the_file_system() {
    let ctx = ProjectContext::new("/no/such/root", "/no/such/keyboards");
    let first = ctx.get_build_dir("ghost");
    let second = ctx.get_build_dir("ghost");
    assert!(first.is_ok());
    assert_eq!(first, second);
    assert!(!Path::new(&first.unwrap()).exists());
}

#[test]
fn locations_of_invalid_identifiers_are_refused() {
    let ctx = ProjectContext::new("/home/user/project", "example");
    assert_eq!(ctx.get_build_dir(""), Err(ValidationError::Empty));
    assert_eq!(ctx.config_path("  "), Err(ValidationError::Empty));
    assert_eq!(
        ctx.get_build_dir("../etc"),
        Err(ValidationError::IllegalCharacter { id: "../etc".to_string() })
    );
    assert_eq!(
        ctx.config_path("a/b"),
        Err(ValidationError::IllegalCharacter { id: "a/b".to_string() })
    );
}

#[test]
fn relative_keyboards_dir_is_resolved_against_the_working_dir() {
    let ctx = ProjectContext::in_working_dir("/home/user/project", "example");
    assert_eq!(ctx.root_dir(), "/home/user/project");
    assert_eq!(
        Path::new(ctx.keyboards_dir()),
        Path::new("/home/user/project").join("example")
    );
    assert_eq!(resolve_against("work", "a"), Path::new("work").join("a").to_str().unwrap());
}

#[test]
fn absolute_keyboards_dir_stands_as_it_is() {
    let absolute =
        if std::path::MAIN_SEPARATOR == '/' { "/srv/keyboards" } else { "C:\\keyboards" };
    let ctx = ProjectContext::in_working_dir("/home/user/project", absolute);
    assert_eq!(ctx.root_dir(), "/home/user/project");
    assert_eq!(ctx.keyboards_dir(), absolute);
    assert_eq!(resolve_against("/home/user/project", absolute), absolute);
}

#[test]
fn working_dir_locations_on_a_slash_separated_platform() {
    if std::path::MAIN_SEPARATOR != '/' {
        return;
    }
    let ctx = ProjectContext::in_working_dir("/work", "example");
    assert_eq!(ctx.keyboards_dir(), "/work/example");
    assert_eq!(ctx.config_path("planck"), Ok("/work/example/planck/config.json".to_string()));
    assert_eq!(ctx.get_build_dir("planck"), Ok("/work/build/planck".to_string()));
}
