use keymap_core::context::ProjectContext;
use keymap_core::dispatch::{compile_outcome, compile_plan, info_report};
use keymap_core::error::{ConfigError, KeymapError, SubprocessError, ValidationError};
use keymap_core::text::{render_i32, render_u64};
use std::path::Path;

fn text(path: std::path::PathBuf) -> String {
    path.to_str().unwrap().to_string()
}

#[test]
fn info_reports_identifier_profile_and_build_dir() {
    let ctx = ProjectContext::in_working_dir("/work", "example");
    assert_eq!(
        Path::new(&ctx.config_path("planck").unwrap()),
        Path::new("/work").join("example").join("planck").join("config.json")
    );
    let read = Ok("{\"qmk_keyboard\":\"planck/rev6\"}".to_string());
    let lines = info_report(&ctx, "planck", read).unwrap();
    assert_eq!(lines.len(), 3);
    assert_eq!(lines[0], "Keyboard ID: planck");
    assert_eq!(lines[1], "QMK Keyboard: planck/rev6");
    assert_eq!(
        lines[2],
        format!("Build Directory: {}", Path::new("/work").join("build").join("planck").display())
    );
    assert!(Path::new(&lines[2]).ends_with(Path::new("build").join("planck")));
}

#[test]
fn traversal_is_refused_by_both_operations() {
    let ctx = ProjectContext::new("/work", "example");
    let expected =
        KeymapError::Validation(ValidationError::IllegalCharacter { id: "../etc".to_string() });
    for read in [
        Ok("{\"qmk_keyboard\":\"planck/rev6\"}".to_string()),
        Ok("not json".to_string()),
        Err("No such file or directory (os error 2)".to_string()),
    ] {
        assert_eq!(info_report(&ctx, "../etc", read.clone()), Err(expected.clone()));
        assert_eq!(compile_plan(&ctx, "../etc", read), Err(expected.clone()));
    }
    assert_eq!(ctx.config_path("../etc"), Err(ValidationError::IllegalCharacter {
        id: "../etc".to_string()
    }));
}

#[test]
fn operations_fail_as_the_configuration_does() {
    let ctx = ProjectContext::new("/work", "example");
    let unread: Result<String, String> = Err("denied".to_string());
    let expected = KeymapError::Config(ConfigError::Read {
        path: text(Path::new("example").join("planck").join("config.json")),
        reason: "denied".to_string(),
    });
    assert_eq!(info_report(&ctx, "planck", unread.clone()), Err(expected.clone()));
    assert_eq!(compile_plan(&ctx, "planck", unread), Err(expected));
    assert!(matches!(
        compile_plan(&ctx, "planck", Ok("[".to_string())),
        Err(KeymapError::Config(ConfigError::Parse { .. }))
    ));
}

#[test]
fn compile_plan_names_the_tool_and_its_arguments() {
    let ctx = ProjectContext::new("/work", "example");
    let read = Ok("{\"qmk_keyboard\":\"planck/rev6\"}".to_string());
    let plan = compile_plan(&ctx, "planck", read).unwrap();
    assert_eq!(plan.banner, "Compiling planck (planck/rev6)...");
    assert_eq!(plan.invocation.program, "mise");
    let build_dir = text(Path::new("/work").join("build").join("planck").join("qmk_build"));
    assert_eq!(
        plan.invocation.args,
        vec![
            "exec".to_string(),
            "--".to_string(),
            "qmk".to_string(),
            "compile".to_string(),
            "-kb".to_string(),
            "planck/rev6".to_string(),
            "-km".to_string(),
            "keymap".to_string(),
            "-e".to_string(),
            "KEYBOARD_ID=planck".to_string(),
            "-e".to_string(),
            format!("BUILD_DIR={}", build_dir),
        ]
    );
}

#[test]
fn absent_tool_is_a_launch_error() {
    let outcome = compile_outcome(Err("No such file or directory (os error 2)".to_string()));
    assert_eq!(
        outcome,
        Err(SubprocessError::Launch { reason: "No such file or directory (os error 2)".to_string() })
    );
    assert_eq!(
        outcome.unwrap_err().message(),
        "Failed to execute qmk compile: No such file or directory (os error 2)"
    );
}

#[test]
fn only_exit_code_zero_is_a_success() {
    assert_eq!(compile_outcome(Ok(Some(0))), Ok(()));
    assert_eq!(compile_outcome(Ok(Some(1))), Err(SubprocessError::Failed { code: Some(1) }));
    assert_eq!(compile_outcome(Ok(Some(-1))), Err(SubprocessError::Failed { code: Some(-1) }));
    assert_eq!(compile_outcome(Ok(Some(255))), Err(SubprocessError::Failed { code: Some(255) }));
    assert_eq!(compile_outcome(Ok(None)), Err(SubprocessError::Failed { code: None }));
}

#[test]
fn failure_messages_carry_the_exit_code() {
    assert_eq!(
        SubprocessError::Failed { code: Some(2) }.message(),
        "qmk compile failed with exit code: Some(2)"
    );
    assert_eq!(
        SubprocessError::Failed { code: Some(-11) }.message(),
        "qmk compile failed with exit code: Some(-11)"
    );
    assert_eq!(
        SubprocessError::Failed { code: None }.message(),
        "qmk compile failed with exit code: None"
    );
    assert_eq!(
        KeymapError::Subprocess(SubprocessError::Failed { code: Some(130) }).message(),
        format!("qmk compile failed with exit code: {:?}", Some(130i32))
    );
}

#[test]
fn decimal_rendering_agrees_with_the_standard_one() {
    for n in [0i32, 1, 9, 10, 11, 99, 100, 101, 1234567890, i32::MAX, -1, -9, -10, -2147483647, i32::MIN] {
        assert_eq!(render_i32(n), n.to_string());
    }
    for n in [0u64, 7, 10, 42, 1000, 18446744073709551615] {
        assert_eq!(render_u64(n), n.to_string());
    }
    assert_eq!(render_i32(-2147483648), "-2147483648");
    assert_eq!(render_u64(907), "907");
}
