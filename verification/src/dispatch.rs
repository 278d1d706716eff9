//! The two operations on a keyboard: reporting on it and compiling for it.
//!
//! Nothing here prints or starts a process. Each operation is computed from
//! what reading the configuration file gave, and handed back for the caller
//! to carry out: the lines to print, or the line to print and the command to
//! run. What the command came to is judged by `compile_outcome`.

use crate::context::{build_dir_of, resolved_config, ProjectContext, ProjectLayout};
use crate::error::{outcome, KeymapError, KeymapErrorView, SubprocessError, SubprocessErrorView};
use crate::ident::{valid_keyboard_id, validated};
use crate::paths::{join, joined};
use vstd::prelude::*;

verus! {

/// A command for the caller to run: the program and its arguments.
#[derive(Debug, Clone, PartialEq, Eq)]
pub struct Invocation {
    pub program: String,
    pub args: Vec<String>,
}

/// What a compilation starts with: a line to print, then a command to run.
#[derive(Debug, Clone, PartialEq, Eq)]
pub struct CompilePlan {
    pub banner: String,
    pub invocation: Invocation,
}

/// The view of an `Invocation`.
pub struct InvocationView {
    pub program: Seq<char>,
    pub args: Seq<Seq<char>>,
}

/// The view of a `CompilePlan`.
pub struct CompilePlanView {
    pub banner: Seq<char>,
    pub invocation: InvocationView,
}

/// The texts of a list of strings.
pub open spec fn texts(list: Seq<String>) -> Seq<Seq<char>> {
    list.map_values(|s: String| s@)
}

impl View for Invocation {
    type V = InvocationView;

    open spec fn view(&self) -> InvocationView {
        InvocationView { program: self.program@, args: texts(self.args@) }
    }
}

impl View for CompilePlan {
    type V = CompilePlanView;

    open spec fn view(&self) -> CompilePlanView {
        CompilePlanView { banner: self.banner@, invocation: self.invocation@ }
    }
}

/// The three lines that report on a keyboard: its identifier, its hardware
/// profile and its build directory.
pub open spec fn info_lines(layout: ProjectLayout, id: Seq<char>, profile: Seq<char>) -> Seq<
    Seq<char>,
> {
    seq![
        "Keyboard ID: "@ + id,
        "QMK Keyboard: "@ + profile,
        "Build Directory: "@ + build_dir_of(layout, id),
    ]
}

/// The line that announces a compilation.
pub open spec fn compile_banner(id: Seq<char>, profile: Seq<char>) -> Seq<char> {
    "Compiling "@ + id + " ("@ + profile + ")..."@
}

/// The directory that the build tool writes to: `qmk_build` below the
/// keyboard's build directory.
pub open spec fn tool_build_dir_of(layout: ProjectLayout, id: Seq<char>) -> Seq<char> {
    joined(build_dir_of(layout, id), "qmk_build"@)
}

/// The command that compiles for a keyboard. The build tool is run through
/// `mise`; it is given the hardware profile, the fixed name `keymap` of the
/// keymap directory, and the identifier and the tool's build directory as
/// `KEYBOARD_ID` and `BUILD_DIR`.
pub open spec fn compile_invocation(layout: ProjectLayout, id: Seq<char>, profile: Seq<char>)
    -> InvocationView {
    InvocationView {
        program: "mise"@,
        args: seq![
            "exec"@,
            "--"@,
            "qmk"@,
            "compile"@,
            "-kb"@,
            profile,
            "-km"@,
            "keymap"@,
            "-e"@,
            "KEYBOARD_ID="@ + id,
            "-e"@,
            "BUILD_DIR="@ + tool_build_dir_of(layout, id),
        ],
    }
}

/// The report on the keyboard `id`, when reading its configuration file gave
/// `read`.
pub open spec fn info_report_of(
    layout: ProjectLayout,
    id: Seq<char>,
    read: Result<Seq<char>, Seq<char>>,
) -> Result<Seq<Seq<char>>, KeymapErrorView> {
    match resolved_config(layout, id, read) {
        Err(e) => Err(e),
        Ok(config) => Ok(info_lines(layout, id, config.qmk_keyboard)),
    }
}

/// The start of a compilation for the keyboard `id`, when reading its
/// configuration file gave `read`.
pub open spec fn compile_plan_of(
    layout: ProjectLayout,
    id: Seq<char>,
    read: Result<Seq<char>, Seq<char>>,
) -> Result<CompilePlanView, KeymapErrorView> {
    match resolved_config(layout, id, read) {
        Err(e) => Err(e),
        Ok(config) => Ok(
            CompilePlanView {
                banner: compile_banner(id, config.qmk_keyboard),
                invocation: compile_invocation(layout, id, config.qmk_keyboard),
            },
        ),
    }
}

/// What a run of the build tool came to. `exit` is the reason why the tool
/// could not be started, or else its exit code, where the system gave one.
/// Only the exit code zero is a success.
pub open spec fn exit_judged(exit: Result<Option<i32>, Seq<char>>) -> Result<
    (),
    SubprocessErrorView,
> {
    match exit {
        Err(reason) => Err(SubprocessErrorView::Launch { reason }),
        Ok(Some(code)) => if code == 0 {
            Ok(())
        } else {
            Err(SubprocessErrorView::Failed { code: Some(code) })
        },
        Ok(None) => Err(SubprocessErrorView::Failed { code: None }),
    }
}

/// With an invalid identifier both operations fail with the validation error,
/// whatever is in the configuration file and whether or not there is one.
pub proof fn lemma_invalid_identifier_fails_first(
    layout: ProjectLayout,
    id: Seq<char>,
    read: Result<Seq<char>, Seq<char>>,
)
    requires
        !valid_keyboard_id(id),
    ensures
        validated(id) is Err,
        info_report_of(layout, id, read) == Err::<Seq<Seq<char>>, KeymapErrorView>(
            KeymapErrorView::Validation(validated(id)->Err_0),
        ),
        compile_plan_of(layout, id, read) == Err::<CompilePlanView, KeymapErrorView>(
            KeymapErrorView::Validation(validated(id)->Err_0),
        ),
{
}

/// The report on a keyboard, from what reading its configuration file gave:
/// the lines to print.
pub fn info_report(ctx: &ProjectContext, keyboard_id: &str, read: Result<String, String>) -> (r:
    Result<Vec<String>, KeymapError>)
    ensures
        info_report_of(ctx@, keyboard_id@, outcome(read)) == match r {
            Ok(lines) => Ok::<Seq<Seq<char>>, KeymapErrorView>(texts(lines@)),
            Err(e) => Err::<Seq<Seq<char>>, KeymapErrorView>(e@),
        },
{
    let config = match ctx.get_keyboard_config(keyboard_id, read) {
        Ok(config) => config,
        Err(e) => {
            return Err(e);
        },
    };
    let build_dir = match ctx.get_build_dir(keyboard_id) {
        Ok(dir) => dir,
        Err(e) => {
            return Err(KeymapError::Validation(e));
        },
    };
    let mut first = String::from_str("Keyboard ID: ");
    first.append(keyboard_id);
    let mut second = String::from_str("QMK Keyboard: ");
    second.append(config.qmk_keyboard.as_str());
    let mut third = String::from_str("Build Directory: ");
    third.append(build_dir.as_str());
    let mut lines: Vec<String> = Vec::new();
    lines.push(first);
    lines.push(second);
    lines.push(third);
    assert(texts(lines@) =~= info_lines(ctx@, keyboard_id@, config@.qmk_keyboard));
    Ok(lines)
}

/// The start of a compilation, from what reading the configuration file
/// gave: the line to print and the command to run.
pub fn compile_plan(ctx: &ProjectContext, keyboard_id: &str, read: Result<String, String>) -> (r:
    Result<CompilePlan, KeymapError>)
    ensures
        outcome(r) == compile_plan_of(ctx@, keyboard_id@, outcome(read)),
{
    let config = match ctx.get_keyboard_config(keyboard_id, read) {
        Ok(config) => config,
        Err(e) => {
            return Err(e);
        },
    };
    let build_dir = match ctx.get_build_dir(keyboard_id) {
        Ok(dir) => dir,
        Err(e) => {
            return Err(KeymapError::Validation(e));
        },
    };
    let tool_build_dir = join(build_dir.as_str(), "qmk_build");

    let mut banner = String::from_str("Compiling ");
    banner.append(keyboard_id);
    banner.append(" (");
    banner.append(config.qmk_keyboard.as_str());
    banner.append(")...");

    let mut id_setting = String::from_str("KEYBOARD_ID=");
    id_setting.append(keyboard_id);
    let mut dir_setting = String::from_str("BUILD_DIR=");
    dir_setting.append(tool_build_dir.as_str());

    let mut args: Vec<String> = Vec::new();
    args.push(String::from_str("exec"));
    args.push(String::from_str("--"));
    args.push(String::from_str("qmk"));
    args.push(String::from_str("compile"));
    args.push(String::from_str("-kb"));
    args.push(config.qmk_keyboard);
    args.push(String::from_str("-km"));
    args.push(String::from_str("keymap"));
    args.push(String::from_str("-e"));
    args.push(id_setting);
    args.push(String::from_str("-e"));
    args.push(dir_setting);
    assert(texts(args@) =~= compile_invocation(ctx@, keyboard_id@, config@.qmk_keyboard).args);
    Ok(CompilePlan { banner, invocation: Invocation { program: String::from_str("mise"), args } })
}

/// Judges a run of the build tool. `exit` is the reason why the tool could
/// not be started, or else its exit code, where the system gave one.
pub fn compile_outcome(exit: Result<Option<i32>, String>) -> (r: Result<(), SubprocessError>)
    ensures
        outcome(r) == exit_judged(
            match exit {
                Ok(code) => Ok(code),
                Err(reason) => Err(reason@),
            },
        ),
{
    match exit {
        Err(reason) => Err(SubprocessError::Launch { reason }),
        Ok(Some(code)) => if code == 0 {
            Ok(())
        } else {
            Err(SubprocessError::Failed { code: Some(code) })
        },
        Ok(None) => Err(SubprocessError::Failed { code: None }),
    }
}

} // verus!
