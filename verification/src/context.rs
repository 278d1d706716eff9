//! The layout of a project and the locations it gives to each keyboard.
//!
//! Every keyboard identifier maps to one configuration file,
//! `keyboards_dir/<id>/config.json`, and to one build directory,
//! `root_dir/build/<id>`.

use crate::config::{config_in_text, json_document, KeyboardConfig, KeyboardConfigView};
use crate::error::{
    outcome, ConfigError, ConfigErrorView, KeymapError, KeymapErrorView, ParseFailureView,
    ValidationError, ValidationErrorView,
};
use crate::ident::{has_only_id_chars, is_blank, valid_keyboard_id, validated};
use crate::paths::{join, joined, resolve_against, resolved_against};
use vstd::prelude::*;

verus! {

/// The view of a `ProjectContext`: its two directories, as texts.
pub struct ProjectLayout {
    pub root_dir: Seq<char>,
    pub keyboards_dir: Seq<char>,
}

/// The resolved layout of a project: where its root is and where its
/// keyboards are kept.
#[derive(Debug, Clone, PartialEq, Eq)]
pub struct ProjectContext {
    root_dir: String,
    keyboards_dir: String,
}

impl View for ProjectContext {
    type V = ProjectLayout;

    closed spec fn view(&self) -> ProjectLayout {
        ProjectLayout { root_dir: self.root_dir@, keyboards_dir: self.keyboards_dir@ }
    }
}

/// The configuration file of the keyboard `id`: `keyboards_dir/<id>/config.json`.
pub open spec fn config_path_of(layout: ProjectLayout, id: Seq<char>) -> Seq<char> {
    joined(joined(layout.keyboards_dir, id), "config.json"@)
}

/// The build directory of the keyboard `id`: `root_dir/build/<id>`.
pub open spec fn build_dir_of(layout: ProjectLayout, id: Seq<char>) -> Seq<char> {
    joined(joined(layout.root_dir, "build"@), id)
}

/// The location that `place` gives to the keyboard `id`, if the identifier is
/// valid, and the reason why it is not, if it is not.
pub open spec fn located(id: Seq<char>, place: Seq<char>) -> Result<
    Seq<char>,
    ValidationErrorView,
> {
    match validated(id) {
        Err(e) => Err(e),
        Ok(_) => Ok(place),
    }
}

/// What a request for the configuration of the keyboard `id` comes to, when
/// reading its configuration file gave `read`: the text of the file, or the
/// reason why it could not be read. An invalid identifier is rejected whatever
/// was read; a failure to read or to parse is reported with the path of the
/// file.
pub open spec fn resolved_config(
    layout: ProjectLayout,
    id: Seq<char>,
    read: Result<Seq<char>, Seq<char>>,
) -> Result<KeyboardConfigView, KeymapErrorView> {
    match validated(id) {
        Err(e) => Err(KeymapErrorView::Validation(e)),
        Ok(_) => match read {
            Err(reason) => Err(
                KeymapErrorView::Config(
                    ConfigErrorView::Read { path: config_path_of(layout, id), reason },
                ),
            ),
            Ok(text) => match config_in_text(text) {
                Err(failure) => Err(
                    KeymapErrorView::Config(
                        ConfigErrorView::Parse { path: config_path_of(layout, id), failure },
                    ),
                ),
                Ok(config) => Ok(config),
            },
        },
    }
}

/// With a valid identifier, a request for the configuration fails only with a
/// configuration error, and every such error holds the path of the keyboard's
/// configuration file.
pub proof fn lemma_config_errors_name_the_file(
    layout: ProjectLayout,
    id: Seq<char>,
    read: Result<Seq<char>, Seq<char>>,
)
    requires
        valid_keyboard_id(id),
    ensures
        resolved_config(layout, id, read) matches Err(e) ==> (e matches KeymapErrorView::Config(
            failure,
        ) && failure.path() == config_path_of(layout, id)),
{
}

/// A file that could not be read comes to a read error that holds the path of
/// the file and the reason.
pub proof fn lemma_unreadable_file_is_read_error(
    layout: ProjectLayout,
    id: Seq<char>,
    reason: Seq<char>,
)
    requires
        valid_keyboard_id(id),
    ensures
        resolved_config(layout, id, Err(reason)) == Err::<KeyboardConfigView, KeymapErrorView>(
            KeymapErrorView::Config(
                ConfigErrorView::Read { path: config_path_of(layout, id), reason },
            ),
        ),
{
}

/// A text that the parser refuses comes to a parse error that holds the path
/// of the file and the parser's complaint.
pub proof fn lemma_malformed_text_is_parse_error(
    layout: ProjectLayout,
    id: Seq<char>,
    text: Seq<char>,
)
    requires
        valid_keyboard_id(id),
        json_document(text) is Err,
    ensures
        resolved_config(layout, id, Ok(text)) == Err::<KeyboardConfigView, KeymapErrorView>(
            KeymapErrorView::Config(
                ConfigErrorView::Parse {
                    path: config_path_of(layout, id),
                    failure: ParseFailureView::Malformed { detail: json_document(text)->Err_0 },
                },
            ),
        ),
{
}

impl ProjectContext {
    /// A context for the project rooted at `root`, with its keyboards under
    /// `keyboards_dir`.
    pub fn new(root: &str, keyboards_dir: &str) -> (r: Self)
        ensures
            r@.root_dir == root@,
            r@.keyboards_dir == keyboards_dir@,
    {
        ProjectContext { root_dir: root.to_owned(), keyboards_dir: keyboards_dir.to_owned() }
    }

    /// The context of a process that works in `working_dir`: the project is
    /// rooted there, and a relative `keyboards_dir` is resolved against it.
    pub fn in_working_dir(working_dir: &str, keyboards_dir: &str) -> (r: Self)
        ensures
            r@.root_dir == working_dir@,
            r@.keyboards_dir == resolved_against(working_dir@, keyboards_dir@),
    {
        ProjectContext {
            root_dir: working_dir.to_owned(),
            keyboards_dir: resolve_against(working_dir, keyboards_dir),
        }
    }

    /// The project root.
    pub fn root_dir(&self) -> (r: &str)
        ensures
            r@ == self@.root_dir,
    {
        self.root_dir.as_str()
    }

    /// The directory that holds one subdirectory per keyboard.
    pub fn keyboards_dir(&self) -> (r: &str)
        ensures
            r@ == self@.keyboards_dir,
    {
        self.keyboards_dir.as_str()
    }

    /// Accepts an identifier that is not blank and holds only letters, digits,
    /// `_` and `-`; rejects every other, a blank one as empty.
    pub fn validate_keyboard_id(id: &str) -> (r: Result<(), ValidationError>)
        ensures
            r is Ok <==> valid_keyboard_id(id@),
            outcome(r) == validated(id@),
    {
        if is_blank(id) {
            return Err(ValidationError::Empty);
        }
        if !has_only_id_chars(id) {
            return Err(ValidationError::IllegalCharacter { id: id.to_owned() });
        }
        Ok(())
    }

    /// The path of the configuration file of a keyboard. The file is not
    /// touched.
    pub fn config_path(&self, keyboard_id: &str) -> (r: Result<String, ValidationError>)
        ensures
            r is Ok <==> valid_keyboard_id(keyboard_id@),
            outcome(r) == located(keyboard_id@, config_path_of(self@, keyboard_id@)),
    {
        match Self::validate_keyboard_id(keyboard_id) {
            Err(e) => Err(e),
            Ok(_) => {
                let dir = join(self.keyboards_dir.as_str(), keyboard_id);
                Ok(join(dir.as_str(), "config.json"))
            },
        }
    }

    /// The configuration of a keyboard, from what reading the file at
    /// `config_path` gave: its text, or the reason why it could not be read.
    pub fn get_keyboard_config(&self, keyboard_id: &str, read: Result<String, String>) -> (r:
        Result<KeyboardConfig, KeymapError>)
        ensures
            outcome(r) == resolved_config(self@, keyboard_id@, outcome(read)),
    {
        let path = match self.config_path(keyboard_id) {
            Err(e) => {
                return Err(KeymapError::Validation(e));
            },
            Ok(path) => path,
        };
        let text = match read {
            Err(reason) => {
                return Err(KeymapError::Config(ConfigError::Read { path, reason }));
            },
            Ok(text) => text,
        };
        match KeyboardConfig::from_json(text.as_str()) {
            Err(failure) => Err(KeymapError::Config(ConfigError::Parse { path, failure })),
            Ok(config) => Ok(config),
        }
    }

    /// The build directory of a keyboard. Nothing is read or created: the
    /// result depends on the project root and the identifier alone, and the
    /// directory need not exist.
    pub fn get_build_dir(&self, keyboard_id: &str) -> (r: Result<String, ValidationError>)
        ensures
            r is Ok <==> valid_keyboard_id(keyboard_id@),
            outcome(r) == located(keyboard_id@, build_dir_of(self@, keyboard_id@)),
    {
        match Self::validate_keyboard_id(keyboard_id) {
            Err(e) => Err(e),
            Ok(_) => {
                let dir = join(self.root_dir.as_str(), "build");
                Ok(join(dir.as_str(), keyboard_id))
            },
        }
    }
}

} // verus!
