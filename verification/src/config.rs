//! The configuration of one keyboard and the JSON document that holds it.
//!
//! The document is an object with a string member `qmk_keyboard`; members of
//! other names are ignored.

use crate::error::{outcome, ParseFailure, ParseFailureView};
use vstd::prelude::*;

verus! {

/// The build metadata of one keyboard.
#[derive(Debug, Clone, PartialEq, Eq)]
pub struct KeyboardConfig {
    /// The build tool's own name for the hardware profile.
    pub qmk_keyboard: String,
}

/// One member of a JSON object: its name, and its text where its value is a
/// string.
#[derive(Debug, Clone, PartialEq, Eq)]
pub struct Member {
    pub name: String,
    pub text: Option<String>,
}

/// A JSON document, as far as a configuration is read from it: the members of
/// an object, or any other value.
#[derive(Debug, Clone, PartialEq, Eq)]
pub enum Document {
    Object { members: Vec<Member> },
    Other,
}

/// The view of a `KeyboardConfig`.
pub struct KeyboardConfigView {
    pub qmk_keyboard: Seq<char>,
}

/// The view of a `Member`.
pub struct MemberView {
    pub name: Seq<char>,
    pub text: Option<Seq<char>>,
}

/// The view of a `Document`.
pub enum DocumentView {
    Object { members: Seq<MemberView> },
    Other,
}

impl View for KeyboardConfig {
    type V = KeyboardConfigView;

    open spec fn view(&self) -> KeyboardConfigView {
        KeyboardConfigView { qmk_keyboard: self.qmk_keyboard@ }
    }
}

impl View for Member {
    type V = MemberView;

    open spec fn view(&self) -> MemberView {
        MemberView {
            name: self.name@,
            text: match self.text {
                Some(text) => Some(text@),
                None => None,
            },
        }
    }
}

impl View for Document {
    type V = DocumentView;

    open spec fn view(&self) -> DocumentView {
        match self {
            Document::Object { members } => DocumentView::Object {
                members: members@.map_values(|m: Member| m@),
            },
            Document::Other => DocumentView::Other,
        }
    }
}

/// What the JSON parser makes of a text: the document, or its complaint.
pub uninterp spec fn json_document(text: Seq<char>) -> Result<DocumentView, Seq<char>>;

/// `serde_json::from_str` at the type `serde_json::Value`. Taken on trust:
/// whether the text is accepted, the value it parses to and the message of
/// the error depend on the text alone. The value is handed on as a
/// `Document`: an object as the list of its members, a string among them
/// with its text.
#[verifier::external_body]
pub(crate) fn parse_document(text: &str) -> (r: Result<Document, String>)
    ensures
        outcome(r) == json_document(text@),
{
    match serde_json::from_str::<serde_json::Value>(text) {
        Ok(serde_json::Value::Object(object)) => Ok(Document::Object {
            members: object.into_iter().map(|(name, value)| match value {
                serde_json::Value::String(text) => Member { name, text: Some(text) },
                _ => Member { name, text: None },
            }).collect(),
        }),
        Ok(_) => Ok(Document::Other),
        Err(e) => Err(e.to_string()),
    }
}

/// The name of the member that holds the hardware profile.
pub open spec fn profile_member() -> Seq<char> {
    "qmk_keyboard"@
}

/// The configuration among the members of an object: the text of the first
/// member called `qmk_keyboard`. Without such a member, or with one that is
/// no string, there is none.
pub open spec fn config_among(members: Seq<MemberView>) -> Result<
    KeyboardConfigView,
    ParseFailureView,
>
    decreases members.len(),
{
    if members.len() == 0 {
        Err(ParseFailureView::MissingField)
    } else if members.first().name == profile_member() {
        match members.first().text {
            Some(profile) => Ok(KeyboardConfigView { qmk_keyboard: profile }),
            None => Err(ParseFailureView::NotAString),
        }
    } else {
        config_among(members.drop_first())
    }
}

/// The configuration that a document holds. Only an object holds one.
pub open spec fn config_in_document(doc: DocumentView) -> Result<
    KeyboardConfigView,
    ParseFailureView,
> {
    match doc {
        DocumentView::Object { members } => config_among(members),
        DocumentView::Other => Err(ParseFailureView::MissingField),
    }
}

/// The configuration that a text holds: that of the document it parses to.
/// A text that does not parse holds none, and the parser's complaint says why.
pub open spec fn config_in_text(text: Seq<char>) -> Result<KeyboardConfigView, ParseFailureView> {
    match json_document(text) {
        Err(why) => Err(ParseFailureView::Malformed { detail: why }),
        Ok(doc) => config_in_document(doc),
    }
}

/// The first member called `qmk_keyboard` decides: if it is a string, its text
/// is the hardware profile, and if it is not, the document is refused.
pub proof fn lemma_first_profile_member_decides(members: Seq<MemberView>, i: int)
    requires
        0 <= i < members.len(),
        members[i].name == profile_member(),
        forall|j: int| 0 <= j < i ==> (#[trigger] members[j]).name != profile_member(),
    ensures
        config_among(members) == match members[i].text {
            Some(profile) => Ok::<KeyboardConfigView, ParseFailureView>(
                KeyboardConfigView { qmk_keyboard: profile },
            ),
            None => Err::<KeyboardConfigView, ParseFailureView>(ParseFailureView::NotAString),
        },
    decreases i,
{
    if i > 0 {
        let rest = members.drop_first();
        assert(members[0].name != profile_member());
        assert(rest[i - 1] == members[i]);
        assert forall|j: int| 0 <= j < i - 1 implies (#[trigger] rest[j]).name
            != profile_member() by {
            assert(rest[j] == members[j + 1]);
        }
        lemma_first_profile_member_decides(rest, i - 1);
    }
}

/// Among members of which none is called `qmk_keyboard` the field is missing.
pub proof fn lemma_no_profile_member_is_missing_field(members: Seq<MemberView>)
    requires
        forall|j: int| 0 <= j < members.len() ==> (#[trigger] members[j]).name != profile_member(),
    ensures
        config_among(members) == Err::<KeyboardConfigView, ParseFailureView>(
            ParseFailureView::MissingField,
        ),
    decreases members.len(),
{
    if members.len() > 0 {
        let rest = members.drop_first();
        assert(members[0].name != profile_member());
        assert forall|j: int| 0 <= j < rest.len() implies (#[trigger] rest[j]).name
            != profile_member() by {
            assert(rest[j] == members[j + 1]);
        }
        lemma_no_profile_member_is_missing_field(rest);
    }
}

/// An object whose only member is `qmk_keyboard` with the text `profile`
/// holds the configuration with that profile, whatever the text is.
pub proof fn lemma_profile_round_trip(profile: Seq<char>)
    ensures
        config_in_document(
            DocumentView::Object {
                members: seq![MemberView { name: profile_member(), text: Some(profile) }],
            },
        ) == Ok::<KeyboardConfigView, ParseFailureView>(
            KeyboardConfigView { qmk_keyboard: profile },
        ),
{
    let members = seq![MemberView { name: profile_member(), text: Some(profile) }];
    lemma_first_profile_member_decides(members, 0);
}

impl KeyboardConfig {
    /// Takes the configuration out of a parsed document.
    pub fn from_document(doc: &Document) -> (r: Result<KeyboardConfig, ParseFailure>)
        ensures
            outcome(r) == config_in_document(doc@),
    {
        match doc {
            Document::Other => Err(ParseFailure::MissingField),
            Document::Object { members } => {
                let key = String::from_str("qmk_keyboard");
                let ghost all = members@.map_values(|m: Member| m@);
                let mut i: usize = 0;
                assert(all.skip(0) =~= all);
                while i < members.len()
                    invariant
                        i <= members.len(),
                        key@ == profile_member(),
                        all == members@.map_values(|m: Member| m@),
                        config_in_document(doc@) == config_among(all),
                        config_among(all) == config_among(all.skip(i as int)),
                    decreases members.len() - i,
                {
                    let member = &members[i];
                    assert(all.skip(i as int).first() == member@);
                    assert(all.skip(i as int).drop_first() == all.skip(i + 1));
                    if member.name == key {
                        return match &member.text {
                            Some(profile) => Ok(KeyboardConfig { qmk_keyboard: profile.clone() }),
                            None => Err(ParseFailure::NotAString),
                        };
                    }
                    i += 1;
                }
                Err(ParseFailure::MissingField)
            },
        }
    }

    /// Parses a configuration document.
    pub fn from_json(text: &str) -> (r: Result<KeyboardConfig, ParseFailure>)
        ensures
            outcome(r) == config_in_text(text@),
    {
        match parse_document(text) {
            Err(why) => Err(ParseFailure::Malformed { detail: why }),
            Ok(doc) => Self::from_document(&doc),
        }
    }
}

} // verus!
