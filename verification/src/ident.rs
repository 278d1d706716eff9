//! Keyboard identifiers and the allow-list that guards them.
//!
//! An identifier names a directory below the keyboards directory and below the
//! build directory, so it is interpolated into file-system paths. Only letters,
//! digits, `_` and `-` are let through: nothing that could act as a path
//! separator or as a step to a parent directory can then occur in it.

use crate::error::ValidationErrorView;
use vstd::prelude::*;

verus! {

/// Whether a character beyond the ASCII range counts as a letter or a number
/// for `char::is_alphanumeric`.
pub uninterp spec fn unicode_alphanumeric(c: char) -> bool;

/// Whether a character counts as whitespace: Unicode's `White_Space`
/// property, by which `str::trim` goes.
pub uninterp spec fn white_space(c: char) -> bool;

/// The ASCII letters and digits.
pub open spec fn ascii_alphanumeric(c: char) -> bool {
    ('0' <= c && c <= '9') || ('A' <= c && c <= 'Z') || ('a' <= c && c <= 'z')
}

/// Letters and numbers: in the ASCII range the letters and digits, beyond it
/// whatever Unicode classifies as alphabetic or numeric.
pub open spec fn alphanumeric(c: char) -> bool {
    if c <= '\x7f' {
        ascii_alphanumeric(c)
    } else {
        unicode_alphanumeric(c)
    }
}

/// `char::is_alphanumeric` of std. Taken on trust: an ASCII character is
/// alphanumeric exactly when it is a letter or a digit, and the answer for any
/// other character depends on that character alone.
pub assume_specification[ char::is_alphanumeric ](c: char) -> (r: bool)
    ensures
        c <= '\x7f' ==> r == ascii_alphanumeric(c),
        c > '\x7f' ==> r == unicode_alphanumeric(c),
;

/// A text without its leading and trailing whitespace.
pub open spec fn trimmed(s: Seq<char>) -> Seq<char>
    decreases s.len(),
{
    if s.len() > 0 && white_space(s.first()) {
        trimmed(s.drop_first())
    } else if s.len() > 0 && white_space(s.last()) {
        trimmed(s.drop_last())
    } else {
        s
    }
}

/// `str::trim` of std. Taken on trust: the result is the text with its leading
/// and trailing whitespace removed, so what is left neither starts nor ends
/// with whitespace.
pub assume_specification[ str::trim ](s: &str) -> (r: &str)
    ensures
        r@ == trimmed(s@),
        r@.len() > 0 ==> !white_space(r@.first()) && !white_space(r@.last()),
;

/// A text that is empty or made of whitespace only.
pub open spec fn whitespace_only(s: Seq<char>) -> bool {
    forall|i: int| 0 <= i < s.len() ==> white_space(#[trigger] s[i])
}

/// A text of which nothing is left after trimming.
pub open spec fn blank(s: Seq<char>) -> bool {
    trimmed(s).len() == 0
}

/// The characters an identifier may hold.
pub open spec fn id_char(c: char) -> bool {
    alphanumeric(c) || c == '_' || c == '-'
}

/// A text made of permitted characters only.
pub open spec fn only_id_chars(s: Seq<char>) -> bool {
    forall|i: int| 0 <= i < s.len() ==> id_char(#[trigger] s[i])
}

/// The identifiers that are accepted: not blank, and made of permitted
/// characters only.
pub open spec fn valid_keyboard_id(s: Seq<char>) -> bool {
    !blank(s) && only_id_chars(s)
}

/// What validation makes of an identifier: a blank one is rejected as empty,
/// one with a character outside the allow-list as illegal, and every other is
/// accepted.
pub open spec fn validated(s: Seq<char>) -> Result<(), ValidationErrorView> {
    if blank(s) {
        Err(ValidationErrorView::Empty)
    } else if !only_id_chars(s) {
        Err(ValidationErrorView::IllegalCharacter { id: s })
    } else {
        Ok(())
    }
}

/// Nothing is left of a text after trimming exactly when it holds whitespace
/// only.
pub proof fn lemma_blank_is_whitespace_only(s: Seq<char>)
    ensures
        blank(s) <==> whitespace_only(s),
    decreases s.len(),
{
    if s.len() > 0 && white_space(s.first()) {
        let rest = s.drop_first();
        lemma_blank_is_whitespace_only(rest);
        if whitespace_only(rest) {
            assert forall|i: int| 0 <= i < s.len() implies white_space(#[trigger] s[i]) by {
                if i > 0 {
                    assert(s[i] == rest[i - 1]);
                }
            }
        }
        if whitespace_only(s) {
            assert forall|i: int| 0 <= i < rest.len() implies white_space(#[trigger] rest[i]) by {
                assert(rest[i] == s[i + 1]);
            }
        }
    } else if s.len() > 0 && white_space(s.last()) {
        let rest = s.drop_last();
        lemma_blank_is_whitespace_only(rest);
    }
}

/// Every identifier that holds only letters, digits, `_` and `-` and of which
/// something is left after trimming is valid.
pub proof fn lemma_allowed_identifiers_are_valid(s: Seq<char>)
    requires
        only_id_chars(s),
        trimmed(s).len() > 0,
    ensures
        valid_keyboard_id(s),
        validated(s) == Ok::<(), ValidationErrorView>(()),
{
}

/// No identifier that is empty, holds whitespace only, or holds a `.`, a `/`
/// or a `\` is valid.
pub proof fn lemma_traversal_is_rejected(s: Seq<char>)
    requires
        s.len() == 0 || whitespace_only(s) || s.contains('.') || s.contains('/') || s.contains(
            '\\',
        ),
    ensures
        !valid_keyboard_id(s),
        validated(s) is Err,
        s.len() == 0 || whitespace_only(s) ==> validated(s) == Err::<(), ValidationErrorView>(
            ValidationErrorView::Empty,
        ),
{
    lemma_blank_is_whitespace_only(s);
    if s.contains('.') {
        let i = choose|i: int| 0 <= i < s.len() && s[i] == '.';
        assert(!id_char(s[i]));
    }
    if s.contains('/') {
        let i = choose|i: int| 0 <= i < s.len() && s[i] == '/';
        assert(!id_char(s[i]));
    }
    if s.contains('\\') {
        let i = choose|i: int| 0 <= i < s.len() && s[i] == '\\';
        assert(!id_char(s[i]));
    }
}

/// Tells whether a character may occur in an identifier.
pub fn is_id_char(c: char) -> (r: bool)
    ensures
        r == id_char(c),
{
    c.is_alphanumeric() || c == '_' || c == '-'
}

/// Tells whether nothing but whitespace is in a text.
pub fn is_blank(s: &str) -> (r: bool)
    ensures
        r == blank(s@),
{
    s.trim().is_empty()
}

/// Tells whether a text is made of permitted characters only.
pub fn has_only_id_chars(s: &str) -> (r: bool)
    ensures
        r == only_id_chars(s@),
{
    broadcast use vstd::string::axiom_spec_iter;

    let mut ok = true;
    for c in it: s.chars()
        invariant
            it.seq() == s@,
            ok == (forall|i: int| 0 <= i < it.index() ==> id_char(#[trigger] s@[i])),
    {
        if !is_id_char(c) {
            ok = false;
        }
    }
    ok
}

} // verus!
