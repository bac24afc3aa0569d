//! Who runs the installer, and where that user's configuration lives.

use vstd::prelude::*;
use vstd::string::*;
use crate::text::{glue, opt_text, str_eq};
use crate::wizard::{Answer, AnswerView, Question, QuestionView};

verus! {

/// The text without the white space at its two ends, as `str::trim` gives it.
pub uninterp spec fn trimmed(text: Seq<char>) -> Seq<char>;

/// `str::trim`: the contract only gives the result its name, [`trimmed`], as
/// a function of the characters.
#[verifier::external_body]
fn trim(text: &str) -> (inner: &str)
    ensures
        inner@ == trimmed(text@),
{
    text.trim()
}

/// Whether a numeric user id is that of `root`.
pub fn uid_is_root(uid: &str) -> (root: bool)
    ensures
        root == (uid@ == "0"@),
{
    str_eq(uid, "0")
}

/// Whether what `id -u` printed is the user id of `root`.
pub fn output_is_root(output: &str) -> (root: bool)
    ensures
        root == (trimmed(output@) == "0"@),
{
    uid_is_root(trim(output))
}

/// The unprivileged user, as far as the environment tells: the user who
/// called `sudo`, else the logged-in user unless that is `root`.
pub open spec fn user_from_environment(
    sudo_user: Option<Seq<char>>,
    user: Option<Seq<char>>,
) -> Option<Seq<char>> {
    match sudo_user {
        Some(name) => Some(name),
        None => match user {
            Some(name) => if name == "root"@ {
                None
            } else {
                Some(name)
            },
            None => None,
        },
    }
}

/// The unprivileged user from the values of `SUDO_USER` and `USER`: see
/// [`user_from_environment`]. Where the result is `None`, the user has to be
/// asked: see [`username_question`].
pub fn resolve_username(sudo_user: Option<String>, user: Option<String>) -> (name: Option<String>)
    ensures
        opt_text(name) == user_from_environment(opt_text(sudo_user), opt_text(user)),
{
    match sudo_user {
        Some(name) => Some(name),
        None => match user {
            Some(name) => {
                if str_eq(name.as_str(), "root") {
                    None
                } else {
                    Some(name)
                }
            },
            None => None,
        },
    }
}

/// The question for the user name.
pub open spec fn username_question_view() -> QuestionView {
    QuestionView::Text { message: "Enter your username (for config file location):"@ }
}

/// The question for the user name, where the environment does not tell it.
pub fn username_question() -> (asked: Question)
    ensures
        asked@ == username_question_view(),
{
    Question::Text { message: "Enter your username (for config file location):".to_owned() }
}

/// The name that was typed; none for any other answer.
pub open spec fn typed(answer: AnswerView) -> Option<Seq<char>> {
    match answer {
        AnswerView::Typed { text } => Some(text),
        _ => None,
    }
}

/// The user name that the answer gives: see [`typed`].
pub fn username_from(answer: &Answer) -> (name: Option<String>)
    ensures
        opt_text(name) == typed(answer@),
{
    match answer {
        Answer::Typed { text } => Some(text.clone()),
        _ => None,
    }
}

/// The user's configuration directory: `XDG_CONFIG_HOME` where it is set,
/// else `.config` in the user's home below `/home`.
pub open spec fn config_root_for(xdg_config_home: Option<Seq<char>>, user: Seq<char>) -> Seq<char> {
    match xdg_config_home {
        Some(dir) => dir,
        None => "/home/"@ + user + "/.config"@,
    }
}

/// The user's configuration directory: see [`config_root_for`].
pub fn config_root(xdg_config_home: Option<String>, user: &str) -> (dir: String)
    ensures
        dir@ == config_root_for(opt_text(xdg_config_home), user@),
{
    match xdg_config_home {
        Some(dir) => dir,
        None => {
            let mut dir = glue("/home/", user);
            dir.append("/.config");
            dir
        },
    }
}

/// The owner and group that written files are handed to: both the user's.
pub fn owner_and_group(user: &str) -> (owner: String)
    ensures
        owner@ == user@ + ":"@ + user@,
{
    let mut owner = glue(user, ":");
    owner.append(user);
    owner
}

} // verus!
