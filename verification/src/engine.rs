//! The conversation engine: recognizes the top-level commands, runs one
//! transition of the per-user configuration state machine for everything
//! else, and says exactly which reply goes back and how the store changes.

use vstd::prelude::*;
use vstd::string::StringExecFns;
use crate::generator::{generate_password, password_text_ok, Generated};
use crate::parse::{parse_u8, spec_parse_u8, ParseError};
use crate::session::{new_session, Phase, Session, SessionStore};
use crate::strconv::{chars_eq, chars_of};
use crate::{QUICK_LENGTH, SESSION_TTL_SECS};

verus! {

/// How the transport should render the reply text.
#[derive(Clone, Copy, PartialEq, Eq, Structural, Debug)]
pub enum Format {
    /// Ordinary text.
    Plain,
    /// Fixed-width code styling, so the password is shown literally.
    Code,
}

/// What the transport should do with the reply keyboard.
#[derive(Clone, Copy, PartialEq, Eq, Structural, Debug)]
pub enum KeyboardHint {
    /// Leave the keyboard as it is.
    NoHint,
    /// Offer the two-button yes/no keyboard.
    YesNo,
    /// Take any custom keyboard away.
    Clear,
}

/// One outbound reply.
pub struct Reply {
    /// The text to send.
    pub text: String,
    /// How to render it.
    pub format: Format,
    /// What to do with the keyboard.
    pub keyboard: KeyboardHint,
}

/// The general help text, also the fallback for a caller who is not
/// mid-flow.
pub open spec fn help_text() -> Seq<char> {
    "This bot helps you generate random passwords. I DO NOT STORE ANYTHING ON MY SERVER, you can read the source code. Also this bot uses crypto/rand to generate secure randoms for password.\nTo quickly generate password use /generate , it generates a 16 letter password with combination of letters and numbers\nIf you want to create a customizable password, use /password"@
}

/// The greeting.
pub open spec fn start_text() -> Seq<char> {
    "Hello and welcome to password generator bot!\nTo quickly generate a password send run /generate\nTo customize your password use /password"@
}

/// The about blurb.
pub open spec fn about_text() -> Seq<char> {
    "Password Generator Bot"@
}

/// The length prompt, sent when a configuration flow starts.
pub open spec fn length_prompt() -> Seq<char> {
    "Select the length of your password(1-255)"@
}

/// The lowercase prompt.
pub open spec fn lowercase_prompt() -> Seq<char> {
    "Do you want your password contain lowercase characters? (a,b,c...)"@
}

/// The uppercase prompt.
pub open spec fn uppercase_prompt() -> Seq<char> {
    "Do you want your password contain uppercase characters? (A,B,C...)"@
}

/// The digits prompt.
pub open spec fn numbers_prompt() -> Seq<char> {
    "Do you want your password contain numbers characters? (1,2,3...)"@
}

/// The punctuation prompt.
pub open spec fn symbols_prompt() -> Seq<char> {
    "Do you want your password contain special characters? (!,#,%...)"@
}

/// The rejection of a zero length.
pub open spec fn zero_text() -> Seq<char> {
    "Please do not enter 0!"@
}

/// The validation message when every character class is disabled.
pub open spec fn no_classes_text() -> Seq<char> {
    "Please at least choose one of the character types"@
}

/// The reply text for each way a length reply can fail to parse.
pub open spec fn parse_error_text(e: ParseError) -> Seq<char> {
    match e {
        ParseError::Empty => "cannot parse integer from empty string"@,
        ParseError::InvalidDigit => "invalid digit found in string"@,
        ParseError::PosOverflow => "number too large to fit in target type"@,
    }
}

/// Whether the text is exactly the affirmative token; everything else,
/// garbage included, silently means no.
pub open spec fn spec_is_yes(s: Seq<char>) -> bool {
    s == "Yes"@
}

/// What one inbound text message does: how the store moves from `m0` to
/// `m1` and which reply goes out. Commands are checked first; otherwise a
/// caller with no session gets the help text, and a caller mid-flow
/// advances their session by exactly one step.
pub open spec fn spec_handle(
    m0: Map<u64, Session>,
    m1: Map<u64, Session>,
    uid: u64,
    s: Seq<char>,
    now: u64,
    out: Seq<char>,
    format: Format,
    keyboard: KeyboardHint,
) -> bool {
    if s == "/start"@ {
        m1 == m0 && out == start_text() && format == Format::Plain && keyboard
            == KeyboardHint::NoHint
    } else if s == "/about"@ {
        m1 == m0 && out == about_text() && format == Format::Plain && keyboard
            == KeyboardHint::NoHint
    } else if s == "/generate"@ {
        m1 == m0 && password_text_ok(out, QUICK_LENGTH as int, true, true, true, false) && format
            == Format::Code && keyboard == KeyboardHint::NoHint
    } else if s == "/password"@ {
        m1 == m0.insert(uid, new_session(now)) && out == length_prompt() && format == Format::Plain
            && keyboard == KeyboardHint::NoHint
    } else if s == "/help"@ {
        m1 == m0 && out == help_text() && format == Format::Plain && keyboard
            == KeyboardHint::NoHint
    } else if !m0.contains_key(uid) {
        m1 == m0 && out == help_text() && format == Format::Plain && keyboard == KeyboardHint::Clear
    } else {
        let sess = m0[uid];
        match sess.phase {
            Phase::AwaitingLength => match spec_parse_u8(s) {
                Ok(n) => if n == 0 {
                    m1 == m0 && out == zero_text() && format == Format::Plain && keyboard
                        == KeyboardHint::Clear
                } else {
                    m1 == m0.insert(
                        uid,
                        Session { phase: Phase::AwaitingLowercase, length: n, ..sess },
                    ) && out == lowercase_prompt() && format == Format::Plain && keyboard
                        == KeyboardHint::YesNo
                },
                Err(e) => m1 == m0 && out == parse_error_text(e) && format == Format::Plain
                    && keyboard == KeyboardHint::Clear,
            },
            Phase::AwaitingLowercase => m1 == m0.insert(
                uid,
                Session { phase: Phase::AwaitingUppercase, lowercase: spec_is_yes(s), ..sess },
            ) && out == uppercase_prompt() && format == Format::Plain && keyboard
                == KeyboardHint::YesNo,
            Phase::AwaitingUppercase => m1 == m0.insert(
                uid,
                Session { phase: Phase::AwaitingNumbers, uppercase: spec_is_yes(s), ..sess },
            ) && out == numbers_prompt() && format == Format::Plain && keyboard
                == KeyboardHint::YesNo,
            Phase::AwaitingNumbers => m1 == m0.insert(
                uid,
                Session { phase: Phase::AwaitingSymbols, numbers: spec_is_yes(s), ..sess },
            ) && out == symbols_prompt() && format == Format::Plain && keyboard
                == KeyboardHint::YesNo,
            Phase::AwaitingSymbols => m1 == m0.remove(uid) && format == Format::Code && keyboard
                == KeyboardHint::Clear && (if !sess.lowercase && !sess.uppercase && !sess.numbers
                && !spec_is_yes(s) {
                out == no_classes_text()
            } else {
                password_text_ok(
                    out,
                    sess.length as int,
                    sess.lowercase,
                    sess.uppercase,
                    sess.numbers,
                    spec_is_yes(s),
                )
            }),
        }
    }
}

fn parse_error_reply(e: ParseError) -> (r: String)
    ensures
        r@ == parse_error_text(e),
{
    match e {
        ParseError::Empty => String::from_str("cannot parse integer from empty string"),
        ParseError::InvalidDigit => String::from_str("invalid digit found in string"),
        ParseError::PosOverflow => String::from_str("number too large to fit in target type"),
    }
}

fn help_reply() -> (r: String)
    ensures
        r@ == help_text(),
{
    String::from_str(
        "This bot helps you generate random passwords. I DO NOT STORE ANYTHING ON MY SERVER, you can read the source code. Also this bot uses crypto/rand to generate secure randoms for password.\nTo quickly generate password use /generate , it generates a 16 letter password with combination of letters and numbers\nIf you want to create a customizable password, use /password",
    )
}

/// Handles one inbound message: a missing text falls back to the help
/// text; everything else moves through `spec_handle`. Sessions of other
/// users are never touched.
pub fn handle_message(store: &mut SessionStore, user_id: u64, text: Option<&str>, now: u64) -> (r:
    Reply)
    requires
        old(store).wf(),
        now + SESSION_TTL_SECS <= u64::MAX,
    ensures
        final(store).wf(),
        forall|k: u64|
            k != user_id ==> final(store)@.contains_key(k) == old(store)@.contains_key(k),
        forall|k: u64|
            k != user_id && old(store)@.contains_key(k) ==> final(store)@[k] == old(store)@[k],
        match text {
            None => final(store)@ == old(store)@ && r.text@ == help_text() && r.format
                == Format::Plain && r.keyboard == KeyboardHint::NoHint,
            Some(t) => spec_handle(
                old(store)@,
                final(store)@,
                user_id,
                t@,
                now,
                r.text@,
                r.format,
                r.keyboard,
            ),
        },
{
    let t = match text {
        Some(t) => t,
        None => {
            return Reply {
                text: help_reply(),
                format: Format::Plain,
                keyboard: KeyboardHint::NoHint,
            };
        },
    };
    let tc = chars_of(t);
    let lit = chars_of("/start");
    if chars_eq(&tc, &lit) {
        return Reply {
            text: String::from_str(
                "Hello and welcome to password generator bot!\nTo quickly generate a password send run /generate\nTo customize your password use /password",
            ),
            format: Format::Plain,
            keyboard: KeyboardHint::NoHint,
        };
    }
    let lit = chars_of("/about");
    if chars_eq(&tc, &lit) {
        return Reply {
            text: String::from_str("Password Generator Bot"),
            format: Format::Plain,
            keyboard: KeyboardHint::NoHint,
        };
    }
    let lit = chars_of("/generate");
    if chars_eq(&tc, &lit) {
        let generated = generate_password(QUICK_LENGTH, true, true, true, false);
        let pass = match generated {
            Generated::Password(s) => s,
            Generated::NoClasses => String::from_str(""),
        };
        return Reply { text: pass, format: Format::Code, keyboard: KeyboardHint::NoHint };
    }
    let lit = chars_of("/password");
    if chars_eq(&tc, &lit) {
        store.create(user_id, now);
        return Reply {
            text: String::from_str("Select the length of your password(1-255)"),
            format: Format::Plain,
            keyboard: KeyboardHint::NoHint,
        };
    }
    let lit = chars_of("/help");
    if chars_eq(&tc, &lit) {
        return Reply { text: help_reply(), format: Format::Plain, keyboard: KeyboardHint::NoHint };
    }
    let sess = match store.get(user_id) {
        Some(sess) => sess,
        None => {
            return Reply {
                text: help_reply(),
                format: Format::Plain,
                keyboard: KeyboardHint::Clear,
            };
        },
    };
    proof {
        store.lemma_view_wf(user_id);
    }
    let lit = chars_of("Yes");
    let yes = chars_eq(&tc, &lit);
    match sess.phase {
        Phase::AwaitingLength => {
            match parse_u8(&tc) {
                Ok(n) => {
                    if n == 0 {
                        Reply {
                            text: String::from_str("Please do not enter 0!"),
                            format: Format::Plain,
                            keyboard: KeyboardHint::Clear,
                        }
                    } else {
                        store.insert(
                            user_id,
                            Session { phase: Phase::AwaitingLowercase, length: n, ..sess },
                        );
                        Reply {
                            text: String::from_str(
                                "Do you want your password contain lowercase characters? (a,b,c...)",
                            ),
                            format: Format::Plain,
                            keyboard: KeyboardHint::YesNo,
                        }
                    }
                },
                Err(e) => Reply {
                    text: parse_error_reply(e),
                    format: Format::Plain,
                    keyboard: KeyboardHint::Clear,
                },
            }
        },
        Phase::AwaitingLowercase => {
            store.insert(
                user_id,
                Session { phase: Phase::AwaitingUppercase, lowercase: yes, ..sess },
            );
            Reply {
                text: String::from_str(
                    "Do you want your password contain uppercase characters? (A,B,C...)",
                ),
                format: Format::Plain,
                keyboard: KeyboardHint::YesNo,
            }
        },
        Phase::AwaitingUppercase => {
            store.insert(user_id, Session { phase: Phase::AwaitingNumbers, uppercase: yes, ..sess });
            Reply {
                text: String::from_str(
                    "Do you want your password contain numbers characters? (1,2,3...)",
                ),
                format: Format::Plain,
                keyboard: KeyboardHint::YesNo,
            }
        },
        Phase::AwaitingNumbers => {
            store.insert(user_id, Session { phase: Phase::AwaitingSymbols, numbers: yes, ..sess });
            Reply {
                text: String::from_str(
                    "Do you want your password contain special characters? (!,#,%...)",
                ),
                format: Format::Plain,
                keyboard: KeyboardHint::YesNo,
            }
        },
        Phase::AwaitingSymbols => {
            let generated = generate_password(
                sess.length,
                sess.lowercase,
                sess.uppercase,
                sess.numbers,
                yes,
            );
            store.remove(user_id);
            let out = match generated {
                Generated::Password(s) => s,
                Generated::NoClasses => String::from_str(
                    "Please at least choose one of the character types",
                ),
            };
            Reply { text: out, format: Format::Code, keyboard: KeyboardHint::Clear }
        },
    }
}

} // verus!
