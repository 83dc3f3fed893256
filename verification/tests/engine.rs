use password_bot::engine::{handle_message, Format, KeyboardHint};
use password_bot::session::{Phase, SessionStore};

const HELP: &str = "This bot helps you generate random passwords. I DO NOT STORE ANYTHING ON MY SERVER, you can read the source code. Also this bot uses crypto/rand to generate secure randoms for password.\nTo quickly generate password use /generate , it generates a 16 letter password with combination of letters and numbers\nIf you want to create a customizable password, use /password";

#[test]
fn full_conversation_yields_password_of_chosen_shape() {
    let mut st = SessionStore::new();

    let r = handle_message(&mut st, 7, Some("/password"), 100);
    assert_eq!(r.text, "Select the length of your password(1-255)");
    assert!(matches!(r.format, Format::Plain));
    assert!(matches!(r.keyboard, KeyboardHint::NoHint));

    let r = handle_message(&mut st, 7, Some("7"), 101);
    assert_eq!(
        r.text,
        "Do you want your password contain lowercase characters? (a,b,c...)"
    );
    assert!(matches!(r.keyboard, KeyboardHint::YesNo));

    let r = handle_message(&mut st, 7, Some("Yes"), 102);
    assert_eq!(
        r.text,
        "Do you want your password contain uppercase characters? (A,B,C...)"
    );

    let r = handle_message(&mut st, 7, Some("No"), 103);
    assert_eq!(
        r.text,
        "Do you want your password contain numbers characters? (1,2,3...)"
    );

    let r = handle_message(&mut st, 7, Some("Yes"), 104);
    assert_eq!(
        r.text,
        "Do you want your password contain special characters? (!,#,%...)"
    );

    let r = handle_message(&mut st, 7, Some("No"), 105);
    assert!(matches!(r.format, Format::Code));
    assert!(matches!(r.keyboard, KeyboardHint::Clear));
    let chars: Vec<char> = r.text.chars().collect();
    assert_eq!(chars.len(), 9, "seven characters plus the delimiters");
    assert_eq!(chars[0], '`');
    assert_eq!(chars[8], '`');
    for &c in chars[1..8].iter() {
        assert!(
            "qwertyuiopasdfghjklzxcvbnm1234567890".contains(c),
            "character {:?} outside lowercase+numbers",
            c
        );
    }
    assert!(st.get(7).is_none(), "finished session must be gone");
}

#[test]
fn zero_length_does_not_advance_or_mutate() {
    let mut st = SessionStore::new();
    handle_message(&mut st, 3, Some("/password"), 100);
    let before = st.get(3).unwrap();

    let r = handle_message(&mut st, 3, Some("0"), 101);
    assert_eq!(r.text, "Please do not enter 0!");
    assert!(matches!(r.keyboard, KeyboardHint::Clear));
    let after = st.get(3).unwrap();
    assert!(matches!(after.phase, Phase::AwaitingLength));
    assert_eq!(after, before, "session must be exactly as it was");

    let r = handle_message(&mut st, 3, Some("abc"), 102);
    assert_eq!(r.text, "invalid digit found in string");
    assert_eq!(st.get(3).unwrap(), before);

    let r = handle_message(&mut st, 3, Some("300"), 103);
    assert_eq!(r.text, "number too large to fit in target type");
    assert_eq!(st.get(3).unwrap(), before);

    let r = handle_message(&mut st, 3, Some(""), 104);
    assert_eq!(r.text, "cannot parse integer from empty string");
    assert_eq!(st.get(3).unwrap(), before);
}

#[test]
fn sessions_of_different_users_evolve_independently() {
    let mut st = SessionStore::new();
    handle_message(&mut st, 1, Some("/password"), 100);
    handle_message(&mut st, 2, Some("/password"), 200);

    handle_message(&mut st, 1, Some("7"), 101);
    handle_message(&mut st, 1, Some("Yes"), 102);

    let other = st.get(2).unwrap();
    assert!(matches!(other.phase, Phase::AwaitingLength));
    assert_eq!(other.length, 0);
    assert_eq!(other.expires_at, 500);

    handle_message(&mut st, 2, Some("9"), 201);
    let one = st.get(1).unwrap();
    assert!(matches!(one.phase, Phase::AwaitingUppercase));
    assert_eq!(one.length, 7);
    assert!(one.lowercase);
}

#[test]
fn all_classes_declined_ends_with_validation_message() {
    let mut st = SessionStore::new();
    handle_message(&mut st, 4, Some("/password"), 100);
    handle_message(&mut st, 4, Some("5"), 101);
    handle_message(&mut st, 4, Some("No"), 102);
    handle_message(&mut st, 4, Some("No"), 103);
    handle_message(&mut st, 4, Some("No"), 104);
    let r = handle_message(&mut st, 4, Some("No"), 105);
    assert_eq!(r.text, "Please at least choose one of the character types");
    assert!(matches!(r.format, Format::Code));
    assert!(st.get(4).is_none(), "the flow still terminates");
}

#[test]
fn commands_answer_without_touching_sessions() {
    let mut st = SessionStore::new();

    let r = handle_message(&mut st, 9, Some("/start"), 100);
    assert_eq!(r.text, "Hello and welcome to password generator bot!\nTo quickly generate a password send run /generate\nTo customize your password use /password");
    assert!(matches!(r.keyboard, KeyboardHint::NoHint));

    let r = handle_message(&mut st, 9, Some("/help"), 100);
    assert_eq!(r.text, HELP);

    let r = handle_message(&mut st, 9, Some("/about"), 100);
    assert_eq!(r.text, "Password Generator Bot");

    let r = handle_message(&mut st, 9, Some("/generate"), 100);
    assert!(matches!(r.format, Format::Code));
    let chars: Vec<char> = r.text.chars().collect();
    assert_eq!(chars.len(), 18, "sixteen characters plus the delimiters");
    assert_eq!(chars[0], '`');
    assert_eq!(chars[17], '`');
    for &c in chars[1..17].iter() {
        assert!(
            "qwertyuiopasdfghjklzxcvbnmQWERTYUIOPASDFGHJKLZXCVBNM1234567890".contains(c),
            "quick password must use letters and numbers only, got {:?}",
            c
        );
    }
    assert!(st.get(9).is_none(), "no command above creates a session");
}

#[test]
fn free_text_without_session_gets_help() {
    let mut st = SessionStore::new();
    let r = handle_message(&mut st, 11, Some("hello there"), 100);
    assert_eq!(r.text, HELP);
    assert!(matches!(r.keyboard, KeyboardHint::Clear));

    let r = handle_message(&mut st, 11, None, 100);
    assert_eq!(r.text, HELP);
    assert!(matches!(r.keyboard, KeyboardHint::NoHint));
}
