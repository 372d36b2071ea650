use fnichol_cime::reply::reply;

#[test]
fn quiet_invocation_prints_greeting_only() {
    let r = reply("jane", 0);
    assert_eq!(r.stdout, "Hello, jane!\n");
    assert!(!r.diagnostic);
}

#[test]
fn verbose_invocation_adds_diagnostic() {
    let r = reply("jane", 1);
    assert_eq!(r.stdout, "Hello, jane!\n");
    assert!(r.diagnostic);
}

#[test]
fn highest_verbosity_adds_diagnostic() {
    let r = reply("jane", 3);
    assert!(r.diagnostic);
    assert_eq!(r.stdout, "Hello, jane!\n");
}

#[test]
fn empty_subject_reply() {
    let r = reply("", 0);
    assert_eq!(r.stdout, "Hello, !\n");
    assert!(!r.diagnostic);
}

#[test]
fn reply_keeps_newline_in_subject() {
    let r = reply("A\nB", 2);
    assert_eq!(r.stdout, "Hello, A\nB!\n");
    assert!(r.diagnostic);
}
