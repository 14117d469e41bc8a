use jolt::welcome::{
    display_greeting, display_sysinfo, display_welcome, greeting, prompts, rule, shown,
    PROMPT_COUNT, RULE_WIDTH, UNKNOWN,
};

#[test]
fn prompts_are_eighteen() {
    let all = prompts();
    assert_eq!(all.len(), PROMPT_COUNT);
    assert_eq!(all.len(), 18);
    assert_eq!(all[0], "The most Snarky zkVM. Watch out for the lasso.");
    assert_eq!(all[7], "Transforming network architectures since 2025.");
    assert_eq!(all[14], "Sumcheck Is All You Need");
    assert_eq!(all[17], "Jolt is not financial advice. Jolt is a zkVM.");
}

#[test]
fn greeting_is_five_lines() {
    assert_eq!(
        greeting("LOGO", "Buckle your seat belt."),
        vec![
            "\n\n\n\n",
            "LOGO",
            "\n\n\n\n",
            "\x1B[1mWelcome to Jolt.\x1B[0m",
            "\x1B[3mBuckle your seat belt.\x1B[0m",
        ]
    );
}

#[test]
fn drawn_greeting_ends_in_one_of_the_prompts() {
    for _ in 0..50 {
        let lines = display_greeting("LOGO");
        assert_eq!(lines.len(), 5);
        assert_eq!(lines[..4], greeting("LOGO", "")[..4]);
        assert!(prompts().iter().any(|p| lines[4] == format!("\x1B[3m{}\x1B[0m", p)));
    }
}

#[test]
fn unknown_stands_for_what_is_not_told() {
    assert_eq!(UNKNOWN, "UNKNOWN");
    assert_eq!(shown(None), "UNKNOWN");
    assert_eq!(shown(Some("Linux".to_string())), "Linux");
}

#[test]
fn sysinfo_is_five_captioned_lines() {
    assert_eq!(
        display_sysinfo(Some("Linux".to_string()), None, Some("box".to_string()), "8", "16.61"),
        vec![
            "OS:             Linux",
            "version:        UNKNOWN",
            "Host:           box",
            "CPUs:           8",
            "RAM:            16.61 GB",
        ]
    );
}

#[test]
fn rule_is_dashes() {
    assert_eq!(rule(0), "");
    assert_eq!(rule(3), "---");
    assert_eq!(rule(RULE_WIDTH), "-".repeat(80));
}

#[test]
fn welcome_is_greeting_rule_and_sysinfo() {
    let top = greeting("LOGO", "Read. Write. Jolt.");
    let bottom = display_sysinfo(None, None, None, "1", "0.50");
    let lines = display_welcome(top.clone(), bottom.clone());
    assert_eq!(lines.len(), 11);
    assert_eq!(lines[..5], top[..]);
    assert_eq!(lines[5], "-".repeat(80));
    assert_eq!(lines[6..], bottom[..]);
}
