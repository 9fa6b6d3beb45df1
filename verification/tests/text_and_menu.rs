use mainnet_client::account_info::{classify_info_error, InfoQueryProblem};
use mainnet_client::menu::{option_for, read_choice, MenuOption};
use mainnet_client::text::{text_contains, trim_text};

#[test]
fn contains_finds_pattern_anywhere() {
    assert!(text_contains("grpc: Status { code: Transient }", "Transient"));
    assert!(text_contains("Transient", "Transient"));
    assert!(text_contains("xTransient", "Transient"));
    assert!(!text_contains("transient", "Transient"));
    assert!(!text_contains("Trans", "Transient"));
    assert!(text_contains("anything", ""));
    assert!(text_contains("", ""));
    assert!(!text_contains("", "a"));
}

#[test]
fn contains_handles_multibyte_text() {
    assert!(text_contains("ℏ 52 ℏ", "52"));
    assert!(text_contains("ÄÖÜ", "ÖÜ"));
    assert!(!text_contains("ÄÖÜ", "ÜÖ"));
}

#[test]
fn trim_removes_outer_white_space_only() {
    assert_eq!(trim_text("  3\n"), "3");
    assert_eq!(trim_text("\t0.0.1234 \r\n"), "0.0.1234");
    assert_eq!(trim_text("a b"), "a b");
    assert_eq!(trim_text("   "), "");
    assert_eq!(trim_text(""), "");
    assert_eq!(trim_text("\u{3000}x\u{2028}"), "x");
    assert_eq!(trim_text("\u{a0}y\u{85}"), "y");
}

#[test]
fn trim_agrees_with_std_trim() {
    let samples = [" 1 ", "\n\n2", "x\u{2003}", "\u{200b}z", " \u{1680} q \u{205f}", "mid dle"];
    for s in samples.iter() {
        assert_eq!(trim_text(s), s.trim());
    }
}

#[test]
fn menu_digits_select_operations() {
    assert_eq!(option_for("1"), MenuOption::FetchAccountInfo);
    assert_eq!(option_for("2"), MenuOption::CreateAccount);
    assert_eq!(option_for("3"), MenuOption::SendHbars);
    assert_eq!(option_for("4"), MenuOption::TransferTokens);
    assert_eq!(option_for("5"), MenuOption::DeploySmartContract);
    assert_eq!(option_for("6"), MenuOption::Invalid);
    assert_eq!(option_for("12"), MenuOption::Invalid);
    assert_eq!(option_for(""), MenuOption::Invalid);
}

#[test]
fn menu_line_is_read_trimmed() {
    assert_eq!(read_choice("1\n"), MenuOption::FetchAccountInfo);
    assert_eq!(read_choice("  5  \r\n"), MenuOption::DeploySmartContract);
    assert_eq!(read_choice("4 4\n"), MenuOption::Invalid);
    assert_eq!(read_choice("\n"), MenuOption::Invalid);
}

#[test]
fn info_errors_are_classified() {
    assert_eq!(
        classify_info_error("transaction failed pre-check with status `INSUFFICIENT_PAYER_BALANCE`"),
        InfoQueryProblem::InsufficientPayerBalance
    );
    assert_eq!(
        classify_info_error("Transient INSUFFICIENT_PAYER_BALANCE"),
        InfoQueryProblem::InsufficientPayerBalance
    );
    assert_eq!(classify_info_error("grpc: Transient error"), InfoQueryProblem::Transient);
    assert_eq!(classify_info_error("failed to parse: bad"), InfoQueryProblem::Other);
}
