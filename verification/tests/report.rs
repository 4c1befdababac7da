use mattercrypt::report::{lay_out, wrap_ciphertext, Confirmation};

#[test]
fn ciphertext_is_wrapped_in_decrypt_instructions() {
    assert_eq!(wrap_ciphertext("CIPHER"), "```\necho \"\nCIPHER\" | gpg --decrypt\n```");
    assert_eq!(wrap_ciphertext(""), "```\necho \"\n\" | gpg --decrypt\n```");
}

#[test]
fn confirmation_is_laid_out_in_five_lines() {
    assert_eq!(
        lay_out("ok", "alice@example.com", "bob@example.com", "ABCDEF", "post"),
        "ok Successfully sent message\nFROM:\talice@example.com\nTO:\tbob@example.com\nFINGERPRINT: ABCDEF\nMESSAGE:\npost\n"
    );
}

fn confirmation() -> Confirmation {
    Confirmation {
        sender: "alice@example.com".to_string(),
        recipient: "bob@example.com".to_string(),
        fingerprint: "ABCDEF".to_string(),
        message: "post".to_string(),
    }
}

#[test]
fn confirmation_is_coloured_or_plain() {
    colored::control::set_override(true);
    assert_eq!(
        confirmation().render(),
        "\x1B[32m\u{2713}\x1B[0m Successfully sent message\nFROM:\t\x1B[35malice@example.com\x1B[0m\nTO:\t\x1B[36mbob@example.com\x1B[0m\nFINGERPRINT: \x1B[36mABCDEF\x1B[0m\nMESSAGE:\npost\n"
    );
    colored::control::set_override(false);
    assert_eq!(
        confirmation().render(),
        "\u{2713} Successfully sent message\nFROM:\talice@example.com\nTO:\tbob@example.com\nFINGERPRINT: ABCDEF\nMESSAGE:\npost\n"
    );
    colored::control::unset_override();
}
