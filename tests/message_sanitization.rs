use dapnet_api::{
    sanitize_message, MessageSanitizationNonAsciiPolicy, MessageSanitizationOptions,
    MessageSanitizationOptionsBuilder,
};

#[test]
fn options_builder_default_matches_options_default() {
    let a = MessageSanitizationOptionsBuilder::default().build().unwrap();
    let b = MessageSanitizationOptions::default();
    assert_eq!(a, b);
}

#[test]
fn build_options() {
    let options = MessageSanitizationOptionsBuilder::default()
        .ellipses("~~~".to_string())
        .max_length(50)
        .build()
        .unwrap();

    assert_eq!(
        options,
        MessageSanitizationOptions {
            max_length: 50,
            ellipses: "~~~".to_string(),
            non_ascii_policy: MessageSanitizationNonAsciiPolicy::ReplaceWith('?'),
        }
    );
}

#[test]
fn perfectly_valid_message_with_default_settings() {
    let msg = "This message is less than 80 chars, woo.".to_string();
    let sanitized = sanitize_message(msg.clone(), &MessageSanitizationOptions::default());
    assert_eq!(sanitized, msg);
}

#[test]
fn message_that_is_too_long() {
    let msg = "This message is too long, oh dear.".to_string();
    let sanitized = sanitize_message(
        msg,
        &MessageSanitizationOptions {
            max_length: 20,
            ellipses: "...".to_string(),
            non_ascii_policy: MessageSanitizationNonAsciiPolicy::DoNothing,
        },
    );
    assert_eq!(sanitized, "This message is t...");
    assert_eq!(sanitized.len(), 20);
}

#[test]
fn message_with_non_ascii_do_nothing() {
    let msg = "→ This message has non-ascii chars ❤, oh dear.".to_string();
    let sanitized = sanitize_message(
        msg.clone(),
        &MessageSanitizationOptions {
            max_length: 80,
            ellipses: "...".to_string(),
            non_ascii_policy: MessageSanitizationNonAsciiPolicy::DoNothing,
        },
    );
    assert_eq!(sanitized, msg);
}

#[test]
fn message_with_non_ascii_remove() {
    let msg = "→ This message has non-ascii chars ❤, oh dear.".to_string();
    let sanitized = sanitize_message(
        msg,
        &MessageSanitizationOptions {
            max_length: 80,
            ellipses: "...".to_string(),
            non_ascii_policy: MessageSanitizationNonAsciiPolicy::Remove,
        },
    );
    assert_eq!(sanitized, " This message has non-ascii chars , oh dear.");
}

#[test]
fn message_with_non_ascii_replace_with() {
    let msg = "→ This message has non-ascii chars ❤, oh dear.".to_string();
    let sanitized = sanitize_message(
        msg,
        &MessageSanitizationOptions {
            max_length: 80,
            ellipses: "...".to_string(),
            non_ascii_policy: MessageSanitizationNonAsciiPolicy::ReplaceWith('_'),
        },
    );
    assert_eq!(sanitized, "_ This message has non-ascii chars _, oh dear.");
}

#[test]
fn non_ascii_removal_and_message_truncation_interoperate_correctly() {
    let msg = "❤❤❤❤❤123456789".to_string();
    let sanitized = sanitize_message(
        msg,
        &MessageSanitizationOptions {
            max_length: 8,
            ellipses: "...".to_string(),
            non_ascii_policy: MessageSanitizationNonAsciiPolicy::Remove,
        },
    );
    assert_eq!(sanitized, "12345...");
}

fn options(max_length: usize, policy: MessageSanitizationNonAsciiPolicy) -> MessageSanitizationOptions {
    MessageSanitizationOptions {
        max_length,
        ellipses: "...".to_string(),
        non_ascii_policy: policy,
    }
}

#[test]
fn output_never_longer_than_max_length_for_each_policy() {
    let msg = "ab❤cd→efghijklmnop❤qrstuvwxyz".to_string();
    for policy in [
        MessageSanitizationNonAsciiPolicy::DoNothing,
        MessageSanitizationNonAsciiPolicy::Remove,
        MessageSanitizationNonAsciiPolicy::ReplaceWith('?'),
    ] {
        for max_length in 3..40 {
            let out = sanitize_message(msg.clone(), &options(max_length, policy));
            assert!(out.chars().count() <= max_length);
        }
    }
}

#[test]
fn default_policy_replaces_with_question_mark() {
    let out = sanitize_message("a❤b".to_string(), &MessageSanitizationOptions::default());
    assert_eq!(out, "a?b");
}

#[test]
fn remove_policy_leaves_only_ascii() {
    let out = sanitize_message(
        "→Grüße aus Köln ❤".to_string(),
        &options(80, MessageSanitizationNonAsciiPolicy::Remove),
    );
    assert!(out.is_ascii());
    assert_eq!(out, "Gre aus Kln ");
}

#[test]
fn replace_policy_keeps_positions() {
    let out = sanitize_message(
        "ä1ö2".to_string(),
        &options(80, MessageSanitizationNonAsciiPolicy::ReplaceWith('#')),
    );
    assert_eq!(out, "#1#2");
}

#[test]
fn message_of_exactly_max_length_is_kept() {
    let out = sanitize_message(
        "12345678".to_string(),
        &options(8, MessageSanitizationNonAsciiPolicy::DoNothing),
    );
    assert_eq!(out, "12345678");
}

#[test]
fn max_length_below_ellipsis_length_keeps_only_ellipsis() {
    let out = sanitize_message(
        "123456".to_string(),
        &options(2, MessageSanitizationNonAsciiPolicy::DoNothing),
    );
    assert_eq!(out, "...");
}

#[test]
fn empty_message_stays_empty() {
    let out = sanitize_message(String::new(), &MessageSanitizationOptions::default());
    assert_eq!(out, "");
}

#[test]
fn truncation_counts_characters_not_bytes() {
    let out = sanitize_message(
        "ääääääää".to_string(),
        &options(5, MessageSanitizationNonAsciiPolicy::DoNothing),
    );
    assert_eq!(out, "ää...");
}

#[test]
fn builder_sets_policy() {
    let options = MessageSanitizationOptionsBuilder::default()
        .non_ascii_policy(MessageSanitizationNonAsciiPolicy::Remove)
        .build()
        .unwrap();
    assert_eq!(options.max_length, 80);
    assert_eq!(options.ellipses, "...");
    assert_eq!(options.non_ascii_policy, MessageSanitizationNonAsciiPolicy::Remove);
}
