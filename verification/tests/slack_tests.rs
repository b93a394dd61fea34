use relay_backend::slack::formatter::{resolve_slack_text, resolved_payload_json};
use relay_backend::slack::message_manager::{
    ensure_message_owned_by_bot, managed_message, parse_slack_permalink, permalink_target_from_parts,
    updated_message_text, PermalinkError,
};
use relay_backend::slack::thread_context::{normalize_thread, SlackReplyMessage, SlackThreadFile};
use relay_backend::slack::web_api::{
    api_outcome, reaction_retry_name, remove_reaction_outcome, socket_url_outcome, SlackAuthIdentity,
    SlackFetchedMessage, SlackOpenConnectionResponse,
};

#[test]
fn parses_standard_slack_permalink() {
    let target = parse_slack_permalink("https://example.slack.com/archives/C12345678/p1736451111222233")
        .expect("target");

    assert_eq!(target.channel_id, "C12345678");
    assert_eq!(target.message_ts, "1736451111.222233");
    assert_eq!(target.thread_ts, None);
}

#[test]
fn parses_thread_reply_permalink() {
    let target = parse_slack_permalink(
        "https://example.slack.com/archives/C12345678/p1773055938193069?thread_ts=1773055935.359359&cid=C12345678",
    )
    .expect("target");

    assert_eq!(target.channel_id, "C12345678");
    assert_eq!(target.message_ts, "1773055938.193069");
    assert_eq!(target.thread_ts.as_deref(), Some("1773055935.359359"));
}

#[test]
fn rejects_non_message_permalink() {
    let error = parse_slack_permalink("https://example.slack.com/messages")
        .err()
        .expect("should reject invalid permalink");

    assert!(error.message().contains("message permalink"));
}

#[test]
fn rejects_blank_and_unparsable_permalinks() {
    assert_eq!(parse_slack_permalink("   ").err(), Some(PermalinkError::Missing));
    assert_eq!(
        parse_slack_permalink("not a url").err(),
        Some(PermalinkError::Invalid)
    );
    assert_eq!(
        PermalinkError::Missing.message(),
        "slack message link is required"
    );
}

#[test]
fn rejects_permalink_with_bad_message_part() {
    let error = parse_slack_permalink("https://example.slack.com/archives/C1/p12345")
        .err()
        .expect("short message id");
    assert_eq!(error, PermalinkError::BadTimestamp);
    assert_eq!(
        error.message(),
        "Slack link must include a valid message timestamp"
    );
    let error = parse_slack_permalink("https://example.slack.com/archives/C1/x1736451111222233")
        .err()
        .expect("wrong prefix");
    assert_eq!(error, PermalinkError::BadTimestamp);
}

#[test]
fn blank_thread_ts_query_is_ignored() {
    let target = parse_slack_permalink(
        "https://example.slack.com/archives/C1/p1736451111222233?thread_ts=%20&thread_ts=1.2",
    )
    .expect("target");
    assert_eq!(target.thread_ts, None);
}

#[test]
fn permalink_parts_decide_the_target() {
    let segments = Some(vec![
        "archives".to_string(),
        "C9".to_string(),
        "p0000000001000002".to_string(),
    ]);
    let query = vec![
        ("cid".to_string(), "C9".to_string()),
        ("thread_ts".to_string(), "5.6".to_string()),
    ];
    let target = permalink_target_from_parts(segments, &query).expect("target");
    assert_eq!(target.channel_id, "C9");
    assert_eq!(target.message_ts, "0000000001.000002");
    assert_eq!(target.thread_ts.as_deref(), Some("5.6"));
    assert_eq!(
        permalink_target_from_parts(None, &query).err(),
        Some(PermalinkError::Invalid)
    );
    assert_eq!(
        permalink_target_from_parts(Some(vec!["messages".to_string()]), &query).err(),
        Some(PermalinkError::NotAMessage)
    );
}

fn fetched(user: Option<&str>, bot_id: Option<&str>) -> SlackFetchedMessage {
    SlackFetchedMessage {
        ts: "1.2".to_string(),
        thread_ts: Some("1.0".to_string()),
        text: Some("Hi <@U1>".to_string()),
        user: user.map(str::to_string),
        bot_id: bot_id.map(str::to_string),
    }
}

#[test]
fn only_bot_messages_are_managed() {
    let identity = SlackAuthIdentity { user_id: "UBOT".to_string(), bot_id: Some("B1".to_string()) };
    assert!(ensure_message_owned_by_bot(&fetched(Some("UBOT"), None), &identity).is_ok());
    assert!(ensure_message_owned_by_bot(&fetched(Some("U2"), Some("B1")), &identity).is_ok());
    let refused = ensure_message_owned_by_bot(&fetched(Some("U2"), Some("B2")), &identity)
        .err()
        .expect("someone else's message");
    assert_eq!(
        refused.message(),
        "message was not posted by the bot configured via SLACK_BOT_TOKEN"
    );
    let no_bot = SlackAuthIdentity { user_id: "UBOT".to_string(), bot_id: None };
    assert!(ensure_message_owned_by_bot(&fetched(None, None), &no_bot).is_err());
}

#[test]
fn managed_message_resolves_text() {
    let m = managed_message("C1", &fetched(Some("UBOT"), None));
    assert_eq!(m.channel_id, "C1");
    assert_eq!(m.ts, "1.2");
    assert_eq!(m.thread_ts.as_deref(), Some("1.0"));
    assert_eq!(m.raw_text, "Hi <@U1>");
    assert_eq!(m.text, "Hi @U1");
    assert_eq!(m.author_user_id.as_deref(), Some("UBOT"));
    let mut empty = fetched(None, Some("B1"));
    empty.text = None;
    let m = managed_message("C1", &empty);
    assert_eq!(m.raw_text, "");
    assert_eq!(m.text, "");
}

#[test]
fn edited_text_is_trimmed_and_not_empty() {
    assert_eq!(updated_message_text("  hello \n").ok().as_deref(), Some("hello"));
    let error = updated_message_text(" \t ").err().expect("blank");
    assert_eq!(error.message(), "message text cannot be empty");
}

#[test]
fn normalizes_file_attachments_into_thread_context() {
    let thread = normalize_thread(
        "C123",
        "1000.01",
        vec![SlackReplyMessage {
            ts: "1000.01".to_string(),
            user: Some("U123".to_string()),
            bot_id: None,
            text: Some("Here is the icon zip".to_string()),
            files: vec![SlackThreadFile {
                id: Some("F123".to_string()),
                name: Some("loadingicon.zip".to_string()),
                mimetype: Some("application/zip".to_string()),
                filetype: Some("zip".to_string()),
                url_private: None,
                url_private_download: Some(
                    "https://files.slack.com/files-pri/T1-F123/download/loadingicon.zip".to_string(),
                ),
            }],
        }],
    )
    .expect("thread should normalize");

    assert_eq!(thread.messages.len(), 1);
    assert_eq!(thread.messages[0].attachments.len(), 1);
    assert_eq!(thread.messages[0].attachments[0].name, "loadingicon.zip");
    assert_eq!(
        thread.messages[0].attachments[0].download_url.as_deref(),
        Some("https://files.slack.com/files-pri/T1-F123/download/loadingicon.zip")
    );
    assert_eq!(thread.messages[0].attachments[0].local_path, None);
}

#[test]
fn resolves_slack_mentions_for_display() {
    let resolved = resolve_slack_text("Hello <@U123> see <https://example.com|example>");
    assert!(resolved.contains("@U123"));
    assert!(resolved.contains("example (https://example.com)"));
}

#[test]
fn resolves_channels_groups_and_leaves_other_markup() {
    assert_eq!(
        resolve_slack_text("<#C42|general> <!subteam^S1|devs> <@lower>"),
        "#general @devs <@lower>"
    );
    assert_eq!(
        resolve_slack_text("<http://a.b|x> <ftp://a|y>"),
        "x (http://a.b) <ftp://a|y>"
    );
    assert_eq!(resolve_slack_text("plain"), "plain");
}

#[test]
fn resolved_payload_is_a_json_object() {
    assert_eq!(
        resolved_payload_json("say \"hi\" <@U1>"),
        "{\"text\":\"say \\\"hi\\\" @U1\"}"
    );
}

#[test]
fn web_api_answers_are_read() {
    assert_eq!(api_outcome(true, &None, "post message failed"), Ok(()));
    assert_eq!(
        api_outcome(false, &None, "post message failed"),
        Err("post message failed".to_string())
    );
    assert_eq!(
        api_outcome(false, &Some("channel_not_found".to_string()), "x"),
        Err("channel_not_found".to_string())
    );
    let ok = SlackOpenConnectionResponse { ok: true, url: Some("wss://x".to_string()), error: None };
    assert_eq!(socket_url_outcome(&ok), Ok("wss://x".to_string()));
    let missing = SlackOpenConnectionResponse { ok: true, url: None, error: None };
    assert_eq!(socket_url_outcome(&missing), Err("missing socket mode URL".to_string()));
    let failed = SlackOpenConnectionResponse { ok: false, url: None, error: None };
    assert_eq!(socket_url_outcome(&failed), Err("socket mode failed".to_string()));
}

#[test]
fn white_tick_falls_back_to_check_mark() {
    assert_eq!(
        reaction_retry_name("white-tick", "invalid_name").as_deref(),
        Some("white_check_mark")
    );
    assert_eq!(reaction_retry_name("white-tick", "rate_limited"), None);
    assert_eq!(reaction_retry_name("x", "invalid_name"), None);
}

#[test]
fn removing_a_missing_reaction_is_fine() {
    assert_eq!(remove_reaction_outcome(false, &Some("no_reaction".to_string())), Ok(()));
    assert_eq!(
        remove_reaction_outcome(false, &None),
        Err("reaction remove failed".to_string())
    );
    assert_eq!(remove_reaction_outcome(true, &None), Ok(()));
}

#[test]
fn payload_text_is_escaped_as_json() {
    assert_eq!(
        resolved_payload_json("a\"\\\u{1}\t\u{1f}\u{7f}é"),
        "{\"text\":\"a\\\"\\\\\\u0001\\t\\u001f\u{7f}é\"}"
    );
}
