use chat_export::AuthorMap;
use chat_export::Contact;
use chat_export::ExportChatResult;
use chat_export::Message;
use chat_export::author_ids;
use chat_export::error_to_html;
use chat_export::export_chat;
use chat_export::file_name;
use chat_export::message_to_html;
use chat_export::resolve_authors;

const SELF_ID: u32 = 1;

fn msg(from_id: u32, text: Option<&str>, filename: Option<&str>, padlock: bool) -> Message {
    Message {
        from_id,
        filename: filename.map(|s| s.to_owned()),
        text: text.map(|s| s.to_owned()),
        show_padlock: padlock,
        timestamp: 0,
    }
}

fn contact(name: &str, image_path: Option<&str>) -> Contact {
    Contact {
        display_name: name.to_owned(),
        profile_image_path: image_path.map(|s| s.to_owned()),
    }
}

fn count(haystack: &str, needle: &str) -> usize {
    haystack.matches(needle).count()
}

#[test]
fn file_name_takes_last_component() {
    assert_eq!(file_name("a/b/c.png"), "c.png");
    assert_eq!(file_name("noslash.png"), "noslash.png");
    assert_eq!(file_name("dir/"), "");
    assert_eq!(file_name(""), "");
    assert_eq!(file_name("/abs/path/img.jpg"), "img.jpg");
}

#[test]
fn author_ids_skips_failures_and_dedups_adjacent() {
    let loads = vec![
        Ok(msg(5, Some("a"), None, false)),
        Ok(msg(5, Some("b"), None, false)),
        Ok(msg(2, Some("c"), None, false)),
        Ok(msg(5, Some("d"), None, false)),
    ];
    // only adjacent duplicates are removed: 5 reappears after 2
    assert_eq!(author_ids(&loads), vec![5, 2, 5]);

    let with_failure: Vec<Result<Message, String>> = vec![
        Ok(msg(5, Some("a"), None, false)),
        Err("gone".to_owned()),
        Ok(msg(5, Some("b"), None, false)),
    ];
    // the failed load contributes no identifier, so the two 5s are adjacent
    assert_eq!(author_ids(&with_failure), vec![5]);
}

#[test]
fn sentinel_record_always_present() {
    let lookups: Vec<(u32, Option<Contact>)> = Vec::new();
    let (map, blobs) = resolve_authors(&lookups);
    let sentinel = map.get(0).expect("key 0 must be mapped");
    assert_eq!(sentinel.name, "Err: Contact not found");
    assert_eq!(sentinel.initial, "#");
    assert_eq!(sentinel.color, "grey");
    assert!(sentinel.profile_img.is_none());
    assert!(blobs.is_empty());
}

#[test]
fn resolve_collects_avatar_blobs_and_skips_failed_lookups() {
    let lookups = vec![
        (7, Some(contact("Bob", Some("/home/u/avatars/bob.png")))),
        (8, None),
        (9, Some(contact("Eve", None))),
    ];
    let (map, blobs) = resolve_authors(&lookups);
    assert_eq!(blobs, vec!["bob.png".to_owned()]);
    let bob = map.get(7).expect("found contact must be mapped");
    assert_eq!(bob.name, "Bob");
    assert_eq!(bob.profile_img.as_deref(), Some("bob.png"));
    assert_eq!(bob.color, "rgb(18, 126, 208)");
    assert_eq!(bob.initial, "#");
    assert!(map.get(8).is_none());
    let eve = map.get(9).expect("found contact must be mapped");
    assert!(eve.profile_img.is_none());
}

#[test]
fn later_lookup_shadows_earlier_record() {
    let lookups = vec![
        (7, Some(contact("First", None))),
        (7, Some(contact("Second", None))),
    ];
    let (map, _) = resolve_authors(&lookups);
    assert_eq!(map.get(7).unwrap().name, "Second");
}

#[test]
fn empty_avatar_file_name_is_listed_but_not_rendered() {
    let lookups = vec![(7, Some(contact("Bob", Some("trailing/"))))];
    let (map, blobs) = resolve_authors(&lookups);
    // the empty file name is still appended to the blob list
    assert_eq!(blobs, vec!["".to_owned()]);
    // but the record carries no avatar, so the placeholder renders
    assert!(map.get(7).unwrap().profile_img.is_none());
    let loads = vec![Ok(msg(7, Some("hi"), None, false))];
    let result = export_chat(&loads, &lookups, SELF_ID);
    assert!(!result.html.contains("<img"));
}

#[test]
fn one_list_item_per_load_result() {
    let loads = vec![
        Ok(msg(SELF_ID, Some("one"), None, false)),
        Err("lost".to_owned()),
        Ok(msg(3, Some("three"), None, false)),
    ];
    let ids = author_ids(&loads);
    assert_eq!(ids, vec![SELF_ID, 3]);
    let lookups: Vec<(u32, Option<Contact>)> = ids.into_iter().map(|id| (id, None)).collect();
    let result = export_chat(&loads, &lookups, SELF_ID);
    assert_eq!(count(&result.html, "<li class=\"message"), 3);
    assert_eq!(count(&result.html, "</li>"), 3);
    assert!(result.html.starts_with("<ul>"));
    assert!(result.html.ends_with("</ul>"));
}

#[test]
fn two_messages_self_and_alice() {
    // chat: (author=SELF, "hi", encrypted) then (author=42, "hello", plain);
    // contact 42 is "Alice" without a profile image
    let loads = vec![
        Ok(msg(SELF_ID, Some("hi"), None, true)),
        Ok(msg(42, Some("hello"), None, false)),
    ];
    let ids = author_ids(&loads);
    assert_eq!(ids, vec![SELF_ID, 42]);
    let lookups = vec![(SELF_ID, None), (42, Some(contact("Alice", None)))];
    let result = export_chat(&loads, &lookups, SELF_ID);
    let html = &result.html;

    assert_eq!(count(html, "<li class=\"message"), 2);
    let first = html.find("<li class=\"message outgoing\">").expect("outgoing item");
    let second = html.find("<li class=\"message incoming\">").expect("incoming item");
    assert!(first < second);

    // the padlock marker belongs to the first (encrypted) message only
    let padlock = "<div aria-label=\"Encryption padlock\" class=\"padlock-icon\"></div>";
    assert_eq!(count(html, padlock), 1);
    let padlock_at = html.find(padlock).unwrap();
    assert!(first < padlock_at && padlock_at < second);

    // Alice renders by name with the placeholder-initial avatar, no image
    assert!(html.contains(";\">Alice</span>"));
    assert!(html.contains("<div class=\"author-avatar default\" alt=\"Alice\">"));
    assert!(!html.contains("<img"));

    // the fixed placeholder time strings
    assert_eq!(count(html, "title=\"Tue, Feb 25, 2020 3:49 PM\">Tue 3:49 PM</span>"), 2);
    assert!(html.contains("date date--outgoing"));
    assert!(html.contains("date date--incoming"));

    assert!(result.referenced_blobs.is_empty());
}

#[test]
fn failed_load_renders_error_item() {
    let loads: Vec<Result<Message, String>> = vec![Err("record 17 unreadable".to_owned())];
    // a failed load contributes nothing to the author list
    assert!(author_ids(&loads).is_empty());
    let lookups: Vec<(u32, Option<Contact>)> = Vec::new();
    let result = export_chat(&loads, &lookups, SELF_ID);
    assert!(result.html.contains("<li class=\"message error\">"));
    assert!(result.html.contains("record 17 unreadable"));
    assert_eq!(count(&result.html, "<li class=\"message"), 1);
}

#[test]
fn error_fragment_embeds_description() {
    let fragment = error_to_html("boom");
    assert!(fragment.starts_with("<li class=\"message error\">"));
    assert!(fragment.ends_with("</li>"));
    assert!(fragment.contains("<div dir=\"auto\" class=\"text\">boom</div>"));
}

#[test]
fn unknown_author_renders_with_sentinel() {
    let loads = vec![Ok(msg(99, Some("who?"), None, false))];
    // the lookup for author 99 failed, so the mapping has no record for it
    let lookups = vec![(99, None)];
    let result = export_chat(&loads, &lookups, SELF_ID);
    assert!(result.html.contains(";\">Err: Contact not found</span>"));
    assert!(result.html.contains("style=\"color: grey;\""));
}

#[test]
fn avatar_blob_is_referenced_in_html() {
    let loads = vec![Ok(msg(7, Some("hi"), None, false))];
    let lookups = vec![(7, Some(contact("Bob", Some("/data/avatars/bob.png"))))];
    let result = export_chat(&loads, &lookups, SELF_ID);
    assert_eq!(result.referenced_blobs, vec!["bob.png".to_owned()]);
    assert!(result.html.contains("src=\"blobs/bob.png\""));
    assert!(result.html.contains("alt=\"Bob\""));
}

#[test]
fn blob_list_attachments_first_then_avatars_not_deduplicated() {
    let loads = vec![
        Ok(msg(7, Some("a"), Some("photo.jpg"), false)),
        Ok(msg(8, Some("b"), Some("photo.jpg"), false)),
        Err("lost".to_owned()),
        Ok(msg(7, None, Some("song.ogg"), false)),
    ];
    let ids = author_ids(&loads);
    assert_eq!(ids, vec![7, 8, 7]);
    let lookups = vec![
        (7, Some(contact("Bob", Some("ava/bob.png")))),
        (8, None),
        (7, Some(contact("Bob", Some("ava/bob.png")))),
    ];
    let result = export_chat(&loads, &lookups, SELF_ID);
    // attachments in message order first, then avatars in lookup order
    assert_eq!(
        result.referenced_blobs,
        vec![
            "photo.jpg".to_owned(),
            "photo.jpg".to_owned(),
            "song.ogg".to_owned(),
            "bob.png".to_owned(),
            "bob.png".to_owned(),
        ]
    );
}

#[test]
fn export_is_deterministic() {
    let loads = vec![
        Ok(msg(SELF_ID, Some("hi"), Some("a.bin"), true)),
        Err("lost".to_owned()),
        Ok(msg(42, Some("hello"), None, false)),
    ];
    let lookups = vec![
        (SELF_ID, None),
        (42, Some(contact("Alice", Some("imgs/alice.png")))),
    ];
    let first: ExportChatResult = export_chat(&loads, &lookups, SELF_ID);
    let second: ExportChatResult = export_chat(&loads, &lookups, SELF_ID);
    assert_eq!(first.html, second.html);
    assert_eq!(first.referenced_blobs, second.referenced_blobs);
}

#[test]
fn renderer_is_a_pure_function_of_map_and_message() {
    let lookups = vec![(42, Some(contact("Alice", None)))];
    let (map, _) = resolve_authors(&lookups);
    let message = msg(42, Some("hello"), None, false);
    let once = message_to_html(&map, &message, SELF_ID);
    let twice = message_to_html(&map, &message, SELF_ID);
    assert_eq!(once, twice);
    assert!(once.starts_with("<li class=\"message incoming\">"));
    let own = msg(SELF_ID, None, None, false);
    let own_html = message_to_html(&map, &own, SELF_ID);
    assert!(own_html.starts_with("<li class=\"message outgoing\">"));
    // a message without text renders an empty text body
    assert!(own_html.contains("<div dir=\"auto\" class=\"text\"></div>"));
}

#[test]
fn empty_chat_exports_empty_list() {
    let loads: Vec<Result<Message, String>> = Vec::new();
    let lookups: Vec<(u32, Option<Contact>)> = Vec::new();
    let result = export_chat(&loads, &lookups, SELF_ID);
    assert_eq!(result.html, "<ul></ul>");
    assert!(result.referenced_blobs.is_empty());
}

#[test]
fn new_author_map_has_no_records() {
    let map = AuthorMap::new();
    assert!(map.get(0).is_none());
    assert!(map.get(42).is_none());
}
