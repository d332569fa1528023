use message_cache::buffer::{MessageBuffer, CAPACITY};
use message_cache::cache::Cache;
use message_cache::message::{
    CachedMessage, Message, MessageContent, MessageDelete, MessageUpdate,
};
use twilight_model::channel::embed::Embed;

fn embed(title: &str) -> Embed {
    Embed {
        author: None,
        color: None,
        description: None,
        fields: Vec::new(),
        footer: None,
        image: None,
        kind: "rich".to_string(),
        provider: None,
        thumbnail: None,
        timestamp: None,
        title: Some(title.to_string()),
        url: None,
        video: None,
    }
}

fn message(channel_id: u64, id: u64, text: &str) -> Message {
    Message {
        channel_id,
        id,
        content: text.to_string(),
        embeds: Vec::new(),
        attachment_count: 0,
        component_count: 0,
    }
}

fn edit(channel_id: u64, id: u64) -> MessageUpdate {
    MessageUpdate {
        channel_id,
        id,
        content: None,
        embeds: None,
        attachment_count: None,
    }
}

fn ids(cache: &Cache, channel_id: u64) -> Vec<u64> {
    cache
        .messages(channel_id)
        .unwrap()
        .iter()
        .map(|m| m.id)
        .collect()
}

fn entry(cache: &Cache, channel_id: u64, id: u64) -> CachedMessage {
    cache
        .messages(channel_id)
        .unwrap()
        .into_iter()
        .find(|m| m.id == id)
        .unwrap()
}

fn text_of(m: &CachedMessage) -> Option<String> {
    match &m.content {
        MessageContent::Valid { content, .. } => Some(content.clone()),
        MessageContent::AttachmentsOrComponents => None,
    }
}

fn embeds_of(m: &CachedMessage) -> Option<Vec<Embed>> {
    match &m.content {
        MessageContent::Valid { embeds, .. } => Some(embeds.clone()),
        MessageContent::AttachmentsOrComponents => None,
    }
}

fn is_unmergeable(m: &CachedMessage) -> bool {
    matches!(m.content, MessageContent::AttachmentsOrComponents)
}

#[test]
fn new_cache_has_no_channels() {
    let cache = Cache::new();
    assert!(cache.messages(1).is_none());
}

#[test]
fn first_message_creates_the_channel_buffer() {
    let mut cache = Cache::new();
    cache.add_message(message(3, 10, "hello"));
    assert_eq!(ids(&cache, 3), vec![10]);
    assert_eq!(text_of(&entry(&cache, 3, 10)), Some("hello".to_string()));
}

#[test]
fn buffer_never_exceeds_capacity() {
    let mut cache = Cache::new();
    for id in 1..=50u64 {
        cache.add_message(message(1, id, "m"));
        assert!(cache.messages(1).unwrap().len() <= CAPACITY);
    }
    assert_eq!(cache.messages(1).unwrap().len(), 20);
}

#[test]
fn inserts_keep_insertion_order() {
    let mut cache = Cache::new();
    for id in [9u64, 4, 17, 2, 30] {
        cache.add_message(message(1, id, "m"));
    }
    assert_eq!(ids(&cache, 1), vec![9, 4, 17, 2, 30]);
}

#[test]
fn twenty_inserts_fill_without_eviction() {
    let mut cache = Cache::new();
    for id in 1..=20u64 {
        cache.add_message(message(1, id, "m"));
    }
    assert_eq!(ids(&cache, 1), (1..=20u64).collect::<Vec<_>>());
}

#[test]
fn full_buffer_evicts_oldest() {
    let mut cache = Cache::new();
    for id in 1..=20u64 {
        cache.add_message(message(1, id, "m"));
    }
    cache.add_message(message(1, 100, "new"));
    let mut expected: Vec<u64> = (2..=20u64).collect();
    expected.push(100);
    assert_eq!(ids(&cache, 1), expected);
}

#[test]
fn twenty_one_inserts_drop_the_first() {
    let mut cache = Cache::new();
    for id in 1..=21u64 {
        cache.add_message(message(7, id, &format!("text {}", id)));
    }
    assert_eq!(ids(&cache, 7), (2..=21u64).collect::<Vec<_>>());
    assert!(!ids(&cache, 7).contains(&1));
    assert_eq!(text_of(&entry(&cache, 7, 21)), Some("text 21".to_string()));
}

#[test]
fn message_with_attachments_is_unmergeable() {
    let mut cache = Cache::new();
    let mut m = message(1, 1, "file");
    m.attachment_count = 1;
    cache.add_message(m);
    assert!(is_unmergeable(&entry(&cache, 1, 1)));
}

#[test]
fn message_with_components_is_unmergeable() {
    let mut cache = Cache::new();
    let mut m = message(1, 2, "buttons");
    m.component_count = 2;
    cache.add_message(m);
    assert!(is_unmergeable(&entry(&cache, 1, 2)));
}

#[test]
fn new_message_keeps_its_embeds() {
    let mut cache = Cache::new();
    let mut m = message(1, 3, "with embed");
    m.embeds = vec![embed("a")];
    cache.add_message(m);
    assert_eq!(embeds_of(&entry(&cache, 1, 3)), Some(vec![embed("a")]));
}

#[test]
fn update_replaces_text() {
    let mut cache = Cache::new();
    cache.add_message(message(1, 5, "hi"));
    let mut u = edit(1, 5);
    u.content = Some("hi there".to_string());
    cache.update_message(u);
    assert_eq!(text_of(&entry(&cache, 1, 5)), Some("hi there".to_string()));
}

#[test]
fn embeds_only_update_keeps_text() {
    let mut cache = Cache::new();
    let mut m = message(1, 5, "a");
    m.embeds = vec![embed("old")];
    cache.add_message(m);
    let mut u = edit(1, 5);
    u.embeds = Some(vec![embed("new"), embed("newer")]);
    cache.update_message(u);
    let e = entry(&cache, 1, 5);
    assert_eq!(text_of(&e), Some("a".to_string()));
    assert_eq!(embeds_of(&e), Some(vec![embed("new"), embed("newer")]));
}

#[test]
fn text_only_update_keeps_embeds() {
    let mut cache = Cache::new();
    let mut m = message(1, 5, "a");
    m.embeds = vec![embed("kept")];
    cache.add_message(m);
    let mut u = edit(1, 5);
    u.content = Some("b".to_string());
    cache.update_message(u);
    let e = entry(&cache, 1, 5);
    assert_eq!(text_of(&e), Some("b".to_string()));
    assert_eq!(embeds_of(&e), Some(vec![embed("kept")]));
}

#[test]
fn attachment_update_is_irreversible() {
    let mut cache = Cache::new();
    cache.add_message(message(1, 7, "x"));
    let mut u = edit(1, 7);
    u.attachment_count = Some(1);
    u.content = Some("ignored".to_string());
    cache.update_message(u);
    assert!(is_unmergeable(&entry(&cache, 1, 7)));
    let mut later = edit(1, 7);
    later.content = Some("y".to_string());
    later.embeds = Some(vec![embed("e")]);
    cache.update_message(later);
    assert!(is_unmergeable(&entry(&cache, 1, 7)));
}

#[test]
fn empty_attachment_list_does_not_block_merge() {
    let mut cache = Cache::new();
    cache.add_message(message(1, 8, "x"));
    let mut u = edit(1, 8);
    u.attachment_count = Some(0);
    u.content = Some("z".to_string());
    cache.update_message(u);
    assert_eq!(text_of(&entry(&cache, 1, 8)), Some("z".to_string()));
}

#[test]
fn update_of_unknown_message_changes_nothing() {
    let mut cache = Cache::new();
    cache.add_message(message(1, 1, "one"));
    let mut u = edit(1, 2);
    u.content = Some("two".to_string());
    cache.update_message(u);
    assert_eq!(ids(&cache, 1), vec![1]);
    assert_eq!(text_of(&entry(&cache, 1, 1)), Some("one".to_string()));
}

#[test]
fn update_of_unknown_channel_creates_nothing() {
    let mut cache = Cache::new();
    let mut u = edit(4, 1);
    u.content = Some("x".to_string());
    cache.update_message(u);
    assert!(cache.messages(4).is_none());
}

#[test]
fn delete_removes_only_that_message() {
    let mut cache = Cache::new();
    for id in [1u64, 2, 3, 4] {
        cache.add_message(message(1, id, "m"));
    }
    cache.delete_message(MessageDelete { channel_id: 1, id: 3 });
    assert_eq!(ids(&cache, 1), vec![1, 2, 4]);
}

#[test]
fn delete_of_absent_id_changes_nothing() {
    let mut cache = Cache::new();
    for id in [1u64, 2, 3] {
        cache.add_message(message(1, id, &format!("m{}", id)));
    }
    cache.delete_message(MessageDelete { channel_id: 1, id: 99 });
    assert_eq!(ids(&cache, 1), vec![1, 2, 3]);
    assert_eq!(text_of(&entry(&cache, 1, 2)), Some("m2".to_string()));
}

#[test]
fn delete_of_unknown_channel_creates_nothing() {
    let mut cache = Cache::new();
    cache.delete_message(MessageDelete { channel_id: 5, id: 1 });
    assert!(cache.messages(5).is_none());
}

#[test]
fn channels_are_isolated() {
    let mut cache = Cache::new();
    cache.add_message(message(1, 10, "x1"));
    cache.add_message(message(2, 10, "y1"));
    let mut u = edit(1, 10);
    u.content = Some("x2".to_string());
    cache.update_message(u);
    cache.add_message(message(1, 11, "x3"));
    cache.delete_message(MessageDelete { channel_id: 1, id: 10 });
    assert_eq!(ids(&cache, 2), vec![10]);
    assert_eq!(text_of(&entry(&cache, 2, 10)), Some("y1".to_string()));
    assert_eq!(ids(&cache, 1), vec![11]);
}

#[test]
fn buffer_push_update_remove() {
    let mut b = MessageBuffer::new();
    assert_eq!(b.len(), 0);
    b.push(CachedMessage::from_message(message(1, 1, "a")));
    b.push(CachedMessage::from_message(message(1, 2, "b")));
    let mut u = edit(1, 2);
    u.content = Some("c".to_string());
    assert!(b.update(u));
    assert!(!b.update(edit(1, 3)));
    let snap = b.snapshot();
    assert_eq!(text_of(&snap[1]), Some("c".to_string()));
    assert!(b.remove(1));
    assert!(!b.remove(1));
    assert_eq!(b.len(), 1);
    assert_eq!(b.snapshot()[0].id, 2);
}

#[test]
fn merge_keeps_the_id() {
    let m = CachedMessage::from_message(message(1, 42, "a"));
    let mut u = edit(1, 42);
    u.attachment_count = Some(3);
    let merged = m.merge(u);
    assert_eq!(merged.id, 42);
    assert!(is_unmergeable(&merged));
}

#[test]
fn duplicate_id_updates_only_the_first() {
    let mut cache = Cache::new();
    cache.add_message(message(1, 6, "first"));
    cache.add_message(message(1, 6, "second"));
    let mut u = edit(1, 6);
    u.content = Some("edited".to_string());
    cache.update_message(u);
    let all = cache.messages(1).unwrap();
    assert_eq!(text_of(&all[0]), Some("edited".to_string()));
    assert_eq!(text_of(&all[1]), Some("second".to_string()));
    cache.delete_message(MessageDelete { channel_id: 1, id: 6 });
    let all = cache.messages(1).unwrap();
    assert_eq!(all.len(), 1);
    assert_eq!(text_of(&all[0]), Some("second".to_string()));
}
