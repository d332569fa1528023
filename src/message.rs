//! Cached message entries and the events that create, edit and delete them.

use vstd::prelude::*;

use twilight_model::channel::embed::Embed;

verus! {

/// What the cache knows of a message's body.
pub enum MessageContent {
    /// The body is known and later edits are merged into it.
    Valid { content: String, embeds: Vec<Embed> },
    /// The message carries attachments or components; its body is no longer tracked.
    AttachmentsOrComponents,
}

/// One cached message.
pub struct CachedMessage {
    pub id: u64,
    pub content: MessageContent,
}

/// The mathematical value of a [`MessageContent`].
pub enum ContentView {
    Valid { text: Seq<char>, embeds: Seq<Embed> },
    AttachmentsOrComponents,
}

/// The mathematical value of a [`CachedMessage`].
pub struct CachedMessageView {
    pub id: u64,
    pub content: ContentView,
}

impl View for MessageContent {
    type V = ContentView;

    open spec fn view(&self) -> ContentView {
        match self {
            MessageContent::Valid { content, embeds } => ContentView::Valid {
                text: content@,
                embeds: embeds@,
            },
            MessageContent::AttachmentsOrComponents => ContentView::AttachmentsOrComponents,
        }
    }
}

impl View for CachedMessage {
    type V = CachedMessageView;

    open spec fn view(&self) -> CachedMessageView {
        CachedMessageView { id: self.id, content: self.content@ }
    }
}

/// A message as first seen on a channel.
pub struct Message {
    pub channel_id: u64,
    pub id: u64,
    pub content: String,
    pub embeds: Vec<Embed>,
    pub attachment_count: usize,
    pub component_count: usize,
}

/// An edit notification. A field that is `None` was not part of the edit.
pub struct MessageUpdate {
    pub channel_id: u64,
    pub id: u64,
    pub content: Option<String>,
    pub embeds: Option<Vec<Embed>>,
    pub attachment_count: Option<usize>,
}

/// A delete notification.
pub struct MessageDelete {
    pub channel_id: u64,
    pub id: u64,
}

/// The entry that a newly seen message becomes.
pub open spec fn entry_of(m: Message) -> CachedMessageView {
    CachedMessageView {
        id: m.id,
        content: if m.attachment_count == 0 && m.component_count == 0 {
            ContentView::Valid { text: m.content@, embeds: m.embeds@ }
        } else {
            ContentView::AttachmentsOrComponents
        },
    }
}

/// Whether an edit reports at least one attachment.
pub open spec fn reports_attachments(u: MessageUpdate) -> bool {
    match u.attachment_count {
        Some(n) => n > 0,
        None => false,
    }
}

/// An entry after an edit: attachments make it non-mergeable for good; otherwise
/// a valid entry takes the fields that the edit supplies and keeps the others.
pub open spec fn merged(e: CachedMessageView, u: MessageUpdate) -> CachedMessageView {
    if reports_attachments(u) {
        CachedMessageView { id: e.id, content: ContentView::AttachmentsOrComponents }
    } else {
        match e.content {
            ContentView::Valid { text, embeds } => CachedMessageView {
                id: e.id,
                content: ContentView::Valid {
                    text: match u.content {
                        Some(c) => c@,
                        None => text,
                    },
                    embeds: match u.embeds {
                        Some(v) => v@,
                        None => embeds,
                    },
                },
            },
            ContentView::AttachmentsOrComponents => e,
        }
    }
}

impl Clone for MessageContent {
    fn clone(&self) -> (r: MessageContent)
        ensures
            r@ == self@,
    {
        match self {
            MessageContent::Valid { content, embeds } => {
                let e = embeds.clone();
                assert(e@ =~= embeds@);
                MessageContent::Valid { content: content.clone(), embeds: e }
            },
            MessageContent::AttachmentsOrComponents => MessageContent::AttachmentsOrComponents,
        }
    }
}

impl Clone for CachedMessage {
    fn clone(&self) -> (r: CachedMessage)
        ensures
            r@ == self@,
    {
        CachedMessage { id: self.id, content: self.content.clone() }
    }
}

impl CachedMessage {
    /// Builds the entry for a newly seen message.
    pub fn from_message(m: Message) -> (r: CachedMessage)
        ensures
            r@ == entry_of(m),
    {
        let id = m.id;
        if m.attachment_count == 0 && m.component_count == 0 {
            CachedMessage { id, content: MessageContent::Valid { content: m.content, embeds: m.embeds } }
        } else {
            CachedMessage { id, content: MessageContent::AttachmentsOrComponents }
        }
    }

    /// Applies an edit to this entry.
    pub fn merge(self, u: MessageUpdate) -> (r: CachedMessage)
        ensures
            r@ == merged(self@, u),
    {
        let reported = match u.attachment_count {
            Some(n) => n > 0,
            None => false,
        };
        if reported {
            CachedMessage { id: self.id, content: MessageContent::AttachmentsOrComponents }
        } else {
            match self.content {
                MessageContent::Valid { content, embeds } => {
                    let content = match u.content {
                        Some(c) => c,
                        None => content,
                    };
                    let embeds = match u.embeds {
                        Some(v) => v,
                        None => embeds,
                    };
                    CachedMessage { id: self.id, content: MessageContent::Valid { content, embeds } }
                },
                MessageContent::AttachmentsOrComponents => self,
            }
        }
    }
}

} // verus!
