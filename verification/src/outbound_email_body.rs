use vstd::prelude::*;

use crate::attachment::{Attachment, AttachmentData};
use crate::email::Email;

verus! {

/// Which parts of a message have their links rewritten for click
/// tracking.
#[derive(Debug, Clone, Copy, PartialEq, Eq)]
pub enum TrackLink {
    NoTracking,
    HtmlAndText,
    HtmlOnly,
    TextOnly,
}

/// The string tag under which a tracking policy travels on the wire.
pub open spec fn track_link_tag(t: TrackLink) -> Seq<char> {
    match t {
        TrackLink::NoTracking => "None"@,
        TrackLink::HtmlAndText => "HtmlAndText"@,
        TrackLink::HtmlOnly => "HtmlOnly"@,
        TrackLink::TextOnly => "TextOnly"@,
    }
}

impl TrackLink {
    /// The policy's wire tag.
    pub fn as_str(&self) -> (r: &'static str)
        ensures
            r@ == track_link_tag(*self),
    {
        match self {
            TrackLink::NoTracking => "None",
            TrackLink::HtmlAndText => "HtmlAndText",
            TrackLink::HtmlOnly => "HtmlOnly",
            TrackLink::TextOnly => "TextOnly",
        }
    }
}

/// The addresses of a list, each seen as its character sequence.
pub open spec fn emails_view(s: Seq<Email>) -> Seq<Seq<char>> {
    s.map_values(|e: Email| e@)
}

/// The attachments of a list, each seen abstractly.
pub open spec fn attachments_view(s: Seq<Attachment>) -> Seq<AttachmentData> {
    s.map_values(|a: Attachment| a@)
}

/// What a message holds, seen abstractly. The metadata value is carried
/// as the opaque JSON value itself.
pub struct MessageData {
    pub to: Seq<char>,
    pub subject: Option<Seq<char>>,
    pub cc: Option<Seq<Seq<char>>>,
    pub bcc: Option<Seq<Seq<char>>>,
    pub tag: Option<Seq<char>>,
    pub html_body: Option<Seq<char>>,
    pub text_body: Option<Seq<char>>,
    pub reply_to: Option<Seq<char>>,
    pub metadata: Option<serde_json::Value>,
    pub track_opens: bool,
    pub track_links: TrackLink,
    pub attachments: Option<Seq<AttachmentData>>,
}

/// One complete outbound email: a required recipient and every optional
/// field of the wire shape. Constructed only through its builder, and
/// immutable once built.
#[derive(Debug)]
pub struct OutboundEmailBody {
    pub(crate) to: Email,
    pub(crate) subject: Option<String>,
    pub(crate) cc: Option<Vec<Email>>,
    pub(crate) bcc: Option<Vec<Email>>,
    pub(crate) tag: Option<String>,
    pub(crate) html_body: Option<String>,
    pub(crate) text_body: Option<String>,
    pub(crate) reply_to: Option<Email>,
    pub(crate) metadata: Option<serde_json::Value>,
    pub(crate) track_opens: bool,
    pub(crate) track_links: TrackLink,
    pub(crate) attachments: Option<Vec<Attachment>>,
}

impl View for OutboundEmailBody {
    type V = MessageData;

    closed spec fn view(&self) -> MessageData {
        MessageData {
            to: self.to@,
            subject: match self.subject {
                Some(s) => Some(s@),
                None => None,
            },
            cc: match self.cc {
                Some(l) => Some(emails_view(l@)),
                None => None,
            },
            bcc: match self.bcc {
                Some(l) => Some(emails_view(l@)),
                None => None,
            },
            tag: match self.tag {
                Some(s) => Some(s@),
                None => None,
            },
            html_body: match self.html_body {
                Some(s) => Some(s@),
                None => None,
            },
            text_body: match self.text_body {
                Some(s) => Some(s@),
                None => None,
            },
            reply_to: match self.reply_to {
                Some(e) => Some(e@),
                None => None,
            },
            metadata: self.metadata,
            track_opens: self.track_opens,
            track_links: self.track_links,
            attachments: match self.attachments {
                Some(l) => Some(attachments_view(l@)),
                None => None,
            },
        }
    }
}

/// Spells the view out field by field for the crate's own proofs, which
/// read the message's parts directly.
pub(crate) proof fn lemma_message_view(m: OutboundEmailBody)
    ensures
        m@ == (MessageData {
            to: m.to@,
            subject: match m.subject {
                Some(s) => Some(s@),
                None => None,
            },
            cc: match m.cc {
                Some(l) => Some(emails_view(l@)),
                None => None,
            },
            bcc: match m.bcc {
                Some(l) => Some(emails_view(l@)),
                None => None,
            },
            tag: match m.tag {
                Some(s) => Some(s@),
                None => None,
            },
            html_body: match m.html_body {
                Some(s) => Some(s@),
                None => None,
            },
            text_body: match m.text_body {
                Some(s) => Some(s@),
                None => None,
            },
            reply_to: match m.reply_to {
                Some(e) => Some(e@),
                None => None,
            },
            metadata: m.metadata,
            track_opens: m.track_opens,
            track_links: m.track_links,
            attachments: match m.attachments {
                Some(l) => Some(attachments_view(l@)),
                None => None,
            },
        }),
{
}

impl OutboundEmailBody {
    /// A builder over the one required field: the recipient.
    pub fn builder(to: Email) -> (r: OutboundEmailBodyBuilder)
        ensures
            r@ == (MessageData {
                to: to@,
                subject: None,
                cc: None,
                bcc: None,
                tag: None,
                html_body: None,
                text_body: None,
                reply_to: None,
                metadata: None,
                track_opens: true,
                track_links: TrackLink::HtmlAndText,
                attachments: None,
            }),
    {
        OutboundEmailBodyBuilder::new(to)
    }

    /// The recipient.
    pub fn to(&self) -> (r: &Email)
        ensures
            r@ == self@.to,
    {
        &self.to
    }

    /// The subject, when set.
    pub fn subject(&self) -> (r: Option<&str>)
        ensures
            (match r {
                Some(s) => self@.subject == Some(s@),
                None => self@.subject is None,
            }),
    {
        match &self.subject {
            Some(s) => Some(s.as_str()),
            None => None,
        }
    }

    /// The carbon-copy recipients, when set.
    pub fn cc(&self) -> (r: Option<&Vec<Email>>)
        ensures
            (match r {
                Some(l) => self@.cc == Some(emails_view(l@)),
                None => self@.cc is None,
            }),
    {
        match &self.cc {
            Some(l) => Some(l),
            None => None,
        }
    }

    /// The blind-carbon-copy recipients, when set.
    pub fn bcc(&self) -> (r: Option<&Vec<Email>>)
        ensures
            (match r {
                Some(l) => self@.bcc == Some(emails_view(l@)),
                None => self@.bcc is None,
            }),
    {
        match &self.bcc {
            Some(l) => Some(l),
            None => None,
        }
    }

    /// The tag, when set.
    pub fn tag(&self) -> (r: Option<&str>)
        ensures
            (match r {
                Some(s) => self@.tag == Some(s@),
                None => self@.tag is None,
            }),
    {
        match &self.tag {
            Some(s) => Some(s.as_str()),
            None => None,
        }
    }

    /// The HTML body, when set.
    pub fn html_body(&self) -> (r: Option<&str>)
        ensures
            (match r {
                Some(s) => self@.html_body == Some(s@),
                None => self@.html_body is None,
            }),
    {
        match &self.html_body {
            Some(s) => Some(s.as_str()),
            None => None,
        }
    }

    /// The plain-text body, when set.
    pub fn text_body(&self) -> (r: Option<&str>)
        ensures
            (match r {
                Some(s) => self@.text_body == Some(s@),
                None => self@.text_body is None,
            }),
    {
        match &self.text_body {
            Some(s) => Some(s.as_str()),
            None => None,
        }
    }

    /// The reply-to address, when set.
    pub fn reply_to(&self) -> (r: Option<&Email>)
        ensures
            (match r {
                Some(e) => self@.reply_to == Some(e@),
                None => self@.reply_to is None,
            }),
    {
        match &self.reply_to {
            Some(e) => Some(e),
            None => None,
        }
    }

    /// The free-form metadata value, when set.
    pub fn metadata(&self) -> (r: Option<&serde_json::Value>)
        ensures
            (match r {
                Some(v) => self@.metadata == Some(*v),
                None => self@.metadata is None,
            }),
    {
        match &self.metadata {
            Some(v) => Some(v),
            None => None,
        }
    }

    /// Whether opens are tracked.
    pub fn track_opens(&self) -> (r: bool)
        ensures
            r == self@.track_opens,
    {
        self.track_opens
    }

    /// The link-tracking policy.
    pub fn track_links(&self) -> (r: TrackLink)
        ensures
            r == self@.track_links,
    {
        self.track_links
    }

    /// The attachments, when set.
    pub fn attachments(&self) -> (r: Option<&Vec<Attachment>>)
        ensures
            (match r {
                Some(l) => self@.attachments == Some(attachments_view(l@)),
                None => self@.attachments is None,
            }),
    {
        match &self.attachments {
            Some(l) => Some(l),
            None => None,
        }
    }
}

/// Accumulates the optional fields of an `OutboundEmailBody` over its
/// required recipient; each setter replaces any earlier value.
pub struct OutboundEmailBodyBuilder {
    to: Email,
    subject: Option<String>,
    cc: Option<Vec<Email>>,
    bcc: Option<Vec<Email>>,
    tag: Option<String>,
    html_body: Option<String>,
    text_body: Option<String>,
    reply_to: Option<Email>,
    metadata: Option<serde_json::Value>,
    track_opens: bool,
    track_links: TrackLink,
    attachments: Option<Vec<Attachment>>,
}

impl View for OutboundEmailBodyBuilder {
    type V = MessageData;

    closed spec fn view(&self) -> MessageData {
        MessageData {
            to: self.to@,
            subject: match self.subject {
                Some(s) => Some(s@),
                None => None,
            },
            cc: match self.cc {
                Some(l) => Some(emails_view(l@)),
                None => None,
            },
            bcc: match self.bcc {
                Some(l) => Some(emails_view(l@)),
                None => None,
            },
            tag: match self.tag {
                Some(s) => Some(s@),
                None => None,
            },
            html_body: match self.html_body {
                Some(s) => Some(s@),
                None => None,
            },
            text_body: match self.text_body {
                Some(s) => Some(s@),
                None => None,
            },
            reply_to: match self.reply_to {
                Some(e) => Some(e@),
                None => None,
            },
            metadata: self.metadata,
            track_opens: self.track_opens,
            track_links: self.track_links,
            attachments: match self.attachments {
                Some(l) => Some(attachments_view(l@)),
                None => None,
            },
        }
    }
}

impl OutboundEmailBodyBuilder {
    /// Starts from the required recipient; everything else is absent,
    /// opens are tracked, and links are tracked in both parts.
    pub fn new(to: Email) -> (r: Self)
        ensures
            r@ == (MessageData {
                to: to@,
                subject: None,
                cc: None,
                bcc: None,
                tag: None,
                html_body: None,
                text_body: None,
                reply_to: None,
                metadata: None,
                track_opens: true,
                track_links: TrackLink::HtmlAndText,
                attachments: None,
            }),
    {
        OutboundEmailBodyBuilder {
            to,
            subject: None,
            cc: None,
            bcc: None,
            tag: None,
            html_body: None,
            text_body: None,
            reply_to: None,
            metadata: None,
            track_opens: true,
            track_links: TrackLink::HtmlAndText,
            attachments: None,
        }
    }

    /// Sets the subject, replacing any earlier value.
    pub fn subject(self, subject: &str) -> (r: Self)
        ensures
            r@ == (MessageData { subject: Some(subject@), ..self@ }),
    {
        OutboundEmailBodyBuilder { subject: Some(subject.to_owned()), ..self }
    }

    /// Sets the HTML body, replacing any earlier value.
    pub fn html_body(self, html_body: &str) -> (r: Self)
        ensures
            r@ == (MessageData { html_body: Some(html_body@), ..self@ }),
    {
        OutboundEmailBodyBuilder { html_body: Some(html_body.to_owned()), ..self }
    }

    /// Sets the plain-text body, replacing any earlier value.
    pub fn text_body(self, text_body: &str) -> (r: Self)
        ensures
            r@ == (MessageData { text_body: Some(text_body@), ..self@ }),
    {
        OutboundEmailBodyBuilder { text_body: Some(text_body.to_owned()), ..self }
    }

    /// Sets the carbon-copy recipients, replacing any earlier value.
    pub fn cc(self, cc: Vec<Email>) -> (r: Self)
        ensures
            r@ == (MessageData { cc: Some(emails_view(cc@)), ..self@ }),
    {
        OutboundEmailBodyBuilder { cc: Some(cc), ..self }
    }

    /// Sets the blind-carbon-copy recipients, replacing any earlier value.
    pub fn bcc(self, bcc: Vec<Email>) -> (r: Self)
        ensures
            r@ == (MessageData { bcc: Some(emails_view(bcc@)), ..self@ }),
    {
        OutboundEmailBodyBuilder { bcc: Some(bcc), ..self }
    }

    /// Sets the tag, replacing any earlier value.
    pub fn tag(self, tag: &str) -> (r: Self)
        ensures
            r@ == (MessageData { tag: Some(tag@), ..self@ }),
    {
        OutboundEmailBodyBuilder { tag: Some(tag.to_owned()), ..self }
    }

    /// Sets the reply-to address, replacing any earlier value.
    pub fn reply_to(self, reply_to: Email) -> (r: Self)
        ensures
            r@ == (MessageData { reply_to: Some(reply_to@), ..self@ }),
    {
        OutboundEmailBodyBuilder { reply_to: Some(reply_to), ..self }
    }

    /// Sets the free-form metadata value, replacing any earlier value.
    pub fn metadata(self, metadata: serde_json::Value) -> (r: Self)
        ensures
            r@ == (MessageData { metadata: Some(metadata), ..self@ }),
    {
        OutboundEmailBodyBuilder { metadata: Some(metadata), ..self }
    }

    /// Sets whether opens are tracked, replacing any earlier value.
    pub fn track_opens(self, track_opens: bool) -> (r: Self)
        ensures
            r@ == (MessageData { track_opens, ..self@ }),
    {
        OutboundEmailBodyBuilder { track_opens, ..self }
    }

    /// Sets the link-tracking policy, replacing any earlier value.
    pub fn track_links(self, track_links: TrackLink) -> (r: Self)
        ensures
            r@ == (MessageData { track_links, ..self@ }),
    {
        OutboundEmailBodyBuilder { track_links, ..self }
    }

    /// Sets the attachments, replacing any earlier value.
    pub fn attachments(self, attachments: Vec<Attachment>) -> (r: Self)
        ensures
            r@ == (MessageData { attachments: Some(attachments_view(attachments@)), ..self@ }),
    {
        OutboundEmailBodyBuilder { attachments: Some(attachments), ..self }
    }

    /// Finishes the message; total, since every invariant is enforced by
    /// the setters' types.
    pub fn build(self) -> (r: OutboundEmailBody)
        ensures
            r@ == self@,
    {
        OutboundEmailBody {
            to: self.to,
            subject: self.subject,
            cc: self.cc,
            bcc: self.bcc,
            tag: self.tag,
            html_body: self.html_body,
            text_body: self.text_body,
            reply_to: self.reply_to,
            metadata: self.metadata,
            track_opens: self.track_opens,
            track_links: self.track_links,
            attachments: self.attachments,
        }
    }
}

} // verus!
