use vstd::prelude::*;

use crate::attachment::{Attachment, AttachmentData};
use crate::email::Email;
use crate::error::ClientError;
use crate::json::{append_json_string, json_string};
use crate::jsonvalue::{json_render_ok_of, json_text_of, value_to_text};
use crate::outbound_email_body::{
    attachments_view, emails_view, lemma_message_view, track_link_tag, MessageData,
    OutboundEmailBody,
};

verus! {

/// The text of an optional string, when present.
pub open spec fn opt_text(o: Option<String>) -> Option<Seq<char>> {
    match o {
        Some(s) => Some(s@),
        None => None,
    }
}

/// A comma-separated run of JSON string literals.
pub open spec fn json_string_list(l: Seq<Seq<char>>) -> Seq<char>
    decreases l.len(),
{
    if l.len() == 0 {
        Seq::empty()
    } else if l.len() == 1 {
        json_string(l[0])
    } else {
        json_string_list(l.drop_last()) + ","@ + json_string(l.last())
    }
}

/// The wire object for one attachment; `ContentID` is left out when the
/// attachment has none.
pub open spec fn attachment_json(a: AttachmentData) -> Seq<char> {
    "{\"Name\":"@ + json_string(a.name) + ",\"Content\":"@ + json_string(a.content)
        + ",\"ContentType\":"@ + json_string(a.content_type) + (match a.content_id {
        Some(c) => ",\"ContentID\":"@ + json_string(c),
        None => Seq::<char>::empty(),
    }) + "}"@
}

/// A comma-separated run of attachment wire objects.
pub open spec fn attachment_list_json(l: Seq<AttachmentData>) -> Seq<char>
    decreases l.len(),
{
    if l.len() == 0 {
        Seq::empty()
    } else if l.len() == 1 {
        attachment_json(l[0])
    } else {
        attachment_list_json(l.drop_last()) + ","@ + attachment_json(l.last())
    }
}

/// The complete wire request object for one message: `From` and `To`
/// always, each optional field only when present — an empty `Cc` or `Bcc`
/// list is never emitted — `TrackOpens` and `TrackLinks` always, and
/// `Metadata` spliced in as the given JSON text.
pub open spec fn wire_request_json(
    from: Seq<char>,
    m: MessageData,
    meta: Option<Seq<char>>,
) -> Seq<char> {
    "{\"From\":"@ + json_string(from) + ",\"To\":"@ + json_string(m.to) + (match m.cc {
        Some(l) => if l.len() > 0 {
            ",\"Cc\":["@ + json_string_list(l) + "]"@
        } else {
            Seq::<char>::empty()
        },
        None => Seq::<char>::empty(),
    }) + (match m.bcc {
        Some(l) => if l.len() > 0 {
            ",\"Bcc\":["@ + json_string_list(l) + "]"@
        } else {
            Seq::<char>::empty()
        },
        None => Seq::<char>::empty(),
    }) + (match m.subject {
        Some(s) => ",\"Subject\":"@ + json_string(s),
        None => Seq::<char>::empty(),
    }) + (match m.tag {
        Some(s) => ",\"Tag\":"@ + json_string(s),
        None => Seq::<char>::empty(),
    }) + (match m.html_body {
        Some(s) => ",\"HtmlBody\":"@ + json_string(s),
        None => Seq::<char>::empty(),
    }) + (match m.text_body {
        Some(s) => ",\"TextBody\":"@ + json_string(s),
        None => Seq::<char>::empty(),
    }) + (match m.reply_to {
        Some(s) => ",\"ReplyTo\":"@ + json_string(s),
        None => Seq::<char>::empty(),
    }) + (match meta {
        Some(t) => ",\"Metadata\":"@ + t,
        None => Seq::<char>::empty(),
    }) + ",\"TrackOpens\":"@ + (if m.track_opens {
        "true"@
    } else {
        "false"@
    }) + ",\"TrackLinks\":"@ + json_string(track_link_tag(m.track_links)) + (
    match m.attachments {
        Some(l) => ",\"Attachments\":["@ + attachment_list_json(l) + "]"@,
        None => Seq::<char>::empty(),
    }) + "}"@
}

/// The messages of a list, each seen abstractly.
pub open spec fn messages_view(s: Seq<OutboundEmailBody>) -> Seq<MessageData> {
    s.map_values(|m: OutboundEmailBody| m@)
}

/// The texts of a list of optional strings.
pub open spec fn texts_view(s: Seq<Option<String>>) -> Seq<Option<Seq<char>>> {
    s.map_values(|o: Option<String>| opt_text(o))
}

/// A comma-separated run of wire request objects, one per message, in
/// submission order.
pub open spec fn batch_items_json(
    from: Seq<char>,
    ms: Seq<MessageData>,
    metas: Seq<Option<Seq<char>>>,
) -> Seq<char>
    decreases ms.len(),
{
    if ms.len() == 0 {
        Seq::empty()
    } else if ms.len() == 1 {
        wire_request_json(from, ms[0], metas[0])
    } else {
        batch_items_json(from, ms.drop_last(), metas.drop_last()) + ","@ + wire_request_json(
            from,
            ms.last(),
            metas.last(),
        )
    }
}

/// The wire body for a batch: a JSON array of the messages' wire objects.
pub open spec fn batch_json(
    from: Seq<char>,
    ms: Seq<MessageData>,
    metas: Seq<Option<Seq<char>>>,
) -> Seq<char> {
    "["@ + batch_items_json(from, ms, metas) + "]"@
}

fn append_attachment(out: &mut String, a: &Attachment)
    ensures
        final(out)@ == old(out)@ + attachment_json(a@),
{
    out.append("{\"Name\":");
    append_json_string(out, a.name.as_str());
    out.append(",\"Content\":");
    append_json_string(out, a.content.as_str());
    out.append(",\"ContentType\":");
    append_json_string(out, a.content_type.as_str());
    match &a.content_id {
        Some(cid) => {
            out.append(",\"ContentID\":");
            append_json_string(out, cid.as_str());
        },
        None => {},
    }
    out.append("}");
    proof {
        crate::attachment::lemma_attachment_view(*a);
        assert(out@ =~= old(out)@ + attachment_json(a@));
    }
}

proof fn lemma_attachment_list_succ(l: Seq<AttachmentData>, i: int)
    requires
        0 <= i < l.len(),
    ensures
        i == 0 ==> attachment_list_json(l.take(1)) == attachment_json(l[0]),
        i > 0 ==> attachment_list_json(l.take(i + 1)) == attachment_list_json(l.take(i)) + ","@
            + attachment_json(l[i]),
{
    let t = l.take(i + 1);
    assert(t.drop_last() =~= l.take(i));
    assert(t.last() == l[i]);
}

fn append_attachment_list(out: &mut String, l: &Vec<Attachment>)
    ensures
        final(out)@ == old(out)@ + attachment_list_json(attachments_view(l@)),
{
    let ghost lv = attachments_view(l@);
    let n = l.len();
    let mut i: usize = 0;
    while i < n
        invariant
            0 <= i <= n,
            n == l@.len(),
            lv == attachments_view(l@),
            lv.len() == n,
            out@ == old(out)@ + attachment_list_json(lv.take(i as int)),
        decreases n - i,
    {
        if i > 0 {
            out.append(",");
        }
        append_attachment(out, &l[i]);
        proof {
            lemma_attachment_list_succ(lv, i as int);
            assert(lv[i as int] == l@[i as int]@);
            reveal_strlit(",");
            assert(","@ =~= seq![',']);
            assert(out@ =~= old(out)@ + attachment_list_json(lv.take(i + 1)));
        }
        i = i + 1;
    }
    proof {
        assert(lv.take(n as int) =~= lv);
    }
}

proof fn lemma_json_string_list_succ(l: Seq<Seq<char>>, i: int)
    requires
        0 <= i < l.len(),
    ensures
        i == 0 ==> json_string_list(l.take(1)) == json_string(l[0]),
        i > 0 ==> json_string_list(l.take(i + 1)) == json_string_list(l.take(i)) + ","@
            + json_string(l[i]),
{
    let t = l.take(i + 1);
    assert(t.drop_last() =~= l.take(i));
    assert(t.last() == l[i]);
}

fn append_email_list(out: &mut String, l: &Vec<Email>)
    ensures
        final(out)@ == old(out)@ + json_string_list(emails_view(l@)),
{
    let ghost lv = emails_view(l@);
    let n = l.len();
    let mut i: usize = 0;
    while i < n
        invariant
            0 <= i <= n,
            n == l@.len(),
            lv == emails_view(l@),
            lv.len() == n,
            out@ == old(out)@ + json_string_list(lv.take(i as int)),
        decreases n - i,
    {
        if i > 0 {
            out.append(",");
        }
        append_json_string(out, l[i].as_str());
        proof {
            lemma_json_string_list_succ(lv, i as int);
            assert(lv[i as int] == l@[i as int]@);
            reveal_strlit(",");
            assert(","@ =~= seq![',']);
            assert(out@ =~= old(out)@ + json_string_list(lv.take(i + 1)));
        }
        i = i + 1;
    }
    proof {
        assert(lv.take(n as int) =~= lv);
    }
}

/// The wire segment for one optional string field: the given prefix
/// (a comma, the key and a colon) followed by the value as a JSON string.
fn json_field_segment(prefix: &str, value: &str) -> (r: String)
    ensures
        r@ == prefix@ + json_string(value@),
{
    let mut s = prefix.to_owned();
    append_json_string(&mut s, value);
    s
}

/// The wire segment for an address list field: the given prefix (which
/// opens the array) followed by the addresses and the closing bracket.
fn email_list_segment(prefix: &str, l: &Vec<Email>) -> (r: String)
    ensures
        r@ == prefix@ + json_string_list(emails_view(l@)) + "]"@,
{
    let mut s = prefix.to_owned();
    append_email_list(&mut s, l);
    s.append("]");
    s
}

/// The wire segment for the attachment list: the given prefix (which
/// opens the array) followed by the attachments and the closing bracket.
fn attachment_list_segment(prefix: &str, l: &Vec<Attachment>) -> (r: String)
    ensures
        r@ == prefix@ + attachment_list_json(attachments_view(l@)) + "]"@,
{
    let mut s = prefix.to_owned();
    append_attachment_list(&mut s, l);
    s.append("]");
    s
}

/// Renders one message as the wire request object. Pure in its arguments:
/// the metadata JSON text, already serialized, is spliced in as given.
pub fn request_body(
    from: &Email,
    message: &OutboundEmailBody,
    metadata_text: &Option<String>,
) -> (r: String)
    ensures
        r@ == wire_request_json(from@, message@, opt_text(*metadata_text)),
{
    let ghost m = message@;
    proof {
        lemma_message_view(*message);
    }
    let mut out = "{\"From\":".to_owned();
    append_json_string(&mut out, from.as_str());
    out.append(",\"To\":");
    append_json_string(&mut out, message.to.as_str());
    match &message.cc {
        Some(l) => {
            proof {
                assert(emails_view(l@).len() == l@.len());
            }
            if l.len() > 0 {
                let seg = email_list_segment(",\"Cc\":[", l);
                out.append(seg.as_str());
            } else {
                out.append("");
                proof {
                    reveal_strlit("");
                    assert(""@ =~= Seq::<char>::empty());
                }
            }
        },
        None => {
            out.append("");
            proof {
                reveal_strlit("");
                assert(""@ =~= Seq::<char>::empty());
            }
        },
    }
    match &message.bcc {
        Some(l) => {
            proof {
                assert(emails_view(l@).len() == l@.len());
            }
            if l.len() > 0 {
                let seg = email_list_segment(",\"Bcc\":[", l);
                out.append(seg.as_str());
            } else {
                out.append("");
                proof {
                    reveal_strlit("");
                    assert(""@ =~= Seq::<char>::empty());
                }
            }
        },
        None => {
            out.append("");
            proof {
                reveal_strlit("");
                assert(""@ =~= Seq::<char>::empty());
            }
        },
    }
    match &message.subject {
        Some(s) => {
            let seg = json_field_segment(",\"Subject\":", s.as_str());
            out.append(seg.as_str());
        },
        None => {
            out.append("");
            proof {
                reveal_strlit("");
                assert(""@ =~= Seq::<char>::empty());
            }
        },
    }
    match &message.tag {
        Some(s) => {
            let seg = json_field_segment(",\"Tag\":", s.as_str());
            out.append(seg.as_str());
        },
        None => {
            out.append("");
            proof {
                reveal_strlit("");
                assert(""@ =~= Seq::<char>::empty());
            }
        },
    }
    match &message.html_body {
        Some(s) => {
            let seg = json_field_segment(",\"HtmlBody\":", s.as_str());
            out.append(seg.as_str());
        },
        None => {
            out.append("");
            proof {
                reveal_strlit("");
                assert(""@ =~= Seq::<char>::empty());
            }
        },
    }
    match &message.text_body {
        Some(s) => {
            let seg = json_field_segment(",\"TextBody\":", s.as_str());
            out.append(seg.as_str());
        },
        None => {
            out.append("");
            proof {
                reveal_strlit("");
                assert(""@ =~= Seq::<char>::empty());
            }
        },
    }
    match &message.reply_to {
        Some(e) => {
            let seg = json_field_segment(",\"ReplyTo\":", e.as_str());
            out.append(seg.as_str());
        },
        None => {
            out.append("");
            proof {
                reveal_strlit("");
                assert(""@ =~= Seq::<char>::empty());
            }
        },
    }
    match metadata_text {
        Some(t) => {
            let mut seg = ",\"Metadata\":".to_owned();
            seg.append(t.as_str());
            out.append(seg.as_str());
        },
        None => {
            out.append("");
            proof {
                reveal_strlit("");
                assert(""@ =~= Seq::<char>::empty());
            }
        },
    }
    out.append(",\"TrackOpens\":");
    if message.track_opens {
        out.append("true");
    } else {
        out.append("false");
    }
    out.append(",\"TrackLinks\":");
    append_json_string(&mut out, message.track_links.as_str());
    match &message.attachments {
        Some(l) => {
            let seg = attachment_list_segment(",\"Attachments\":[", l);
            out.append(seg.as_str());
        },
        None => {
            out.append("");
            proof {
                reveal_strlit("");
                assert(""@ =~= Seq::<char>::empty());
            }
        },
    }
    out.append("}");
    proof {
        assert(out@ == wire_request_json(from@, m, opt_text(*metadata_text)));
    }
    out
}

/// Maps one message to its wire request body, serializing its metadata
/// first; fails exactly when that serialization fails.
pub fn map_request(from: &Email, message: &OutboundEmailBody) -> (r: Result<String, ClientError>)
    ensures
        r is Ok <==> (match message@.metadata {
            Some(mv) => json_render_ok_of(mv),
            None => true,
        }),
        message@.metadata is None ==> (r matches Ok(b) && b@ == wire_request_json(
            from@,
            message@,
            Option::None,
        )),
        message@.metadata matches Some(mv) ==> (r matches Ok(b) ==> b@ == wire_request_json(
            from@,
            message@,
            Some(json_text_of(mv)),
        )),
        r matches Err(e) ==> (e matches ClientError::Serialization(_) && message@.metadata
            is Some),
{
    proof {
        lemma_message_view(*message);
    }
    let metadata_text: Option<String> = match &message.metadata {
        Some(v) => match value_to_text(v) {
            Ok(t) => Some(t),
            Err(e) => {
                return Err(ClientError::Serialization(e));
            },
        },
        None => None,
    };
    Ok(request_body(from, message, &metadata_text))
}

/// The wire recipient field of the positional send: the display name,
/// when given, in front of the address in angle brackets.
pub fn recipient_field(name: Option<&str>, email: &Email) -> (r: String)
    ensures
        (match name {
            Some(n) => r@ == n@ + " <"@ + email@ + ">"@,
            None => r@ == email@,
        }),
{
    match name {
        Some(n) => {
            let mut s = n.to_owned();
            s.append(" <");
            s.append(email.as_str());
            s.append(">");
            s
        },
        None => email.as_str().to_owned(),
    }
}

/// The metadata wire texts of a list of messages: the rendered JSON text
/// where a message carries metadata, nothing where it does not.
pub open spec fn metadata_texts_of(ms: Seq<OutboundEmailBody>) -> Seq<Option<Seq<char>>> {
    ms.map_values(
        |m: OutboundEmailBody|
            match m@.metadata {
                Some(v) => Some(json_text_of(v)),
                None => None,
            },
    )
}

proof fn lemma_batch_items_succ(
    from: Seq<char>,
    ms: Seq<MessageData>,
    metas: Seq<Option<Seq<char>>>,
    i: int,
)
    requires
        0 <= i < ms.len(),
        ms.len() == metas.len(),
    ensures
        i == 0 ==> batch_items_json(from, ms.take(1), metas.take(1)) == wire_request_json(
            from,
            ms[0],
            metas[0],
        ),
        i > 0 ==> batch_items_json(from, ms.take(i + 1), metas.take(i + 1)) == batch_items_json(
            from,
            ms.take(i),
            metas.take(i),
        ) + ","@ + wire_request_json(from, ms[i], metas[i]),
{
    let t = ms.take(i + 1);
    let u = metas.take(i + 1);
    assert(t.drop_last() =~= ms.take(i));
    assert(u.drop_last() =~= metas.take(i));
    assert(t.last() == ms[i]);
    assert(u.last() == metas[i]);
}

/// Renders a batch of messages as the wire array, one object per message,
/// in submission order; the metadata texts, already serialized, are
/// spliced in as given.
pub fn batch_body(
    from: &Email,
    messages: &Vec<OutboundEmailBody>,
    metadata_texts: &Vec<Option<String>>,
) -> (r: String)
    requires
        messages@.len() == metadata_texts@.len(),
    ensures
        r@ == batch_json(from@, messages_view(messages@), texts_view(metadata_texts@)),
{
    let ghost ms = messages_view(messages@);
    let ghost metas = texts_view(metadata_texts@);
    let mut out = String::new();
    out.append("[");
    let n = messages.len();
    let mut i: usize = 0;
    proof {
        assert(out@ =~= "["@ + batch_items_json(from@, ms.take(0), metas.take(0)));
    }
    while i < n
        invariant
            0 <= i <= n,
            n == messages@.len(),
            n == metadata_texts@.len(),
            ms == messages_view(messages@),
            metas == texts_view(metadata_texts@),
            ms.len() == n,
            metas.len() == n,
            out@ == "["@ + batch_items_json(from@, ms.take(i as int), metas.take(i as int)),
        decreases n - i,
    {
        if i > 0 {
            out.append(",");
        }
        let rb = request_body(from, &messages[i], &metadata_texts[i]);
        out.append(rb.as_str());
        proof {
            lemma_batch_items_succ(from@, ms, metas, i as int);
            assert(ms[i as int] == messages@[i as int]@);
            assert(metas[i as int] == opt_text(metadata_texts@[i as int]));
            reveal_strlit(",");
            assert(","@ =~= seq![',']);
            assert(out@ =~= "["@ + batch_items_json(from@, ms.take(i + 1), metas.take(i + 1)));
        }
        i = i + 1;
    }
    out.append("]");
    proof {
        assert(ms.take(n as int) =~= ms);
        assert(metas.take(n as int) =~= metas);
        assert(out@ =~= batch_json(from@, ms, metas));
    }
    out
}

} // verus!
