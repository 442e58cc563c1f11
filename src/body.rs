//! The JSON request bodies that carry messages to their sinks. Object
//! members are written in the sorted order of their keys, as serde_json
//! writes a map.
use vstd::prelude::*;
use vstd::string::*;

use crate::message::{Cast, CastView, Embed, EmbedView, Message, MessageView, WebhookMessage,
    WebhookView, opt_view};
use crate::text::{decimal, decimal_of};

verus! {

/// The lowercase hexadecimal digit of `d`, below sixteen.
pub open spec fn hex_char(d: u32) -> char {
    if d < 10 {
        ((d + 48) as u8) as char
    } else {
        ((d + 87) as u8) as char
    }
}

/// How JSON writes one character inside a string literal: quote and
/// backslash escaped by a backslash, five control characters by their short
/// escapes, the other control characters as `\u00xx`, and all else unchanged.
pub open spec fn json_escape_char(c: char) -> Seq<char> {
    if c == '"' {
        seq!['\\', '"']
    } else if c == '\\' {
        seq!['\\', '\\']
    } else if c == '\u{8}' {
        seq!['\\', 'b']
    } else if c == '\t' {
        seq!['\\', 't']
    } else if c == '\n' {
        seq!['\\', 'n']
    } else if c == '\u{c}' {
        seq!['\\', 'f']
    } else if c == '\r' {
        seq!['\\', 'r']
    } else if (c as u32) < 32 {
        seq!['\\', 'u', '0', '0', hex_char((c as u32) / 16), hex_char((c as u32) % 16)]
    } else {
        seq![c]
    }
}

/// The characters of `s`, each written as JSON writes it inside a string.
pub open spec fn json_escaped(s: Seq<char>) -> Seq<char>
    decreases s.len(),
{
    if s.len() == 0 {
        Seq::empty()
    } else {
        json_escaped(s.drop_last()) + json_escape_char(s.last())
    }
}

/// The JSON string literal of a text.
pub open spec fn json_string(s: Seq<char>) -> Seq<char> {
    seq!['"'] + json_escaped(s) + seq!['"']
}

/// Relies on serde_json's compact `Display` of `Value::String`, which writes
/// the JSON string literal of the text (its escape table and `\u00xx` form
/// with lowercase hexadecimal digits).
#[verifier::external_body]
fn json_quote(s: &String) -> (r: String)
    ensures
        r@ == json_string(s@),
{
    serde_json::Value::String(s.clone()).to_string()
}

/// The author member of an embed object and its comma, empty when the embed
/// has no author.
pub open spec fn author_member(a: Option<(Seq<char>, Seq<char>)>) -> Seq<char> {
    match a {
        Some((name, url)) => "\"author\":{\"name\":"@ + json_string(name) + ",\"url\":"@
            + json_string(url) + "},"@,
        None => Seq::empty(),
    }
}

/// The embed object.
pub open spec fn embed_object_of(e: EmbedView) -> Seq<char> {
    "{"@ + author_member(e.author) + "\"color\":"@ + decimal_of(e.color as nat)
        + ",\"description\":"@ + json_string(e.description) + ",\"footer\":{\"text\":"@
        + json_string(e.footer) + "},\"title\":"@ + json_string(e.title) + ",\"url\":"@
        + json_string(e.url) + "}"@
}

/// The avatar member of a webhook message and its comma, if one is set.
pub open spec fn avatar_member(a: Option<Seq<char>>) -> Seq<char> {
    match a {
        Some(u) => "\"avatar_url\":"@ + json_string(u) + ","@,
        None => Seq::empty(),
    }
}

/// The comma and username member of a webhook message, if one is set.
pub open spec fn username_member(u: Option<Seq<char>>) -> Seq<char> {
    match u {
        Some(n) => ",\"username\":"@ + json_string(n),
        None => Seq::empty(),
    }
}

/// The webhook body: the optional avatar, a list of the one embed, and the
/// optional username.
pub open spec fn webhook_body_of(m: WebhookView) -> Seq<char> {
    "{"@ + avatar_member(m.avatar_url) + "\"embeds\":["@ + embed_object_of(m.embed) + "]"@
        + username_member(m.username) + "}"@
}

/// The comma-separated JSON string literals of `items`.
pub open spec fn json_items(items: Seq<Seq<char>>) -> Seq<char>
    decreases items.len(),
{
    if items.len() == 0 {
        Seq::empty()
    } else if items.len() == 1 {
        json_string(items[0])
    } else {
        json_items(items.drop_last()) + ","@ + json_string(items.last())
    }
}

/// The cast body: the channel key, the list of embedded links, and the text.
pub open spec fn cast_body_of(c: CastView) -> Seq<char> {
    "{\"channelKey\":"@ + json_string(c.channel) + ",\"embeds\":["@ + json_items(c.embeds)
        + "],\"text\":"@ + json_string(c.text) + "}"@
}

/// The body a sink posts for a message.
pub open spec fn body_of(m: MessageView) -> Seq<char> {
    match m {
        MessageView::Webhook(w) => webhook_body_of(w),
        MessageView::Cast(c) => cast_body_of(c),
    }
}

fn embed_object(e: &Embed) -> (r: String)
    ensures
        r@ == embed_object_of(e@),
{
    let s = String::from_str("{");
    let s = match &e.author {
        Some(a) => {
            let m = String::from_str("\"author\":{\"name\":").concat(json_quote(&a.name).as_str());
            let m = m.concat(",\"url\":").concat(json_quote(&a.url).as_str()).concat("},");
            s.concat(m.as_str())
        },
        None => {
            assert(s@ + Seq::<char>::empty() =~= s@);
            s
        },
    };
    let color = decimal(e.color as u64);
    let s = s.concat("\"color\":").concat(color.as_str());
    let s = s.concat(",\"description\":").concat(json_quote(&e.description).as_str());
    let s = s.concat(",\"footer\":{\"text\":").concat(json_quote(&e.footer).as_str());
    let s = s.concat("},\"title\":").concat(json_quote(&e.title).as_str());
    s.concat(",\"url\":").concat(json_quote(&e.url).as_str()).concat("}")
}

/// The webhook body for `m`.
pub fn webhook_body(m: &WebhookMessage) -> (r: String)
    ensures
        r@ == webhook_body_of(m@),
{
    let s = String::from_str("{");
    let s = match &m.avatar_url {
        Some(u) => s.concat("\"avatar_url\":").concat(json_quote(u).as_str()).concat(","),
        None => {
            assert(s@ + Seq::<char>::empty() =~= s@);
            s
        },
    };
    let s = s.concat("\"embeds\":[").concat(embed_object(&m.embed).as_str()).concat("]");
    let s = match &m.username {
        Some(u) => s.concat(",\"username\":").concat(json_quote(u).as_str()),
        None => {
            assert(s@ + Seq::<char>::empty() =~= s@);
            s
        },
    };
    s.concat("}")
}

/// The cast body for `c`.
pub fn cast_body(c: &Cast) -> (r: String)
    ensures
        r@ == cast_body_of(c@),
{
    let ghost links = c@.embeds;
    let mut items = String::new();
    let mut i: usize = 0;
    assert(links.subrange(0, 0) =~= Seq::<Seq<char>>::empty());
    while i < c.embeds.len()
        invariant
            0 <= i <= c.embeds@.len(),
            links == c.embeds@.map_values(|s: String| s@),
            items@ == json_items(links.subrange(0, i as int)),
        decreases c.embeds@.len() - i,
    {
        let ghost s = links.subrange(0, i + 1);
        assert(s.drop_last() =~= links.subrange(0, i as int));
        assert(s.last() == c.embeds@[i as int]@);
        let q = json_quote(&c.embeds[i]);
        if i == 0 {
            items = q;
        } else {
            items = items.concat(",").concat(q.as_str());
        }
        i = i + 1;
    }
    assert(links.subrange(0, links.len() as int) =~= links);
    let s = String::from_str("{\"channelKey\":").concat(json_quote(&c.channel).as_str());
    let s = s.concat(",\"embeds\":[").concat(items.as_str());
    s.concat("],\"text\":").concat(json_quote(&c.text).as_str()).concat("}")
}

/// The body a sink posts for `m`.
pub fn body(m: &Message) -> (r: String)
    ensures
        r@ == body_of(m@),
{
    match m {
        Message::Webhook(w) => webhook_body(w),
        Message::Cast(c) => cast_body(c),
    }
}

} // verus!
