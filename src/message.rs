//! The messages that notification sinks send for new records.
//!
//! A chat-webhook sink sends a rich embed; a social-cast sink sends a short
//! text with one embedded link. Both use the same descriptive text, and the
//! word for a vote direction comes from the source's table alone.
use vstd::prelude::*;
use vstd::string::*;

use crate::cycle::{complete, Notice};
use crate::entity::Entity;
use crate::text::{
    entity_link, explorer_link, explorer_of, link_of, DirectionTable,
};

verus! {

/// The wording one source uses for its messages.
///
/// A heading reads "New <source> <heading>". A creation text reads
/// "A new <source> <noun> has been created: " followed by the title between
/// `title_open` and `title_close`. A vote text reads
/// "<actor> has voted <word>" followed by the parent's title between
/// `vote_open` and `vote_close`. A comment text reads
/// "<actor> has commented on " followed by the parent's title between
/// `comment_open` and `comment_close`.
#[derive(Debug)]
pub struct Wording {
    pub proposal_heading: String,
    pub vote_heading: String,
    pub auction_heading: String,
    pub idea_heading: String,
    pub comment_heading: String,
    pub proposal_noun: String,
    pub auction_noun: String,
    pub idea_noun: String,
    pub title_open: String,
    pub title_close: String,
    pub vote_open: String,
    pub vote_close: String,
    pub comment_open: String,
    pub comment_close: String,
}

impl Wording {
    /// Titles in curly quotes, each kind under its own name.
    pub fn quoted() -> (r: Wording)
        ensures
            r.proposal_heading@ == "Proposal"@,
            r.vote_heading@ == "Proposal Vote"@,
            r.auction_heading@ == "Auction"@,
            r.idea_heading@ == "Idea"@,
            r.comment_heading@ == "Comment"@,
            r.proposal_noun@ == "proposal"@,
            r.auction_noun@ == "auction"@,
            r.idea_noun@ == "idea"@,
            r.title_open@ == "“"@,
            r.title_close@ == "”"@,
            r.vote_open@ == " “"@,
            r.vote_close@ == "” proposal."@,
            r.comment_open@ == "“"@,
            r.comment_close@ == "”"@,
    {
        Wording {
            proposal_heading: String::from_str("Proposal"),
            vote_heading: String::from_str("Proposal Vote"),
            auction_heading: String::from_str("Auction"),
            idea_heading: String::from_str("Idea"),
            comment_heading: String::from_str("Comment"),
            proposal_noun: String::from_str("proposal"),
            auction_noun: String::from_str("auction"),
            idea_noun: String::from_str("idea"),
            title_open: String::from_str("“"),
            title_close: String::from_str("”"),
            vote_open: String::from_str(" “"),
            vote_close: String::from_str("” proposal."),
            comment_open: String::from_str("“"),
            comment_close: String::from_str("”"),
        }
    }

    /// Ideas presented as proposals, referred-to titles as "Proposal (<title>)",
    /// and bare titles in creation texts.
    pub fn ideas_as_proposals() -> (r: Wording)
        ensures
            r.proposal_heading@ == "Proposal"@,
            r.vote_heading@ == "Proposal Vote"@,
            r.auction_heading@ == "Auction"@,
            r.idea_heading@ == "Proposal"@,
            r.comment_heading@ == "Proposal Comment"@,
            r.proposal_noun@ == "proposal"@,
            r.auction_noun@ == "auction"@,
            r.idea_noun@ == "proposal"@,
            r.title_open@ == ""@,
            r.title_close@ == ""@,
            r.vote_open@ == " Proposal ("@,
            r.vote_close@ == ")"@,
            r.comment_open@ == "Proposal ("@,
            r.comment_close@ == ")"@,
    {
        Wording {
            proposal_heading: String::from_str("Proposal"),
            vote_heading: String::from_str("Proposal Vote"),
            auction_heading: String::from_str("Auction"),
            idea_heading: String::from_str("Proposal"),
            comment_heading: String::from_str("Proposal Comment"),
            proposal_noun: String::from_str("proposal"),
            auction_noun: String::from_str("auction"),
            idea_noun: String::from_str("proposal"),
            title_open: String::from_str(""),
            title_close: String::from_str(""),
            vote_open: String::from_str(" Proposal ("),
            vote_close: String::from_str(")"),
            comment_open: String::from_str("Proposal ("),
            comment_close: String::from_str(")"),
        }
    }
}

/// How one source presents its records.
#[derive(Debug)]
pub struct SourceStyle {
    /// The source's name as shown in messages.
    pub name: String,
    /// Base of the links to entity pages.
    pub base_url: String,
    /// Accent color of webhook embeds.
    pub color: u32,
    /// Channel that casts are posted to.
    pub channel: String,
    /// The source's words for vote directions.
    pub directions: DirectionTable,
    /// The source's message wording.
    pub wording: Wording,
    /// The sender name a webhook message sets, if any.
    pub username: Option<String>,
    /// The sender avatar a webhook message sets, if any.
    pub avatar_url: Option<String>,
}

/// The two kinds of notification sink.
#[derive(Clone, Copy, Debug, PartialEq, Eq, Structural)]
pub enum SinkKind {
    Webhook,
    Cast,
}

/// The author block of an embed.
#[derive(Debug)]
pub struct EmbedAuthor {
    pub name: String,
    pub url: String,
}

/// A chat-webhook embed.
#[derive(Debug)]
pub struct Embed {
    pub title: String,
    pub description: String,
    pub url: String,
    pub color: u32,
    pub footer: String,
    pub author: Option<EmbedAuthor>,
}

/// A social cast: a text, the links it embeds, and its channel.
#[derive(Debug)]
pub struct Cast {
    pub text: String,
    pub embeds: Vec<String>,
    pub channel: String,
}

/// A webhook message: an optional sender name and avatar, and one embed.
#[derive(Debug)]
pub struct WebhookMessage {
    pub username: Option<String>,
    pub avatar_url: Option<String>,
    pub embed: Embed,
}

/// A message for one sink.
#[derive(Debug)]
pub enum Message {
    Webhook(WebhookMessage),
    Cast(Cast),
}

/// An embed seen as plain sequences.
pub struct EmbedView {
    pub title: Seq<char>,
    pub description: Seq<char>,
    pub url: Seq<char>,
    pub color: u32,
    pub footer: Seq<char>,
    pub author: Option<(Seq<char>, Seq<char>)>,
}

/// A cast seen as plain sequences.
pub struct CastView {
    pub text: Seq<char>,
    pub embeds: Seq<Seq<char>>,
    pub channel: Seq<char>,
}

/// A webhook message seen as plain sequences.
pub struct WebhookView {
    pub username: Option<Seq<char>>,
    pub avatar_url: Option<Seq<char>>,
    pub embed: EmbedView,
}

/// A message seen as plain sequences.
pub enum MessageView {
    Webhook(WebhookView),
    Cast(CastView),
}

/// An optional text seen as an optional sequence.
pub open spec fn opt_view(o: Option<String>) -> Option<Seq<char>> {
    match o {
        Some(s) => Some(s@),
        None => None,
    }
}

impl View for Embed {
    type V = EmbedView;

    open spec fn view(&self) -> EmbedView {
        EmbedView {
            title: self.title@,
            description: self.description@,
            url: self.url@,
            color: self.color,
            footer: self.footer@,
            author: match self.author {
                Some(a) => Some((a.name@, a.url@)),
                None => None,
            },
        }
    }
}

impl View for WebhookMessage {
    type V = WebhookView;

    open spec fn view(&self) -> WebhookView {
        WebhookView {
            username: opt_view(self.username),
            avatar_url: opt_view(self.avatar_url),
            embed: self.embed@,
        }
    }
}

impl View for Cast {
    type V = CastView;

    open spec fn view(&self) -> CastView {
        CastView {
            text: self.text@,
            embeds: self.embeds@.map_values(|s: String| s@),
            channel: self.channel@,
        }
    }
}

impl View for Message {
    type V = MessageView;

    open spec fn view(&self) -> MessageView {
        match self {
            Message::Webhook(w) => MessageView::Webhook(w@),
            Message::Cast(c) => MessageView::Cast(c@),
        }
    }
}

/// The title of the record's own page, for records that have one.
pub open spec fn title_of(e: Entity) -> Seq<char> {
    match e {
        Entity::Proposal(p) => p.title@,
        Entity::Auction(a) => a.title@,
        Entity::Idea(i) => i.title@,
        _ => Seq::empty(),
    }
}

/// The address of whoever created or cast the record, if it has one.
pub open spec fn actor_of(e: Entity) -> Option<Seq<char>> {
    match e {
        Entity::Proposal(p) => Some(p.proposer@),
        Entity::Vote(v) => Some(v.voter@),
        Entity::Idea(i) => Some(i.creator_id@),
        Entity::Comment(c) => Some(c.author_id@),
        Entity::Auction(_) => None,
    }
}

/// The heading word a source uses for each kind.
pub open spec fn heading_noun(w: Wording, e: Entity) -> Seq<char> {
    match e {
        Entity::Proposal(_) => w.proposal_heading@,
        Entity::Vote(_) => w.vote_heading@,
        Entity::Auction(_) => w.auction_heading@,
        Entity::Idea(_) => w.idea_heading@,
        Entity::Comment(_) => w.comment_heading@,
    }
}

/// The noun a source's creation text uses for each kind that has one.
pub open spec fn text_noun(w: Wording, e: Entity) -> Seq<char> {
    match e {
        Entity::Auction(_) => w.auction_noun@,
        Entity::Idea(_) => w.idea_noun@,
        _ => w.proposal_noun@,
    }
}

/// The heading of a message: "New <source> <heading>".
pub open spec fn heading_of(style: SourceStyle, e: Entity) -> Seq<char> {
    "New "@ + style.name@ + " "@ + heading_noun(style.wording, e)
}

/// The descriptive text of a notice; `actor` is the name shown for the
/// acting address.
pub open spec fn text_of(style: SourceStyle, n: Notice, actor: Seq<char>) -> Seq<char> {
    let w = style.wording;
    match n.entity {
        Entity::Vote(v) => actor + " has voted "@ + style.directions.spec_word(v.direction)
            + w.vote_open@ + title_of(n.parent->0) + w.vote_close@,
        Entity::Comment(_) => actor + " has commented on "@ + w.comment_open@ + title_of(
            n.parent->0,
        ) + w.comment_close@,
        _ => "A new "@ + style.name@ + " "@ + text_noun(w, n.entity) + " has been created: "@
            + w.title_open@ + title_of(n.entity) + w.title_close@,
    }
}

/// The page a notice links to: the record's own, or for a vote or a comment
/// the page of the record it refers to.
pub open spec fn target_of(style: SourceStyle, n: Notice) -> Seq<char> {
    match n.entity {
        Entity::Vote(_) => link_of(style.base_url@, n.parent->0.spec_id()),
        Entity::Comment(_) => link_of(style.base_url@, n.parent->0.spec_id()),
        _ => link_of(style.base_url@, n.entity.spec_id()),
    }
}

/// The message a sink sends for a notice.
pub open spec fn message_of(
    style: SourceStyle,
    sink: SinkKind,
    n: Notice,
    actor: Seq<char>,
    footer: Seq<char>,
) -> MessageView {
    match sink {
        SinkKind::Webhook => MessageView::Webhook(
            WebhookView {
                username: opt_view(style.username),
                avatar_url: opt_view(style.avatar_url),
                embed: EmbedView {
                    title: heading_of(style, n.entity),
                    description: text_of(style, n, actor),
                    url: target_of(style, n),
                    color: style.color,
                    footer,
                    author: match actor_of(n.entity) {
                        Some(a) => Some((actor, explorer_of(a))),
                        None => None,
                    },
                },
            },
        ),
        SinkKind::Cast => MessageView::Cast(
            CastView {
                text: text_of(style, n, actor),
                embeds: seq![target_of(style, n)],
                channel: style.channel@,
            },
        ),
    }
}

fn clone_text(o: &Option<String>) -> (r: Option<String>)
    ensures
        opt_view(r) == opt_view(*o),
{
    match o {
        Some(s) => Some(s.clone()),
        None => None,
    }
}

fn title(e: &Entity) -> (r: String)
    ensures
        r@ == title_of(*e),
{
    match e {
        Entity::Proposal(p) => p.title.clone(),
        Entity::Auction(a) => a.title.clone(),
        Entity::Idea(i) => i.title.clone(),
        _ => String::new(),
    }
}

/// The address of whoever created or cast the record, if it has one.
pub fn actor(e: &Entity) -> (r: Option<String>)
    ensures
        match r {
            Some(s) => actor_of(*e) == Some(s@),
            None => actor_of(*e) is None,
        },
{
    match e {
        Entity::Proposal(p) => Some(p.proposer.clone()),
        Entity::Vote(v) => Some(v.voter.clone()),
        Entity::Idea(i) => Some(i.creator_id.clone()),
        Entity::Comment(c) => Some(c.author_id.clone()),
        Entity::Auction(_) => None,
    }
}

fn heading(style: &SourceStyle, e: &Entity) -> (r: String)
    ensures
        r@ == heading_of(*style, *e),
{
    let w = &style.wording;
    let noun: &String = match e {
        Entity::Proposal(_) => &w.proposal_heading,
        Entity::Vote(_) => &w.vote_heading,
        Entity::Auction(_) => &w.auction_heading,
        Entity::Idea(_) => &w.idea_heading,
        Entity::Comment(_) => &w.comment_heading,
    };
    String::from_str("New ").concat(style.name.as_str()).concat(" ").concat(noun.as_str())
}

/// The descriptive text of a notice.
pub fn describe(style: &SourceStyle, n: &Notice, actor: &String) -> (r: String)
    requires
        complete(*n),
    ensures
        r@ == text_of(*style, *n, actor@),
{
    let w = &style.wording;
    match &n.entity {
        Entity::Vote(v) => {
            let parent = n.parent.as_ref().unwrap();
            let word = style.directions.word(v.direction);
            let t = title(parent);
            actor.clone().concat(" has voted ").concat(word.as_str()).concat(
                w.vote_open.as_str(),
            ).concat(t.as_str()).concat(w.vote_close.as_str())
        },
        Entity::Comment(_) => {
            let parent = n.parent.as_ref().unwrap();
            let t = title(parent);
            actor.clone().concat(" has commented on ").concat(w.comment_open.as_str()).concat(
                t.as_str(),
            ).concat(w.comment_close.as_str())
        },
        _ => {
            let noun: &String = match &n.entity {
                Entity::Auction(_) => &w.auction_noun,
                Entity::Idea(_) => &w.idea_noun,
                _ => &w.proposal_noun,
            };
            let t = title(&n.entity);
            String::from_str("A new ").concat(style.name.as_str()).concat(" ").concat(
                noun.as_str(),
            ).concat(" has been created: ").concat(w.title_open.as_str()).concat(
                t.as_str(),
            ).concat(w.title_close.as_str())
        },
    }
}

fn target(style: &SourceStyle, n: &Notice) -> (r: String)
    requires
        complete(*n),
    ensures
        r@ == target_of(*style, *n),
{
    match &n.entity {
        Entity::Vote(_) | Entity::Comment(_) => {
            let parent = n.parent.as_ref().unwrap();
            entity_link(&style.base_url, parent.id())
        },
        _ => entity_link(&style.base_url, n.entity.id()),
    }
}

/// The message that `sink` sends for `n`; `actor` is the name shown for the
/// acting address and `footer` the time stamp of a webhook embed.
pub fn render(style: &SourceStyle, sink: SinkKind, n: &Notice, actor_name: &String, footer: &String) -> (r:
    Message)
    requires
        complete(*n),
    ensures
        r@ == message_of(*style, sink, *n, actor_name@, footer@),
{
    let text = describe(style, n, actor_name);
    let url = target(style, n);
    match sink {
        SinkKind::Webhook => {
            let author = match actor(&n.entity) {
                Some(a) => Some(EmbedAuthor { name: actor_name.clone(), url: explorer_link(&a) }),
                None => None,
            };
            let embed = Embed {
                title: heading(style, &n.entity),
                description: text,
                url,
                color: style.color,
                footer: footer.clone(),
                author,
            };
            Message::Webhook(
                WebhookMessage {
                    username: clone_text(&style.username),
                    avatar_url: clone_text(&style.avatar_url),
                    embed,
                },
            )
        },
        SinkKind::Cast => {
            let mut embeds: Vec<String> = Vec::new();
            embeds.push(url);
            let r = Cast { text, embeds, channel: style.channel.clone() };
            assert(r@.embeds =~= seq![target_of(*style, *n)]);
            Message::Cast(r)
        },
    }
}


/// Between sources of the same wording, the text of a vote depends on the
/// source only through its word for the vote's direction: two such sources
/// render the same vote alike exactly when their tables give the same word.
pub proof fn lemma_vote_text_follows_table(
    s1: SourceStyle,
    s2: SourceStyle,
    n: Notice,
    actor: Seq<char>,
)
    requires
        n.entity is Vote,
        s1.wording == s2.wording,
    ensures
        text_of(s1, n, actor) == text_of(s2, n, actor) <==> s1.directions.spec_word(
            n.entity->Vote_0.direction,
        ) == s2.directions.spec_word(n.entity->Vote_0.direction),
{
    let d = n.entity->Vote_0.direction;
    let w1 = s1.directions.spec_word(d);
    let w2 = s2.directions.spec_word(d);
    let head = actor + " has voted "@;
    let tail = s1.wording.vote_open@ + title_of(n.parent->0) + s1.wording.vote_close@;
    assert(text_of(s1, n, actor) =~= head + w1 + tail);
    assert(text_of(s2, n, actor) =~= head + w2 + tail);
    if text_of(s1, n, actor) == text_of(s2, n, actor) {
        assert(w1.len() == w2.len());
        assert((head + w1 + tail).subrange(head.len() as int, head.len() + w1.len() as int) =~= w1);
        assert((head + w2 + tail).subrange(head.len() as int, head.len() + w2.len() as int) =~= w2);
    }
}

} // verus!
