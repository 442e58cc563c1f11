use gov_notifier::body::body;
use gov_notifier::cycle::{is_complete, Notice};
use gov_notifier::entity::{Auction, Comment, Entity, Idea, Proposal, Vote};
use gov_notifier::handler::{DiscordHandler, FarcasterHandler};
use gov_notifier::message::{actor, describe, render, Message, SinkKind, SourceStyle, Wording};
use gov_notifier::text::{decimal, display_name, entity_link, explorer_link, short_address, DirectionTable};

fn style(directions: DirectionTable) -> SourceStyle {
    SourceStyle {
        name: "Lil Nouns".to_string(),
        base_url: "https://lilnouns.wtf/vote".to_string(),
        color: 0x7BC4F2,
        channel: "lil-nouns".to_string(),
        directions,
        wording: Wording::quoted(),
        username: None,
        avatar_url: None,
    }
}

fn prop_lot_style() -> SourceStyle {
    SourceStyle {
        name: "Prop Lot".to_string(),
        base_url: "https://lilnouns.wtf/ideas/idea".to_string(),
        color: 0xFFB911,
        channel: "lil-nouns".to_string(),
        directions: DirectionTable::for_or_against(),
        wording: Wording::ideas_as_proposals(),
        username: None,
        avatar_url: None,
    }
}

fn vote_notice(direction: u64) -> Notice {
    Notice {
        entity: Entity::Vote(Vote { id: 7, parent_id: 3, voter: "0xabc".to_string(), direction }),
        parent: Some(Entity::Proposal(Proposal {
            id: 3,
            title: "Fund it".to_string(),
            proposer: "0xdef".to_string(),
        })),
    }
}

#[test]
fn same_direction_reads_per_source_table() {
    let n = vote_notice(1);
    let a = describe(&style(DirectionTable::against_for_abstain()), &n, &"alice.eth".to_string());
    let b = describe(&style(DirectionTable::for_against_abstain()), &n, &"alice.eth".to_string());
    assert!(a.contains("for"));
    assert!(!a.contains("against"));
    assert!(b.contains("against"));
    assert_eq!(a, "alice.eth has voted for “Fund it” proposal.");
    assert_eq!(b, "alice.eth has voted against “Fund it” proposal.");
}

#[test]
fn direction_tables_words() {
    let t = DirectionTable::against_for_abstain();
    assert_eq!(t.word(0), "against");
    assert_eq!(t.word(2), "abstain on");
    assert_eq!(t.word(9), "unknown");
    let m = DirectionTable::for_against_abstain();
    assert_eq!(m.word(0), "for");
    assert_eq!(m.word(5), "abstain on");
    let p = DirectionTable::for_or_against();
    assert_eq!(p.word(1), "for");
    assert_eq!(p.word(0), "against");
}

#[test]
fn decimal_forms() {
    assert_eq!(decimal(0), "0");
    assert_eq!(decimal(42), "42");
    assert_eq!(decimal(u64::MAX), "18446744073709551615");
}

#[test]
fn addresses_shortened() {
    let a = "0x1234567890abcdef1234567890abcdef12345678".to_string();
    assert_eq!(short_address(&a), "0x12...5678");
    assert_eq!(short_address(&"0xabc".to_string()), "0xabc");
    assert_eq!(display_name(None, &a), "0x12...5678");
    assert_eq!(display_name(Some("bob.eth".to_string()), &a), "bob.eth");
    assert_eq!(explorer_link(&"0xabc".to_string()), "https://etherscan.io/address/0xabc");
    assert_eq!(entity_link(&"https://x.io/idea".to_string(), 12), "https://x.io/idea/12");
}

#[test]
fn proposal_embed_fields() {
    let s = style(DirectionTable::against_for_abstain());
    let n = Notice {
        entity: Entity::Proposal(Proposal { id: 4, title: "Build".to_string(), proposer: "0xp".to_string() }),
        parent: None,
    };
    assert!(is_complete(&n));
    assert_eq!(actor(&n.entity), Some("0xp".to_string()));
    match render(&s, SinkKind::Webhook, &n, &"carol".to_string(), &"01/02/2024 03:04 PM".to_string()) {
        Message::Webhook(w) => {
            let e = w.embed;
            assert_eq!(e.title, "New Lil Nouns Proposal");
            assert_eq!(e.description, "A new Lil Nouns proposal has been created: “Build”");
            assert_eq!(e.url, "https://lilnouns.wtf/vote/4");
            assert_eq!(e.color, 0x7BC4F2);
            assert_eq!(e.footer, "01/02/2024 03:04 PM");
            let author = e.author.unwrap();
            assert_eq!(author.name, "carol");
            assert_eq!(author.url, "https://etherscan.io/address/0xp");
        }
        Message::Cast(_) => panic!("expected an embed"),
    }
}

#[test]
fn comment_and_idea_and_auction_texts() {
    let s = style(DirectionTable::for_or_against());
    let idea = Entity::Idea(Idea { id: 2, title: "Parks".to_string(), creator_id: "0xc".to_string() });
    let c = Notice {
        entity: Entity::Comment(Comment { id: 9, idea_id: 2, author_id: "0xd".to_string() }),
        parent: Some(idea.clone()),
    };
    assert_eq!(describe(&s, &c, &"dan".to_string()), "dan has commented on “Parks”");
    let i = Notice { entity: idea, parent: None };
    assert_eq!(describe(&s, &i, &"x".to_string()), "A new Lil Nouns idea has been created: “Parks”");
    let a = Notice { entity: Entity::Auction(Auction { id: 1, title: "Round 1".to_string() }), parent: None };
    assert_eq!(actor(&a.entity), None);
    match render(&s, SinkKind::Webhook, &a, &"".to_string(), &"t".to_string()) {
        Message::Webhook(w) => {
            let e = w.embed;
            assert_eq!(e.title, "New Lil Nouns Auction");
            assert!(e.author.is_none());
        }
        Message::Cast(_) => panic!("expected an embed"),
    }
    let incomplete = Notice {
        entity: Entity::Comment(Comment { id: 9, idea_id: 2, author_id: "0xd".to_string() }),
        parent: None,
    };
    assert!(!is_complete(&incomplete));
}

#[test]
fn webhook_body_is_json() {
    let h = DiscordHandler::new(style(DirectionTable::against_for_abstain()), "https://hook".to_string());
    let req = h.request(&vote_notice(0), &"say \"hi\"".to_string(), &"now".to_string());
    assert_eq!(req.url, "https://hook");
    assert!(req.authorization.is_none());
    let v: serde_json::Value = serde_json::from_str(&req.body).unwrap();
    let e = &v["embeds"][0];
    assert_eq!(e["title"], "New Lil Nouns Proposal Vote");
    assert_eq!(e["description"], "say \"hi\" has voted against “Fund it” proposal.");
    assert_eq!(e["url"], "https://lilnouns.wtf/vote/3");
    assert_eq!(e["color"], 0x7BC4F2);
    assert_eq!(e["footer"]["text"], "now");
    assert_eq!(e["author"]["name"], "say \"hi\"");
    assert_eq!(e["author"]["url"], "https://etherscan.io/address/0xabc");
}

#[test]
fn cast_request_carries_token_and_link() {
    let h = FarcasterHandler::new(style(DirectionTable::for_against_abstain()), "tok".to_string());
    let req = h.request(&vote_notice(0), &"eve".to_string());
    assert_eq!(req.url, "https://api.warpcast.com/v2/casts");
    assert_eq!(req.authorization, Some("Bearer tok".to_string()));
    assert_eq!(
        req.body,
        "{\"channelKey\":\"lil-nouns\",\"embeds\":[\"https://lilnouns.wtf/vote/3\"],\"text\":\"eve has voted for “Fund it” proposal.\"}"
    );
    let m = render(&h.style, SinkKind::Cast, &vote_notice(1), &"eve".to_string(), &String::new());
    let parsed: serde_json::Value = serde_json::from_str(&body(&m)).unwrap();
    assert_eq!(parsed["text"], "eve has voted against “Fund it” proposal.");
    assert_eq!(parsed["embeds"][0], "https://lilnouns.wtf/vote/3");
}

#[test]
fn webhook_sets_username_and_avatar() {
    let mut s = style(DirectionTable::against_for_abstain());
    s.username = Some("Raven".to_string());
    s.avatar_url = Some("https://i.imgur.com/OtfcHnu.png".to_string());
    let n = Notice {
        entity: Entity::Auction(Auction { id: 5, title: "Tab\there".to_string() }),
        parent: None,
    };
    let m = render(&s, SinkKind::Webhook, &n, &String::new(), &"now".to_string());
    assert_eq!(
        body(&m),
        "{\"avatar_url\":\"https://i.imgur.com/OtfcHnu.png\",\"embeds\":[{\"color\":8111346,\"description\":\"A new Lil Nouns auction has been created: “Tab\\there”\",\"footer\":{\"text\":\"now\"},\"title\":\"New Lil Nouns Auction\",\"url\":\"https://lilnouns.wtf/vote/5\"}],\"username\":\"Raven\"}"
    );
}

#[test]
fn prop_lot_wording() {
    let s = prop_lot_style();
    let idea = Entity::Idea(Idea { id: 2, title: "Parks".to_string(), creator_id: "0xc".to_string() });
    let v = Notice {
        entity: Entity::Vote(Vote { id: 8, parent_id: 2, voter: "0xv".to_string(), direction: 1 }),
        parent: Some(idea.clone()),
    };
    assert_eq!(describe(&s, &v, &"0x12...5678".to_string()), "0x12...5678 has voted for Proposal (Parks)");
    let c = Notice {
        entity: Entity::Comment(Comment { id: 9, idea_id: 2, author_id: "0xd".to_string() }),
        parent: Some(idea.clone()),
    };
    match render(&s, SinkKind::Webhook, &c, &"dan".to_string(), &"t".to_string()) {
        Message::Webhook(w) => {
            assert_eq!(w.embed.title, "New Prop Lot Proposal Comment");
            assert_eq!(w.embed.description, "dan has commented on Proposal (Parks)");
            assert_eq!(w.embed.url, "https://lilnouns.wtf/ideas/idea/2");
        }
        Message::Cast(_) => panic!("expected a webhook message"),
    }
    let i = Notice { entity: idea, parent: None };
    match render(&s, SinkKind::Webhook, &i, &"x".to_string(), &"t".to_string()) {
        Message::Webhook(w) => {
            assert_eq!(w.embed.title, "New Prop Lot Proposal");
            assert_eq!(w.embed.description, "A new Prop Lot proposal has been created: Parks");
        }
        Message::Cast(_) => panic!("expected a webhook message"),
    }
}

#[test]
fn json_escapes_control_characters() {
    let h = FarcasterHandler::new(style(DirectionTable::for_or_against()), "t".to_string());
    let n = Notice {
        entity: Entity::Auction(Auction { id: 1, title: "a\u{1}b\\".to_string() }),
        parent: None,
    };
    let req = h.request(&n, &String::new());
    assert!(req.body.contains("“a\\u0001b\\\\”"));
}
