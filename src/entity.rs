//! Governance entities as fetched from a source.
use vstd::prelude::*;

verus! {

/// The kinds of entity a source can report.
#[derive(Clone, Copy, Debug, PartialEq, Eq, Structural)]
pub enum EntityKind {
    Proposal,
    Vote,
    Auction,
    Idea,
    Comment,
}

/// A proposal put up for a vote.
#[derive(Debug)]
pub struct Proposal {
    pub id: u64,
    pub title: String,
    pub proposer: String,
}

/// A vote cast on a proposal or an idea; `parent_id` names it, and the
/// meaning of `direction` depends on the source.
#[derive(Debug)]
pub struct Vote {
    pub id: u64,
    pub parent_id: u64,
    pub voter: String,
    pub direction: u64,
}

/// An auction round.
#[derive(Debug)]
pub struct Auction {
    pub id: u64,
    pub title: String,
}

/// An idea submitted for discussion.
#[derive(Debug)]
pub struct Idea {
    pub id: u64,
    pub title: String,
    pub creator_id: String,
}

/// A comment on an idea.
#[derive(Debug)]
pub struct Comment {
    pub id: u64,
    pub idea_id: u64,
    pub author_id: String,
}

/// One record of any kind.
#[derive(Debug)]
pub enum Entity {
    Proposal(Proposal),
    Vote(Vote),
    Auction(Auction),
    Idea(Idea),
    Comment(Comment),
}

impl Clone for Proposal {
    fn clone(&self) -> (r: Self)
        ensures
            r == *self,
    {
        Proposal { id: self.id, title: self.title.clone(), proposer: self.proposer.clone() }
    }
}

impl Clone for Vote {
    fn clone(&self) -> (r: Self)
        ensures
            r == *self,
    {
        Vote {
            id: self.id,
            parent_id: self.parent_id,
            voter: self.voter.clone(),
            direction: self.direction,
        }
    }
}

impl Clone for Auction {
    fn clone(&self) -> (r: Self)
        ensures
            r == *self,
    {
        Auction { id: self.id, title: self.title.clone() }
    }
}

impl Clone for Idea {
    fn clone(&self) -> (r: Self)
        ensures
            r == *self,
    {
        Idea { id: self.id, title: self.title.clone(), creator_id: self.creator_id.clone() }
    }
}

impl Clone for Comment {
    fn clone(&self) -> (r: Self)
        ensures
            r == *self,
    {
        Comment { id: self.id, idea_id: self.idea_id, author_id: self.author_id.clone() }
    }
}

impl Clone for Entity {
    fn clone(&self) -> (r: Self)
        ensures
            r == *self,
    {
        match self {
            Entity::Proposal(p) => Entity::Proposal(p.clone()),
            Entity::Vote(v) => Entity::Vote(v.clone()),
            Entity::Auction(a) => Entity::Auction(a.clone()),
            Entity::Idea(i) => Entity::Idea(i.clone()),
            Entity::Comment(c) => Entity::Comment(c.clone()),
        }
    }
}

impl Entity {
    /// The identifier of the record, unique within its source and kind.
    pub open spec fn spec_id(&self) -> u64 {
        match self {
            Entity::Proposal(p) => p.id,
            Entity::Vote(v) => v.id,
            Entity::Auction(a) => a.id,
            Entity::Idea(i) => i.id,
            Entity::Comment(c) => c.id,
        }
    }

    pub open spec fn spec_kind(&self) -> EntityKind {
        match self {
            Entity::Proposal(_) => EntityKind::Proposal,
            Entity::Vote(_) => EntityKind::Vote,
            Entity::Auction(_) => EntityKind::Auction,
            Entity::Idea(_) => EntityKind::Idea,
            Entity::Comment(_) => EntityKind::Comment,
        }
    }

    /// The identifier of the record this one refers to, for votes and comments.
    pub open spec fn spec_parent_id(&self) -> Option<u64> {
        match self {
            Entity::Vote(v) => Some(v.parent_id),
            Entity::Comment(c) => Some(c.idea_id),
            _ => None,
        }
    }

    pub fn id(&self) -> (r: u64)
        ensures
            r == self.spec_id(),
    {
        match self {
            Entity::Proposal(p) => p.id,
            Entity::Vote(v) => v.id,
            Entity::Auction(a) => a.id,
            Entity::Idea(i) => i.id,
            Entity::Comment(c) => c.id,
        }
    }

    pub fn kind(&self) -> (r: EntityKind)
        ensures
            r == self.spec_kind(),
    {
        match self {
            Entity::Proposal(_) => EntityKind::Proposal,
            Entity::Vote(_) => EntityKind::Vote,
            Entity::Auction(_) => EntityKind::Auction,
            Entity::Idea(_) => EntityKind::Idea,
            Entity::Comment(_) => EntityKind::Comment,
        }
    }

    pub fn parent_id(&self) -> (r: Option<u64>)
        ensures
            r == self.spec_parent_id(),
    {
        match self {
            Entity::Vote(v) => Some(v.parent_id),
            Entity::Comment(c) => Some(c.idea_id),
            _ => None,
        }
    }
}

} // verus!
