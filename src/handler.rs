//! Notification sinks: each turns a notice into the HTTP request that
//! delivers it. Sending the request is left to the caller.
use vstd::prelude::*;
use vstd::string::*;

use crate::body::{body, body_of};
use crate::cycle::{complete, Notice};
use crate::message::{message_of, render, SinkKind, SourceStyle};

verus! {

/// An HTTP POST with a JSON body.
#[derive(Debug)]
pub struct HttpRequest {
    pub url: String,
    /// The value of the `Authorization` header, if one is sent.
    pub authorization: Option<String>,
    pub body: String,
}

/// The endpoint that casts are posted to.
pub open spec fn casts_endpoint() -> Seq<char> {
    "https://api.warpcast.com/v2/casts"@
}

/// A sink that posts embeds to a chat webhook.
#[derive(Debug)]
pub struct DiscordHandler {
    pub style: SourceStyle,
    pub webhook_url: String,
}

/// A sink that posts casts with a bearer token.
#[derive(Debug)]
pub struct FarcasterHandler {
    pub style: SourceStyle,
    pub bearer_token: String,
}

impl DiscordHandler {
    pub fn new(style: SourceStyle, webhook_url: String) -> (r: DiscordHandler)
        ensures
            r.style == style,
            r.webhook_url == webhook_url,
    {
        DiscordHandler { style, webhook_url }
    }

    /// The request that delivers `n`; `actor_name` is the name shown for the
    /// acting address and `footer` the time stamp of the embed.
    pub fn request(&self, n: &Notice, actor_name: &String, footer: &String) -> (r: HttpRequest)
        requires
            complete(*n),
        ensures
            r.url@ == self.webhook_url@,
            r.authorization is None,
            r.body@ == body_of(message_of(self.style, SinkKind::Webhook, *n, actor_name@, footer@)),
    {
        let m = render(&self.style, SinkKind::Webhook, n, actor_name, footer);
        HttpRequest { url: self.webhook_url.clone(), authorization: None, body: body(&m) }
    }
}

impl FarcasterHandler {
    pub fn new(style: SourceStyle, bearer_token: String) -> (r: FarcasterHandler)
        ensures
            r.style == style,
            r.bearer_token == bearer_token,
    {
        FarcasterHandler { style, bearer_token }
    }

    /// The request that delivers `n`, authorised by the bearer token;
    /// `actor_name` is the name shown for the acting address.
    pub fn request(&self, n: &Notice, actor_name: &String) -> (r: HttpRequest)
        requires
            complete(*n),
        ensures
            r.url@ == casts_endpoint(),
            r.authorization is Some,
            r.authorization->0@ == "Bearer "@ + self.bearer_token@,
            r.body@ == body_of(
                message_of(self.style, SinkKind::Cast, *n, actor_name@, Seq::<char>::empty()),
            ),
    {
        let none = String::new();
        let m = render(&self.style, SinkKind::Cast, n, actor_name, &none);
        HttpRequest {
            url: String::from_str("https://api.warpcast.com/v2/casts"),
            authorization: Some(String::from_str("Bearer ").concat(self.bearer_token.as_str())),
            body: body(&m),
        }
    }
}

} // verus!
