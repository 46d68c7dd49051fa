use vstd::prelude::*;

verus! {

/// A message exchanged over the websocket, in either direction.
#[derive(Debug, PartialEq)]
pub enum WsMessage {
    Media(MediaMessage),
    ClientCount(ClientCountMessage),
}

/// The author of a media message.
#[derive(Debug, Clone, PartialEq)]
pub struct User {
    username: String,
}

/// A piece of media to show to every connected client, with the texts to
/// overlay on it, who sent it, and how long (in milliseconds) it stays up.
#[derive(Debug, Clone, PartialEq)]
pub struct MediaMessage {
    media_url: String,
    top_message: String,
    bottom_message: String,
    sender: User,
    timeout: u64,
}

/// The number of clients currently connected.
#[derive(Debug, PartialEq, Eq, Structural)]
pub struct ClientCountMessage {
    client_count: u64,
}

/// What a media message says, as plain values.
pub struct MediaMessageView {
    pub media_url: Seq<char>,
    pub top_message: Seq<char>,
    pub bottom_message: Seq<char>,
    pub sender: Seq<char>,
    pub timeout: u64,
}

impl View for User {
    type V = Seq<char>;

    closed spec fn view(&self) -> Seq<char> {
        self.username@
    }
}

impl User {
    pub fn new(username: String) -> (u: Self)
        ensures
            u@ == username@,
    {
        User { username }
    }

    pub fn username(&self) -> (name: &String)
        ensures
            name@ == self@,
    {
        &self.username
    }
}

impl View for MediaMessage {
    type V = MediaMessageView;

    closed spec fn view(&self) -> MediaMessageView {
        MediaMessageView {
            media_url: self.media_url@,
            top_message: self.top_message@,
            bottom_message: self.bottom_message@,
            sender: self.sender@,
            timeout: self.timeout,
        }
    }
}

impl MediaMessage {
    pub fn new(
        media_url: String,
        top_message: String,
        bottom_message: String,
        sender: User,
        timeout: u64,
    ) -> (m: Self)
        ensures
            m@ == (MediaMessageView {
                media_url: media_url@,
                top_message: top_message@,
                bottom_message: bottom_message@,
                sender: sender@,
                timeout,
            }),
    {
        MediaMessage { media_url, top_message, bottom_message, sender, timeout }
    }

    pub fn media_url(&self) -> (r: &String)
        ensures
            r@ == self@.media_url,
    {
        &self.media_url
    }

    pub fn top_message(&self) -> (r: &String)
        ensures
            r@ == self@.top_message,
    {
        &self.top_message
    }

    pub fn bottom_message(&self) -> (r: &String)
        ensures
            r@ == self@.bottom_message,
    {
        &self.bottom_message
    }

    pub fn sender(&self) -> (r: &User)
        ensures
            r@ == self@.sender,
    {
        &self.sender
    }

    /// How long the media stays on screen, in milliseconds.
    pub fn timeout(&self) -> (r: u64)
        ensures
            r == self@.timeout,
    {
        self.timeout
    }
}

impl ClientCountMessage {
    pub closed spec fn spec_client_count(&self) -> u64 {
        self.client_count
    }

    pub fn new(client_count: u64) -> (m: Self)
        ensures
            m.client_count() == client_count,
    {
        Self { client_count }
    }

    #[verifier::when_used_as_spec(spec_client_count)]
    pub fn client_count(&self) -> (n: u64)
        ensures
            n == self.client_count(),
    {
        self.client_count
    }
}

} // verus!
