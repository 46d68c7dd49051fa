//! Serving uploaded files back: where an asset is looked up, and the reply
//! when it is missing.

use crate::upload::upload_location;
use vstd::prelude::*;
use vstd::string::*;

verus! {

/// The reply to a request for an asset.
pub struct AssetReply {
    pub status: u16,
    /// `None`: the body is the file's content, streamed by the caller.
    pub body: Option<String>,
}

/// The path at which an asset requested as `name` is looked up.
pub open spec fn asset_location(name: Seq<char>) -> Seq<char> {
    "uploads/"@ + name
}

/// Where the asset requested as `name` is looked up: `uploads/<name>`.
pub fn asset_path(name: &str) -> (path: String)
    ensures
        path@ == asset_location(name@),
{
    let mut path = String::from_str("uploads/");
    path.append(name);
    path
}

/// An upload is served back under its own name: the path looked up for an
/// asset named `name` is the path an upload named `name` was stored at.
pub proof fn lemma_assets_served_where_stored(name: Seq<char>)
    ensures
        asset_location(name) == upload_location(name),
{
}

/// The reply to an asset request, given whether the file could be opened:
/// its content with status 200, or status 404 and "File not found".
pub fn asset_reply(opened: bool) -> (reply: AssetReply)
    ensures
        opened ==> reply.status == 200 && reply.body is None,
        !opened ==> reply.status == 404 && (reply.body matches Some(b) && b@ == "File not found"@),
{
    if opened {
        AssetReply { status: 200, body: None }
    } else {
        AssetReply { status: 404, body: Some(String::from_str("File not found")) }
    }
}

} // verus!
