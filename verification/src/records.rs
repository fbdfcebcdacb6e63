//! The transfer records that travel between the user interface and the tool.
//!
//! They carry no invariant beyond the presence of their fields and are never
//! changed once built.

use vstd::prelude::*;

verus! {

/// A feed that the user subscribed to.
#[derive(Debug, Clone, PartialEq, Eq)]
pub struct RssSource {
    pub name: String,
    pub url: String,
    /// Only entries that match this expression are taken, if it is given.
    pub filter: Option<String>,
    /// The cloud folder that receives the downloads, if one was chosen.
    pub cid: Option<String>,
    pub site: String,
}

/// A snapshot of the user's settings.
#[derive(Debug, Clone, PartialEq, Eq)]
pub struct Settings {
    pub http_proxy: Option<String>,
    pub https_proxy: Option<String>,
    pub server_mode: bool,
    pub server_port: String,
}

/// One entry of the tool's task queue, as the tool reports it.
#[derive(Debug, Clone, PartialEq, Eq)]
pub struct Task {
    pub id: String,
    pub name: String,
    pub status: String,
    pub progress: i32,
    pub created_at: String,
}

/// Whether the tool holds a valid login, and what it said about it.
#[derive(Debug, Clone, PartialEq, Eq)]
pub struct LoginStatus {
    pub success: bool,
    pub message: Option<String>,
}

/// A folder of the cloud drive.
#[derive(Debug, Clone, PartialEq, Eq)]
pub struct FolderInfo {
    pub cid: String,
    pub name: String,
    pub parent_id: String,
}

/// What a [`LoginStatus`] says, with its message as a sequence of characters.
pub struct LoginStatusView {
    pub success: bool,
    pub message: Option<Seq<char>>,
}

impl View for LoginStatus {
    type V = LoginStatusView;

    open spec fn view(&self) -> LoginStatusView {
        LoginStatusView {
            success: self.success,
            message: match self.message {
                Some(text) => Some(text@),
                None => None,
            },
        }
    }
}

} // verus!
