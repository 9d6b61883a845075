use vstd::prelude::*;

verus! {

/// The stable kinds under which every failure is reported to the caller.
#[derive(Clone, Copy, Debug, PartialEq, Eq, Structural)]
pub enum ErrorKind {
    /// The payload does not have the shape of the object it was read as.
    MalformedObject,
    /// A two-actor attribution names no person.
    MissingCreator,
    /// A two-actor attribution names no group.
    MissingGroup,
    /// No entry of the addressing list resolved to a community.
    NoCommunityFoundInAddressing,
    /// The audience names another community than the one resolved.
    AudienceMismatch,
    /// A downvote was submitted while the site has downvotes switched off.
    DownvotesDisabled,
    /// The actor is banned from the community that owns the post.
    ActorBanned,
    /// The community is unknown, deleted or removed.
    CommunityUnavailable,
    /// No post has the requested identifier.
    PostNotFound,
    /// The vote could not be written.
    VoteWriteFailed,
    /// The post could not be written.
    PostWriteFailed,
    /// A remote identity could not be fetched.
    UpstreamDereferenceFailed,
    /// A collaborator answered something other than what it was asked.
    UnexpectedEvent,
}

} // verus!
