use vstd::prelude::*;

use crate::post::{clone_string, req_valid, CreatePostRequest, ReqV};
use crate::remote_file::FetchError;
use crate::store::StoreFailure;

verus! {

/// How a creation attempt ends, as the HTTP layer reports it.
#[derive(Clone, Copy, PartialEq, Eq, Debug)]
pub enum Outcome {
    /// The post was created; the response carries its identifier.
    Created { id: i64 },
    /// The request failed validation; nothing was done.
    InvalidRequest,
    /// A persist, fetch or store step failed.
    ServerError,
}

/// Mathematical view of an action.
pub enum ActionV {
    PersistThumbnail { dest: Seq<char> },
    FetchAvatar { url: Seq<char>, dest: Seq<char> },
    InsertPost {
        content: Seq<char>,
        user: Seq<char>,
        avatar_url: Option<Seq<char>>,
        thumbnail_url: Option<Seq<char>>,
    },
    Respond { outcome: Outcome },
    CleanupAndFail { thumbnail_dest: Seq<char>, avatar_dest: Seq<char> },
}

/// What the pipeline asks its driver to do next. The driver performs the
/// side effect and reports the result back through the matching method.
pub enum Action {
    /// Persist the uploaded thumbnail file to `dest`, then report back.
    PersistThumbnail { dest: String },
    /// Fetch `url`, validate the body as PNG, write it to `dest`, then
    /// report back.
    FetchAvatar { url: String, dest: String },
    /// Insert the post into the store, then report back.
    InsertPost {
        content: String,
        user: String,
        avatar_url: Option<String>,
        thumbnail_url: Option<String>,
    },
    /// Terminal: answer the client with the outcome.
    Respond { outcome: Outcome },
    /// Terminal: delete any file at both candidate paths (best-effort; a
    /// missing file is a no-op, errors are ignored and never replace the
    /// original failure), then answer the client with a server error.
    CleanupAndFail { thumbnail_dest: String, avatar_dest: String },
}

impl View for Action {
    type V = ActionV;

    open spec fn view(&self) -> ActionV {
        match self {
            Action::PersistThumbnail { dest } => ActionV::PersistThumbnail { dest: dest@ },
            Action::FetchAvatar { url, dest } => ActionV::FetchAvatar { url: url@, dest: dest@ },
            Action::InsertPost { content, user, avatar_url, thumbnail_url } => {
                ActionV::InsertPost {
                    content: content@,
                    user: user@,
                    avatar_url: crate::post::opt_str_view(*avatar_url),
                    thumbnail_url: crate::post::opt_str_view(*thumbnail_url),
                }
            },
            Action::Respond { outcome } => ActionV::Respond { outcome: *outcome },
            Action::CleanupAndFail { thumbnail_dest, avatar_dest } => {
                ActionV::CleanupAndFail {
                    thumbnail_dest: thumbnail_dest@,
                    avatar_dest: avatar_dest@,
                }
            },
        }
    }
}

/// Which report the pipeline is waiting for.
#[derive(Clone, Copy, PartialEq, Eq, Debug)]
pub enum PipelineState {
    AwaitingPersist,
    AwaitingFetch,
    AwaitingInsert,
    Done,
}

/// Mathematical view of a pipeline.
pub struct PipelineV {
    pub req: ReqV,
    pub filename: Seq<char>,
    pub state: PipelineState,
}

/// The post-creation pipeline as a state machine: it validates the
/// request, then orders the conditional persist, the conditional fetch and
/// the store insert one at a time, and on any failure after filename
/// derivation orders best-effort deletion of both candidate file paths, so
/// that no orphan file and no partial row survives a failed attempt.
pub struct Pipeline {
    pub req: CreatePostRequest,
    pub filename: String,
    pub state: PipelineState,
}

impl View for Pipeline {
    type V = PipelineV;

    open spec fn view(&self) -> PipelineV {
        PipelineV { req: self.req@, filename: self.filename@, state: self.state }
    }
}

/// The destination path of the uploaded thumbnail for one attempt.
pub open spec fn thumbnail_dest_view(filename: Seq<char>) -> Seq<char> {
    "images/thumbnails/"@ + filename
}

/// The destination path of the fetched avatar for one attempt.
pub open spec fn avatar_dest_view(filename: Seq<char>) -> Seq<char> {
    "images/avatars/"@ + filename
}

/// Builds the thumbnail destination path for a filename.
pub fn thumbnail_dest(filename: &str) -> (r: String)
    ensures
        r@ == thumbnail_dest_view(filename@),
{
    let mut s = String::from_str("images/thumbnails/");
    s.append(filename);
    s
}

/// Builds the avatar destination path for a filename.
pub fn avatar_dest(filename: &str) -> (r: String)
    ensures
        r@ == avatar_dest_view(filename@),
{
    let mut s = String::from_str("images/avatars/");
    s.append(filename);
    s
}

/// First transition: an invalid request is answered at once with no side
/// effect; otherwise the first pending step is ordered — thumbnail persist
/// if a thumbnail came with the request, else avatar fetch if a source URL
/// did, else the store insert with both paths absent.
pub open spec fn start_spec(req: ReqV, filename: Seq<char>) -> (PipelineV, ActionV) {
    if !req_valid(req) {
        (
            PipelineV { req, filename, state: PipelineState::Done },
            ActionV::Respond { outcome: Outcome::InvalidRequest },
        )
    } else if req.has_thumbnail {
        (
            PipelineV { req, filename, state: PipelineState::AwaitingPersist },
            ActionV::PersistThumbnail { dest: thumbnail_dest_view(filename) },
        )
    } else if req.avatar_url is Some {
        (
            PipelineV { req, filename, state: PipelineState::AwaitingFetch },
            ActionV::FetchAvatar {
                url: req.avatar_url->Some_0,
                dest: avatar_dest_view(filename),
            },
        )
    } else {
        (
            PipelineV { req, filename, state: PipelineState::AwaitingInsert },
            ActionV::InsertPost {
                content: req.content,
                user: req.user,
                avatar_url: Option::None,
                thumbnail_url: Option::None,
            },
        )
    }
}

/// Transition on the thumbnail persist report: a failure ends the attempt
/// with cleanup of both candidate paths; on success the avatar fetch is
/// ordered if a source URL is present, else the insert, which now carries
/// the thumbnail path.
pub open spec fn on_persist_spec(p: PipelineV, ok: bool) -> (PipelineV, ActionV) {
    if !ok {
        (
            PipelineV { state: PipelineState::Done, ..p },
            ActionV::CleanupAndFail {
                thumbnail_dest: thumbnail_dest_view(p.filename),
                avatar_dest: avatar_dest_view(p.filename),
            },
        )
    } else if p.req.avatar_url is Some {
        (
            PipelineV { state: PipelineState::AwaitingFetch, ..p },
            ActionV::FetchAvatar {
                url: p.req.avatar_url->Some_0,
                dest: avatar_dest_view(p.filename),
            },
        )
    } else {
        (
            PipelineV { state: PipelineState::AwaitingInsert, ..p },
            ActionV::InsertPost {
                content: p.req.content,
                user: p.req.user,
                avatar_url: Option::None,
                thumbnail_url: Option::Some(thumbnail_dest_view(p.filename)),
            },
        )
    }
}

/// Transition on the avatar fetch report: any failure ends the attempt
/// with cleanup of both candidate paths (in particular of a thumbnail
/// persisted earlier); on success the insert is ordered, carrying the
/// avatar path and the thumbnail path exactly when the request had a
/// thumbnail.
pub open spec fn on_fetch_spec(p: PipelineV, r: Result<(), FetchError>) -> (PipelineV, ActionV) {
    if r is Err {
        (
            PipelineV { state: PipelineState::Done, ..p },
            ActionV::CleanupAndFail {
                thumbnail_dest: thumbnail_dest_view(p.filename),
                avatar_dest: avatar_dest_view(p.filename),
            },
        )
    } else {
        (
            PipelineV { state: PipelineState::AwaitingInsert, ..p },
            ActionV::InsertPost {
                content: p.req.content,
                user: p.req.user,
                avatar_url: Option::Some(avatar_dest_view(p.filename)),
                thumbnail_url: if p.req.has_thumbnail {
                    Option::Some(thumbnail_dest_view(p.filename))
                } else {
                    Option::None
                },
            },
        )
    }
}

/// Transition on the store insert report: a failure ends the attempt with
/// cleanup of both candidate paths; success answers the client with the
/// new post's identifier.
pub open spec fn on_insert_spec(p: PipelineV, r: Result<i64, StoreFailure>) -> (
    PipelineV,
    ActionV,
) {
    match r {
        Result::Err(_) => (
            PipelineV { state: PipelineState::Done, ..p },
            ActionV::CleanupAndFail {
                thumbnail_dest: thumbnail_dest_view(p.filename),
                avatar_dest: avatar_dest_view(p.filename),
            },
        ),
        Result::Ok(id) => (
            PipelineV { state: PipelineState::Done, ..p },
            ActionV::Respond { outcome: Outcome::Created { id } },
        ),
    }
}

impl Pipeline {
    /// Validates the request and orders the first step of the attempt.
    pub fn start(req: CreatePostRequest, filename: String) -> (r: (Pipeline, Action))
        ensures
            (r.0@, r.1@) == start_spec(req@, filename@),
    {
        let valid = req.validate();
        if valid.is_err() {
            let p = Pipeline { req, filename, state: PipelineState::Done };
            (p, Action::Respond { outcome: Outcome::InvalidRequest })
        } else if req.has_thumbnail {
            let dest = thumbnail_dest(filename.as_str());
            let p = Pipeline { req, filename, state: PipelineState::AwaitingPersist };
            (p, Action::PersistThumbnail { dest })
        } else {
            match &req.avatar_url {
                Some(u) => {
                    let url = clone_string(u);
                    let dest = avatar_dest(filename.as_str());
                    let p = Pipeline { req, filename, state: PipelineState::AwaitingFetch };
                    (p, Action::FetchAvatar { url, dest })
                },
                None => {
                    let content = clone_string(&req.content);
                    let user = clone_string(&req.user);
                    let p = Pipeline { req, filename, state: PipelineState::AwaitingInsert };
                    (
                        p,
                        Action::InsertPost {
                            content,
                            user,
                            avatar_url: None,
                            thumbnail_url: None,
                        },
                    )
                },
            }
        }
    }

    /// Takes the thumbnail persist report and orders the next step.
    pub fn on_persist_result(&mut self, ok: bool) -> (a: Action)
        requires
            old(self).state is AwaitingPersist,
        ensures
            (final(self)@, a@) == on_persist_spec(old(self)@, ok),
    {
        if !ok {
            let thumbnail_dest = thumbnail_dest(self.filename.as_str());
            let avatar_dest = avatar_dest(self.filename.as_str());
            self.state = PipelineState::Done;
            Action::CleanupAndFail { thumbnail_dest, avatar_dest }
        } else {
            match &self.req.avatar_url {
                Some(u) => {
                    let url = clone_string(u);
                    let dest = avatar_dest(self.filename.as_str());
                    self.state = PipelineState::AwaitingFetch;
                    Action::FetchAvatar { url, dest }
                },
                None => {
                    let content = clone_string(&self.req.content);
                    let user = clone_string(&self.req.user);
                    let thumbnail_url = Some(thumbnail_dest(self.filename.as_str()));
                    self.state = PipelineState::AwaitingInsert;
                    Action::InsertPost { content, user, avatar_url: None, thumbnail_url }
                },
            }
        }
    }

    /// Takes the avatar fetch report and orders the next step.
    pub fn on_fetch_result(&mut self, r: Result<(), FetchError>) -> (a: Action)
        requires
            old(self).state is AwaitingFetch,
        ensures
            (final(self)@, a@) == on_fetch_spec(old(self)@, r),
    {
        match r {
            Err(_) => {
                let thumbnail_dest = thumbnail_dest(self.filename.as_str());
                let avatar_dest = avatar_dest(self.filename.as_str());
                self.state = PipelineState::Done;
                Action::CleanupAndFail { thumbnail_dest, avatar_dest }
            },
            Ok(()) => {
                let content = clone_string(&self.req.content);
                let user = clone_string(&self.req.user);
                let avatar_url = Some(avatar_dest(self.filename.as_str()));
                let thumbnail_url = if self.req.has_thumbnail {
                    Some(thumbnail_dest(self.filename.as_str()))
                } else {
                    None
                };
                self.state = PipelineState::AwaitingInsert;
                Action::InsertPost { content, user, avatar_url, thumbnail_url }
            },
        }
    }

    /// Takes the store insert report and answers the client.
    pub fn on_insert_result(&mut self, r: Result<i64, StoreFailure>) -> (a: Action)
        requires
            old(self).state is AwaitingInsert,
        ensures
            (final(self)@, a@) == on_insert_spec(old(self)@, r),
    {
        match r {
            Err(_) => {
                let thumbnail_dest = thumbnail_dest(self.filename.as_str());
                let avatar_dest = avatar_dest(self.filename.as_str());
                self.state = PipelineState::Done;
                Action::CleanupAndFail { thumbnail_dest, avatar_dest }
            },
            Ok(id) => {
                self.state = PipelineState::Done;
                Action::Respond { outcome: Outcome::Created { id } }
            },
        }
    }
}

/// Pipeline atomicity law: for any valid request with both a thumbnail and
/// an avatar source, when the remote fetch fails after the thumbnail was
/// persisted, the attempt ends at once with an order to delete both
/// candidate files — in particular the very path the thumbnail was
/// persisted to — and no store insert is ever ordered, so no row can exist
/// for the attempt.
pub proof fn lemma_fetch_failure_after_persist_cleans_up(
    req: ReqV,
    filename: Seq<char>,
    e: FetchError,
)
    requires
        req_valid(req),
        req.has_thumbnail,
        req.avatar_url is Some,
    ensures
        ({
            let (p1, a1) = start_spec(req, filename);
            let (p2, a2) = on_persist_spec(p1, true);
            let (p3, a3) = on_fetch_spec(p2, Result::Err(e));
            &&& a1 == ActionV::PersistThumbnail { dest: thumbnail_dest_view(filename) }
            &&& a2 == ActionV::FetchAvatar {
                url: req.avatar_url->Some_0,
                dest: avatar_dest_view(filename),
            }
            &&& a3 == ActionV::CleanupAndFail {
                thumbnail_dest: thumbnail_dest_view(filename),
                avatar_dest: avatar_dest_view(filename),
            }
            &&& p3.state is Done
        }),
{
}

/// Pipeline atomicity law: for any valid request with both a thumbnail and
/// an avatar source, when the store insert fails after both the thumbnail
/// persist and the avatar fetch succeeded, the attempt ends at once with
/// an order to delete both files, and the only insert ever ordered is the
/// one that failed, so no row remains.
pub proof fn lemma_insert_failure_cleans_up(req: ReqV, filename: Seq<char>, f: StoreFailure)
    requires
        req_valid(req),
        req.has_thumbnail,
        req.avatar_url is Some,
    ensures
        ({
            let (p1, a1) = start_spec(req, filename);
            let (p2, a2) = on_persist_spec(p1, true);
            let (p3, a3) = on_fetch_spec(p2, Result::Ok(()));
            let (p4, a4) = on_insert_spec(p3, Result::Err(f));
            &&& a1 == ActionV::PersistThumbnail { dest: thumbnail_dest_view(filename) }
            &&& a2 == ActionV::FetchAvatar {
                url: req.avatar_url->Some_0,
                dest: avatar_dest_view(filename),
            }
            &&& a3 == ActionV::InsertPost {
                content: req.content,
                user: req.user,
                avatar_url: Option::Some(avatar_dest_view(filename)),
                thumbnail_url: Option::Some(thumbnail_dest_view(filename)),
            }
            &&& a4 == ActionV::CleanupAndFail {
                thumbnail_dest: thumbnail_dest_view(filename),
                avatar_dest: avatar_dest_view(filename),
            }
            &&& p4.state is Done
        }),
{
}

/// The HTTP status for an outcome: 201 for a created post, 400 for a
/// rejected request, 500 for a server-side failure.
pub open spec fn outcome_status(o: Outcome) -> int {
    match o {
        Outcome::Created { .. } => 201,
        Outcome::InvalidRequest => 400,
        Outcome::ServerError => 500,
    }
}

/// Maps an outcome to its HTTP status code.
pub fn status_code(o: &Outcome) -> (r: u16)
    ensures
        r as int == outcome_status(*o),
{
    match o {
        Outcome::Created { .. } => 201,
        Outcome::InvalidRequest => 400,
        Outcome::ServerError => 500,
    }
}

} // verus!
