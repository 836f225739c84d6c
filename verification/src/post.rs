use vstd::prelude::*;

verus! {

/// Mathematical view of an optional string.
pub open spec fn opt_str_view(o: Option<String>) -> Option<Seq<char>> {
    match o {
        Option::Some(s) => Option::Some(s@),
        Option::None => Option::None,
    }
}

/// Mathematical view of a stored post: what the store and renderer
/// contracts speak about.
pub struct PostV {
    pub id: int,
    pub content: Seq<char>,
    pub user: Seq<char>,
    pub avatar_url: Option<Seq<char>>,
    pub thumbnail_url: Option<Seq<char>>,
    pub created_at: int,
}

/// A persisted post. The identifier is assigned by the store on insert and
/// never changes; `created_at` is assigned exactly once, at insert, and is
/// the sole ordering key of the feed. The two optional fields hold local
/// storage paths, never remote URLs.
pub struct Post {
    pub id: i64,
    pub content: String,
    pub user: String,
    pub avatar_url: Option<String>,
    pub thumbnail_url: Option<String>,
    pub created_at: i64,
}

impl View for Post {
    type V = PostV;

    open spec fn view(&self) -> PostV {
        PostV {
            id: self.id as int,
            content: self.content@,
            user: self.user@,
            avatar_url: opt_str_view(self.avatar_url),
            thumbnail_url: opt_str_view(self.thumbnail_url),
            created_at: self.created_at as int,
        }
    }
}

/// Mathematical view of a creation request.
pub struct ReqV {
    pub content: Seq<char>,
    pub user: Seq<char>,
    pub avatar_url: Option<Seq<char>>,
    pub has_thumbnail: bool,
}

/// A transient post-creation request: the text fields, the optional remote
/// avatar source URL, and whether an uploaded thumbnail file accompanies
/// the request (the file bytes themselves stay with the HTTP layer).
pub struct CreatePostRequest {
    pub content: String,
    pub user: String,
    pub avatar_url: Option<String>,
    pub has_thumbnail: bool,
}

impl View for CreatePostRequest {
    type V = ReqV;

    open spec fn view(&self) -> ReqV {
        ReqV {
            content: self.content@,
            user: self.user@,
            avatar_url: opt_str_view(self.avatar_url),
            has_thumbnail: self.has_thumbnail,
        }
    }
}

pub(crate) fn clone_string(s: &String) -> (r: String)
    ensures
        r@ == s@,
{
    s.clone()
}

pub(crate) fn clone_opt_string(s: &Option<String>) -> (r: Option<String>)
    ensures
        opt_str_view(r) == opt_str_view(*s),
{
    match s {
        Some(v) => Some(v.clone()),
        None => None,
    }
}

/// Whether url::Url::parse accepts the string as a well-formed URL; the
/// outcome depends on the string alone.
pub uninterp spec fn is_parsable_url(s: Seq<char>) -> bool;

/// A request is valid when the content is 1 to 4096 characters, the user
/// name is 1 to 64 characters, and the avatar URL, when present, parses as
/// a well-formed URL. Validity is checked before any side effect.
pub open spec fn req_valid(r: ReqV) -> bool {
    &&& 1 <= r.content.len() <= 4096
    &&& 1 <= r.user.len() <= 64
    &&& match r.avatar_url {
        Option::Some(u) => is_parsable_url(u),
        Option::None => true,
    }
}

/// Relies on url::Url::parse: whether a string parses as a well-formed URL
/// is a function of the string alone; only syntax is checked, nothing is
/// fetched.
#[verifier::external_body]
fn parses_as_url(s: &str) -> (r: bool)
    ensures
        r == is_parsable_url(s@),
{
    url::Url::parse(s).is_ok()
}

impl CreatePostRequest {
    /// Checks the request invariants, in order: content non-empty, content
    /// at most 4096 characters, user non-empty, user at most 64 characters,
    /// avatar URL (if any) well-formed. Returns the message of the first
    /// failing check.
    pub fn validate(&self) -> (r: Result<(), String>)
        ensures
            r is Ok <==> req_valid(self@),
            self.content@.len() == 0 ==> (r matches Err(m) && m@ == "Content cannot be empty"@),
            self.content@.len() > 4096 ==> (r matches Err(m) && m@
                == "Content cannot be longer than 4096 characters"@),
            (1 <= self.content@.len() <= 4096 && self.user@.len() == 0) ==> (r matches Err(m)
                && m@ == "User cannot be empty"@),
            (1 <= self.content@.len() <= 4096 && self.user@.len() > 64) ==> (r matches Err(m)
                && m@ == "User cannot be longer than 64 characters"@),
            (1 <= self.content@.len() <= 4096 && 1 <= self.user@.len() <= 64
                && (self@.avatar_url matches Some(u) && !is_parsable_url(u))) ==> (r matches Err(m)
                && m@ == "Invalid avatar URL"@),
    {
        let content_len = self.content.as_str().unicode_len();
        if content_len == 0 {
            return Err(String::from_str("Content cannot be empty"));
        }
        if content_len > 4096 {
            return Err(String::from_str("Content cannot be longer than 4096 characters"));
        }
        let user_len = self.user.as_str().unicode_len();
        if user_len == 0 {
            return Err(String::from_str("User cannot be empty"));
        }
        if user_len > 64 {
            return Err(String::from_str("User cannot be longer than 64 characters"));
        }
        match &self.avatar_url {
            Some(url) => {
                if !parses_as_url(url.as_str()) {
                    return Err(String::from_str("Invalid avatar URL"));
                }
            },
            None => (),
        }
        Ok(())
    }
}

} // verus!
