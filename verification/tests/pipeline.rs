use miniblog::pipeline::{status_code, Action, Outcome, Pipeline};
use miniblog::post::CreatePostRequest;
use miniblog::remote_file::FetchError;
use miniblog::store::StoreFailure;

fn full_request() -> CreatePostRequest {
    CreatePostRequest {
        content: "hello".to_string(),
        user: "bob".to_string(),
        avatar_url: Some("https://example.com/a.png".to_string()),
        has_thumbnail: true,
    }
}

#[test]
fn invalid_request_is_answered_without_side_effects() {
    let req = CreatePostRequest {
        content: "".to_string(),
        user: "bob".to_string(),
        avatar_url: None,
        has_thumbnail: false,
    };
    let (_pipe, action) = Pipeline::start(req, "slug-1.png".to_string());
    match action {
        Action::Respond { outcome } => {
            assert_eq!(outcome, Outcome::InvalidRequest);
            assert_eq!(status_code(&outcome), 400);
        }
        _ => panic!("an invalid request must be answered at once"),
    }
}

#[test]
fn plain_request_goes_straight_to_insert() {
    let req = CreatePostRequest {
        content: "hello".to_string(),
        user: "bob".to_string(),
        avatar_url: None,
        has_thumbnail: false,
    };
    let (mut pipe, action) = Pipeline::start(req, "slug-1.png".to_string());
    match action {
        Action::InsertPost {
            content,
            user,
            avatar_url,
            thumbnail_url,
        } => {
            assert_eq!(content, "hello");
            assert_eq!(user, "bob");
            assert_eq!(avatar_url, None);
            assert_eq!(thumbnail_url, None);
        }
        _ => panic!("a request without files must be inserted at once"),
    }
    let action = pipe.on_insert_result(Ok(7));
    match action {
        Action::Respond { outcome } => {
            assert_eq!(outcome, Outcome::Created { id: 7 });
            assert_eq!(status_code(&outcome), 201);
        }
        _ => panic!("a successful insert must answer created"),
    }
}

#[test]
fn fetch_failure_after_persist_orders_cleanup_of_both_paths() {
    let (mut pipe, action) = Pipeline::start(full_request(), "slug-1.png".to_string());
    match action {
        Action::PersistThumbnail { dest } => {
            assert_eq!(dest, "images/thumbnails/slug-1.png");
        }
        _ => panic!("the thumbnail must be persisted first"),
    }
    let action = pipe.on_persist_result(true);
    match action {
        Action::FetchAvatar { url, dest } => {
            assert_eq!(url, "https://example.com/a.png");
            assert_eq!(dest, "images/avatars/slug-1.png");
        }
        _ => panic!("the avatar fetch must follow the persist"),
    }
    let action = pipe.on_fetch_result(Err(FetchError::InvalidImage));
    match action {
        Action::CleanupAndFail {
            thumbnail_dest,
            avatar_dest,
        } => {
            assert_eq!(thumbnail_dest, "images/thumbnails/slug-1.png");
            assert_eq!(avatar_dest, "images/avatars/slug-1.png");
        }
        _ => panic!("a fetch failure must clean up both candidate paths"),
    }
}

#[test]
fn insert_failure_after_both_files_orders_cleanup_of_both_paths() {
    let (mut pipe, action) = Pipeline::start(full_request(), "slug-2.png".to_string());
    assert!(matches!(action, Action::PersistThumbnail { .. }));
    let action = pipe.on_persist_result(true);
    assert!(matches!(action, Action::FetchAvatar { .. }));
    let action = pipe.on_fetch_result(Ok(()));
    match action {
        Action::InsertPost {
            content,
            user,
            avatar_url,
            thumbnail_url,
        } => {
            assert_eq!(content, "hello");
            assert_eq!(user, "bob");
            assert_eq!(avatar_url, Some("images/avatars/slug-2.png".to_string()));
            assert_eq!(
                thumbnail_url,
                Some("images/thumbnails/slug-2.png".to_string())
            );
        }
        _ => panic!("a successful fetch must lead to the insert"),
    }
    let action = pipe.on_insert_result(Err(StoreFailure::Unavailable));
    match action {
        Action::CleanupAndFail {
            thumbnail_dest,
            avatar_dest,
        } => {
            assert_eq!(thumbnail_dest, "images/thumbnails/slug-2.png");
            assert_eq!(avatar_dest, "images/avatars/slug-2.png");
        }
        _ => panic!("a store failure must clean up both candidate paths"),
    }
}

#[test]
fn persist_failure_orders_cleanup() {
    let (mut pipe, action) = Pipeline::start(full_request(), "slug-3.png".to_string());
    assert!(matches!(action, Action::PersistThumbnail { .. }));
    let action = pipe.on_persist_result(false);
    match action {
        Action::CleanupAndFail {
            thumbnail_dest,
            avatar_dest,
        } => {
            assert_eq!(thumbnail_dest, "images/thumbnails/slug-3.png");
            assert_eq!(avatar_dest, "images/avatars/slug-3.png");
        }
        _ => panic!("a persist failure must clean up"),
    }
}

#[test]
fn server_error_maps_to_500() {
    assert_eq!(status_code(&Outcome::ServerError), 500);
}
