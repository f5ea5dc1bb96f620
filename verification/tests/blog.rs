use rust_tour::blog::{post, post_improved, Post, PostImproved, Stage};

#[test]
fn a_post_shows_its_text_only_once_published() {
    let mut post = Post::new();

    post.add_text("I ate a salad for lunch today");
    assert_eq!("", post.content());

    post.request_review();
    assert_eq!("", post.content());

    post.approve();
    assert_eq!("I ate a salad for lunch today", post.content());
}

#[test]
fn approving_a_draft_has_no_effect() {
    let mut post = Post::new();
    post.add_text("draft");
    post.approve();
    assert_eq!("", post.content());
    post.request_review();
    assert_eq!("", post.content());
    post.request_review();
    post.approve();
    assert_eq!("draft", post.content());
    post.request_review();
    post.approve();
    assert_eq!("draft", post.content());
}

#[test]
fn text_can_be_added_in_every_stage() {
    let mut post = Post::new();
    post.add_text("a");
    post.request_review();
    post.add_text("b");
    post.approve();
    post.add_text("c");
    assert_eq!("abc", post.content());
}

#[test]
fn a_typed_post_is_read_after_review_and_approval() {
    let mut post = PostImproved::new();
    post.add_text("I ate a salad ");
    post.add_text("for lunch today");
    let post = post.request_review();
    let post = post.approve();
    assert_eq!("I ate a salad for lunch today", post.content());
}

#[test]
fn the_stages_follow_each_other() {
    assert_eq!(Stage::Draft.request_review(), Stage::PendingReview);
    assert_eq!(Stage::PendingReview.request_review(), Stage::PendingReview);
    assert_eq!(Stage::Published.request_review(), Stage::Published);
    assert_eq!(Stage::Draft.approve(), Stage::Draft);
    assert_eq!(Stage::PendingReview.approve(), Stage::Published);
    assert_eq!(Stage::Published.approve(), Stage::Published);
}

#[test]
fn the_walks_through_the_workflow_end_with_the_text_shown() {
    assert_eq!(post(), "I ate a salad for lunch today");
    assert_eq!(post_improved(), "I ate a salad for lunch today");
}
