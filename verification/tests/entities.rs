use articles::domain::article::dto::request::create::ArticleCreateRequest;
use articles::domain::article::dto::request::edit::EditArticleRequest;
use articles::domain::article::dto::response::create::ArticleCreateResponse;
use articles::domain::article::dto::response::read_article::ReadArticleResponse;
use articles::domain::article::entity::Article;

#[test]
fn a_new_article_has_no_id() {
    let article = Article::new("t1".to_string(), "c1".to_string(), 1);
    assert_eq!(article.get_id(), None);
    assert_eq!(article.get_title(), "t1");
    assert_eq!(article.get_content(), "c1");
    assert_eq!(article.get_writer(), 1);
}

#[test]
fn id_assigns_the_id_and_keeps_the_rest() {
    let article = Article::new("t1".to_string(), "c1".to_string(), 1).id(5);
    assert_eq!(article.get_id(), Some(5));
    assert_eq!(article.get_title(), "t1");
    assert_eq!(article.get_content(), "c1");
    assert_eq!(article.get_writer(), 1);
    let again = article.id(6);
    assert_eq!(again.get_id(), Some(6));
}

#[test]
fn a_clone_is_equal() {
    let article = Article::new("제목".to_string(), "내용".to_string(), 3).id(9);
    assert_eq!(article.clone(), article);
}

#[test]
fn to_response_copies_every_field() {
    let article = Article::new("t1".to_string(), "c1".to_string(), 1).id(5);
    let response = article.to_response();
    assert_eq!(response, ReadArticleResponse::new(5, "t1".to_string(), "c1".to_string(), 1));
    assert_eq!(response.get_id(), 5);
    assert_eq!(response.get_title(), "t1");
    assert_eq!(response.get_content(), "c1");
    assert_eq!(response.get_writer(), 1);
}

#[test]
fn a_create_request_becomes_an_article_of_the_caller() {
    let request = ArticleCreateRequest::new("t1".to_string(), "c1".to_string());
    assert_eq!(request.get_title(), "t1");
    assert_eq!(request.get_content(), "c1");
    assert_eq!(request.to_entity(7), Article::new("t1".to_string(), "c1".to_string(), 7));
    assert_eq!(request.clone(), request);
}

#[test]
fn a_create_request_needs_both_fields() {
    assert!(ArticleCreateRequest::new("t".to_string(), "c".to_string()).check_fields());
    assert!(!ArticleCreateRequest::new("".to_string(), "c".to_string()).check_fields());
    assert!(!ArticleCreateRequest::new("t".to_string(), "".to_string()).check_fields());
    assert!(!ArticleCreateRequest::new("".to_string(), "".to_string()).check_fields());
}

#[test]
fn a_create_response_holds_the_id() {
    assert_eq!(ArticleCreateResponse::new(5).get_id(), 5);
    assert_eq!(ArticleCreateResponse::new(-1).get_id(), -1);
}

#[test]
fn an_edit_request_needs_one_field_that_is_not_empty() {
    let text = |s: &str| Some(s.to_string());
    assert!(EditArticleRequest::new(text("t"), text("c")).check_fields());
    assert!(EditArticleRequest::new(text("t"), None).check_fields());
    assert!(EditArticleRequest::new(None, text("c")).check_fields());
    assert!(EditArticleRequest::new(text("t"), text("")).check_fields());
    assert!(EditArticleRequest::new(text(""), text("c")).check_fields());
    assert!(!EditArticleRequest::new(None, None).check_fields());
    assert!(!EditArticleRequest::new(None, text("")).check_fields());
    assert!(!EditArticleRequest::new(text(""), None).check_fields());
    assert!(!EditArticleRequest::new(text(""), text("")).check_fields());
}

#[test]
fn to_fields_hands_an_empty_text_on_as_absent() {
    let text = |s: &str| Some(s.to_string());
    assert_eq!(EditArticleRequest::new(text("t"), text("c")).to_fields(), (text("t"), text("c")));
    assert_eq!(EditArticleRequest::new(text("t"), None).to_fields(), (text("t"), None));
    assert_eq!(EditArticleRequest::new(text("t"), text("")).to_fields(), (text("t"), None));
    assert_eq!(EditArticleRequest::new(text(""), text("c")).to_fields(), (None, text("c")));
    assert_eq!(EditArticleRequest::new(None, None).to_fields(), (None, None));
    let request = EditArticleRequest::new(text("수정 제목"), text("수정 내용"));
    assert_eq!(request.clone(), request);
    assert_eq!(request.to_fields(), (text("수정 제목"), text("수정 내용")));
}

#[test]
fn an_edit_request_shows_its_fields_as_they_were_sent() {
    let request = EditArticleRequest::new(Some("".to_string()), None);
    assert_eq!(request.get_title(), &Some("".to_string()));
    assert_eq!(request.get_content(), &None);
}
