use articles::domain::article::entity::Article;
use articles::domain::article::repository::delete::delete_article;
use articles::domain::article::repository::get_detail::get_detail;
use articles::domain::article::repository::get_list::get_list;
use articles::domain::article::repository::save::save_article;
use articles::domain::article::repository::table::{
    ArticleTable, IDS_EXHAUSTED, NO_ROWS, UNKNOWN_WRITER,
};
use articles::domain::article::repository::update::update_article;
use articles::domain::article::repository::ArticleRepository;
use articles::global::errors::{CustomError, StoreFailure, StoreFailureKind};

fn table() -> ArticleTable {
    ArticleTable::new(vec![1, 2])
}

fn article(title: &str, content: &str, writer: i64) -> Article {
    Article::new(title.to_string(), content.to_string(), writer)
}

/// A table in which the article "t1"/"c1" of writer 1 has the id 5.
fn table_with_article_five() -> ArticleTable {
    let mut table = table();
    for n in 1..=4 {
        assert_eq!(save_article(&mut table, article("filler", "filler", 2)), Ok(n));
    }
    assert_eq!(save_article(&mut table, article("t1", "c1", 1)), Ok(5));
    table
}

#[test]
fn check_save_article_success() {
    let mut table = table();
    let user_id = 1;
    let article = Article::new("테스트 제목 1".to_string(), "테스트 내용 1".to_string(), user_id);

    let result = save_article(&mut table, article.clone());
    let inserted_id = result.unwrap();

    let row = table.select(inserted_id).unwrap();
    assert_eq!(article.get_title(), row.get_title());
    assert_eq!(article.get_content(), row.get_content());
}

#[test]
fn check_writer_not_found() {
    let mut table = table();
    let no_user_id = -32;
    let article =
        Article::new("테스트 제목 1".to_string(), "테스트 내용 1".to_string(), no_user_id);

    let result = save_article(&mut table, article.clone());

    assert!(result.is_err());
    let err_type = match result.err().unwrap() {
        CustomError::DatabaseError(_) => true,
        _ => false,
    };
    assert!(err_type);
    assert_eq!(table.len(), 0);
}

#[test]
fn check_get_article_success() {
    let mut table = table();
    let new_article = Article::new("테스트 제목1".to_string(), "테스트 내용1".to_string(), 1);
    let article_id = save_article(&mut table, new_article.clone()).unwrap();

    let result = get_detail(&table, article_id);
    let result = result.unwrap();

    assert_eq!(result.get_title(), new_article.get_title());
    assert_eq!(result.get_content(), new_article.get_content())
}

#[test]
fn get_detail_check_article_not_found() {
    let table = table();
    let no_id = -32;

    let result = get_detail(&table, no_id);

    assert!(result.as_ref().is_err());
    let err_type = match result.err().unwrap() {
        CustomError::NotFound(_) => true,
        _ => false,
    };
    assert!(err_type)
}

#[test]
fn check_get_articles_success() {
    let mut table = table();
    save_article(&mut table, article("a", "b", 1)).unwrap();
    save_article(&mut table, article("c", "d", 2)).unwrap();

    let result = get_list(&table);
    let result = result.unwrap();

    assert_eq!(table.len(), result.len());
    assert_eq!(result, vec![article("a", "b", 1).id(1), article("c", "d", 2).id(2)]);
}

#[test]
fn get_list_of_an_empty_table_is_empty() {
    assert_eq!(get_list(&table()), Ok(vec![]));
}

#[test]
fn delete_check_delete_article_success() {
    let mut table = table();
    let user_id = 1;
    let new_article = Article::new("삭제 제목".to_string(), "삭제 내용".to_string(), user_id);
    let inserted_id = save_article(&mut table, new_article).unwrap();

    let result = delete_article(&mut table, user_id, inserted_id);
    result.unwrap();

    assert!(get_detail(&table, inserted_id).is_err());
}

#[test]
fn delete_check_not_found() {
    let mut table = table();
    let no_id = -32;
    let user_id = 1;

    let result = delete_article(&mut table, user_id, no_id);

    assert!(result.is_err());
    let err_type = match result.err().unwrap() {
        CustomError::NotFound(_) => true,
        _ => false,
    };
    assert!(err_type)
}

#[test]
fn delete_check_no_authority() {
    let mut table = table();
    let user_id = 1;
    let new_article = Article::new(
        "삭제되지 않는 제목".to_string(),
        "삭제되지 않는 내용".to_string(),
        user_id,
    );
    let article_id = save_article(&mut table, new_article).unwrap();
    let no_auth_user_id = 2;

    let result = delete_article(&mut table, no_auth_user_id, article_id);

    assert!(result.is_err());
    let err_type = match result.err().unwrap() {
        CustomError::Unauthorized(_) => true,
        _ => false,
    };
    assert!(err_type)
}

#[test]
fn update_check_update_article_success() {
    let mut table = table();
    let user_id = 1;
    let new_article = Article::new(
        "바뀌어야 하는 제목".to_string(),
        "바뀌어야 하는 내용".to_string(),
        user_id,
    );
    let article_id = save_article(&mut table, new_article.clone()).unwrap();

    let result = update_article(
        &mut table,
        user_id,
        article_id,
        Some("바꿀 제목".to_string()),
        Some("바꿀 내용".to_string()),
    );
    result.unwrap();

    let article = get_detail(&table, article_id).unwrap();
    assert_ne!(article.get_title(), new_article.get_title());
    assert_ne!(article.get_content(), new_article.get_content());
    assert_eq!(article.get_title(), "바꿀 제목");
    assert_eq!(article.get_content(), "바꿀 내용");
}

#[test]
fn check_update_only_title() {
    let mut table = table();
    let user_id = 1;
    let new_article =
        Article::new("바뀌어야 하는 제목".to_string(), "안바뀌는 내용".to_string(), user_id);
    let article_id = save_article(&mut table, new_article.clone()).unwrap();

    let result =
        update_article(&mut table, user_id, article_id, Some("바꿀 제목".to_string()), None);
    result.unwrap();

    let article = get_detail(&table, article_id).unwrap();
    assert_ne!(article.get_title(), new_article.get_title());
    assert_eq!(article.get_content(), new_article.get_content());
}

#[test]
fn update_check_article_not_found() {
    let mut table = table();
    let no_id = -32;

    let result = update_article(
        &mut table,
        1,
        no_id,
        Some("없는 제목".to_string()),
        Some("없는 내용".to_string()),
    );

    assert!(result.is_err());
    let err_type = match result.err().unwrap() {
        CustomError::NotFound(_) => true,
        _ => false,
    };
    assert!(err_type)
}

#[test]
fn update_check_no_authority() {
    let mut table = table();
    let user_id = 1;
    let new_article = Article::new(
        "바뀌면 안되는 제목".to_string(),
        "바뀌면 안되는 내용".to_string(),
        user_id,
    );
    let article_id = save_article(&mut table, new_article.clone()).unwrap();
    let no_auth_user_id = 2;

    let result = update_article(
        &mut table,
        no_auth_user_id,
        article_id,
        Some("바뀌지 않음".to_string()),
        Some("바뀌지 않음".to_string()),
    );

    assert!(result.is_err());
    let err_type = match result.err().unwrap() {
        CustomError::Unauthorized(_) => true,
        _ => false,
    };
    assert!(err_type)
}

#[test]
fn create_then_read_returns_what_was_created() {
    let table = table_with_article_five();
    assert_eq!(get_detail(&table, 5), Ok(article("t1", "c1", 1).id(5)));
}

#[test]
fn a_delete_by_another_caller_is_unauthorized_and_changes_nothing() {
    let mut table = table_with_article_five();
    assert_eq!(
        delete_article(&mut table, 2, 5),
        Err(CustomError::Unauthorized("Article".to_string()))
    );
    assert_eq!(get_detail(&table, 5), Ok(article("t1", "c1", 1).id(5)));
    assert_eq!(table.len(), 5);
}

#[test]
fn an_update_of_the_title_keeps_the_content() {
    let mut table = table_with_article_five();
    assert_eq!(update_article(&mut table, 1, 5, Some("t2".to_string()), None), Ok(()));
    assert_eq!(get_detail(&table, 5), Ok(article("t2", "c1", 1).id(5)));
}

#[test]
fn an_update_of_the_content_keeps_the_title() {
    let mut table = table_with_article_five();
    assert_eq!(update_article(&mut table, 1, 5, None, Some("c2".to_string())), Ok(()));
    assert_eq!(get_detail(&table, 5), Ok(article("t1", "c2", 1).id(5)));
}

#[test]
fn an_update_of_both_changes_both() {
    let mut table = table_with_article_five();
    assert_eq!(
        update_article(&mut table, 1, 5, Some("t2".to_string()), Some("c2".to_string())),
        Ok(())
    );
    assert_eq!(get_detail(&table, 5), Ok(article("t2", "c2", 1).id(5)));
}

#[test]
fn an_update_changes_no_other_article() {
    let mut table = table_with_article_five();
    let before = get_list(&table).unwrap();
    update_article(&mut table, 1, 5, Some("t2".to_string()), None).unwrap();
    let after = get_list(&table).unwrap();
    assert_eq!(before[..4], after[..4]);
    assert_eq!(after[4], article("t2", "c1", 1).id(5));
}

#[test]
fn a_delete_by_the_writer_removes_the_article() {
    let mut table = table_with_article_five();
    assert_eq!(delete_article(&mut table, 1, 5), Ok(()));
    assert_eq!(get_detail(&table, 5), Err(CustomError::NotFound("Article".to_string())));
    assert_eq!(table.len(), 4);
}

#[test]
fn a_delete_of_a_missing_article_is_not_found() {
    let mut table = table_with_article_five();
    assert_eq!(
        delete_article(&mut table, 1, 999),
        Err(CustomError::NotFound("Article".to_string()))
    );
    assert_eq!(table.len(), 5);
}

#[test]
fn a_missing_article_is_not_found_whoever_asks() {
    let mut table = table_with_article_five();
    for caller in [1, 2, 3, -32, i64::MAX] {
        assert_eq!(
            delete_article(&mut table, caller, 999),
            Err(CustomError::NotFound("Article".to_string()))
        );
        assert_eq!(
            update_article(&mut table, caller, 999, Some("x".to_string()), None),
            Err(CustomError::NotFound("Article".to_string()))
        );
    }
}

#[test]
fn an_update_by_another_caller_is_unauthorized_and_changes_nothing() {
    let mut table = table_with_article_five();
    assert_eq!(
        update_article(&mut table, 2, 5, Some("t2".to_string()), Some("c2".to_string())),
        Err(CustomError::Unauthorized("Article".to_string()))
    );
    assert_eq!(get_detail(&table, 5), Ok(article("t1", "c1", 1).id(5)));
}

#[test]
fn a_failed_update_leaves_every_read_as_it_was() {
    let mut table = table_with_article_five();
    let before = get_list(&table).unwrap();
    assert!(update_article(&mut table, 2, 5, Some("x".to_string()), None).is_err());
    assert!(update_article(&mut table, 1, 999, Some("x".to_string()), None).is_err());
    assert!(update_article(&mut table, 1, 5, None, None).is_err());
    assert_eq!(get_list(&table).unwrap(), before);
    assert_eq!(get_detail(&table, 5), Ok(article("t1", "c1", 1).id(5)));
}

#[test]
fn an_update_without_columns_is_invalid_before_the_table_is_asked() {
    let mut table = table_with_article_five();
    assert_eq!(
        update_article(&mut table, 1, 5, None, None),
        Err(CustomError::Invalidate("Article".to_string()))
    );
    assert_eq!(
        update_article(&mut table, 1, 999, None, None),
        Err(CustomError::Invalidate("Article".to_string()))
    );
    assert_eq!(
        update_article(&mut table, 2, 5, None, None),
        Err(CustomError::Invalidate("Article".to_string()))
    );
}

#[test]
fn of_two_deletes_one_succeeds() {
    let mut table = table_with_article_five();
    assert_eq!(delete_article(&mut table, 1, 5), Ok(()));
    assert_eq!(
        delete_article(&mut table, 1, 5),
        Err(CustomError::NotFound("Article".to_string()))
    );

    let mut table = table_with_article_five();
    assert_eq!(
        delete_article(&mut table, 2, 5),
        Err(CustomError::Unauthorized("Article".to_string()))
    );
    assert_eq!(delete_article(&mut table, 1, 5), Ok(()));
    assert_eq!(
        delete_article(&mut table, 2, 5),
        Err(CustomError::NotFound("Article".to_string()))
    );
}

#[test]
fn the_table_reports_what_it_observed() {
    let mut table = table_with_article_five();
    let outcome = table.delete_owned(2, 5);
    assert_eq!((outcome.is_exist(), outcome.is_authorized(), outcome.affected()), (true, false, 0));
    let outcome = table.update_owned(2, 999, Some("x".to_string()), None);
    assert_eq!((outcome.is_exist(), outcome.is_authorized(), outcome.affected()), (false, false, 0));
    let outcome = table.update_owned(1, 5, Some("x".to_string()), None);
    assert_eq!((outcome.is_exist(), outcome.is_authorized(), outcome.affected()), (true, true, 1));
    let outcome = table.delete_owned(1, 5);
    assert_eq!((outcome.is_exist(), outcome.is_authorized(), outcome.affected()), (true, true, 1));
    let outcome = table.delete_owned(1, 5);
    assert_eq!((outcome.is_exist(), outcome.is_authorized(), outcome.affected()), (false, false, 0));
}

#[test]
fn ids_are_never_given_twice() {
    let mut table = table();
    assert_eq!(save_article(&mut table, article("a", "a", 1)), Ok(1));
    assert_eq!(save_article(&mut table, article("b", "b", 1)), Ok(2));
    assert_eq!(delete_article(&mut table, 1, 2), Ok(()));
    assert_eq!(save_article(&mut table, article("c", "c", 1)), Ok(3));
    assert_eq!(get_detail(&table, 2), Err(CustomError::NotFound("Article".to_string())));
}

#[test]
fn the_table_assigns_the_id_whatever_the_article_came_with() {
    let mut table = table();
    assert_eq!(save_article(&mut table, article("a", "a", 1).id(77)), Ok(1));
    assert_eq!(get_detail(&table, 1), Ok(article("a", "a", 1).id(1)));
    assert_eq!(get_detail(&table, 77), Err(CustomError::NotFound("Article".to_string())));
}

#[test]
fn the_table_answers_as_a_store_does() {
    let mut table = table();
    assert_eq!(
        table.insert(article("a", "a", 9)),
        Err(StoreFailure { kind: StoreFailureKind::Database, detail: UNKNOWN_WRITER.to_string() })
    );
    assert_eq!(
        table.select(1),
        Err(StoreFailure { kind: StoreFailureKind::RowNotFound, detail: NO_ROWS.to_string() })
    );
    assert_eq!(table.insert(article("a", "a", 1)), Ok(1));
    assert_eq!(table.select(1), Ok(article("a", "a", 1).id(1)));
    assert_eq!(table.select_all(), vec![article("a", "a", 1).id(1)]);
    assert_eq!(
        save_article(&mut table, article("a", "a", 9)),
        Err(CustomError::DatabaseError(UNKNOWN_WRITER.to_string()))
    );
    assert!(!IDS_EXHAUSTED.is_empty());
}

#[test]
fn the_table_is_a_repository() {
    fn exercise<R: ArticleRepository>(repository: &mut R) {
        let id = repository
            .save_article(Article::new("t1".to_string(), "c1".to_string(), 1))
            .unwrap();
        assert_eq!(
            repository.get_detail(id),
            Ok(Article::new("t1".to_string(), "c1".to_string(), 1).id(id))
        );
        assert_eq!(
            repository.update_article(2, id, Some("t2".to_string()), None),
            Err(CustomError::Unauthorized("Article".to_string()))
        );
        assert_eq!(repository.update_article(1, id, Some("t2".to_string()), None), Ok(()));
        assert_eq!(repository.get_list().unwrap().len(), 1);
        assert_eq!(
            repository.delete_article(2, id),
            Err(CustomError::Unauthorized("Article".to_string()))
        );
        assert_eq!(repository.delete_article(1, id), Ok(()));
        assert_eq!(repository.get_list(), Ok(vec![]));
    }
    exercise(&mut table());
}
