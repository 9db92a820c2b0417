use clipmanager::store::Database;
use clipmanager::types::{ClipboardItem, ContentType, SearchFilter};

fn create_test_db() -> Database {
    Database::new()
}

#[test]
fn test_insert_and_get_items() {
    let mut db = create_test_db();
    let item = ClipboardItem::new("测试内容".to_string());

    let id = db.insert_item(&item).unwrap();
    assert!(id > 0);

    let filter = SearchFilter::default();
    let items = db.get_items(&filter, 10, 0).unwrap();
    assert_eq!(items.len(), 1);
    if let Some(text) = items[0].get_text_content() {
        assert_eq!(text, "测试内容");
    } else {
        panic!("Expected text content");
    }
}

#[test]
fn test_new_schema_insert() {
    let mut db = create_test_db();

    let text_item = ClipboardItem::new_text("New schema test".to_string());
    let id = db.insert_item(&text_item).unwrap();
    assert!(id > 0);
    println!("Inserted text item with ID: {}", id);

    let filter = SearchFilter::default();
    let items = db.get_items(&filter, 10, 0).unwrap();
    assert_eq!(items.len(), 1);

    let retrieved_item = &items[0];
    assert_eq!(retrieved_item.id, Some(id));
    if let Some(text) = retrieved_item.get_text_content() {
        assert_eq!(text, "New schema test");
    } else {
        panic!("Expected text content");
    }

    println!("✓ New schema test passed");
}

#[test]
fn test_favorite_functionality() {
    let mut db = create_test_db();

    let item = ClipboardItem::new_text("Favorite test".to_string());
    let id = db.insert_item(&item).unwrap();

    db.update_favorite(id, true).unwrap();

    let mut filter = SearchFilter::default();
    filter.favorites_only = true;
    let favorites = db.get_items(&filter, 10, 0).unwrap();

    assert_eq!(favorites.len(), 1);
    assert!(favorites[0].is_favorite);

    println!("✓ Favorite functionality test passed");
}

#[test]
fn test_duplicate_content() {
    let mut db = create_test_db();
    let item1 = ClipboardItem::new("重复内容".to_string());
    let item2 = ClipboardItem::new("重复内容".to_string());

    assert!(db.insert_item(&item1).is_ok());

    assert!(db.insert_item(&item2).is_err());
}

#[test]
fn test_search_filter() {
    let mut db = create_test_db();

    let items = vec![
        ClipboardItem::new("Hello World".to_string()),
        ClipboardItem::new("Rust Programming".to_string()),
        ClipboardItem::new("egui Tutorial".to_string()),
    ];

    for item in items {
        db.insert_item(&item).unwrap();
    }

    let mut filter = SearchFilter::default();
    filter.query = "Rust".to_string();

    let results = db.get_items(&filter, 10, 0).unwrap();
    assert_eq!(results.len(), 1);
    if let Some(text) = results[0].get_text_content() {
        assert!(text.contains("Rust"));
    } else {
        panic!("Expected text content");
    }
}

#[test]
fn test_cleanup_old_items() {
    let mut db = create_test_db();

    for i in 0..105 {
        let item = ClipboardItem::new(format!("内容 {}", i));
        db.insert_item(&item).unwrap();
    }

    db.cleanup_with_limit(100).unwrap();

    let count = db.get_item_count().unwrap();
    assert_eq!(count, 100);
}

#[test]
fn test_duplicate_insert_keeps_one_row() {
    let mut db = create_test_db();
    let first = ClipboardItem::new_text("identical text".to_string());
    let second = ClipboardItem::new_text("identical text".to_string());

    assert!(db.insert_item(&first).is_ok());
    assert_eq!(db.get_item_count().unwrap(), 1);

    let err = db.insert_item(&second).unwrap_err();
    assert!(err.is_duplicate());
    assert_eq!(err.message(), "Content already exists");
    assert_eq!(db.get_item_count().unwrap(), 1);
}

#[test]
fn test_cleanup_keeps_most_recent() {
    let mut db = create_test_db();
    for i in 0..10i64 {
        let item = ClipboardItem::new_text_at(format!("entry {}", i), 1000 + i);
        db.insert_item(&item).unwrap();
    }

    db.cleanup_with_limit(4).unwrap();
    assert_eq!(db.get_item_count().unwrap(), 4);

    let items = db.get_items(&SearchFilter::default(), 10, 0).unwrap();
    let texts: Vec<&str> = items.iter().map(|it| it.get_text_content().unwrap()).collect();
    assert_eq!(texts, vec!["entry 9", "entry 8", "entry 7", "entry 6"]);
}

#[test]
fn test_query_returns_newest_first() {
    let mut db = create_test_db();
    db.insert_item(&ClipboardItem::new_text_at("oldest".to_string(), 100)).unwrap();
    db.insert_item(&ClipboardItem::new_text_at("newest".to_string(), 300)).unwrap();
    db.insert_item(&ClipboardItem::new_text_at("middle".to_string(), 200)).unwrap();

    let items = db.get_items(&SearchFilter::default(), 10, 0).unwrap();
    assert_eq!(items.len(), 3);
    let created: Vec<i64> = items.iter().map(|it| it.created_at).collect();
    assert_eq!(created, vec![300, 200, 100]);
    assert!(created[0] > created[1] && created[1] > created[2]);
}

#[test]
fn test_update_access_round_trip() {
    let mut db = create_test_db();
    let id = db.insert_item(&ClipboardItem::new_text("accessed".to_string())).unwrap();

    let before = db.get_items(&SearchFilter::default(), 10, 0).unwrap();
    assert_eq!(before[0].access_count, 0);
    let accessed_before = before[0].accessed_at;

    for _ in 0..5 {
        db.update_access(id).unwrap();
    }

    let after = db.get_items(&SearchFilter::default(), 10, 0).unwrap();
    assert_eq!(after[0].access_count, 5);
    assert!(after[0].accessed_at >= accessed_before);
    assert!(after[0].accessed_at >= after[0].created_at);
}

#[test]
fn test_delete_and_clear() {
    let mut db = create_test_db();
    let id1 = db.insert_item(&ClipboardItem::new_text("one".to_string())).unwrap();
    let id2 = db.insert_item(&ClipboardItem::new_text("two".to_string())).unwrap();
    assert_ne!(id1, id2);

    db.delete_item(id1).unwrap();
    assert_eq!(db.get_item_count().unwrap(), 1);

    // deleting an absent identifier is a no-op, not an error
    db.delete_item(id1).unwrap();
    assert_eq!(db.get_item_count().unwrap(), 1);

    db.clear_all().unwrap();
    assert_eq!(db.get_item_count().unwrap(), 0);
}

#[test]
fn test_query_pagination() {
    let mut db = create_test_db();
    for i in 0..7i64 {
        db.insert_item(&ClipboardItem::new_text_at(format!("row {}", i), 100 + i)).unwrap();
    }

    let page1 = db.get_items(&SearchFilter::default(), 3, 0).unwrap();
    let page2 = db.get_items(&SearchFilter::default(), 3, 3).unwrap();
    let page3 = db.get_items(&SearchFilter::default(), 3, 6).unwrap();
    let beyond = db.get_items(&SearchFilter::default(), 3, 9).unwrap();

    assert_eq!(page1.len(), 3);
    assert_eq!(page2.len(), 3);
    assert_eq!(page3.len(), 1);
    assert_eq!(beyond.len(), 0);
    assert_eq!(page1[0].get_text_content().unwrap(), "row 6");
    assert_eq!(page2[0].get_text_content().unwrap(), "row 3");
    assert_eq!(page3[0].get_text_content().unwrap(), "row 0");
}

#[test]
fn test_type_filter_excludes_images_on_text_query() {
    let mut db = create_test_db();
    db.insert_item(&ClipboardItem::new_text("searchable text".to_string())).unwrap();
    let png: Vec<u8> = vec![0x89, 0x50, 0x4E, 0x47, 0x0D, 0x0A, 0x1A, 0x0A, 1, 2, 3];
    let image = clipmanager::types::ImageData::new(png, clipmanager::types::ImageFormat::Png, 4, 4);
    db.insert_item(&ClipboardItem::new_image(image)).unwrap();

    let mut filter = SearchFilter::default();
    filter.query = "search".to_string();
    let results = db.get_items(&filter, 10, 0).unwrap();
    assert_eq!(results.len(), 1);
    assert_eq!(results[0].content_type, ContentType::Text);

    let mut type_filter = SearchFilter::default();
    type_filter.content_type = Some(ContentType::Image);
    let images = db.get_items(&type_filter, 10, 0).unwrap();
    assert_eq!(images.len(), 1);
    assert_eq!(images[0].content_type, ContentType::Image);
}
