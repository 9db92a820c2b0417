use clipmanager::error::ClipManagerError;
use clipmanager::types::{
    ClipboardContent, ClipboardItem, ContentType, ImageData, ImageFormat, SearchFilter,
    matches_filter,
};

#[test]
fn test_preview_with_chinese_characters() {
    let chinese_text = "Rust 中是否有库可以获取各种系统中标准字体的路径呢？这是一个很长的中文文本用来测试字符串截断功能。";
    let item = ClipboardItem {
        id: Some(1),
        content_type: ContentType::Text,
        content: ClipboardContent::Text(chinese_text.to_string()),
        content_hash: "test_hash".to_string(),
        content_size: chinese_text.len(),
        created_at: 0,
        accessed_at: 0,
        access_count: 0,
        is_favorite: false,
    };

    let preview_10 = item.preview(10);
    let preview_25 = item.preview(25);
    let preview_50 = item.preview(50);

    println!("Original text: {}", chinese_text);
    println!("Preview 10: {}", preview_10);
    println!("Preview 25: {}", preview_25);
    println!("Preview 50: {}", preview_50);

    assert!(preview_10.len() > 0);
    assert!(preview_25.len() > 0);
    assert!(preview_50.len() > 0);

    assert!(preview_10.contains("..."));
    assert!(preview_25.contains("..."));

    println!("✓ Chinese character preview test passed");
}

#[test]
fn test_preview_with_mixed_characters() {
    let mixed_text = "Hello 世界! 123 测试 ABC 中文 456 English 测试文本";
    let item = ClipboardItem {
        id: Some(1),
        content_type: ContentType::Text,
        content: ClipboardContent::Text(mixed_text.to_string()),
        content_hash: "test_hash".to_string(),
        content_size: mixed_text.len(),
        created_at: 0,
        accessed_at: 0,
        access_count: 0,
        is_favorite: false,
    };

    for length in [5, 10, 15, 20, 30] {
        let preview = item.preview(length);
        println!("Length {}: {}", length, preview);

        assert!(preview.len() > 0);

        if mixed_text.chars().count() > length {
            assert!(preview.contains("..."));
        }
    }

    println!("✓ Mixed character preview test passed");
}

#[test]
fn test_preview_edge_cases() {
    let empty_item = ClipboardItem {
        id: Some(1),
        content_type: ContentType::Text,
        content: ClipboardContent::Text("".to_string()),
        content_hash: "test_hash".to_string(),
        content_size: 0,
        created_at: 0,
        accessed_at: 0,
        access_count: 0,
        is_favorite: false,
    };

    let empty_preview = empty_item.preview(10);
    assert_eq!(empty_preview, "");

    let single_char_item = ClipboardItem {
        id: Some(1),
        content_type: ContentType::Text,
        content: ClipboardContent::Text("中".to_string()),
        content_hash: "test_hash".to_string(),
        content_size: 3,
        created_at: 0,
        accessed_at: 0,
        access_count: 0,
        is_favorite: false,
    };

    let single_preview = single_char_item.preview(1);
    assert_eq!(single_preview, "中");

    println!("✓ Edge cases preview test passed");
}

#[test]
fn test_image_preview_text() {
    let data: Vec<u8> = vec![0x89, 0x50, 0x4E, 0x47, 0x0D, 0x0A, 0x1A, 0x0A, 7, 7];
    let item = ClipboardItem::new_image(ImageData::new(data, ImageFormat::Png, 32, 16));
    assert_eq!(item.preview(100), "Image (32x16, 10 bytes)");
}

#[test]
fn test_new_text_metadata() {
    let item = ClipboardItem::new_text("Hello World".to_string());
    assert_eq!(item.id, None);
    assert_eq!(item.content_type, ContentType::Text);
    assert_eq!(item.content_size, 11);
    assert_eq!(item.content_hash, "3d58dee72d4e0c27");
    assert_eq!(item.access_count, 0);
    assert!(!item.is_favorite);
    assert!(item.created_at >= 0);
    assert_eq!(item.created_at, item.accessed_at);
}

#[test]
fn test_hash_is_over_payload_bytes() {
    // the same payload always digests to the same hash, a different payload
    // to a different one
    let a = ClipboardItem::new_text("".to_string());
    assert_eq!(a.content_hash, "cbf29ce484222325");
    let b = ClipboardItem::new_text("a".to_string());
    assert_eq!(b.content_hash, "af63dc4c8601ec8c");
    let c = ClipboardItem::new_text("a".to_string());
    assert_eq!(b.content_hash, c.content_hash);

    // an image with the same raw bytes as a text's UTF-8 hashes identically
    let img = ClipboardItem::new_image(ImageData::new(vec![0x61], ImageFormat::Png, 1, 1));
    assert_eq!(img.content_hash, "af63dc4c8601ec8c");
    assert_eq!(img.content_size, 1);
}

#[test]
fn test_update_access_increments() {
    let mut item = ClipboardItem::new_text("x".to_string());
    let accessed_before = item.accessed_at;
    item.update_access();
    item.update_access();
    item.update_access();
    assert_eq!(item.access_count, 3);
    assert!(item.accessed_at >= accessed_before);
    assert!(item.created_at <= item.accessed_at);
}

#[test]
fn test_mime_types() {
    assert_eq!(ImageFormat::from_mime_type("image/png"), Some(ImageFormat::Png));
    assert_eq!(ImageFormat::from_mime_type("image/jpeg"), Some(ImageFormat::Jpeg));
    assert_eq!(ImageFormat::from_mime_type("image/jpg"), Some(ImageFormat::Jpeg));
    assert_eq!(ImageFormat::from_mime_type("image/gif"), Some(ImageFormat::Gif));
    assert_eq!(ImageFormat::from_mime_type("image/bmp"), Some(ImageFormat::Bmp));
    assert_eq!(ImageFormat::from_mime_type("image/webp"), None);

    assert_eq!(ImageFormat::Png.to_mime_type(), "image/png");
    assert_eq!(ImageFormat::Jpeg.to_mime_type(), "image/jpeg");
    assert_eq!(ImageFormat::Gif.to_mime_type(), "image/gif");
    assert_eq!(ImageFormat::Bmp.to_mime_type(), "image/bmp");

    assert_eq!(ImageFormat::Png.file_extension(), "png");
    assert_eq!(ImageFormat::Jpeg.file_extension(), "jpg");
    assert_eq!(ImageFormat::Gif.file_extension(), "gif");
    assert_eq!(ImageFormat::Bmp.file_extension(), "bmp");
}

#[test]
fn test_filter_composition_is_conjunctive() {
    let favorite_text = {
        let mut it = ClipboardItem::new_text("Rust Programming".to_string());
        it.is_favorite = true;
        it
    };
    let plain_text = ClipboardItem::new_text("Rust Tutorial".to_string());
    let other_text = ClipboardItem::new_text("Hello World".to_string());

    let mut composed = SearchFilter::default();
    composed.query = "Rust".to_string();
    composed.content_type = Some(ContentType::Text);
    composed.favorites_only = true;

    let mut query_only = SearchFilter::default();
    query_only.query = "Rust".to_string();
    let mut type_only = SearchFilter::default();
    type_only.content_type = Some(ContentType::Text);
    let mut favorite_only = SearchFilter::default();
    favorite_only.favorites_only = true;

    for item in [&favorite_text, &plain_text, &other_text] {
        let each = matches_filter(item, &query_only) && matches_filter(item, &type_only)
            && matches_filter(item, &favorite_only);
        assert_eq!(matches_filter(item, &composed), each);
    }
    assert!(matches_filter(&favorite_text, &composed));
    assert!(!matches_filter(&plain_text, &composed));
    assert!(!matches_filter(&other_text, &composed));
}

#[test]
fn test_default_filter_matches_everything() {
    let filter = SearchFilter::default();
    assert_eq!(filter.query, "");
    assert_eq!(filter.content_type, None);
    assert!(!filter.favorites_only);
    assert!(filter.date_range.is_none());

    let text = ClipboardItem::new_text("anything".to_string());
    let image = ClipboardItem::new_image(ImageData::new(vec![1, 2, 3], ImageFormat::Bmp, 1, 1));
    assert!(matches_filter(&text, &filter));
    assert!(matches_filter(&image, &filter));
}

#[test]
fn test_error_messages() {
    assert_eq!(ClipManagerError::DuplicateContent.message(), "Content already exists");
    assert_eq!(
        ClipManagerError::Database("disk full".to_string()).message(),
        "Database error: disk full"
    );
    assert_eq!(
        ClipManagerError::Clipboard("no display".to_string()).message(),
        "Clipboard operation error: no display"
    );
    assert_eq!(ClipManagerError::Io("broken pipe".to_string()).message(), "IO error: broken pipe");
    assert_eq!(
        ClipManagerError::Config { message: "bad path".to_string() }.message(),
        "Configuration error: bad path"
    );
    assert_eq!(
        ClipManagerError::ContentTooLarge { size: 2048, max_size: 1024 }.message(),
        "Content too large: 2048 bytes, maximum allowed 1024 bytes"
    );
    assert_eq!(
        ClipManagerError::UnsupportedContentType.message(),
        "Unsupported content type"
    );
    assert!(!ClipManagerError::UnsupportedContentType.is_duplicate());
}
