//! User-facing text lookup. The text for every key in every supported
//! language is a total function, held by an explicitly constructed context
//! object rather than process-wide mutable state.

use vstd::prelude::*;

verus! {

/// A supported display language.
#[derive(Debug, Clone, Copy, PartialEq, Eq, Hash, Structural)]
pub enum Language {
    English,
    Chinese,
}

impl Default for Language {
    fn default() -> (r: Self)
        ensures
            r == Language::English,
    {
        Language::English
    }
}

/// A key naming one piece of user-facing text.
#[derive(Debug, Clone, Copy, PartialEq, Eq, Hash, Structural)]
pub enum TextKey {
    AppTitle,
    AppVersion,
    SearchPlaceholder,
    TypeFilterAll,
    TypeFilterText,
    TypeFilterImage,
    ClearAll,
    Settings,
    NoRecords,
    RecordsCount,
    CharactersCount,
    UsedTimes,
    Copy,
    Delete,
    Favorite,
    Unfavorite,
    LoadDataFailed,
    CopyFailed,
    DeleteFailed,
    ClearFailed,
    UpdateAccessFailed,
    ContentExists,
    DatabaseError,
    ClipboardError,
    IoError,
    SerializationError,
    ConfigError,
    ContentTooLarge,
    UnsupportedContentType,
    TimeFormat,
    ContextCopy,
    ContextDelete,
}

/// The English text for each key.
pub open spec fn english_text_spec(key: TextKey) -> Seq<char> {
    match key {
        TextKey::AppTitle => "ClipManager"@,
        TextKey::AppVersion => "ClipManager v0.1.0"@,
        TextKey::SearchPlaceholder => "Search:"@,
        TextKey::TypeFilterAll => "All"@,
        TextKey::TypeFilterText => "Text"@,
        TextKey::TypeFilterImage => "Image"@,
        TextKey::ClearAll => "Clear All"@,
        TextKey::Settings => "Settings"@,
        TextKey::NoRecords => "No clipboard history records"@,
        TextKey::RecordsCount => "records"@,
        TextKey::CharactersCount => "characters"@,
        TextKey::UsedTimes => "times used"@,
        TextKey::Copy => "Copy"@,
        TextKey::Delete => "Delete"@,
        TextKey::Favorite => "Favorite"@,
        TextKey::Unfavorite => "Unfavorite"@,
        TextKey::LoadDataFailed => "Failed to load data: {}"@,
        TextKey::CopyFailed => "Failed to copy: {}"@,
        TextKey::DeleteFailed => "Failed to delete: {}"@,
        TextKey::ClearFailed => "Failed to clear: {}"@,
        TextKey::UpdateAccessFailed => "Failed to update access record: {}"@,
        TextKey::ContentExists => "Content already exists"@,
        TextKey::DatabaseError => "Database error: {}"@,
        TextKey::ClipboardError => "Clipboard operation error: {}"@,
        TextKey::IoError => "IO error: {}"@,
        TextKey::SerializationError => "Serialization error: {}"@,
        TextKey::ConfigError => "Configuration error: {}"@,
        TextKey::ContentTooLarge => "Content too large: {} bytes, maximum allowed {} bytes"@,
        TextKey::UnsupportedContentType => "Unsupported content type"@,
        TextKey::TimeFormat => "%H:%M:%S"@,
        TextKey::ContextCopy => "Copy"@,
        TextKey::ContextDelete => "Delete"@,
    }
}

/// The Chinese text for each key.
pub open spec fn chinese_text_spec(key: TextKey) -> Seq<char> {
    match key {
        TextKey::AppTitle => "剪切板管理器"@,
        TextKey::AppVersion => "ClipManager v0.1.0"@,
        TextKey::SearchPlaceholder => "搜索:"@,
        TextKey::TypeFilterAll => "全部"@,
        TextKey::TypeFilterText => "文本"@,
        TextKey::TypeFilterImage => "图片"@,
        TextKey::ClearAll => "清空全部"@,
        TextKey::Settings => "设置"@,
        TextKey::NoRecords => "暂无剪切板历史记录"@,
        TextKey::RecordsCount => "条记录"@,
        TextKey::CharactersCount => "字符"@,
        TextKey::UsedTimes => "次使用"@,
        TextKey::Copy => "复制"@,
        TextKey::Delete => "删除"@,
        TextKey::Favorite => "收藏"@,
        TextKey::Unfavorite => "取消收藏"@,
        TextKey::LoadDataFailed => "加载数据失败: {}"@,
        TextKey::CopyFailed => "复制失败: {}"@,
        TextKey::DeleteFailed => "删除失败: {}"@,
        TextKey::ClearFailed => "清空失败: {}"@,
        TextKey::UpdateAccessFailed => "更新访问记录失败: {}"@,
        TextKey::ContentExists => "内容已存在"@,
        TextKey::DatabaseError => "数据库错误: {}"@,
        TextKey::ClipboardError => "剪切板操作错误: {}"@,
        TextKey::IoError => "IO 错误: {}"@,
        TextKey::SerializationError => "序列化错误: {}"@,
        TextKey::ConfigError => "配置错误: {}"@,
        TextKey::ContentTooLarge => "内容过大: {} 字节，最大允许 {} 字节"@,
        TextKey::UnsupportedContentType => "不支持的内容类型"@,
        TextKey::TimeFormat => "%H:%M:%S"@,
        TextKey::ContextCopy => "复制"@,
        TextKey::ContextDelete => "删除"@,
    }
}

/// The text shown for `key` in `lang`.
pub open spec fn text_spec(lang: Language, key: TextKey) -> Seq<char> {
    match lang {
        Language::English => english_text_spec(key),
        Language::Chinese => chinese_text_spec(key),
    }
}

/// The English text for a key.
pub fn english_text(key: &TextKey) -> (r: &'static str)
    ensures
        r@ == english_text_spec(*key),
{
    match key {
        TextKey::AppTitle => "ClipManager",
        TextKey::AppVersion => "ClipManager v0.1.0",
        TextKey::SearchPlaceholder => "Search:",
        TextKey::TypeFilterAll => "All",
        TextKey::TypeFilterText => "Text",
        TextKey::TypeFilterImage => "Image",
        TextKey::ClearAll => "Clear All",
        TextKey::Settings => "Settings",
        TextKey::NoRecords => "No clipboard history records",
        TextKey::RecordsCount => "records",
        TextKey::CharactersCount => "characters",
        TextKey::UsedTimes => "times used",
        TextKey::Copy => "Copy",
        TextKey::Delete => "Delete",
        TextKey::Favorite => "Favorite",
        TextKey::Unfavorite => "Unfavorite",
        TextKey::LoadDataFailed => "Failed to load data: {}",
        TextKey::CopyFailed => "Failed to copy: {}",
        TextKey::DeleteFailed => "Failed to delete: {}",
        TextKey::ClearFailed => "Failed to clear: {}",
        TextKey::UpdateAccessFailed => "Failed to update access record: {}",
        TextKey::ContentExists => "Content already exists",
        TextKey::DatabaseError => "Database error: {}",
        TextKey::ClipboardError => "Clipboard operation error: {}",
        TextKey::IoError => "IO error: {}",
        TextKey::SerializationError => "Serialization error: {}",
        TextKey::ConfigError => "Configuration error: {}",
        TextKey::ContentTooLarge => "Content too large: {} bytes, maximum allowed {} bytes",
        TextKey::UnsupportedContentType => "Unsupported content type",
        TextKey::TimeFormat => "%H:%M:%S",
        TextKey::ContextCopy => "Copy",
        TextKey::ContextDelete => "Delete",
    }
}

/// The Chinese text for a key.
pub fn chinese_text(key: &TextKey) -> (r: &'static str)
    ensures
        r@ == chinese_text_spec(*key),
{
    match key {
        TextKey::AppTitle => "剪切板管理器",
        TextKey::AppVersion => "ClipManager v0.1.0",
        TextKey::SearchPlaceholder => "搜索:",
        TextKey::TypeFilterAll => "全部",
        TextKey::TypeFilterText => "文本",
        TextKey::TypeFilterImage => "图片",
        TextKey::ClearAll => "清空全部",
        TextKey::Settings => "设置",
        TextKey::NoRecords => "暂无剪切板历史记录",
        TextKey::RecordsCount => "条记录",
        TextKey::CharactersCount => "字符",
        TextKey::UsedTimes => "次使用",
        TextKey::Copy => "复制",
        TextKey::Delete => "删除",
        TextKey::Favorite => "收藏",
        TextKey::Unfavorite => "取消收藏",
        TextKey::LoadDataFailed => "加载数据失败: {}",
        TextKey::CopyFailed => "复制失败: {}",
        TextKey::DeleteFailed => "删除失败: {}",
        TextKey::ClearFailed => "清空失败: {}",
        TextKey::UpdateAccessFailed => "更新访问记录失败: {}",
        TextKey::ContentExists => "内容已存在",
        TextKey::DatabaseError => "数据库错误: {}",
        TextKey::ClipboardError => "剪切板操作错误: {}",
        TextKey::IoError => "IO 错误: {}",
        TextKey::SerializationError => "序列化错误: {}",
        TextKey::ConfigError => "配置错误: {}",
        TextKey::ContentTooLarge => "内容过大: {} 字节，最大允许 {} 字节",
        TextKey::UnsupportedContentType => "不支持的内容类型",
        TextKey::TimeFormat => "%H:%M:%S",
        TextKey::ContextCopy => "复制",
        TextKey::ContextDelete => "删除",
    }
}

/// Every text key, in the table's order.
pub open spec fn all_keys_spec() -> Seq<TextKey> {
    seq![
        TextKey::AppTitle,
        TextKey::AppVersion,
        TextKey::SearchPlaceholder,
        TextKey::TypeFilterAll,
        TextKey::TypeFilterText,
        TextKey::TypeFilterImage,
        TextKey::ClearAll,
        TextKey::Settings,
        TextKey::NoRecords,
        TextKey::RecordsCount,
        TextKey::CharactersCount,
        TextKey::UsedTimes,
        TextKey::Copy,
        TextKey::Delete,
        TextKey::Favorite,
        TextKey::Unfavorite,
        TextKey::LoadDataFailed,
        TextKey::CopyFailed,
        TextKey::DeleteFailed,
        TextKey::ClearFailed,
        TextKey::UpdateAccessFailed,
        TextKey::ContentExists,
        TextKey::DatabaseError,
        TextKey::ClipboardError,
        TextKey::IoError,
        TextKey::SerializationError,
        TextKey::ConfigError,
        TextKey::ContentTooLarge,
        TextKey::UnsupportedContentType,
        TextKey::TimeFormat,
        TextKey::ContextCopy,
        TextKey::ContextDelete,
    ]
}

/// Every key of the English table with its text.
pub fn get_english_texts() -> (r: Vec<(TextKey, &'static str)>)
    ensures
        r@.len() == 32,
        r@.map_values(|p: (TextKey, &'static str)| p.0) == all_keys_spec(),
        forall|i: int| 0 <= i < r@.len() ==> (#[trigger] r@[i]).1@ == english_text_spec(r@[i].0),
{
    let keys = all_text_keys();
    let mut r: Vec<(TextKey, &'static str)> = Vec::new();
    let mut i: usize = 0;
    let n = keys.len();
    while i < n
        invariant
            n == keys@.len(),
            keys@ == all_keys_spec(),
            i <= n,
            r@.len() == i,
            forall|k: int| 0 <= k < i ==> (#[trigger] r@[k]).0 == keys@[k],
            forall|k: int| 0 <= k < i ==> (#[trigger] r@[k]).1@ == english_text_spec(r@[k].0),
        decreases n - i,
    {
        let text = english_text(&keys[i]);
        r.push((keys[i], text));
        i = i + 1;
    }
    proof {
        assert(r@.map_values(|p: (TextKey, &'static str)| p.0) =~= all_keys_spec());
    }
    r
}

/// Every key of the Chinese table with its text.
pub fn get_chinese_texts() -> (r: Vec<(TextKey, &'static str)>)
    ensures
        r@.len() == 32,
        r@.map_values(|p: (TextKey, &'static str)| p.0) == all_keys_spec(),
        forall|i: int| 0 <= i < r@.len() ==> (#[trigger] r@[i]).1@ == chinese_text_spec(r@[i].0),
{
    let keys = all_text_keys();
    let mut r: Vec<(TextKey, &'static str)> = Vec::new();
    let mut i: usize = 0;
    let n = keys.len();
    while i < n
        invariant
            n == keys@.len(),
            keys@ == all_keys_spec(),
            i <= n,
            r@.len() == i,
            forall|k: int| 0 <= k < i ==> (#[trigger] r@[k]).0 == keys@[k],
            forall|k: int| 0 <= k < i ==> (#[trigger] r@[k]).1@ == chinese_text_spec(r@[k].0),
        decreases n - i,
    {
        let text = chinese_text(&keys[i]);
        r.push((keys[i], text));
        i = i + 1;
    }
    proof {
        assert(r@.map_values(|p: (TextKey, &'static str)| p.0) =~= all_keys_spec());
    }
    r
}

/// Every text key, once.
pub fn all_text_keys() -> (r: Vec<TextKey>)
    ensures
        r@ == all_keys_spec(),
        r@.len() == 32,
{
    let mut r: Vec<TextKey> = Vec::new();
    r.push(TextKey::AppTitle);
    r.push(TextKey::AppVersion);
    r.push(TextKey::SearchPlaceholder);
    r.push(TextKey::TypeFilterAll);
    r.push(TextKey::TypeFilterText);
    r.push(TextKey::TypeFilterImage);
    r.push(TextKey::ClearAll);
    r.push(TextKey::Settings);
    r.push(TextKey::NoRecords);
    r.push(TextKey::RecordsCount);
    r.push(TextKey::CharactersCount);
    r.push(TextKey::UsedTimes);
    r.push(TextKey::Copy);
    r.push(TextKey::Delete);
    r.push(TextKey::Favorite);
    r.push(TextKey::Unfavorite);
    r.push(TextKey::LoadDataFailed);
    r.push(TextKey::CopyFailed);
    r.push(TextKey::DeleteFailed);
    r.push(TextKey::ClearFailed);
    r.push(TextKey::UpdateAccessFailed);
    r.push(TextKey::ContentExists);
    r.push(TextKey::DatabaseError);
    r.push(TextKey::ClipboardError);
    r.push(TextKey::IoError);
    r.push(TextKey::SerializationError);
    r.push(TextKey::ConfigError);
    r.push(TextKey::ContentTooLarge);
    r.push(TextKey::UnsupportedContentType);
    r.push(TextKey::TimeFormat);
    r.push(TextKey::ContextCopy);
    r.push(TextKey::ContextDelete);
    r
}

/// The text-lookup context: the language in use, with a total text table
/// behind it.
#[derive(Debug, Clone)]
pub struct I18n {
    pub current_language: Language,
}

impl I18n {
    /// A context starting in the default language.
    pub fn new() -> (r: Self)
        ensures
            r.current_language == Language::English,
    {
        I18n { current_language: Language::English }
    }

    /// Switch the language in use.
    pub fn set_language(&mut self, language: Language)
        ensures
            final(self).current_language == language,
    {
        self.current_language = language;
    }

    /// The language in use.
    pub fn get_language(&self) -> (r: Language)
        ensures
            r == self.current_language,
    {
        self.current_language
    }

    /// The text shown for `key` in the language in use.
    pub fn text(&self, key: TextKey) -> (r: &'static str)
        ensures
            r@ == text_spec(self.current_language, key),
    {
        match self.current_language {
            Language::English => english_text(&key),
            Language::Chinese => chinese_text(&key),
        }
    }
}

impl Default for I18n {
    fn default() -> (r: Self)
        ensures
            r.current_language == Language::English,
    {
        I18n { current_language: Language::English }
    }
}

} // verus!
