//! File management and query: the options of each request, the query each
//! request sends, and how each response becomes file information.
pub mod category;
pub mod management;
pub mod query;

pub use self::category::{
    BtListOptions, Category, CategoryCountOptions, CategorySearchOptions, DocumentListOptions,
    ImageListOptions, VideoListOptions,
};
pub use self::management::{FolderCreateOptions, FolderInfo};
pub use self::query::{
    FileInfo, FileMeta, ListAllOptions, ListOptions, SearchOptions, SemanticSearchOptions,
};
