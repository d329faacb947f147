//! A static-site compiler core: document discovery, metadata decoding,
//! template expansion, page assembly and output-path mapping.

pub mod assets;
pub mod cli;
pub mod discovery;
pub mod fragment;
pub mod front_matter;
pub mod markdown;
pub mod metadata;
pub mod page;
pub mod paths;
pub mod template;
pub mod text;

pub use assets::{generate_build_dir, AssetCopy};
pub use cli::{directory_validator, trim_root_dir};
pub use discovery::{classify, get_files, EntryKind, MarkdownFile, SourceEntry};
pub use fragment::{
    generate_footer, generate_head, generate_nav, load_fragment, wrap_fragment, Fragment,
    FragmentKind,
};
pub use front_matter::{resolve_header, split_document, Document, Header};
pub use metadata::{decode_metadata, flatten, head_args, FieldValue, Metadata};
pub use page::{
    assemble_page, compile_page, generate_markdown_files, render_page, Page, DEFAULT_HEAD,
};
pub use paths::{asset_output_path, page_output_path};
pub use template::generate_head_html;
