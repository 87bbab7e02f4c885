//! Construction of validated package records from the findings of
//! repository parsers, and the link helpers of the web pages that show them.

pub mod name_type;
pub mod text;
pub mod error;
pub mod package;
pub mod maker_view;
pub mod package_maker;
pub mod url_for;
pub mod endpoints;
pub mod static_files;
pub mod template_context;
