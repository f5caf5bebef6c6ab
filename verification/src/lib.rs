//! Library core of an ast-grep desktop front end: UI texts, search options,
//! pattern tooling, regex breakdown, exports and type-hint helpers.
pub mod text;
pub mod i18n;
pub mod ui_texts_main;
pub mod ui_texts_panels;
pub mod ui_texts_export;
pub mod ui_text_specs;
pub mod lang;
pub mod sg_command;
pub mod regex_visualizer;
pub mod file_encoding;
pub mod search_target;
pub mod search;
pub mod export;
pub mod cli_config;
pub mod batch;
pub mod receiver_hint;
pub mod ast_pattern;
pub mod rewrite;
pub mod pattern_assist;
pub mod cli_runner;
pub mod remote_fetch;
pub mod xlsx_layout;
pub mod highlight_layout;
pub mod app_state;
pub mod file_search;
pub mod syntax_tree;
pub mod recv_infer;
pub mod svn_remote;
pub mod cpp_scope;
pub mod cpp_members;
pub mod cpp_sources;
