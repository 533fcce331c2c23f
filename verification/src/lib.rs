//! A data model for prompt templates: configuration documents that describe
//! how to call a text-generation or chat model. A document is parsed into a
//! typed template (completion, chat, or an unrecognized kind), parameters can
//! be looked up and coerced to scalar kinds, and a completion template can be
//! rendered into a single final prompt string.

mod model;
mod render;
mod yaml;
mod parse;

pub use model::ScalarValue;
pub use model::ScalarView;
pub use model::Parameter;
pub use model::ParameterView;
pub use model::CompletionExampleColumn;
pub use model::ColumnView;
pub use model::ChatExample;
pub use model::ChatExampleView;
pub use model::Message;
pub use model::MessageView;
pub use model::Completion;
pub use model::CompletionView;
pub use model::Chat;
pub use model::ChatView;
pub use model::Prompt;
pub use model::PromptView;
pub use model::PromptKind;
pub use model::PromptError;
pub use model::find_parameter;
pub use model::spec_find;
pub use model::spec_find_opt;
pub use model::spec_as_i32;
pub use model::spec_as_number;
pub use model::spec_as_str;
pub use model::spec_as_bool;
pub use render::spec_cell;
pub use render::spec_line;
pub use render::spec_example_row_from;
pub use render::spec_rows_from;
pub use render::spec_test_row_from;
pub use render::spec_max_count_from;
pub use render::spec_example_count;
pub use render::spec_final_prompt;
pub use render::lemma_example_count_is_max;
pub use render::lemma_ragged_cell_is_empty;
pub use yaml::yaml_doc;
pub use yaml::YamlNode;
pub use parse::deserialize_prompt;
pub use parse::spec_parse;
pub use parse::spec_doc_type;
pub use parse::spec_completion;
pub use parse::spec_chat;
pub use parse::scalar_of;
pub use parse::spec_req_str;
pub use parse::spec_opt_str;
pub use parse::spec_parameter;
pub use parse::spec_parameter_list;
pub use parse::spec_parameters_field;
pub use parse::spec_string_list;
pub use parse::spec_column;
pub use parse::spec_column_list;
pub use parse::spec_columns_field;
pub use parse::spec_chat_example;
pub use parse::spec_chat_example_list;
pub use parse::spec_chat_examples_field;
pub use parse::spec_message;
pub use parse::spec_message_list;
pub use parse::spec_messages_field;
pub use parse::lemma_unknown_type_is_not_an_error;
pub use parse::lemma_completion_fields_are_exact;
pub use parse::lemma_parameter_list_keeps_order_and_count;
pub use parse::lemma_column_list_keeps_order_and_count;
pub use parse::lemma_chat_omitted_fields_are_absent;
