//! Interactive list-selection widget for the `jwctl` command-line tool,
//! together with the pure pieces of the tool's command handling: path
//! construction for the proxy API, configuration merging, permission
//! parsing, and response classification.

mod cli;
mod config;
mod list;
mod manifests;
mod numbers;
mod paths;
mod permissions;
mod proxy_schemas;
mod response;
mod widget;

pub use list::Candidate;
pub use list::StatefulList;
pub use list::iter_next;
pub use list::lemma_empty_list_never_selects;
pub use list::lemma_next_full_cycle;
pub use list::lemma_previous_inverts_next;
pub use list::lemma_unselect_then_next;
pub use list::next_index;
pub use list::prev_index;

pub use widget::KeyCode;
pub use widget::POLL_TIMEOUT_MILLIS;
pub use widget::KeyEvent;
pub use widget::LoopState;
pub use widget::PollOutcome;
pub use widget::SelectionSession;
pub use widget::TerminalPort;
pub use widget::WidgetError;
pub use widget::interpret;
pub use widget::interpret_key;
pub use widget::lemma_empty_list_only_cancels;
pub use widget::lemma_enter_accepts_current_selection;
pub use widget::lemma_q_always_cancels;
pub use widget::restore_terminal;
pub use widget::setup_terminal;

pub use config::Config;
pub use config::ConfigError;
pub use config::LogLevel;
pub use config::config_dir;
pub use config::config_file;
pub use config::log_level_choice;
pub use config::merge_config;
pub use config::timestamp_level_choice;

pub use paths::auth_path;
pub use paths::client_path;
pub use paths::client_token_path;
pub use paths::encoded_login_target;
pub use paths::manifest_path;
pub use paths::proxy_schemas_path;
pub use paths::url_encoded;

pub use permissions::PermissionError;
pub use permissions::grouped;
pub use permissions::parse_permissions;
pub use permissions::split_permission;

pub use numbers::decimal_digits;
pub use numbers::u32_to_decimal;

pub use response::ApiError;
pub use response::ClientTokenData;
pub use response::ClientTokenResponse;
pub use response::OutputFormat;
pub use response::classify_client_token;
pub use response::error_checked;
pub use response::format_client_token;

pub use manifests::Configuration;
pub use manifests::CredentialKind;
pub use manifests::Credentials;
pub use manifests::ManifestListError;
pub use manifests::MysqlConfig;
pub use manifests::MysqlCredentials;
pub use manifests::NewManifest;
pub use manifests::PostgresqlConfig;
pub use manifests::PostgresqlCredentials;
pub use manifests::RootType;
pub use manifests::VaultCredentials;
pub use manifests::credential_kind;
pub use manifests::display_key;
pub use manifests::manifest_display_keys;
pub use manifests::resolve_manifest_key;
pub use manifests::root_type_from_choice;
pub use manifests::valid_name;
pub use manifests::validate_manifest_entries;

pub use proxy_schemas::ProxySchema;
pub use proxy_schemas::upsert_field;

pub use cli::ManifestCommands;
pub use cli::ProxySchemaCommands;
