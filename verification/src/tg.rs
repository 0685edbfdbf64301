//! The request that sets up the messaging client.
//!
//! The client itself is a library of the host. This module only says what
//! it is handed; the credentials come from the caller and none is kept
//! here.

use vstd::prelude::*;
use vstd::string::group_string_axioms;

verus! {

broadcast use group_string_axioms;

/// The parameters that the messaging client is set up with.
#[derive(Debug, PartialEq, Eq)]
pub struct TdParameters {
    pub attype: String,
    pub use_test_dc: bool,
    pub api_id: String,
    pub api_hash: String,
    pub system_language_code: String,
    pub device_model: String,
    pub application_version: String,
    pub use_secret_chats: bool,
    pub use_message_database: bool,
    pub use_file_database: bool,
    pub files_directory: String,
}

/// [`TdParameters`] as plain text.
pub struct TdParametersView {
    pub attype: Seq<char>,
    pub use_test_dc: bool,
    pub api_id: Seq<char>,
    pub api_hash: Seq<char>,
    pub system_language_code: Seq<char>,
    pub device_model: Seq<char>,
    pub application_version: Seq<char>,
    pub use_secret_chats: bool,
    pub use_message_database: bool,
    pub use_file_database: bool,
    pub files_directory: Seq<char>,
}

impl View for TdParameters {
    type V = TdParametersView;

    open spec fn view(&self) -> TdParametersView {
        TdParametersView {
            attype: self.attype@,
            use_test_dc: self.use_test_dc,
            api_id: self.api_id@,
            api_hash: self.api_hash@,
            system_language_code: self.system_language_code@,
            device_model: self.device_model@,
            application_version: self.application_version@,
            use_secret_chats: self.use_secret_chats,
            use_message_database: self.use_message_database,
            use_file_database: self.use_file_database,
            files_directory: self.files_directory@,
        }
    }
}

/// A request to the messaging client: its kind, and the parameters of
/// those kinds that take some.
#[derive(Debug, PartialEq, Eq)]
pub struct TelegramOptions {
    pub attype: String,
    pub parameters: Option<TdParameters>,
}

/// [`TelegramOptions`] as plain text.
pub struct TelegramOptionsView {
    pub attype: Seq<char>,
    pub parameters: Option<TdParametersView>,
}

impl View for TelegramOptions {
    type V = TelegramOptionsView;

    open spec fn view(&self) -> TelegramOptionsView {
        TelegramOptionsView {
            attype: self.attype@,
            parameters: match self.parameters {
                Some(parameters) => Some(parameters@),
                None => None,
            },
        }
    }
}

/// The set-up request for an application with the credentials `api_id` and
/// `api_hash`: production data centre, English, no secret chats, message
/// and file databases kept under the root directory.
pub open spec fn setup_request(api_id: Seq<char>, api_hash: Seq<char>) -> TelegramOptionsView {
    TelegramOptionsView {
        attype: "setTdlibParameters"@,
        parameters: Some(
            TdParametersView {
                attype: "tdParameters"@,
                use_test_dc: false,
                api_id,
                api_hash,
                system_language_code: "en"@,
                device_model: "Rust Dioxus PWA"@,
                application_version: "0.1"@,
                use_secret_chats: false,
                use_message_database: true,
                use_file_database: true,
                files_directory: "/"@,
            },
        ),
    }
}

/// Builds the request that sets up the messaging client for the
/// credentials given. Submitting it is left to the caller.
pub fn init_tdclient(api_id: String, api_hash: String) -> (options: TelegramOptions)
    ensures
        options@ == setup_request(api_id@, api_hash@),
{
    TelegramOptions {
        attype: "setTdlibParameters".to_string(),
        parameters: Some(
            TdParameters {
                attype: "tdParameters".to_string(),
                use_test_dc: false,
                api_id,
                api_hash,
                system_language_code: "en".to_string(),
                device_model: "Rust Dioxus PWA".to_string(),
                application_version: "0.1".to_string(),
                use_secret_chats: false,
                use_message_database: true,
                use_file_database: true,
                files_directory: "/".to_string(),
            },
        ),
    }
}

} // verus!
