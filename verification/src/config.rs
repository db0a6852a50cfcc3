//! The settings of the program.
//!
//! Settings come from the command line, from a file, or from defaults, in
//! this order of precedence. Reading and merging them is the caller's
//! work; what is handed in here are the merged values.

use vstd::prelude::*;
use vstd::string::*;

verus! {

/// A [`Config`] as a mathematical value.
pub struct Settings {
    /// The API key, where one is set.
    pub yt_api: Option<Seq<char>>,
    /// The delegated access token, where one is set.
    pub yt_oauth_token: Option<Seq<char>>,
    /// The path of the file that lists the playlists.
    pub playlist_file: Seq<char>,
    /// The path of the file that the settings were read from.
    pub config_file: Seq<char>,
}

impl Settings {
    /// Whether the settings name a credential of either kind.
    pub open spec fn has_credential(self) -> bool {
        self.yt_api is Some || self.yt_oauth_token is Some
    }
}

/// Why settings were refused.
#[derive(Debug)]
pub enum ConfigError {
    /// Neither an API key nor an access token is set. The path is that of
    /// the file in which one of them was looked for.
    MissingCredential { config_file: String },
}

/// What the user is told where no credential is set: where to set one.
pub open spec fn missing_credential_message(config_file: Seq<char>) -> Seq<char> {
    "\nPlease have a youtube api key or an OAuth2.0 token set in either\n\n"@ + config_file
        + "\n\nor using the --yt-api flag."@
}

impl ConfigError {
    /// The text that tells the user what to do about the error.
    pub fn message(&self) -> (text: String)
        ensures
            match self {
                ConfigError::MissingCredential { config_file } => text@
                    == missing_credential_message(config_file@),
            },
    {
        match self {
            ConfigError::MissingCredential { config_file } => {
                let mut text =
                    "\nPlease have a youtube api key or an OAuth2.0 token set in either\n\n".to_owned();
                text.append(config_file.as_str());
                text.append("\n\nor using the --yt-api flag.");
                text
            },
        }
    }
}

/// The settings of the program. They always name a credential.
#[derive(Debug)]
pub struct Config {
    yt_api: Option<String>,
    yt_oauth_token: Option<String>,
    playlist_file: String,
    config_file: String,
}

impl View for Config {
    type V = Settings;

    closed spec fn view(&self) -> Settings {
        Settings {
            yt_api: self.yt_api.deep_view(),
            yt_oauth_token: self.yt_oauth_token.deep_view(),
            playlist_file: self.playlist_file@,
            config_file: self.config_file@,
        }
    }
}

impl Config {
    #[verifier::type_invariant]
    spec fn names_credential(&self) -> bool {
        self.yt_api is Some || self.yt_oauth_token is Some
    }

    /// Makes the settings from their merged values. They are refused where
    /// neither an API key nor an access token is among them.
    pub fn build(
        yt_api: Option<String>,
        yt_oauth_token: Option<String>,
        playlist_file: String,
        config_file: String,
    ) -> (res: Result<Config, ConfigError>)
        ensures
            match res {
                Ok(config) => config@ == (Settings {
                    yt_api: yt_api.deep_view(),
                    yt_oauth_token: yt_oauth_token.deep_view(),
                    playlist_file: playlist_file@,
                    config_file: config_file@,
                }) && config@.has_credential(),
                Err(error) => yt_api is None && yt_oauth_token is None && error
                    == (ConfigError::MissingCredential { config_file }),
            },
    {
        if yt_api.is_none() && yt_oauth_token.is_none() {
            Err(ConfigError::MissingCredential { config_file })
        } else {
            Ok(Config { yt_api, yt_oauth_token, playlist_file, config_file })
        }
    }

    /// Whether an API key is set.
    pub fn has_youtube_api(&self) -> (set: bool)
        ensures
            set == self@.yt_api is Some,
    {
        self.yt_api.is_some()
    }

    /// The API key. It must be set: settings with an access token alone
    /// have none to give.
    pub fn youtube_api(&self) -> (key: &String)
        requires
            self@.yt_api is Some,
        ensures
            Some(key@) == self@.yt_api,
    {
        self.yt_api.as_ref().unwrap()
    }

    /// The delegated access token, where one is set. Where none is, the API
    /// key is.
    pub fn youtube_oauth_token(&self) -> (token: Option<&String>)
        ensures
            token.deep_view() == self@.yt_oauth_token,
            token is None ==> self@.yt_api is Some,
    {
        proof {
            use_type_invariant(self);
        }
        self.yt_oauth_token.as_ref()
    }

    /// The path of the file that lists the playlists.
    pub fn playlist_file(&self) -> (path: &String)
        ensures
            path@ == self@.playlist_file,
    {
        &self.playlist_file
    }

    /// The path of the file that the settings were read from.
    pub fn config_file(&self) -> (path: &String)
        ensures
            path@ == self@.config_file,
    {
        &self.config_file
    }
}

} // verus!
