use vstd::prelude::*;

verus! {

/// The environment variables that the tools read at start-up.
#[derive(Clone, Copy, Debug, PartialEq, Eq, Structural)]
pub enum EnvVar {
    OpenAiApiKey,
    RepositoryUrl,
    LocalBooksDirPath,
    OutputDirPath,
}

impl EnvVar {
    pub open spec fn spec_name(self) -> Seq<char> {
        match self {
            EnvVar::OpenAiApiKey => "OPEN_AI_API_KEY"@,
            EnvVar::RepositoryUrl => "REPOSITORY_URL"@,
            EnvVar::LocalBooksDirPath => "LOCAL_BOOKS_DIR_PATH"@,
            EnvVar::OutputDirPath => "OUTPUT_DIR_PATH"@,
        }
    }

    /// The variable's name in the environment.
    pub fn name(&self) -> (r: &'static str)
        ensures
            r@ == self.spec_name(),
    {
        match self {
            EnvVar::OpenAiApiKey => "OPEN_AI_API_KEY",
            EnvVar::RepositoryUrl => "REPOSITORY_URL",
            EnvVar::LocalBooksDirPath => "LOCAL_BOOKS_DIR_PATH",
            EnvVar::OutputDirPath => "OUTPUT_DIR_PATH",
        }
    }
}

/// Why a tool's settings could not be put together.
#[derive(Clone, Copy, Debug, PartialEq, Eq, Structural)]
pub enum ConfigError {
    /// A required variable is not set.
    MissingVar(EnvVar),
}

/// The value of a required variable, or the error naming it.
pub fn require(var: EnvVar, value: Option<String>) -> (r: Result<String, ConfigError>)
    ensures
        value is None ==> r == Err::<String, ConfigError>(ConfigError::MissingVar(var)),
        value is Some ==> r is Ok && r->Ok_0@ == value->Some_0@,
{
    match value {
        Some(v) => Ok(v),
        None => Err(ConfigError::MissingVar(var)),
    }
}

/// Settings of the translating tool.
#[derive(Clone, Debug, PartialEq, Eq)]
pub struct TranslatorConfig {
    pub api_key: String,
    pub repository_url: String,
    pub books_dir: String,
}

impl TranslatorConfig {
    /// Puts the settings together from the values of `OPEN_AI_API_KEY`,
    /// `REPOSITORY_URL` and `LOCAL_BOOKS_DIR_PATH`; the first of them that
    /// is unset, in that order, is the error.
    pub fn from_vars(
        api_key: Option<String>,
        repository_url: Option<String>,
        books_dir: Option<String>,
    ) -> (r: Result<TranslatorConfig, ConfigError>)
        ensures
            api_key is None ==> r == Err::<TranslatorConfig, ConfigError>(
                ConfigError::MissingVar(EnvVar::OpenAiApiKey),
            ),
            api_key is Some && repository_url is None ==> r == Err::<
                TranslatorConfig,
                ConfigError,
            >(ConfigError::MissingVar(EnvVar::RepositoryUrl)),
            api_key is Some && repository_url is Some && books_dir is None ==> r == Err::<
                TranslatorConfig,
                ConfigError,
            >(ConfigError::MissingVar(EnvVar::LocalBooksDirPath)),
            api_key is Some && repository_url is Some && books_dir is Some ==> {
                &&& r is Ok
                &&& r->Ok_0.api_key@ == api_key->Some_0@
                &&& r->Ok_0.repository_url@ == repository_url->Some_0@
                &&& r->Ok_0.books_dir@ == books_dir->Some_0@
            },
    {
        let api_key = match require(EnvVar::OpenAiApiKey, api_key) {
            Ok(v) => v,
            Err(e) => return Err(e),
        };
        let repository_url = match require(EnvVar::RepositoryUrl, repository_url) {
            Ok(v) => v,
            Err(e) => return Err(e),
        };
        let books_dir = match require(EnvVar::LocalBooksDirPath, books_dir) {
            Ok(v) => v,
            Err(e) => return Err(e),
        };
        Ok(TranslatorConfig { api_key, repository_url, books_dir })
    }
}

/// Settings of the migrating tool.
#[derive(Clone, Debug, PartialEq, Eq)]
pub struct MigratorConfig {
    pub output_dir: String,
    pub repository_url: String,
    pub books_dir: String,
}

impl MigratorConfig {
    /// Puts the settings together from the values of `OUTPUT_DIR_PATH`,
    /// `REPOSITORY_URL` and `LOCAL_BOOKS_DIR_PATH`; the first of them that
    /// is unset, in that order, is the error.
    pub fn from_vars(
        output_dir: Option<String>,
        repository_url: Option<String>,
        books_dir: Option<String>,
    ) -> (r: Result<MigratorConfig, ConfigError>)
        ensures
            output_dir is None ==> r == Err::<MigratorConfig, ConfigError>(
                ConfigError::MissingVar(EnvVar::OutputDirPath),
            ),
            output_dir is Some && repository_url is None ==> r == Err::<
                MigratorConfig,
                ConfigError,
            >(ConfigError::MissingVar(EnvVar::RepositoryUrl)),
            output_dir is Some && repository_url is Some && books_dir is None ==> r == Err::<
                MigratorConfig,
                ConfigError,
            >(ConfigError::MissingVar(EnvVar::LocalBooksDirPath)),
            output_dir is Some && repository_url is Some && books_dir is Some ==> {
                &&& r is Ok
                &&& r->Ok_0.output_dir@ == output_dir->Some_0@
                &&& r->Ok_0.repository_url@ == repository_url->Some_0@
                &&& r->Ok_0.books_dir@ == books_dir->Some_0@
            },
    {
        let output_dir = match require(EnvVar::OutputDirPath, output_dir) {
            Ok(v) => v,
            Err(e) => return Err(e),
        };
        let repository_url = match require(EnvVar::RepositoryUrl, repository_url) {
            Ok(v) => v,
            Err(e) => return Err(e),
        };
        let books_dir = match require(EnvVar::LocalBooksDirPath, books_dir) {
            Ok(v) => v,
            Err(e) => return Err(e),
        };
        Ok(MigratorConfig { output_dir, repository_url, books_dir })
    }
}

} // verus!
