//! Choosing the security template to install into a project.
use vstd::prelude::*;
use crate::common::ProjectType;
use crate::text::{append_str, copy_str, str_eq};

verus! {

/// The language asked for on the command line.
#[derive(Debug, Clone, Copy, PartialEq, Eq, Structural)]
pub enum InitLanguage {
    Rust,
    Python,
    /// Detect it from the project's files.
    Auto,
}

/// The template to install.
#[derive(Debug, Clone, Copy, PartialEq, Eq, Structural)]
pub enum InitTarget {
    /// The input guardrails module, at `src/guardrails.rs`.
    Rust,
    /// The recommended requirements, at `secure_requirements.txt`.
    Python,
}

/// Why no template can be chosen.
#[derive(Debug, Clone, PartialEq, Eq)]
pub enum InitError {
    /// The language was none of `rust`, `python`, `auto`.
    UnknownLanguage(String),
    /// `auto` found neither a Rust nor a Python project.
    CouldNotDetect,
}

impl InitError {
    /// The error's message.
    pub fn message(&self) -> (r: String)
        ensures
            r@ == match self {
                InitError::UnknownLanguage(l) => "Unknown language: '"@ + l@ + "'. Supported: rust, python, auto"@,
                InitError::CouldNotDetect => "Could not auto-detect project type. Please specify 'rust' or 'python'."@,
            },
    {
        match self {
            InitError::UnknownLanguage(l) => {
                let mut out = copy_str("Unknown language: '");
                append_str(&mut out, l.as_str());
                append_str(&mut out, "'. Supported: rust, python, auto");
                out
            },
            InitError::CouldNotDetect => copy_str(
                "Could not auto-detect project type. Please specify 'rust' or 'python'.",
            ),
        }
    }
}

/// The language named `language`.
pub open spec fn language_named(language: Seq<char>) -> Option<InitLanguage> {
    if language == "rust"@ {
        Some(InitLanguage::Rust)
    } else if language == "python"@ {
        Some(InitLanguage::Python)
    } else if language == "auto"@ {
        Some(InitLanguage::Auto)
    } else {
        None
    }
}

/// Reads the language argument; any other word is refused.
pub fn parse_language(language: &str) -> (r: Result<InitLanguage, InitError>)
    ensures
        match language_named(language@) {
            Some(l) => r == Ok::<InitLanguage, InitError>(l),
            None => r matches Err(InitError::UnknownLanguage(w)) && w@ == language@,
        },
{
    if str_eq(language, "rust") {
        Ok(InitLanguage::Rust)
    } else if str_eq(language, "python") {
        Ok(InitLanguage::Python)
    } else if str_eq(language, "auto") {
        Ok(InitLanguage::Auto)
    } else {
        Err(InitError::UnknownLanguage(copy_str(language)))
    }
}

/// The template for `language`, with `detected` the project's type (used
/// by `auto` alone).
pub open spec fn target_for(language: InitLanguage, detected: ProjectType) -> Option<InitTarget> {
    match language {
        InitLanguage::Rust => Some(InitTarget::Rust),
        InitLanguage::Python => Some(InitTarget::Python),
        InitLanguage::Auto => match detected {
            ProjectType::Rust => Some(InitTarget::Rust),
            ProjectType::Python => Some(InitTarget::Python),
            ProjectType::Unknown => None,
        },
    }
}

/// The template to install; `auto` on an unknown project fails.
pub fn resolve_target(language: InitLanguage, detected: ProjectType) -> (r: Result<InitTarget, InitError>)
    ensures
        match target_for(language, detected) {
            Some(t) => r == Ok::<InitTarget, InitError>(t),
            None => r matches Err(InitError::CouldNotDetect),
        },
{
    match language {
        InitLanguage::Rust => Ok(InitTarget::Rust),
        InitLanguage::Python => Ok(InitTarget::Python),
        InitLanguage::Auto => match detected {
            ProjectType::Rust => Ok(InitTarget::Rust),
            ProjectType::Python => Ok(InitTarget::Python),
            ProjectType::Unknown => Err(InitError::CouldNotDetect),
        },
    }
}

/// Where a template is written.
pub fn target_path(target: InitTarget) -> (r: &'static str)
    ensures
        r@ == match target {
            InitTarget::Rust => "src/guardrails.rs"@,
            InitTarget::Python => "secure_requirements.txt"@,
        },
{
    match target {
        InitTarget::Rust => "src/guardrails.rs",
        InitTarget::Python => "secure_requirements.txt",
    }
}

} // verus!
