//! The loading pipeline: decide the effective text of a configuration file
//! (provisioning the default on first run), parse it with fallback to the
//! default text, and merge the partial value into a complete one.
//!
//! The filesystem itself stays outside: callers hand in the file's current
//! text as `Option<String>` (`None` when the file is missing or unreadable)
//! and perform the one write that `needs_provisioning` calls for.

use vstd::prelude::*;
use vstd::string::StringExecFns;
use crate::config::{Config, ConfigOptional};

verus! {

/// An explicitly named file could not be read: it is missing, not a regular
/// file, or not decodable as text. Never produced by the bootstrapping entry
/// points, which fall back to defaults instead.
#[derive(Debug)]
pub struct ReadConfigFileError {}

impl ReadConfigFileError {
    /// The error's display text.
    pub fn message(&self) -> (r: String)
        ensures
            r@ == "Error on reading File."@,
    {
        String::from_str("Error on reading File.")
    }
}

/// A failure of the loading pipeline itself: the caller-supplied default
/// text does not parse, so no fallback is left. A programming error at the
/// call site, surfaced loudly rather than defaulted away.
#[derive(Debug)]
pub enum LoadError {
    MalformedDefault,
}

/// The text a file holds, `None` standing for a missing or unreadable file.
pub open spec fn opt_text_view(content: Option<String>) -> Option<Seq<char>> {
    match content {
        Some(s) => Some(s@),
        None => None,
    }
}

/// Whether a file with this content must be provisioned: it is missing or
/// empty, and the default content is to be written into it. A non-empty
/// file is never touched.
pub open spec fn spec_needs_write(existing: Option<Seq<char>>) -> bool {
    match existing {
        Some(content) => content.len() == 0,
        None => true,
    }
}

/// The text the pipeline works on: the file's own content when it has any,
/// the default content otherwise.
pub open spec fn spec_effective(existing: Option<Seq<char>>, default_text: Seq<char>) -> Seq<char> {
    match existing {
        Some(content) => if content.len() == 0 {
            default_text
        } else {
            content
        },
        None => default_text,
    }
}

/// The whole pipeline on given file content and default text: parse the
/// effective text, fall back to the default text when it is rejected, and
/// merge; `None` when even the default text is rejected.
pub open spec fn spec_create_config<ConcreteConfig: Config<OptionalConfig>, OptionalConfig: ConfigOptional>(
    existing: Option<Seq<char>>,
    default_text: Seq<char>,
) -> Option<ConcreteConfig::V> {
    match OptionalConfig::spec_parse(spec_effective(existing, default_text)) {
        Some(partial) => Some(ConcreteConfig::spec_from_optional(partial)),
        None => match OptionalConfig::spec_parse(default_text) {
            Some(partial) => Some(ConcreteConfig::spec_from_optional(partial)),
            None => None,
        },
    }
}

/// Whether the file must be provisioned with the default content before the
/// pipeline runs. True exactly for a missing, unreadable or empty file.
pub fn needs_provisioning(existing: &Option<String>) -> (r: bool)
    ensures
        r == spec_needs_write(opt_text_view(*existing)),
{
    match existing {
        None => true,
        Some(content) => content.as_str().is_empty(),
    }
}

/// The ensure-file step on the content alone: hands back the text the file
/// holds after provisioning, which is also the text the pipeline parses.
pub fn ensure_file_content(existing: Option<String>, default_content: &str) -> (r: String)
    ensures
        r@ == spec_effective(opt_text_view(existing), default_content@),
{
    match existing {
        None => String::from_str(default_content),
        Some(content) => if content.as_str().is_empty() {
            String::from_str(default_content)
        } else {
            content
        },
    }
}

/// Loads a complete configuration from a file's current content, falling
/// back to `default_config` for an empty or missing file and for one whose
/// text is rejected; fails only when `default_config` itself is rejected.
pub fn create_config<ConcreteConfig: Config<OptionalConfig>, OptionalConfig: ConfigOptional>(
    existing_content: Option<String>,
    default_config: &str,
) -> (r: Result<ConcreteConfig, LoadError>)
    ensures
        (match r {
            Ok(config) => spec_create_config::<ConcreteConfig, OptionalConfig>(
                opt_text_view(existing_content),
                default_config@,
            ) == Some(config@),
            Err(e) => spec_create_config::<ConcreteConfig, OptionalConfig>(
                opt_text_view(existing_content),
                default_config@,
            ) is None && e == LoadError::MalformedDefault,
        }),
{
    let text = ensure_file_content(existing_content, default_config);
    match OptionalConfig::parse_toml(text.as_str()) {
        Some(partial) => Ok(ConcreteConfig::create_from_optional(partial)),
        None => match OptionalConfig::parse_toml(default_config) {
            Some(partial) => Ok(ConcreteConfig::create_from_optional(partial)),
            None => Err(LoadError::MalformedDefault),
        },
    }
}

/// Loads a complete configuration from the content of a file the caller
/// named explicitly: no provisioning and no caller-supplied default, so an
/// absent file is an error, and rejected text degrades to the type's own
/// defaults (the all-absent partial value).
pub fn read_specific_config<ConcreteConfig: Config<OptionalConfig>, OptionalConfig: ConfigOptional>(
    content: Option<String>,
) -> (r: Result<ConcreteConfig, ReadConfigFileError>)
    ensures
        (r is Err) == (content is None),
        (match r {
            Ok(config) => content matches Some(text) && spec_create_config::<
                ConcreteConfig,
                OptionalConfig,
            >(Some(text@), ""@) == Some(config@),
            Err(_) => content is None,
        }),
{
    match content {
        None => Err(ReadConfigFileError {}),
        Some(text) => {
            proof {
                reveal_strlit("");
            }
            match create_config::<ConcreteConfig, OptionalConfig>(Some(text), "") {
                Ok(config) => Ok(config),
                Err(_) => {
                    proof {
                        OptionalConfig::parse_empty_accepted(""@);
                        assert(false);
                    }
                    Err(ReadConfigFileError {})
                },
            }
        },
    }
}

/// Hands back the content of a file the caller named explicitly, and an
/// error exactly when the file was missing or unreadable. No default
/// substitution takes place here.
pub fn read_specific_css(content: Option<String>) -> (r: Result<String, ReadConfigFileError>)
    ensures
        (match r {
            Ok(text) => content matches Some(c) && text@ == c@,
            Err(_) => content is None,
        }),
{
    match content {
        Some(text) => Ok(text),
        None => Err(ReadConfigFileError {}),
    }
}

/// Existing content always wins over the default parameter: when the file's
/// text is non-empty and parses, the loaded configuration is the merge of
/// that text's partial value, whatever default text is supplied.
pub proof fn lemma_user_edit_precedence<ConcreteConfig: Config<OptionalConfig>, OptionalConfig: ConfigOptional>(
    content: Seq<char>,
    default_a: Seq<char>,
    default_b: Seq<char>,
)
    requires
        content.len() > 0,
        OptionalConfig::spec_parse(content) is Some,
    ensures
        spec_create_config::<ConcreteConfig, OptionalConfig>(Some(content), default_a)
            == spec_create_config::<ConcreteConfig, OptionalConfig>(Some(content), default_b),
        OptionalConfig::spec_parse(content) matches Some(partial)
            && spec_create_config::<ConcreteConfig, OptionalConfig>(Some(content), default_a)
            == Some(ConcreteConfig::spec_from_optional(partial)),
{
}

/// A malformed file falls back to the default: when the file's text is
/// rejected, the pipeline returns exactly what it would return had the file
/// contained the default text instead. The file itself is not rewritten:
/// rejected text is still non-empty, so `spec_needs_write` does not hold.
pub proof fn lemma_malformed_fallback<ConcreteConfig: Config<OptionalConfig>, OptionalConfig: ConfigOptional>(
    content: Seq<char>,
    default_text: Seq<char>,
)
    requires
        OptionalConfig::spec_parse(content) is None,
    ensures
        spec_create_config::<ConcreteConfig, OptionalConfig>(Some(content), default_text)
            == spec_create_config::<ConcreteConfig, OptionalConfig>(Some(default_text), default_text),
        !spec_needs_write(Some(content)),
{
    if content.len() == 0 {
        OptionalConfig::parse_empty_accepted(content);
    }
}

/// Idempotence: after one call has provisioned the file, a second call with
/// unchanged arguments sees content that needs no further write (for a
/// non-empty default), leaves the effective text as it was, and returns the
/// same configuration value.
pub proof fn lemma_idempotent<ConcreteConfig: Config<OptionalConfig>, OptionalConfig: ConfigOptional>(
    existing: Option<Seq<char>>,
    default_text: Seq<char>,
)
    ensures
        default_text.len() > 0 ==> !spec_needs_write(
            Some(spec_effective(existing, default_text)),
        ),
        spec_effective(Some(spec_effective(existing, default_text)), default_text)
            == spec_effective(existing, default_text),
        spec_create_config::<ConcreteConfig, OptionalConfig>(
            Some(spec_effective(existing, default_text)),
            default_text,
        ) == spec_create_config::<ConcreteConfig, OptionalConfig>(existing, default_text),
{
}

} // verus!
