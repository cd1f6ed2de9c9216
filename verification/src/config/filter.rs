//! The redaction patterns: the built-in list, the list a configuration
//! document may give in its place, and their compilation.

use crate::error::LogidError;
use crate::json::{
    json_error_text, json_fields, json_get, json_parsed, json_text_list, json_to_text_list,
    parse_json,
};
use crate::pattern::{compile, regex_compiles, regex_error_text};
use crate::redaction::patterns_of;
use crate::text::{begins_with, clone_strings, join3, texts};
use vstd::prelude::*;
use vstd::string::StringExecFns;

verus! {

/// The name under which a configuration document gives its patterns.
pub const PATTERNS_KEY: &'static str = "msg_filters";

/// An older name for [`PATTERNS_KEY`], still read.
pub const PATTERNS_KEY_UNDERSCORED: &'static str = "_msg_filters";

/// The oldest name for [`PATTERNS_KEY`], still read.
pub const PATTERNS_KEY_PLAIN: &'static str = "patterns";

/// The patterns that a configuration document gives.
#[derive(Debug)]
pub struct FilterConfig {
    /// The patterns, in the order in which they are applied; `None` stands
    /// for the built-in list.
    pub msg_filters: Option<Vec<String>>,
}

/// What a text says when it is read as a configuration document.
pub enum ConfigReading {
    /// The text is no JSON document, or the member that should hold the
    /// patterns is no list of strings.
    Malformed,
    /// The document has no member under any of the three names.
    Silent,
    /// The document gives these patterns.
    Patterns(Seq<Seq<char>>),
}

/// The built-in patterns: compliance markers, the escaped user record, and
/// the members that repeat the log id or give addresses away.
pub open spec fn default_patterns() -> Seq<Seq<char>> {
    seq![
        "_compliance_nlp_log"@,
        "_compliance_whitelist_log"@,
        "_compliance_source=footprint"@,
        r#"(?s)"user_extra":\s*"\{.*?\}""#@,
        r#"(?m)"LogID":\s*"[^"]*""#@,
        r#"(?m)"Addr":\s*"[^"]*""#@,
        r#"(?m)"Client":\s*"[^"]*""#@,
    ]
}

/// The member of a document that holds the patterns: the first that exists
/// among the current name and the two older ones, in that order.
pub open spec fn patterns_member(fields: Map<Seq<char>, serde_json::Value>) -> Option<
    serde_json::Value,
> {
    if fields.contains_key(PATTERNS_KEY@) {
        Some(fields[PATTERNS_KEY@])
    } else if fields.contains_key(PATTERNS_KEY_UNDERSCORED@) {
        Some(fields[PATTERNS_KEY_UNDERSCORED@])
    } else if fields.contains_key(PATTERNS_KEY_PLAIN@) {
        Some(fields[PATTERNS_KEY_PLAIN@])
    } else {
        None
    }
}

/// What a text says when it is read as a configuration document.
pub open spec fn config_reading(text: Seq<char>) -> ConfigReading {
    match json_parsed(text) {
        None => ConfigReading::Malformed,
        Some(document) => match patterns_member(json_fields(document)) {
            None => ConfigReading::Silent,
            Some(member) => match json_text_list(member) {
                Some(list) => ConfigReading::Patterns(list),
                None => ConfigReading::Malformed,
            },
        },
    }
}

/// The patterns to use, given the text of the configuration document if
/// there is one: the document's list where it gives one, else the built-in
/// list; `None` where the document is malformed.
pub open spec fn chosen_patterns(config_text: Option<Seq<char>>) -> Option<Seq<Seq<char>>> {
    match config_text {
        None => Some(default_patterns()),
        Some(text) => match config_reading(text) {
            ConfigReading::Malformed => None,
            ConfigReading::Silent => Some(default_patterns()),
            ConfigReading::Patterns(list) => Some(list),
        },
    }
}

/// Whether `Regex::new` accepts every pattern of a list.
pub open spec fn all_compile(patterns: Seq<Seq<char>>) -> bool {
    forall|i: int| 0 <= i < patterns.len() ==> regex_compiles(#[trigger] patterns[i])
}

/// Whether a pattern is the first of a list that `Regex::new` refuses.
pub open spec fn first_refused(patterns: Seq<Seq<char>>, at: int) -> bool {
    &&& 0 <= at < patterns.len()
    &&& !regex_compiles(patterns[at])
    &&& all_compile(patterns.take(at))
}

/// How the report on a refused pattern begins: with the pattern in quotes.
pub open spec fn refusal_heading(pattern: Seq<char>) -> Seq<char> {
    "无效的正则表达式 '"@ + pattern + "': "@
}

/// Whether an error is the one that reports the first pattern of a list
/// that `Regex::new` refuses: its report begins with that pattern in
/// quotes.
pub open spec fn refuses(patterns: Seq<Seq<char>>, error: LogidError) -> bool {
    &&& error matches LogidError::FilterConfigError(report)
    &&& exists|at: int|
        first_refused(patterns, at) && begins_with(report@, refusal_heading(#[trigger] patterns[at]))
}

impl FilterConfig {
    /// Reads a configuration document. A document without a member under any
    /// of the three names gives `None`: that is no error, the built-in list
    /// applies. A member that is no list of strings is an error.
    pub fn from_document(document: &serde_json::Value) -> (config: Result<
        Option<FilterConfig>,
        LogidError,
    >)
        ensures
            match patterns_member(json_fields(*document)) {
                None => config matches Ok(None),
                Some(member) => match json_text_list(member) {
                    Some(list) => config matches Ok(Some(found)) && found.msg_filters matches Some(
                        patterns,
                    ) && texts(patterns@) == list,
                    None => config matches Err(LogidError::JsonParseError(_)),
                },
            },
    {
        let member = match json_get(document, PATTERNS_KEY) {
            Some(member) => member,
            None => match json_get(document, PATTERNS_KEY_UNDERSCORED) {
                Some(member) => member,
                None => match json_get(document, PATTERNS_KEY_PLAIN) {
                    Some(member) => member,
                    None => {
                        return Ok(None);
                    },
                },
            },
        };
        match json_to_text_list(member) {
            Ok(patterns) => Ok(Some(FilterConfig { msg_filters: Some(patterns) })),
            Err(error) => Err(LogidError::JsonParseError(json_error_text(&error))),
        }
    }

    /// Reads the text of a configuration document: a text that is no JSON
    /// document is an error, every other text is read as
    /// [`FilterConfig::from_document`] reads its document.
    pub fn from_json(text: &str) -> (config: Result<Option<FilterConfig>, LogidError>)
        ensures
            match config_reading(text@) {
                ConfigReading::Malformed => config matches Err(LogidError::JsonParseError(_)),
                ConfigReading::Silent => config matches Ok(None),
                ConfigReading::Patterns(list) => config matches Ok(Some(found))
                    && found.msg_filters matches Some(patterns) && texts(patterns@) == list,
            },
    {
        match parse_json(text) {
            Ok(document) => FilterConfig::from_document(&document),
            Err(error) => Err(LogidError::JsonParseError(json_error_text(&error))),
        }
    }

    /// The patterns of this configuration, the built-in list where it holds
    /// none.
    pub fn get_filters(&self) -> (patterns: Vec<String>)
        ensures
            texts(patterns@) == match self.msg_filters {
                Some(list) => texts(list@),
                None => default_patterns(),
            },
    {
        match &self.msg_filters {
            Some(list) => clone_strings(list),
            None => get_default_filters(),
        }
    }
}

/// The built-in patterns.
pub fn get_default_filters() -> (patterns: Vec<String>)
    ensures
        texts(patterns@) == default_patterns(),
{
    let mut patterns: Vec<String> = Vec::new();
    patterns.push(String::from_str("_compliance_nlp_log"));
    patterns.push(String::from_str("_compliance_whitelist_log"));
    patterns.push(String::from_str("_compliance_source=footprint"));
    patterns.push(String::from_str(r#"(?s)"user_extra":\s*"\{.*?\}""#));
    patterns.push(String::from_str(r#"(?m)"LogID":\s*"[^"]*""#));
    patterns.push(String::from_str(r#"(?m)"Addr":\s*"[^"]*""#));
    patterns.push(String::from_str(r#"(?m)"Client":\s*"[^"]*""#));
    assert(texts(patterns@) =~= default_patterns());
    patterns
}

/// Compiles patterns in the order of the list. One pattern that cannot be
/// compiled fails the whole list; the error reports the first such pattern.
pub fn compile_filters(patterns: &Vec<String>) -> (compiled: Result<Vec<regex::Regex>, LogidError>)
    ensures
        compiled is Ok <==> all_compile(texts(patterns@)),
        compiled matches Ok(filters) ==> patterns_of(filters@) == texts(patterns@),
        compiled matches Err(error) ==> refuses(texts(patterns@), error),
{
    let mut filters: Vec<regex::Regex> = Vec::new();
    let mut i: usize = 0;
    while i < patterns.len()
        invariant
            i <= patterns.len(),
            filters@.len() == i,
            all_compile(texts(patterns@).take(i as int)),
            patterns_of(filters@) == texts(patterns@).take(i as int),
        decreases patterns.len() - i,
    {
        let ghost list = texts(patterns@);
        match compile(patterns[i].as_str()) {
            Ok(filter) => {
                let ghost before = filters@;
                filters.push(filter);
                proof {
                    assert forall|j: int| 0 <= j < i + 1 implies patterns_of(filters@)[j]
                        == list.take(i + 1)[j] by {
                        if j < i {
                            assert(filters@[j] == before[j]);
                            assert(patterns_of(before)[j] == list.take(i as int)[j]);
                        } else {
                            assert(filters@[j] == filter);
                            assert(list[j] == patterns@[j]@);
                        }
                    }
                    assert(patterns_of(filters@) =~= list.take(i + 1));
                    assert forall|j: int| 0 <= j < list.take(i + 1).len() implies regex_compiles(
                        #[trigger] list.take(i + 1)[j],
                    ) by {
                        if j < i {
                            assert(list.take(i as int)[j] == list[j]);
                        }
                    }
                }
            },
            Err(error) => {
                let mut report = join3("无效的正则表达式 '", patterns[i].as_str(), "': ");
                let ghost heading = report@;
                let detail = regex_error_text(&error);
                report.append(detail.as_str());
                proof {
                    assert(first_refused(list, i as int));
                    assert(heading == refusal_heading(list[i as int]));
                    assert(report@.subrange(0, heading.len() as int) =~= heading);
                    assert(!all_compile(list));
                }
                return Err(LogidError::FilterConfigError(report));
            },
        }
        i += 1;
    }
    assert(texts(patterns@).take(patterns.len() as int) =~= texts(patterns@));
    Ok(filters)
}

/// Makes the compiled patterns for a client, given the text of the
/// configuration document if there is one. A missing document and a document
/// that names no patterns both give the built-in list; a malformed document
/// is an error, and so is a pattern that cannot be compiled: the error then
/// reports the first such pattern of the list.
pub fn create_message_filters(config_text: Option<&str>) -> (compiled: Result<
    Vec<regex::Regex>,
    LogidError,
>)
    ensures
        match chosen_patterns(
            match config_text {
                Some(text) => Some(text@),
                None => None,
            },
        ) {
            None => compiled matches Err(LogidError::JsonParseError(_)),
            Some(patterns) => {
                &&& compiled is Ok <==> all_compile(patterns)
                &&& compiled matches Ok(filters) ==> patterns_of(filters@) == patterns
                &&& compiled matches Err(error) ==> refuses(patterns, error)
            },
        },
{
    let patterns = match config_text {
        Some(text) => match FilterConfig::from_json(text) {
            Ok(Some(config)) => config.get_filters(),
            Ok(None) => get_default_filters(),
            Err(error) => {
                return Err(error);
            },
        },
        None => get_default_filters(),
    };
    compile_filters(&patterns)
}

} // verus!
