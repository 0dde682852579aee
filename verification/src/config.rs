//! The download configuration: where the index lies and which mirrors serve
//! the files.
//!
//! The configuration document holds one section or two, `default` and
//! `predownload`. A section names a base path and an index file under
//! `config`, and the mirrors under `cdnList`.

use crate::json::{items, json_items, json_member, member, member_text, text_at};
use crate::text::{
    same_text, trim_end_slashes, trim_start_slashes, without_leading_slashes,
    without_trailing_slashes,
};
use serde_json::Value;
use vstd::prelude::*;
use vstd::string::*;

verus! {

/// The sections that a configuration document can hold.
#[derive(Clone, Copy, Debug, PartialEq, Eq, Structural)]
pub enum ConfigKind {
    Default,
    Predownload,
}

/// What to do about a document's sections.
#[derive(Clone, Copy, Debug, PartialEq, Eq, Structural)]
pub enum Selection {
    /// Only this section is there; use it.
    Use(ConfigKind),
    /// Both are there; the user chooses.
    Ask,
    /// Neither is there.
    Missing,
}

/// Why no configuration could be built.
#[derive(Clone, Copy, Debug, PartialEq, Eq, Structural)]
pub enum ConfigError {
    /// The document holds neither section.
    NoSection,
    /// The document does not hold the chosen section.
    MissingSection(ConfigKind),
    /// The section holds no `config`.
    MissingConfig(ConfigKind),
    /// `config` holds no text under `baseUrl`.
    InvalidBaseUrl,
    /// `config` holds no text under `indexFile`.
    InvalidIndexFile,
    /// The section holds no array under `cdnList`.
    InvalidCdnList,
    /// No element of `cdnList` holds a text under `url`.
    NoValidCdn,
}

/// The configuration of a run.
#[derive(Clone, Debug)]
pub struct Config {
    /// The address of the index file on the first mirror.
    pub index_url: String,
    /// The base address of the files on each mirror, in order of preference.
    pub zip_bases: Vec<String>,
}

/// A configuration as plain text.
pub struct ConfigModel {
    pub index_url: Seq<char>,
    pub zip_bases: Seq<Seq<char>>,
}

/// The characters of each string of a sequence.
pub open spec fn texts(strings: Seq<String>) -> Seq<Seq<char>> {
    Seq::new(strings.len(), |i: int| strings[i]@)
}

impl View for Config {
    type V = ConfigModel;

    open spec fn view(&self) -> ConfigModel {
        ConfigModel { index_url: self.index_url@, zip_bases: texts(self.zip_bases@) }
    }
}

impl ConfigKind {
    /// The key of the section in the document.
    pub open spec fn key(self) -> Seq<char> {
        match self {
            ConfigKind::Default => "default"@,
            ConfigKind::Predownload => "predownload"@,
        }
    }

    /// The key of the section in the document.
    pub fn name(&self) -> (name: &'static str)
        ensures
            name@ == self.key(),
    {
        match self {
            ConfigKind::Default => "default",
            ConfigKind::Predownload => "predownload",
        }
    }
}

impl ConfigError {
    /// The message of the error.
    pub open spec fn text(self) -> Seq<char> {
        match self {
            ConfigError::NoSection => "Neither default.config nor predownload.config found in response"@,
            ConfigError::MissingSection(kind) => "Missing "@ + kind.key() + " config in response"@,
            ConfigError::MissingConfig(kind) => "Missing config in "@ + kind.key() + " response"@,
            ConfigError::InvalidBaseUrl => "Missing or invalid baseUrl"@,
            ConfigError::InvalidIndexFile => "Missing or invalid indexFile"@,
            ConfigError::InvalidCdnList => "Missing or invalid cdnList"@,
            ConfigError::NoValidCdn => "No valid CDN URLs found"@,
        }
    }

    /// The message of the error.
    pub fn message(&self) -> (message: String)
        ensures
            message@ == self.text(),
    {
        match self {
            ConfigError::NoSection => "Neither default.config nor predownload.config found in response".to_owned(),
            ConfigError::MissingSection(kind) => "Missing ".to_owned().concat(kind.name()).concat(
                " config in response",
            ),
            ConfigError::MissingConfig(kind) => "Missing config in ".to_owned().concat(
                kind.name(),
            ).concat(" response"),
            ConfigError::InvalidBaseUrl => "Missing or invalid baseUrl".to_owned(),
            ConfigError::InvalidIndexFile => "Missing or invalid indexFile".to_owned(),
            ConfigError::InvalidCdnList => "Missing or invalid cdnList".to_owned(),
            ConfigError::NoValidCdn => "No valid CDN URLs found".to_owned(),
        }
    }
}

/// The document holds the section.
pub open spec fn has_section(document: Value, kind: ConfigKind) -> bool {
    json_member(document, kind.key()) is Some
}

/// What to do about the sections of a document: use the only one, ask where
/// there are two.
pub open spec fn selection_of(document: Value) -> Selection {
    if has_section(document, ConfigKind::Default) {
        if has_section(document, ConfigKind::Predownload) {
            Selection::Ask
        } else {
            Selection::Use(ConfigKind::Default)
        }
    } else if has_section(document, ConfigKind::Predownload) {
        Selection::Use(ConfigKind::Predownload)
    } else {
        Selection::Missing
    }
}

/// The section that an answer chooses: `1` the default one, `2` the
/// predownload one; any other answer chooses none.
pub open spec fn chosen_kind(answer: Seq<char>) -> Option<ConfigKind> {
    if answer == "1"@ {
        Some(ConfigKind::Default)
    } else if answer == "2"@ {
        Some(ConfigKind::Predownload)
    } else {
        None
    }
}

/// The array under a key of a JSON object.
pub open spec fn member_items(value: Value, key: Seq<char>) -> Option<Seq<Value>> {
    match json_member(value, key) {
        Some(inner) => json_items(inner),
        None => None,
    }
}

/// The address of a mirror: the text under `url`, without slashes at its end.
pub open spec fn cdn_url(cdn: Value) -> Option<Seq<char>> {
    match member_text(cdn, "url"@) {
        Some(url) => Some(without_trailing_slashes(url)),
        None => None,
    }
}

/// The addresses of the mirrors of a list, in order; elements without an
/// address are passed over.
pub open spec fn cdn_urls(list: Seq<Value>) -> Seq<Seq<char>>
    decreases list.len(),
{
    if list.len() == 0 {
        Seq::empty()
    } else {
        match cdn_url(list.last()) {
            Some(url) => cdn_urls(list.drop_last()).push(url),
            None => cdn_urls(list.drop_last()),
        }
    }
}

/// A mirror's address and a path below it, joined by two slashes; slashes at
/// the start of the path are dropped.
pub open spec fn joined(cdn: Seq<char>, path: Seq<char>) -> Seq<char> {
    cdn + "//"@ + without_leading_slashes(path)
}

/// The base address of the files on each mirror.
pub open spec fn bases(urls: Seq<Seq<char>>, base_url: Seq<char>) -> Seq<Seq<char>> {
    Seq::new(urls.len(), |i: int| joined(urls[i], base_url))
}

/// The configuration that a section of a document gives, or the first thing
/// that is missing from it.
pub open spec fn config_of(document: Value, kind: ConfigKind) -> Result<ConfigModel, ConfigError> {
    match json_member(document, kind.key()) {
        None => Err(ConfigError::MissingSection(kind)),
        Some(section) => match json_member(section, "config"@) {
            None => Err(ConfigError::MissingConfig(kind)),
            Some(base) => match member_text(base, "baseUrl"@) {
                None => Err(ConfigError::InvalidBaseUrl),
                Some(base_url) => match member_text(base, "indexFile"@) {
                    None => Err(ConfigError::InvalidIndexFile),
                    Some(index_file) => match member_items(section, "cdnList"@) {
                        None => Err(ConfigError::InvalidCdnList),
                        Some(list) => if cdn_urls(list).len() == 0 {
                            Err(ConfigError::NoValidCdn)
                        } else {
                            Ok(
                                ConfigModel {
                                    index_url: joined(cdn_urls(list)[0], index_file),
                                    zip_bases: bases(cdn_urls(list), base_url),
                                },
                            )
                        },
                    },
                },
            },
        },
    }
}

/// Tells what to do about the sections of a configuration document.
pub fn select_config(document: &Value) -> (selection: Selection)
    ensures
        selection == selection_of(*document),
{
    let has_default = member(document, ConfigKind::Default.name()).is_some();
    let has_predownload = member(document, ConfigKind::Predownload.name()).is_some();
    match (has_default, has_predownload) {
        (true, false) => Selection::Use(ConfigKind::Default),
        (false, true) => Selection::Use(ConfigKind::Predownload),
        (true, true) => Selection::Ask,
        (false, false) => Selection::Missing,
    }
}

/// The section to build from: the only one there is, or the user's choice
/// where both are there; an error where neither is.
pub fn selected_kind(selection: Selection, choice: ConfigKind) -> (kind: Result<
    ConfigKind,
    ConfigError,
>)
    ensures
        kind == match selection {
            Selection::Use(only) => Ok::<ConfigKind, ConfigError>(only),
            Selection::Ask => Ok(choice),
            Selection::Missing => Err(ConfigError::NoSection),
        },
{
    match selection {
        Selection::Use(only) => Ok(only),
        Selection::Ask => Ok(choice),
        Selection::Missing => Err(ConfigError::NoSection),
    }
}

/// Reads the user's answer to the question which section to use. The answer
/// is taken as it is; surrounding blanks are the caller's to remove.
pub fn choose_config(answer: &str) -> (kind: Option<ConfigKind>)
    ensures
        kind == chosen_kind(answer@),
{
    if same_text(answer, "1") {
        Some(ConfigKind::Default)
    } else if same_text(answer, "2") {
        Some(ConfigKind::Predownload)
    } else {
        None
    }
}

/// Joins a mirror's address and a path below it.
fn join(cdn: &str, path: &str) -> (url: String)
    ensures
        url@ == joined(cdn@, path@),
{
    cdn.to_owned().concat("//").concat(trim_start_slashes(path))
}

/// Collects the addresses of the mirrors of a list.
fn collect_cdn_urls(list: &Vec<Value>) -> (urls: Vec<String>)
    ensures
        texts(urls@) == cdn_urls(list@),
{
    let mut urls: Vec<String> = Vec::new();
    let mut i: usize = 0;
    assert(list@.take(0) =~= Seq::<Value>::empty());
    assert(texts(urls@) =~= cdn_urls(list@.take(0)));
    while i < list.len()
        invariant
            i <= list@.len(),
            texts(urls@) == cdn_urls(list@.take(i as int)),
        decreases list@.len() - i,
    {
        let ghost before = texts(urls@);
        assert(list@.take(i + 1).drop_last() =~= list@.take(i as int));
        assert(list@.take(i + 1).last() == list@[i as int]);
        if let Some(url) = text_at(&list[i], "url") {
            let trimmed = trim_end_slashes(url).to_owned();
            urls.push(trimmed);
            assert(texts(urls@) =~= before.push(without_trailing_slashes(url@)));
        }
        i += 1;
    }
    assert(list@.take(list@.len() as int) =~= list@);
    urls
}

/// Builds the configuration from a section of a configuration document.
pub fn build_config(document: &Value, kind: ConfigKind) -> (config: Result<Config, ConfigError>)
    ensures
        match config {
            Ok(c) => config_of(*document, kind) == Ok::<ConfigModel, ConfigError>(c@),
            Err(e) => config_of(*document, kind) == Err::<ConfigModel, ConfigError>(e),
        },
{
    let section = match member(document, kind.name()) {
        Some(section) => section,
        None => {
            return Err(ConfigError::MissingSection(kind));
        },
    };
    let base = match member(section, "config") {
        Some(base) => base,
        None => {
            return Err(ConfigError::MissingConfig(kind));
        },
    };
    let base_url = match text_at(base, "baseUrl") {
        Some(base_url) => base_url,
        None => {
            return Err(ConfigError::InvalidBaseUrl);
        },
    };
    let index_file = match text_at(base, "indexFile") {
        Some(index_file) => index_file,
        None => {
            return Err(ConfigError::InvalidIndexFile);
        },
    };
    let list = match member(section, "cdnList") {
        Some(inner) => match items(inner) {
            Some(list) => list,
            None => {
                return Err(ConfigError::InvalidCdnList);
            },
        },
        None => {
            return Err(ConfigError::InvalidCdnList);
        },
    };
    let urls = collect_cdn_urls(list);
    if urls.len() == 0 {
        return Err(ConfigError::NoValidCdn);
    }
    let index_url = join(urls[0].as_str(), index_file);
    let mut zip_bases: Vec<String> = Vec::new();
    let mut i: usize = 0;
    while i < urls.len()
        invariant
            i <= urls@.len(),
            texts(zip_bases@) == bases(texts(urls@), base_url@).take(i as int),
        decreases urls@.len() - i,
    {
        let ghost before = texts(zip_bases@);
        zip_bases.push(join(urls[i].as_str(), base_url));
        assert(texts(zip_bases@) =~= before.push(joined(urls@[i as int]@, base_url@)));
        assert(texts(zip_bases@) =~= bases(texts(urls@), base_url@).take(i + 1));
        i += 1;
    }
    assert(texts(zip_bases@) =~= bases(cdn_urls(list@), base_url@));
    let config = Config { index_url, zip_bases };
    assert(config@ == (ConfigModel {
        index_url: joined(cdn_urls(list@)[0], index_file@),
        zip_bases: bases(cdn_urls(list@), base_url@),
    }));
    Ok(config)
}

} // verus!
