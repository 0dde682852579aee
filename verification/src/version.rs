//! The game versions on offer and where each one's configuration lies.
//!
//! The version list is a JSON object of categories, each an object of
//! versions, each a text: the address of that version's configuration.

use crate::json::{json_member, json_text, member, text};
use crate::text::same_text;
use serde_json::Value;
use vstd::prelude::*;
use vstd::string::*;

verus! {

/// The versions that the menu offers.
#[derive(Clone, Copy, Debug, PartialEq, Eq, Structural)]
pub enum Channel {
    LiveOs,
    LiveCn,
    BetaOs,
    BetaCn,
}

impl Channel {
    /// The category of the version in the list.
    pub open spec fn category_key(self) -> Seq<char> {
        match self {
            Channel::LiveOs | Channel::LiveCn => "live"@,
            Channel::BetaOs | Channel::BetaCn => "beta"@,
        }
    }

    /// The key of the version within its category.
    pub open spec fn version_key(self) -> Seq<char> {
        match self {
            Channel::LiveOs | Channel::BetaOs => "os"@,
            Channel::LiveCn | Channel::BetaCn => "cn"@,
        }
    }

    /// The category of the version in the list.
    pub fn category(&self) -> (name: &'static str)
        ensures
            name@ == self.category_key(),
    {
        match self {
            Channel::LiveOs | Channel::LiveCn => "live",
            Channel::BetaOs | Channel::BetaCn => "beta",
        }
    }

    /// The key of the version within its category.
    pub fn version(&self) -> (name: &'static str)
        ensures
            name@ == self.version_key(),
    {
        match self {
            Channel::LiveOs | Channel::BetaOs => "os",
            Channel::LiveCn | Channel::BetaCn => "cn",
        }
    }
}

/// The version that an answer to the menu chooses: `1` to `4` in the order
/// live OS, live CN, beta OS, beta CN; any other answer chooses none.
pub open spec fn chosen_channel(answer: Seq<char>) -> Option<Channel> {
    if answer == "1"@ {
        Some(Channel::LiveOs)
    } else if answer == "2"@ {
        Some(Channel::LiveCn)
    } else if answer == "3"@ {
        Some(Channel::BetaOs)
    } else if answer == "4"@ {
        Some(Channel::BetaCn)
    } else {
        None
    }
}

/// The address under a category and a version of the list; none where
/// either is missing or the entry is no text.
pub open spec fn version_url(data: Value, category: Seq<char>, version: Seq<char>) -> Option<
    Seq<char>,
> {
    match json_member(data, category) {
        Some(versions) => match json_member(versions, version) {
            Some(url) => json_text(url),
            None => None,
        },
        None => None,
    }
}

/// The message for a version that the list does not hold.
pub open spec fn missing_version(version: Seq<char>) -> Seq<char> {
    "Missing "@ + version + " URL"@
}

/// Reads the user's answer to the version menu. The answer is taken as it
/// is; surrounding blanks are the caller's to remove.
pub fn choose_version(answer: &str) -> (channel: Option<Channel>)
    ensures
        channel == chosen_channel(answer@),
{
    if same_text(answer, "1") {
        Some(Channel::LiveOs)
    } else if same_text(answer, "2") {
        Some(Channel::LiveCn)
    } else if same_text(answer, "3") {
        Some(Channel::BetaOs)
    } else if same_text(answer, "4") {
        Some(Channel::BetaCn)
    } else {
        None
    }
}

/// Looks up the address of a version's configuration in the version list.
pub fn get_version(data: &Value, category: &str, version: &str) -> (url: Result<String, String>)
    ensures
        match url {
            Ok(address) => version_url(*data, category@, version@) == Some(address@),
            Err(message) => version_url(*data, category@, version@) is None && message@
                == missing_version(version@),
        },
{
    let found = match member(data, category) {
        Some(versions) => match member(versions, version) {
            Some(url) => text(url),
            None => None,
        },
        None => None,
    };
    match found {
        Some(address) => Ok(address.to_owned()),
        None => Err("Missing ".to_owned().concat(version).concat(" URL")),
    }
}

} // verus!
