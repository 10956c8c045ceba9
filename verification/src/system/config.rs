//! The program's configuration: a JSON object whose members are read by name.
//!
//! The text is parsed by the `rustc-serialize` crate, and the value it gives
//! stays with that crate: this module sees it only through the few calls
//! below, whose results it names and takes as given.

use vstd::prelude::*;
use vstd::string::StringSliceAdditionalSpecFns;
use rustc_serialize::json::{Json, ParserError};
use crate::system::scan::{is_safe_to_parse, safe_to_parse};

verus! {

#[verifier::external_type_specification]
#[verifier::external_body]
pub struct ExJson(Json);

#[verifier::external_type_specification]
#[verifier::external_body]
pub struct ExParserError(ParserError);

/// The value that `Json::from_str` makes of a text that is safe to parse, and
/// `None` for one that it turns away.
pub uninterp spec fn json_of_text(text: Seq<char>) -> Option<Json>;

/// The members of a JSON object by key, as `Json::find` gives them; no
/// members for a value that is not an object.
pub uninterp spec fn json_members(json: Json) -> Map<Seq<char>, Json>;

/// What `Json::as_u64` makes of a value.
pub uninterp spec fn json_as_u64(json: Json) -> Option<u64>;

/// What `Json::as_i64` makes of a value.
pub uninterp spec fn json_as_i64(json: Json) -> Option<i64>;

/// `Json::from_str`: parses a text. The parser does not come back from every
/// text, so only a text that is safe to parse may be handed over: one that is
/// short enough for its key buffer, that does not nest deeper than it can
/// descend, and that holds no number with an exponent, whose digits it adds
/// up unchecked and whose value it takes from a power of ten of unspecified
/// precision. Of such a text the value is a function; what it is for a given
/// text is not stated.
#[verifier::external_body]
fn parse(text: &str) -> (r: Result<Json, ParserError>)
    requires
        safe_to_parse(text.spec_bytes()),
    ensures
        match r {
            Ok(json) => json_of_text(text@) == Some(json),
            Err(_) => json_of_text(text@) is None,
        },
{
    Json::from_str(text)
}

/// `Json::find`: the member of an object under a key, and `None` where the
/// value is no object or has no such member.
#[verifier::external_body]
fn find<'a>(json: &'a Json, key: &str) -> (r: Option<&'a Json>)
    ensures
        r == (if json_members(*json).contains_key(key@) {
            Some(&json_members(*json)[key@])
        } else {
            None
        }),
{
    json.find(key)
}

/// `Json::as_u64`: the value as an unsigned number, where it is a number that
/// has one.
#[verifier::external_body]
fn as_u64(json: &Json) -> (r: Option<u64>)
    ensures
        r == json_as_u64(*json),
{
    json.as_u64()
}

/// `Json::as_i64`: the value as a signed number, where it is a number that
/// has one.
#[verifier::external_body]
fn as_i64(json: &Json) -> (r: Option<i64>)
    ensures
        r == json_as_i64(*json),
{
    json.as_i64()
}

/// A parsed configuration.
pub struct Config {
    json_conf: Json,
}

impl Config {
    /// The parsed value.
    pub closed spec fn json_spec(&self) -> Json {
        self.json_conf
    }

    /// The member `field` as an unsigned number, where the configuration has
    /// such a member and it is one.
    pub open spec fn u64_spec(&self, field: Seq<char>) -> Option<u64> {
        if json_members(self.json_spec()).contains_key(field) {
            json_as_u64(json_members(self.json_spec())[field])
        } else {
            None
        }
    }

    /// The member `field` as a signed number, where the configuration has such
    /// a member and it is one.
    pub open spec fn i64_spec(&self, field: Seq<char>) -> Option<i64> {
        if json_members(self.json_spec()).contains_key(field) {
            json_as_i64(json_members(self.json_spec())[field])
        } else {
            None
        }
    }

    /// The configuration written in `text`, which must be safe to parse and
    /// must be JSON.
    pub fn new(text: &str) -> (r: Config)
        requires
            safe_to_parse(text.spec_bytes()),
            json_of_text(text@) is Some,
        ensures
            json_of_text(text@) == Some(r.json_spec()),
    {
        Config { json_conf: parse(text).unwrap() }
    }

    /// The configuration written in `text`, or `None` where the text is not
    /// safe to parse or is not JSON.
    pub fn try_new(text: &str) -> (r: Option<Config>)
        ensures
            match r {
                Some(config) => safe_to_parse(text.spec_bytes()) && json_of_text(text@) == Some(
                    config.json_spec(),
                ),
                None => !safe_to_parse(text.spec_bytes()) || json_of_text(text@) is None,
            },
    {
        if is_safe_to_parse(text) && parse(text).is_ok() {
            Some(Config::new(text))
        } else {
            None
        }
    }

    /// The member `field`, or `None` where the configuration is no object or
    /// has no such member.
    pub fn find_obj(&self, field: &str) -> (r: Option<&Json>)
        ensures
            r == (if json_members(self.json_spec()).contains_key(field@) {
                Some(&json_members(self.json_spec())[field@])
            } else {
                None
            }),
    {
        find(&self.json_conf, field)
    }

    /// The member `field`. To ask for a member that the configuration does not
    /// have is a caller's error.
    pub fn get_obj(&self, field: &str) -> (r: &Json)
        requires
            json_members(self.json_spec()).contains_key(field@),
        ensures
            *r == json_members(self.json_spec())[field@],
    {
        find(&self.json_conf, field).unwrap()
    }

    /// The member `field` as an unsigned number, or `None` where there is no
    /// such member or it is not one.
    pub fn find_u64(&self, field: &str) -> (r: Option<u64>)
        ensures
            r == self.u64_spec(field@),
    {
        match find(&self.json_conf, field) {
            Some(value) => as_u64(value),
            None => None,
        }
    }

    /// The member `field` as an unsigned number. To ask for a member that is
    /// missing, or that is no such number, is a caller's error.
    pub fn get_u64(&self, field: &str) -> (r: u64)
        requires
            self.u64_spec(field@) is Some,
        ensures
            self.u64_spec(field@) == Some(r),
    {
        as_u64(self.get_obj(field)).unwrap()
    }

    /// The member `field` as a signed number, or `None` where there is no such
    /// member or it is not one.
    pub fn find_i64(&self, field: &str) -> (r: Option<i64>)
        ensures
            r == self.i64_spec(field@),
    {
        match find(&self.json_conf, field) {
            Some(value) => as_i64(value),
            None => None,
        }
    }

    /// The member `field` as a signed number. To ask for a member that is
    /// missing, or that is no such number, is a caller's error.
    pub fn get_i64(&self, field: &str) -> (r: i64)
        requires
            self.i64_spec(field@) is Some,
        ensures
            self.i64_spec(field@) == Some(r),
    {
        as_i64(self.get_obj(field)).unwrap()
    }
}

} // verus!
