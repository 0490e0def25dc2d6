use serde_json::Value;
use vstd::prelude::*;

use crate::error::BError;
use crate::json::{json_model, parse_value, parsed, read_text, text_member, text_or, value_or, Json, TextField};

verus! {

/// The document `j` names a version, and a usable name if any.
pub open spec fn config_data_ok(j: Json) -> bool {
    &&& text_member(Some(j), "version"@) matches Some(Some(_))
    &&& value_or(text_member(Some(j), "name"@), "NA"@) is Some
}

/// `d` holds the version and name (`NA` where absent) that `j` gives.
pub open spec fn config_data_from(j: Json, d: WsConfigData) -> bool {
    &&& text_member(Some(j), "version"@) == Some(Some(d.spec_version()))
    &&& value_or(text_member(Some(j), "name"@), "NA"@) == Some(d.spec_name())
}

/// The identity of a build config: its format version and its name.
pub struct WsConfigData {
    version: String,
    name: String,
}

impl WsConfigData {
    pub closed spec fn spec_version(&self) -> Seq<char> {
        self.version@
    }

    pub closed spec fn spec_name(&self) -> Seq<char> {
        self.name@
    }

    /// The data that the members give: the version is required, the name is
    /// `NA` where absent.
    pub fn from_fields(version: &TextField, name: &TextField) -> (r: Result<Self, BError>)
        ensures
            r is Ok <==> (version is Text && text_or(*name, "NA"@) is Some),
            r matches Ok(d) ==> Some(d.spec_version()) == text_or(*version, Seq::empty())
                && Some(d.spec_name()) == text_or(*name, "NA"@),
    {
        let version = match version {
            TextField::Text(v) => v.clone(),
            _ => {
                return Err(BError::ParseError(String::from_str("Invalid build config: no version")));
            },
        };
        let name = match name {
            TextField::Absent => String::from_str("NA"),
            TextField::Text(n) => n.clone(),
            TextField::Invalid => {
                return Err(BError::ParseError(String::from_str("Invalid build config: the name is not a string")));
            },
        };
        Ok(WsConfigData { version, name })
    }

    /// Parses the data from JSON text.
    pub fn from_str(json_string: &str) -> (r: Result<Self, BError>)
        ensures
            r is Ok <==> (parsed(json_string@) matches Some(j) && config_data_ok(j)),
            r matches Ok(d) ==> config_data_from(parsed(json_string@).unwrap(), d),
    {
        let data = match parse_value(json_string) {
            Ok(v) => v,
            Err(_) => {
                return Err(BError::ParseError(String::from_str("Invalid build config: not a JSON document")));
            },
        };
        WsConfigData::from_value(&data)
    }

    /// Reads the data from a parsed document.
    pub fn from_value(data: &Value) -> (r: Result<Self, BError>)
        ensures
            r is Ok <==> config_data_ok(json_model(*data)),
            r matches Ok(d) ==> config_data_from(json_model(*data), d),
    {
        WsConfigData::from_fields(&read_text(Some(data), "version"), &read_text(Some(data), "name"))
    }

    pub fn name(&self) -> (r: &str)
        ensures
            r@ == self.spec_name(),
    {
        self.name.as_str()
    }

    pub fn version(&self) -> (r: &str)
        ensures
            r@ == self.spec_version(),
    {
        self.version.as_str()
    }
}

} // verus!
