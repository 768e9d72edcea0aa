//! Channels, as they appear inside other models.
use vstd::prelude::*;

use crate::json::{bool_of, member, opt_string_of, read_bool, read_opt_string, read_string, string_of, JsonValue};

verus! {

#[derive(Debug, Clone, PartialEq, Eq)]
pub struct PersonalData {
    pub private_user_block: bool,
}

#[derive(Debug, Clone, PartialEq, Eq)]
pub struct PartialChannel {
    pub channel_id: String,
    pub channel_name: String,
    pub channel_image_url: Option<String>,
    pub verified_mark: bool,
    pub user_adult_status: Option<String>,
    pub personal_data: Option<PersonalData>,
}

#[derive(Debug, Clone, PartialEq, Eq)]
pub struct Channel {
    pub inner: PartialChannel,
    pub channel_description: String,
    pub follower_count: u64,
    pub open_live: bool,
}

/// The personal data that a JSON object holds, if it has that shape.
pub open spec fn personal_data_of(v: JsonValue) -> Option<PersonalData> {
    let private_user_block = bool_of(member(v, "privateUserBlock"@));
    if private_user_block is Some {
        Some(PersonalData { private_user_block: private_user_block->0 })
    } else {
        None
    }
}

/// An optional personal-data member: absent and `null` both read as `None`.
pub open spec fn opt_personal_data_of(m: Option<JsonValue>) -> Option<Option<PersonalData>> {
    match m {
        None => Some(None),
        Some(JsonValue::Null) => Some(None),
        Some(x) => match personal_data_of(x) {
            Some(p) => Some(Some(p)),
            None => None,
        },
    }
}

/// The channel that a JSON object holds, if it has that shape.
pub open spec fn partial_channel_of(v: JsonValue) -> Option<PartialChannel> {
    let channel_id = string_of(member(v, "channelId"@));
    let channel_name = string_of(member(v, "channelName"@));
    let channel_image_url = opt_string_of(member(v, "channelImageUrl"@));
    let verified_mark = bool_of(member(v, "verifiedMark"@));
    let user_adult_status = opt_string_of(member(v, "userAdultStatus"@));
    let personal_data = opt_personal_data_of(member(v, "personalData"@));
    if channel_id is Some && channel_name is Some && channel_image_url is Some
        && verified_mark is Some && user_adult_status is Some && personal_data is Some {
        Some(
            PartialChannel {
                channel_id: channel_id->0,
                channel_name: channel_name->0,
                channel_image_url: channel_image_url->0,
                verified_mark: verified_mark->0,
                user_adult_status: user_adult_status->0,
                personal_data: personal_data->0,
            },
        )
    } else {
        None
    }
}

impl PersonalData {
    /// Reads personal data out of a JSON object.
    pub fn from_json(v: &JsonValue) -> (r: Option<PersonalData>)
        ensures
            r == personal_data_of(*v),
    {
        let private_user_block = read_bool(v, "privateUserBlock")?;
        Some(PersonalData { private_user_block })
    }

    /// Reads the optional personal-data member `key` of `v`.
    pub fn read_opt(v: &JsonValue, key: &str) -> (r: Option<Option<PersonalData>>)
        ensures
            r == opt_personal_data_of(member(*v, key@)),
    {
        match crate::json::get(v, key) {
            None => Some(None),
            Some(JsonValue::Null) => Some(None),
            Some(x) => match PersonalData::from_json(x) {
                Some(p) => Some(Some(p)),
                None => None,
            },
        }
    }
}

impl PartialChannel {
    /// Reads a channel out of a JSON object.
    pub fn from_json(v: &JsonValue) -> (r: Option<PartialChannel>)
        ensures
            r == partial_channel_of(*v),
    {
        let channel_id = read_string(v, "channelId")?;
        let channel_name = read_string(v, "channelName")?;
        let channel_image_url = read_opt_string(v, "channelImageUrl")?;
        let verified_mark = read_bool(v, "verifiedMark")?;
        let user_adult_status = read_opt_string(v, "userAdultStatus")?;
        let personal_data = PersonalData::read_opt(v, "personalData")?;
        Some(
            PartialChannel {
                channel_id,
                channel_name,
                channel_image_url,
                verified_mark,
                user_adult_status,
                personal_data,
            },
        )
    }
}

} // verus!
