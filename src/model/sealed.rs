//! The shapes in which the endpoints send their models: field for field as
//! the upstream JSON has them, with the embedded documents still as text.
use vstd::prelude::*;

use super::channel::{partial_channel_of, PartialChannel};
use super::live::{
    live_status_type_of, opt_user_adult_status_of, LiveStatusType, UserAdultStatusType,
};
use crate::json::{
    bool_of, distinct_before, get, lemma_lookup_distinct, member, opt_string_of, opt_string_to_json, read_bool, read_opt_string,
    read_string, read_u64, string_of, uint_of, JsonNumber, JsonValue,
};

verus! {

#[derive(Debug, Clone, PartialEq)]
pub struct Live {
    pub live_title: String,
    pub live_image_url: Option<String>,
    pub default_thumbnail_image_url: Option<String>,
    pub concurrent_user_count: u64,
    pub accumulate_count: u64,
    pub open_date: String,
    pub live_id: u64,
    pub adult: bool,
    pub chat_channel_id: Option<String>,
    pub category_type: Option<String>,
    pub live_category: Option<String>,
    pub live_category_value: Option<String>,
    /// A JSON document, as text.
    pub live_playback_json: Option<String>,
    pub channel: PartialChannel,
}

#[derive(Debug, Clone, PartialEq)]
pub struct LiveStatus {
    pub live_title: String,
    pub status: LiveStatusType,
    pub concurrent_user_count: u64,
    pub accumulate_count: u64,
    pub paid_promotion: bool,
    pub adult: bool,
    pub chat_channel_id: Option<String>,
    pub category_type: Option<String>,
    pub live_category: Option<String>,
    pub live_category_value: Option<String>,
    /// A JSON document, as text.
    pub live_polling_status_json: String,
    pub user_adult_status: Option<UserAdultStatusType>,
    pub chat_active: bool,
    pub chat_available_group: String,
    pub chat_available_condition: String,
    pub min_follower_minute: u64,
}

/// The detail of a live: the members of `Live` and its own, in one object.
#[derive(Debug, Clone, PartialEq)]
pub struct LiveDetail {
    pub inherit: Live,
    pub status: LiveStatusType,
    pub close_date: Option<String>,
    pub chat_active: bool,
    pub chat_available_group: String,
    pub paid_promotion: bool,
    pub chat_available_condition: String,
    pub min_follower_minute: u64,
    /// A JSON document, as text.
    pub live_polling_status_json: String,
    pub user_adult_status: Option<UserAdultStatusType>,
}

pub open spec fn channel_at(m: Option<JsonValue>) -> Option<PartialChannel> {
    match m {
        Some(x) => partial_channel_of(x),
        None => None,
    }
}

pub open spec fn wire_live_of(v: JsonValue) -> Option<Live> {
    let live_title = string_of(member(v, "liveTitle"@));
    let live_image_url = opt_string_of(member(v, "liveImageUrl"@));
    let default_thumbnail_image_url = opt_string_of(member(v, "defaultThumbnailImageUrl"@));
    let concurrent_user_count = uint_of(member(v, "concurrentUserCount"@), u64::MAX as int);
    let accumulate_count = uint_of(member(v, "accumulateCount"@), u64::MAX as int);
    let open_date = string_of(member(v, "openDate"@));
    let live_id = uint_of(member(v, "liveId"@), u64::MAX as int);
    let adult = bool_of(member(v, "adult"@));
    let chat_channel_id = opt_string_of(member(v, "chatChannelId"@));
    let category_type = opt_string_of(member(v, "categoryType"@));
    let live_category = opt_string_of(member(v, "liveCategory"@));
    let live_category_value = opt_string_of(member(v, "liveCategoryValue"@));
    let live_playback_json = opt_string_of(member(v, "livePlaybackJson"@));
    let channel = channel_at(member(v, "channel"@));
    if live_title is Some && live_image_url is Some && default_thumbnail_image_url is Some
        && concurrent_user_count is Some && accumulate_count is Some && open_date is Some
        && live_id is Some && adult is Some && chat_channel_id is Some && category_type is Some
        && live_category is Some && live_category_value is Some && live_playback_json is Some
        && channel is Some {
        Some(
            Live {
                live_title: live_title->0,
                live_image_url: live_image_url->0,
                default_thumbnail_image_url: default_thumbnail_image_url->0,
                concurrent_user_count: concurrent_user_count->0 as u64,
                accumulate_count: accumulate_count->0 as u64,
                open_date: open_date->0,
                live_id: live_id->0 as u64,
                adult: adult->0,
                chat_channel_id: chat_channel_id->0,
                category_type: category_type->0,
                live_category: live_category->0,
                live_category_value: live_category_value->0,
                live_playback_json: live_playback_json->0,
                channel: channel->0,
            },
        )
    } else {
        None
    }
}

pub open spec fn wire_live_status_of(v: JsonValue) -> Option<LiveStatus> {
    let live_title = string_of(member(v, "liveTitle"@));
    let status = live_status_type_of(member(v, "status"@));
    let concurrent_user_count = uint_of(member(v, "concurrentUserCount"@), u64::MAX as int);
    let accumulate_count = uint_of(member(v, "accumulateCount"@), u64::MAX as int);
    let paid_promotion = bool_of(member(v, "paidPromotion"@));
    let adult = bool_of(member(v, "adult"@));
    let chat_channel_id = opt_string_of(member(v, "chatChannelId"@));
    let category_type = opt_string_of(member(v, "categoryType"@));
    let live_category = opt_string_of(member(v, "liveCategory"@));
    let live_category_value = opt_string_of(member(v, "liveCategoryValue"@));
    let live_polling_status_json = string_of(member(v, "livePollingStatusJson"@));
    let user_adult_status = opt_user_adult_status_of(member(v, "userAdultStatus"@));
    let chat_active = bool_of(member(v, "chatActive"@));
    let chat_available_group = string_of(member(v, "chatAvailableGroup"@));
    let chat_available_condition = string_of(member(v, "chatAvailableCondition"@));
    let min_follower_minute = uint_of(member(v, "minFollowerMinute"@), u64::MAX as int);
    if live_title is Some && status is Some && concurrent_user_count is Some
        && accumulate_count is Some && paid_promotion is Some && adult is Some
        && chat_channel_id is Some && category_type is Some && live_category is Some
        && live_category_value is Some && live_polling_status_json is Some
        && user_adult_status is Some && chat_active is Some && chat_available_group is Some
        && chat_available_condition is Some && min_follower_minute is Some {
        Some(
            LiveStatus {
                live_title: live_title->0,
                status: status->0,
                concurrent_user_count: concurrent_user_count->0 as u64,
                accumulate_count: accumulate_count->0 as u64,
                paid_promotion: paid_promotion->0,
                adult: adult->0,
                chat_channel_id: chat_channel_id->0,
                category_type: category_type->0,
                live_category: live_category->0,
                live_category_value: live_category_value->0,
                live_polling_status_json: live_polling_status_json->0,
                user_adult_status: user_adult_status->0,
                chat_active: chat_active->0,
                chat_available_group: chat_available_group->0,
                chat_available_condition: chat_available_condition->0,
                min_follower_minute: min_follower_minute->0 as u64,
            },
        )
    } else {
        None
    }
}

pub open spec fn wire_live_detail_of(v: JsonValue) -> Option<LiveDetail> {
    let inherit = wire_live_of(v);
    let status = live_status_type_of(member(v, "status"@));
    let close_date = opt_string_of(member(v, "closeDate"@));
    let chat_active = bool_of(member(v, "chatActive"@));
    let chat_available_group = string_of(member(v, "chatAvailableGroup"@));
    let paid_promotion = bool_of(member(v, "paidPromotion"@));
    let chat_available_condition = string_of(member(v, "chatAvailableCondition"@));
    let min_follower_minute = uint_of(member(v, "minFollowerMinute"@), u64::MAX as int);
    let live_polling_status_json = string_of(member(v, "livePollingStatusJson"@));
    let user_adult_status = opt_user_adult_status_of(member(v, "userAdultStatus"@));
    if inherit is Some && status is Some && close_date is Some && chat_active is Some
        && chat_available_group is Some && paid_promotion is Some
        && chat_available_condition is Some && min_follower_minute is Some
        && live_polling_status_json is Some && user_adult_status is Some {
        Some(
            LiveDetail {
                inherit: inherit->0,
                status: status->0,
                close_date: close_date->0,
                chat_active: chat_active->0,
                chat_available_group: chat_available_group->0,
                paid_promotion: paid_promotion->0,
                chat_available_condition: chat_available_condition->0,
                min_follower_minute: min_follower_minute->0 as u64,
                live_polling_status_json: live_polling_status_json->0,
                user_adult_status: user_adult_status->0,
            },
        )
    } else {
        None
    }
}

impl Live {
    pub fn from_json(v: &JsonValue) -> (r: Option<Live>)
        ensures
            r == wire_live_of(*v),
    {
        let live_title = read_string(v, "liveTitle")?;
        let live_image_url = read_opt_string(v, "liveImageUrl")?;
        let default_thumbnail_image_url = read_opt_string(v, "defaultThumbnailImageUrl")?;
        let concurrent_user_count = read_u64(v, "concurrentUserCount")?;
        let accumulate_count = read_u64(v, "accumulateCount")?;
        let open_date = read_string(v, "openDate")?;
        let live_id = read_u64(v, "liveId")?;
        let adult = read_bool(v, "adult")?;
        let chat_channel_id = read_opt_string(v, "chatChannelId")?;
        let category_type = read_opt_string(v, "categoryType")?;
        let live_category = read_opt_string(v, "liveCategory")?;
        let live_category_value = read_opt_string(v, "liveCategoryValue")?;
        let live_playback_json = read_opt_string(v, "livePlaybackJson")?;
        let channel = PartialChannel::from_json(get(v, "channel")?)?;
        Some(
            Live {
                live_title,
                live_image_url,
                default_thumbnail_image_url,
                concurrent_user_count,
                accumulate_count,
                open_date,
                live_id,
                adult,
                chat_channel_id,
                category_type,
                live_category,
                live_category_value,
                live_playback_json,
                channel,
            },
        )
    }
}

impl LiveStatus {
    pub fn from_json(v: &JsonValue) -> (r: Option<LiveStatus>)
        ensures
            r == wire_live_status_of(*v),
    {
        let live_title = read_string(v, "liveTitle")?;
        let status = LiveStatusType::read(v, "status")?;
        let concurrent_user_count = read_u64(v, "concurrentUserCount")?;
        let accumulate_count = read_u64(v, "accumulateCount")?;
        let paid_promotion = read_bool(v, "paidPromotion")?;
        let adult = read_bool(v, "adult")?;
        let chat_channel_id = read_opt_string(v, "chatChannelId")?;
        let category_type = read_opt_string(v, "categoryType")?;
        let live_category = read_opt_string(v, "liveCategory")?;
        let live_category_value = read_opt_string(v, "liveCategoryValue")?;
        let live_polling_status_json = read_string(v, "livePollingStatusJson")?;
        let user_adult_status = UserAdultStatusType::read_opt(v, "userAdultStatus")?;
        let chat_active = read_bool(v, "chatActive")?;
        let chat_available_group = read_string(v, "chatAvailableGroup")?;
        let chat_available_condition = read_string(v, "chatAvailableCondition")?;
        let min_follower_minute = read_u64(v, "minFollowerMinute")?;
        Some(
            LiveStatus {
                live_title,
                status,
                concurrent_user_count,
                accumulate_count,
                paid_promotion,
                adult,
                chat_channel_id,
                category_type,
                live_category,
                live_category_value,
                live_polling_status_json,
                user_adult_status,
                chat_active,
                chat_available_group,
                chat_available_condition,
                min_follower_minute,
            },
        )
    }
}

impl LiveDetail {
    pub fn from_json(v: &JsonValue) -> (r: Option<LiveDetail>)
        ensures
            r == wire_live_detail_of(*v),
    {
        let inherit = Live::from_json(v)?;
        let status = LiveStatusType::read(v, "status")?;
        let close_date = read_opt_string(v, "closeDate")?;
        let chat_active = read_bool(v, "chatActive")?;
        let chat_available_group = read_string(v, "chatAvailableGroup")?;
        let paid_promotion = read_bool(v, "paidPromotion")?;
        let chat_available_condition = read_string(v, "chatAvailableCondition")?;
        let min_follower_minute = read_u64(v, "minFollowerMinute")?;
        let live_polling_status_json = read_string(v, "livePollingStatusJson")?;
        let user_adult_status = UserAdultStatusType::read_opt(v, "userAdultStatus")?;
        Some(
            LiveDetail {
                inherit,
                status,
                close_date,
                chat_active,
                chat_available_group,
                paid_promotion,
                chat_available_condition,
                min_follower_minute,
                live_polling_status_json,
                user_adult_status,
            },
        )
    }
}

impl LiveStatus {
    /// This wire status as a JSON object; reading that object back gives
    /// this wire status again.
    pub fn to_json(&self) -> (r: JsonValue)
        ensures
            wire_live_status_of(r) == Some(*self),
    {
        let e: Vec<(String, JsonValue)> = vec![
            ("liveTitle".to_owned(), JsonValue::Str(self.live_title.clone())),
            ("status".to_owned(), self.status.to_json()),
            ("concurrentUserCount".to_owned(), JsonValue::Number(JsonNumber::PosInt(self.concurrent_user_count))),
            ("accumulateCount".to_owned(), JsonValue::Number(JsonNumber::PosInt(self.accumulate_count))),
            ("paidPromotion".to_owned(), JsonValue::Bool(self.paid_promotion)),
            ("adult".to_owned(), JsonValue::Bool(self.adult)),
            ("chatChannelId".to_owned(), opt_string_to_json(&self.chat_channel_id)),
            ("categoryType".to_owned(), opt_string_to_json(&self.category_type)),
            ("liveCategory".to_owned(), opt_string_to_json(&self.live_category)),
            ("liveCategoryValue".to_owned(), opt_string_to_json(&self.live_category_value)),
            ("livePollingStatusJson".to_owned(), JsonValue::Str(self.live_polling_status_json.clone())),
            ("userAdultStatus".to_owned(), UserAdultStatusType::opt_to_json(&self.user_adult_status)),
            ("chatActive".to_owned(), JsonValue::Bool(self.chat_active)),
            ("chatAvailableGroup".to_owned(), JsonValue::Str(self.chat_available_group.clone())),
            ("chatAvailableCondition".to_owned(), JsonValue::Str(self.chat_available_condition.clone())),
            ("minFollowerMinute".to_owned(), JsonValue::Number(JsonNumber::PosInt(self.min_follower_minute))),
        ];
        proof {
            reveal_strlit("liveTitle");
            reveal_strlit("status");
            reveal_strlit("concurrentUserCount");
            reveal_strlit("accumulateCount");
            reveal_strlit("paidPromotion");
            reveal_strlit("adult");
            reveal_strlit("chatChannelId");
            reveal_strlit("categoryType");
            reveal_strlit("liveCategory");
            reveal_strlit("liveCategoryValue");
            reveal_strlit("livePollingStatusJson");
            reveal_strlit("userAdultStatus");
            reveal_strlit("chatActive");
            reveal_strlit("chatAvailableGroup");
            reveal_strlit("chatAvailableCondition");
            reveal_strlit("minFollowerMinute");
            reveal_with_fuel(distinct_before, 16);
            lemma_lookup_distinct(e@, 0, "liveTitle"@);
            lemma_lookup_distinct(e@, 1, "status"@);
            lemma_lookup_distinct(e@, 2, "concurrentUserCount"@);
            lemma_lookup_distinct(e@, 3, "accumulateCount"@);
            lemma_lookup_distinct(e@, 4, "paidPromotion"@);
            lemma_lookup_distinct(e@, 5, "adult"@);
            lemma_lookup_distinct(e@, 6, "chatChannelId"@);
            lemma_lookup_distinct(e@, 7, "categoryType"@);
            lemma_lookup_distinct(e@, 8, "liveCategory"@);
            lemma_lookup_distinct(e@, 9, "liveCategoryValue"@);
            lemma_lookup_distinct(e@, 10, "livePollingStatusJson"@);
            lemma_lookup_distinct(e@, 11, "userAdultStatus"@);
            lemma_lookup_distinct(e@, 12, "chatActive"@);
            lemma_lookup_distinct(e@, 13, "chatAvailableGroup"@);
            lemma_lookup_distinct(e@, 14, "chatAvailableCondition"@);
            lemma_lookup_distinct(e@, 15, "minFollowerMinute"@);
        }
        JsonValue::Object(e)
    }
}

} // verus!
