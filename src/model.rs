//! The models the endpoints return, and the wire shapes they are read from.
pub mod channel;
pub mod live;
pub mod sealed;


pub use channel::{Channel, PartialChannel, PersonalData};
pub use live::{
    AudioEncodingTrack, CategoryType, CdnInfo, EncodingTrack, Live, LiveDetail, LivePlayback,
    LivePlaybackApi, LivePlaybackMedia, LivePlaybackMeta, LivePlaybackServiceMeta,
    LivePlaybackStatus, LivePlaybackStatusType, LivePollingStatus, LivePollingStatusType,
    LiveStatus, LiveStatusType, PlayableStatusType, UserAdultStatusType,
};
