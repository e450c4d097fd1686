pub mod audio;
pub mod battery;
pub mod canvas;
pub mod dom_rect;
pub mod fonts;
pub mod intl_defaults;
pub mod keyboard_layout;
pub mod media_capabilities;
pub mod navigator;
pub mod network_info;
pub mod permissions_query;
pub mod speech_voices;
pub mod storage_estimate;
pub mod timers;
pub mod timezone;
pub mod webgl;
pub mod webgpu;
