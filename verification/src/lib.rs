//! Playback core of the Erika media player.
use vstd::prelude::*;

pub mod audio;
pub mod buffering;
pub mod channel;
pub mod clock;
pub mod color;
pub mod control;
pub mod decoder;
pub mod demux;
pub mod demuxer;
pub mod engine;
pub mod error;
pub mod events;
pub mod external;
pub mod fonts;
pub mod frame;
pub mod ladder;
pub mod media;
pub mod opening;
pub mod packet;
pub mod pcm;
pub mod playback;
pub mod player;
pub mod probe;
pub mod rate;
pub mod renderer;
pub mod route;
pub mod schedule;
pub mod seek;
pub mod session;
pub mod shared;
pub mod subtitle;
pub mod surface;
pub mod text;
pub mod time;
pub mod tracks;
pub mod video;
pub mod worker;

verus! {

} // verus!
