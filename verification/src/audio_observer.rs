//! Who is speaking, as rooms hear of it.

use crate::media::AudioLevel;
use crate::room::Event;
use vstd::prelude::*;

verus! {

/// How often the media layer looks at the audio levels, in milliseconds.
pub const INTERVAL: u16 = 500;

/// The media layer has reported who is loud, loudest first: the room hears of the first.
pub fn on_volumes(volumes: &Vec<AudioLevel>) -> (r: Event)
    ensures
        r == (Event::OnAudioLevelsChange {
            producer: if volumes.len() > 0 {
                Some(volumes[0])
            } else {
                None
            },
        }),
{
    if volumes.len() > 0 {
        Event::OnAudioLevelsChange { producer: Some(volumes[0]) }
    } else {
        Event::OnAudioLevelsChange { producer: None }
    }
}

/// The media layer has reported that nobody is loud.
pub fn on_silence() -> (r: Event)
    ensures
        r == (Event::OnAudioLevelsChange { producer: None }),
{
    Event::OnAudioLevelsChange { producer: None }
}

/// The room hears of the loudest, as the media layer measured it; of nobody, where nobody is loud
/// or there is silence.
pub proof fn law_the_loudest_is_heard_of(volumes: Vec<AudioLevel>, loud: Event, silent: Event)
    requires
        call_ensures(on_volumes, (&volumes,), loud),
        call_ensures(on_silence, (), silent),
    ensures
        loud is OnAudioLevelsChange,
        loud->OnAudioLevelsChange_producer is Some <==> volumes@.len() > 0,
        volumes@.len() > 0 ==> {
            &&& loud->OnAudioLevelsChange_producer->0.producer_id == volumes@[0].producer_id
            &&& loud->OnAudioLevelsChange_producer->0.volume == volumes@[0].volume
        },
        silent is OnAudioLevelsChange,
        silent->OnAudioLevelsChange_producer is None,
{
}

} // verus!
