# huddle

A small WebRTC conferencing server. Clients connect over web sockets, enter a room, and exchange
audio and video through media workers.

`src/` is the library: everything that the server decides, on plain values, with its contracts
proved by Verus.

| module | what it decides |
| --- | --- |
| `uid` | identifiers of users and rooms, and their text form |
| `peer` | what a participant relays between its client and its room |
| `room` | what a room wants done on each event and on each answer |
| `rules` | the rules that `room` is proved against |
| `laws` | what holds of every room, proved from the rules |
| `agenda` | the order in which a room's wishes are carried out |
| `server` | how the media workers start, and which one a room runs on |
| `codecs`, `audio_observer`, `settings` | what the media layer and the program are set to |
| `media`, `listing` | the media layer's values, and walks over hash tables |

`app/` is the program around it. It owns the sockets, the channels and the media objects. It
hands events to the library, does what the library says, and hands the answers back.

A room never touches a media object. `Room::handle` gives a list of actions; some of them bring
an answer, which goes to the method that the action names. What that method gives back is done
before anything that was waiting.
