# chan_sccp2

The decisions of an Asterisk channel driver for SCCP handsets, written in Verus.
The library holds no sockets, threads or channels of the switch: it is told what
a handset, the controller or the switch said, and answers with what to do next.
Every function states in its contract what it decides.

## Layout

- `src/` is the verified library. Data that the decisions read stand in `ids`,
  `model`, `config`, `events`, `effects`, `commands` and `prompts`; `lookup`,
  `collect` and `text` hold what is said of sequences and texts in general.
  - Calls: `call_control`, `hold`, `transfer`, `conference`, `parking`,
    `forwarding`, `voicemail`, `call_service`.
  - Handsets: `phone_events`, `session`, `handset`, `features`, `mobility`,
    `background`.
  - Media and channels: `media`, `media_events`, `codecs`, `encryption`,
    `channel`, `bridge`, `recording`.
  - Presence: `presence`, `presence_owner`, `dnd_schedule`.
  - The module itself: `lifecycle`, `startup`, `access`, `backend`, `controller`,
    `effect_run`, `status`, `queries`, `preferences`, `management`, `providers`,
    `cli`, `completion`, `diagnostics`.
- `tests/` runs the library on concrete values.
- `app/` is the asynchronous program around it: listeners, mailboxes and the
  loops that carry decisions out.

Work that waits for an answer is a machine of two functions. The first takes the
event and returns a state and an action; the second takes the state and the
answer and returns the next of both. Functions whose names begin with `law_`
state what holds across several functions.
