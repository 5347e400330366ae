# voice-clip

A voice-to-text daemon for WSL2 whose decisions are verified with Verus. A toggle starts a
recording, a second toggle stops it, has it transcribed and puts the text on the clipboard.
Recordings are kept as WAV and TXT files, named after their start. While a recording runs, a
marker file says so, for the tmux status bar to show. While a transcription runs, clients are
served and told so.

```
voice-clip daemon   # start the background service
voice-clip toggle   # start or stop recording
voice-clip status   # show the state (idle/recording/transcribing)
voice-clip stop     # end the daemon
```

The settings are in `~/voice-clips/.env`:

| Variable            | Default      | Meaning                     |
|---------------------|--------------|-----------------------------|
| `OPENAI_API_KEY`    | *(required)* | key for the Whisper service |
| `VOICE_CLIP_LANG`   | `nl`         | language of the recordings  |
| `VOICE_CLIP_DEVICE` | `plughw:0,0` | ALSA capture device         |

## Layout

- `src/` is the verified library:
  - `text`: trimming, splitting and joining,
  - `paths`, `config`: files and settings,
  - `clip`: recordings and their names,
  - `capture`: the steps of the recorder, from opening the device to the complete file,
  - `transcription`: requests to the service and its replies,
  - `notify`: messages to the user,
  - `protocol`: what client and daemon say to each other,
  - `daemon`: what the daemon does for its clients, step by step,
  - `startup`: how the daemon comes up,
  - `lifecycle`: how it goes round and comes down,
  - `laws`: what holds of the daemon as a whole.
- `app/` is the program around it: sockets, threads, the capture device, HTTP, the clipboard.
- `tests/` runs the library.
