# eightvoice

Privacy-first dictation: a shortcut starts a recording, silence or the shortcut
stops it, the recording becomes text on the device or by a cloud service that
the user has chosen, and the text is typed or pasted into the focused window.

The library under `src/` holds the rules, each with a contract that Verus
proves:

- `vad`, `detector`: frames of 30 ms and what the voice detector says of them;
- `audio`, `device`, `buffer`: a recording from its start to the samples kept,
  and when it stops by itself;
- `state`, `dictation`: the states of a dictation and what follows what;
- `transcribe`, `wav`: what is asked for text, and what is made of the answer;
- `inject`, `hotkey`, `shell`, `tray`: keys, clipboard, windows and the icon;
- `settings`, `startup`: the user's settings and how they are kept;
- `text`: white space, trimming and decimal numbers.

The voice detector itself is that of the `webrtc-vad` crate. What is taken on
trust of it stands in `src/detector.rs`.

`app/` is the program around the library: microphone, model, network, keyboard
and windows. Samples are floating-point numbers there; the library moves them
without looking inside, and looks at their 16-bit values where it has to.
