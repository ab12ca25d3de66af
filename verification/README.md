# rosu

Gameplay logic of an osu!standard client, with machine-checked proofs.

`src/` is the verified library:

- `input` – keyboard state and recorded inputs;
- `processor`, `replay_log` – storing press, release and cursor events, and
  turning a recorded replay into inputs;
- `replay` – normalising the frames of a replay (absolute times, corrected
  start, skip markers, chronological order);
- `timer` – the gameplay clock;
- `text`, `rgb`, `skin_ini` – reading colours and `skin.ini`;
- `hit_objects` – judgement vocabulary, slider key rules, combo colours;
- `screens`, `replay_viewer`, `osu_db` – settings panel, song list
  selection, replay viewer frame window and settings, database entries.

`app/` is a small program that judges a replay against a beatmap: it reads
the files, builds the hit objects and judges them (floating point work), and
uses the library for everything else.
