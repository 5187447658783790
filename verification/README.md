# input0

Push-to-talk dictation for the desktop: hold a hotkey, speak, and the
transcript (optionally corrected by a language model) is pasted into the
frontmost application.

The decision-making core is a Verus-verified library under `src/`:

- `text`, `paths`: character-sequence and path primitives with specifications.
- `llm`: prompt construction, the `{{tag}}` template language, the
  transcript envelope, cleaning of model output, request messages and the
  interpretation of replies.
- `input`: hotkey parsing, accelerator strings, single modifier keys and the
  edge detection of their monitor.
- `models`: the model catalog, recommendations, mirror URLs, paths and the
  decisions of resumable downloads.
- `config`: settings, their defaults, load-time migration and field updates.
- `pipeline`: the dictation job as a state machine, with its laws
  (cancellation wins, history records only successful corrections, nothing
  is pasted without permission).
- `activation`, `commands`, `audio`, `stt`, `shared`: hotkey routing and
  handlers' decisions, settings-screen commands, input-device choice,
  language codes, shared flags.

`app/` is the desktop shell around it: windows, tray, global shortcuts,
audio capture, speech-to-text engines, HTTP and file I/O. It drives the
library's state machines and performs the actions they ask for.

`tests/` exercises the library on concrete values.
