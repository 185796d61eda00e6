# nixie

The logic of Nixie, a desktop pixel pig that follows Cursor's AI agent:
Cursor hooks record the agent's activity in `~/.nixie/state.json`, and the
pet turns each snapshot into a mood, celebrations and speech-bubble lines.

- `src/` is the verified library (Verus): the hook's event mapping
  (`hook_event`), the mood brain (`pet_core`, and the earlier `state`), the
  overlay of toasts, celebrations and feeding (`pet_overlay`), quotes,
  settings, git and window helpers, and the frame loop's decisions
  (`pet_loop`). Each public function's contract is stated over spec
  functions; the laws the project promises are public proof functions.
- `app/` is the program around it: files under `~/.nixie`, serde forms of
  the library's types, the tao/wry window and page, process sampling, the
  macOS socket, and the hook binary (run as `nixie-hook`).
- `tests/` run the library on concrete values.
