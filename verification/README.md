# eyeclipse

A Linux (X11) desktop helper: select a screen region, read its text with
Tesseract, translate it with DeepL, LibreTranslate or OpenAI, and show the
result next to the selection — once, or live while the region changes.

`src/` is the verified core, written in Verus:

- `config` — the settings record, its defaults, the configuration file's location
- `settings` — language tables, the OCR language selection, Tesseract's language listing
- `selector` — selection rectangle arithmetic and the selection session's decisions
- `capture`, `ocr`, `overlay`, `tray`, `hotkey` — monitor choice, OCR upscaling,
  overlay placement, the tray icon and menu events
- `diff` — change detection between two captures
- `live` — the debounce logic of live mode
- `translate` — requests for each service and the reading of their answers
- `events` — the main loop's decisions
- `text` — character-level string functions with their models

`app/` is the program around it: X11, screen capture, Tesseract, HTTP,
the egui windows, the tray and the configuration file on disk.
