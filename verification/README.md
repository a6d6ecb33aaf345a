# pob_egui

The verified core of a Path of Building front end that hosts the Path of
Building Lua scripts and shows builds in egui panels.

- `src/` is the library, written in Verus and proved against its contracts:
  colour-code handling (`color_codes`, `colors`), build-link resolution and
  percent-decoding (`url`), build-folder paths (`paths`), display labels and
  number grouping (`labels`), list selections (`selection`), config section
  layout and search (`config`), share sites and script-string quoting (`share`), the
  notes editor (`notes`), the item database's type list and filter
  (`item_types`), passive tree node styling, search cycling and click
  routing (`tree_nodes`), the tree spec manager (`tree_specs`), the build
  list's dialogs (`build_dialogs`) and its search and move targets
  (`build_list`), the open build's header and Save As dialog
  (`build_header`), the skills panel's actions and skill sets (`skills`),
  the tree toolbar, spec manager and version conversion (`tree_panel`),
  tabs and the new-item dialog (`tabs`), the affix editor, anoint and
  enchant dialogs (`craft_dialogs`), the
  colour theme (`theme`), the scripts' file-search cursor (`file_search`) and
  zlib compression through flate2 (`compression`). Shared character-level
  helpers live in `text`.
- `app/` is the program around it: the Lua script host (mlua), network
  import and upload (reqwest), clipboard, the user data directory, the
  build view's script calls and header frame, the egui panels in
  `app/panels` that turn each frame's clicks into events for the library's
  step functions, the egui notes editor and the floating-point formatting.
- `tests/` runs the library on concrete values.
