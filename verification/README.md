# Talon Pilot Studio

The desktop shell around a page that works with a local `tp-agent` daemon.

- `src/` is the library: the decisions that the shell takes, with their contracts, proved with
  Verus. One is left to `app/`: a window without a stored geometry is fitted to its monitor, which
  is floating point arithmetic. What reaches the file system, the network, processes or windows is expressed as tasks:
  the library says what is to be done next, and is told what came of it.
- `app/` performs those tasks with the framework, the file system and the network. It compiles the
  logo `icons/128x128.png` in.
- `tests/` runs the library on concrete values.

| Module | What it decides |
| --- | --- |
| `config` | where settings come from and how the settings file is read |
| `platform`, `paths` | platforms, and the paths that are formed and taken apart on them |
| `process`, `agent` | runs of `tp-agent`, its status, its releases |
| `locate`, `archive`, `install` | where the executable is found, and how it is installed |
| `login` | signing in through a browser window |
| `browser`, `dir_copy` | the browser connector and the extension that it lays out |
| `update`, `updater_ui`, `dialog_page` | the check for updates and the dialog that shows one |
| `markdown`, `html`, `json`, `base64_text`, `urls` | what stands in pages and scripts |
| `window_state`, `shell` | the main window, the tray, and what pages are told |
