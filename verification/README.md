# fp_window

The decisions behind the window of a desktop browser-profile manager, as a
Verus-verified library: what each page shows, in which palette roles, which
controls are live, which sentence a header or an empty list carries, and what
closing the window does. The drawing is the GUI toolkit's; this crate decides
what is drawn.

- `components` - page header, card, chip, status badge, empty state.
- `profiles`, `details` - the profile list, its rows, and the details panel.
- `proxies`, `cores`, `settings`, `logs` - the other pages: their lists row
  by row, the settings cards, the log lines and the panel's log tail.
- `exit` - the close button, the exit question, the tray, and their laws.
- `window` - navigation and its menu, which header and body a page draws,
  the heartbeat, the banner, panel placement, opening a data directory.
- `forms` - what an accepted or refused dialog does.
- `assets` - icon sizes and the asset listing (sorted, each name once).
- `text` - trimming, joining and number spelling, proved against their specs.

`app/` holds the plumbing around it: the clock, worker channels, the
heartbeat counter, floating-point viewport comparisons, and the host that
carries out an exit decision.
