# ludusavi (windowing layer)

The decisions behind the tool's toast notifications, tray icon, autostart
entry and window icon, written in Verus and proved against their contracts.

- `src/gui.rs`: the toast window's width, and the decoded application icon.
- `src/gui/toast.rs`: toast kinds, what each kind shows, and portion bars.
- `src/tray.rs`: tray menu ids and commands, pointer clicks, and the menu
  loop `TrayMenu`, whose handled events are proved to pass on nothing after
  Exit (app/ runs the loop with it).
- `src/resource/autostart.rs`: the registry location and the launch command.
- `app/`: the Windows/iced side that performs I/O and drawing with them.
