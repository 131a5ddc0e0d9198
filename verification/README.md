# madamiru (verified core)

The logic of a media player that shuffles videos, images and songs in a
grid, written in Verus with its contracts proved:

- `path`: paths that keep their raw spelling and are interpreted for a host
  (Unix or Windows spellings, `~`, relative bases).
- `prelude`: timestamps, version numbers and the application's errors.
- `media`: sources of media and their de-duplication.
- `resource::playlist`: the layout tree of a playlist (splits and groups)
  and the sources it draws from; `resource::config`: playback settings; `resource::cache`: the
  remembered version and release check.
- `gui`: the window's decisions (`app_state::app_step`, `startup`,
  `keyboard`), grids of players (`players`), the grid settings dialog (`grid_settings`), players of still
  media and placeholders (`still`), what keyboard navigation can select,
  icons.
- `dlna`: renderers, their errors, and the state machine of casting;
  `video_enhance`: its errors.

`app/` holds what needs the operating system: reading standard input,
reading and writing playlist files, the file-system helpers around
`StrictPath`, and a runner (`window`) that performs the window's file
actions.
