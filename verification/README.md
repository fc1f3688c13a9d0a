# cycling_visualizer

A viewer for the stage profiles and traces of cycling races (Tour de France,
Giro, Vuelta), drawn with wgpu. The repository holds two parts.

`src/` is a library verified with Verus. It holds:

- `wire`, `profile`, `global_mesh`, `legacy`: the race data files — the
  gzip-compressed stage profile file, the country map file and the earlier
  uncompressed profile layout — decoded from bytes, each decoder stated
  against a specification of its layout and failing exactly where the data
  ends early;
- `geometry`: the index buffers of ribbons and thick segments, the smoothing
  window of the track normals and the labelled heights of the elevation axis;
- `atlas`: the packing of glyph cells into the font texture (with the proof
  that cells stay inside the texture and never overlap) and the copy of a
  glyph bitmap into it;
- `view`: the controller that answers every input event with the next
  interface state and the effects to perform, with its laws (consistency of
  the state, the 2D/3D and menu switches, the country-map round trip, stage selection
  from the sidebar or from a trace on the country map, the slope measure);
- `races`: the order of the race directories, the choice of data directory
  and of the race asked for on the command line, and the stored settings.

`app/` is the program around it: window, GPU rendering, file access, JSON
settings and the font rasteriser. Run it from a directory whose `data/`
holds `races/`, `fonts/font.ttf` and `shader.wgsl`; `--race <id>` opens a race
directly, `--find-ref` prints the steepest stage of `../data/profile.bin`.
