# lyricwave

A cross-platform audio capture and subtitle pipeline. The library in `src/` is written
in Verus: its functions carry contracts that the verifier proves, and its laws (public
proof functions named `law_*`) state what holds across calls.

- `src/audio`: request and report types, input device selection (`hint > loopback >
  default > first`), the CPAL/ffmpeg backends' command lines and reports, and the
  per-application capture plans of each platform (a step-by-step session on Linux, the
  process table and settings on Windows).
- `src/video`: display listing and the native backend's registry.
- `src/recording`, `src/composition`: which captures a session runs and what it reports.
- `src/pipeline`: recognition and translation engines, the provider registry, the online
  providers' requests and replies, the VibeVoice command, the transcript service.
- `src/commands`, `src/cli`, `src/config`: the decisions of the command-line commands,
  the command model, and profile resolution.
- `app/`: the program itself: argument parsing, devices, processes, files, HTTP and TCP.
