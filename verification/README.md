# ss_encode

Decision logic of a family of hardware video-encoder backends, verified with Verus.

Each backend (AMF, QSV, NVENC on the capturer's textures, NVENC from system memory, libavcodec's AMF
and QSV encoders) talks to a driver. What the driver is asked for, in which order, and how each answer
is taken, is decided in `src/` by functions from a state and an event to the next state and an action.
Their contracts say what every call returns and changes; the `law_*` proof functions state what holds
over several calls. `app/` performs the actions.

| Module | What it holds |
| --- | --- |
| `rfi`, `ltr` | recovery from lost frames: which references stay trusted, which one anchors the recovery |
| `nvenc` | session set-up, the search for an accepted bitrate, the session budget, submit and poll |
| `nvenc_d3d11` | preferences, probing, the walk of session attempts, pixel reordering |
| `amf`, `amf_sys` | encoder properties, the submit machine, the values passed to the runtime |
| `qsv` | stream parameters, reference lists, the submit machine |
| `ffmpeg_win` | encoder options, readback routes and plane copies |
| `vk_av1_encode` | flag words of the Vulkan AV1 encode extension |
| `flow`, `layout`, `text`, `types` | what the backends share |

`tests/` drives the library against simulated drivers.
