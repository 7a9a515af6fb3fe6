# tauri-runtime-cef

A runtime for [Tauri](https://tauri.app) on the Chromium Embedded Framework.

`src/` is the library: the decisions of the runtime, each a function from plain
values to plain values with its contract, verified with Verus. `app/` performs what
the library decides, on CEF, Xlib and winit, and hands back what they say.

| module | what it decides |
| --- | --- |
| `config` | the process-wide configuration, which the first one to set or read it settles |
| `geometry` | sizes and positions; numbers with a fraction are carried by their bits |
| `window`, `views` | what every window is asked and answers, and what CEF's delegates answer |
| `schemes`, `webview` | which custom protocol handlers serve which browser |
| `wayland` | an application with one window that CEF owns, from its start to its exit |
| `native_wayland` | windows that CEF owns beside others, their limits and draggable regions |
| `permission` | media access and permission prompts, and how grants are remembered |
| `x11` | error handlers, connections and window states on X11 |

What holds of a module as a whole, whatever happens in whatever order, stands in it
as public proof functions; those on the life of an application are in
`wayland::lifecycle`.

Scaling between physical and device-independent pixels is floating point and is done
in `app/scale.rs`; the library takes rounded values and bounds them.
