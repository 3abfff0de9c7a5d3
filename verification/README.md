# rei

A small 3D application: a model and a light, drawn with multisampling, with debug
colliders, an interface on top and a song in the background.

`src/` is the verified core. It holds the state of the application and decides what is to
be done: how the graphics side is set up (`startup`, `pipeline`, `surface`, `format`), which
commands make up a frame (`frame`), what a change of size, a key or a song entails (`app`,
`input`), and where files come from (`resources`). `validity` models a graphics device, states
when it takes the commands of a frame, and proves that it takes those of every frame. That
device is the library's own model, tied to nothing in `wgpu`.

`app/` is the shell around it, in ordinary Rust: it owns the window, the devices and the
files, performs what the core asks for and reports back. Cameras, lights and meshes come in
through the traits in `app/parts.rs`.

What is taken on trust stands in the core as a handful of declarations: types of `wgpu`,
`egui` and `reqwest` that are passed through unread, the sRGB flag of a `wgpu` texture format,
and the reading and joining of addresses by `reqwest`.
