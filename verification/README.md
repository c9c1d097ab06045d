# zed_flutter

Dart and Flutter support for the Zed editor, in two parts: a WebAssembly
extension that tells Zed how to run the Dart analysis server, the Flutter
debug adapter and a set of `/flutter-*` slash commands; and a native bridge
server that speaks LSP with the extension and drives `flutter daemon`.

`src/` is the verified library (Verus): the JSON values exchanged, the
registry of devices and running applications, the daemon protocol (request
numbering, responses, device events), the handling of the custom
`flutter/*` requests, and the extension's decisions (which command starts
which server, where the bridge binary comes from, slash command texts).

`app/` holds the program around it: stdio LSP connection, the daemon child
process, JSON encoding with `serde_json`, and the Zed host calls.

`tests/` exercises the library on concrete values.
