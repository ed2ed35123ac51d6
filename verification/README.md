# clipbox

ClipBox is a small Windows utility: a floating window that accepts files and
folders dragged from File Explorer and copies each of them into a "box"
directory under the local application data directory.

- `src/` is the verified library (Verus). It holds UTF-16 text handling for
  the Win32 API (`tools::encoding`), box naming and copy planning
  (`storage`), the recognition of the foreground application and the
  decisions of the window procedures (`windows`). Every function there has a
  contract, and the laws that relate them are proved as proof functions.
- `app/` is the Windows program around it: every Win32 call, the file system,
  threads and the message loop.
- `tests/` runs the library on concrete values.
