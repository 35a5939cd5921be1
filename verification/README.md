# cpp_build

Build script support for Rust code with embedded C++, written in Verus.

- `src/` is the verified library: the C++ source that is generated for the `cpp` declarations of a
  crate (`generate`), the configuration of the compiler driver (`config`), and the decisions in the
  course of a build (`course`). `cc_build` and two standard library specifications (`String::push`
  in `text`, `PathBuf::clone` in `course`) are what is taken for granted. The modules `.._laws` hold
  properties of the whole.
- `app/` carries out the decisions: environment variables, files, output, the compiler.
- `tests/` runs the library on concrete values.
- `extras/template_lines.sh` compares the line numbers stated in `src/templates.rs` with the file.
