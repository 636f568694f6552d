[package]
name = "badzipfile_alias"
version = "0.1.0"
edition = "2021"
publish = false

[dependencies]
# Not used by name. Held at the release that is built against compact_str 0.9,
# as ruff_python_ast 0.0.5 is; later 0.10 releases moved to compact_str 0.10.
get-size2 = "=0.10.1"
ruff_diagnostics = "=0.0.5"
ruff_python_ast = "=0.0.5"
ruff_python_codegen = "=0.0.5"
ruff_python_semantic = "=0.0.5"
ruff_python_trivia = "=0.0.5"
ruff_source_file = "=0.0.5"
ruff_text_size = "=0.0.5"
