//! Developer-convenience helpers for building and running external OS
//! commands: a command representation (raw shell-like text or pre-split
//! argument lists), a quoting-aware tokenizer, stdio planning for a process
//! spawner, and a UTF-8 output decoder.

pub mod bool_ext;
pub mod os_cmd;
