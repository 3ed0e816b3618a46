//! A front end that takes the command line of the standard Lua interpreter
//! and turns it into a run of the Lua runtime embedded in Neovim.
//!
//! The crate holds the decisions of that program and touches nothing
//! outside: [`cli`] reads a command line, token by token as [`lexer`] lexes
//! them; [`launch`] builds the command for Neovim and the texts that the
//! program prints; [`run`] orders the steps of a run, which the program around
//! the library carries out one by one. [`theorems`] states what holds of
//! every command line and of every run.
pub mod cli;
pub mod error;
pub mod launch;
pub mod lexer;
pub mod run;
pub mod text;
pub mod theorems;
