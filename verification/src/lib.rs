//! Builds Python wheels around a compiled SQLite extension.
//!
//! A wheel is a zip archive with a fixed layout: the payload under a
//! directory named after the import name, and a `dist-info` directory with
//! four generated files. [`pip::PipPackage`] assembles one archive, and
//! [`pip::packages`] holds the recipes for the base package and for the two
//! plugin packages.
//!
//! Contracts speak of a wheel as the sequence of its files, each a path and
//! its bytes. What the archive writer and the hash functions do is not
//! proved here: [`archive`] and [`digest`] say what is taken on trust.

pub mod archive;
pub mod digest;
pub mod error;
pub mod pip;
pub mod platform;
pub mod text;
pub mod version;
