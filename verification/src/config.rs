//! The I/O configuration record, its two presets, and null-tolerant access
//! to its fields.

use vstd::prelude::*;

verus! {

/// How a value is written to a file.
#[derive(Debug, Clone, Copy, PartialEq, Eq, Structural)]
pub struct GblnConfig {
    /// Leave out optional whitespace.
    pub mini_mode: bool,
    /// Compress what is written.
    pub compress: bool,
    /// Compression level, from 0 to 9. Stored as given.
    pub compression_level: u8,
    /// Indentation width of the readable form.
    pub indent: usize,
    /// Leave comments out of the output.
    pub strip_comments: bool,
}

impl GblnConfig {
    /// The preset for machine interchange: compact and compressed.
    pub open spec fn io_preset() -> GblnConfig {
        GblnConfig {
            mini_mode: true,
            compress: true,
            compression_level: 6,
            indent: 2,
            strip_comments: true,
        }
    }

    /// The preset for human editing: readable and plain.
    pub open spec fn source_preset() -> GblnConfig {
        GblnConfig {
            mini_mode: false,
            compress: false,
            compression_level: 6,
            indent: 2,
            strip_comments: false,
        }
    }

    /// The preset for machine interchange.
    pub fn io_format() -> (config: GblnConfig)
        ensures
            config == GblnConfig::io_preset(),
    {
        GblnConfig {
            mini_mode: true,
            compress: true,
            compression_level: 6,
            indent: 2,
            strip_comments: true,
        }
    }

    /// The preset for human editing.
    pub fn development() -> (config: GblnConfig)
        ensures
            config == GblnConfig::source_preset(),
    {
        GblnConfig {
            mini_mode: false,
            compress: false,
            compression_level: 6,
            indent: 2,
            strip_comments: false,
        }
    }
}

/// A configuration with the I/O preset.
pub fn gbln_config_new_io() -> (config: GblnConfig)
    ensures
        config == GblnConfig::io_preset(),
{
    GblnConfig::io_format()
}

/// A configuration with the source preset.
pub fn gbln_config_new_source() -> (config: GblnConfig)
    ensures
        config == GblnConfig::source_preset(),
{
    GblnConfig::development()
}

/// A configuration with the given fields.
pub fn gbln_config_new(
    mini_mode: bool,
    compress: bool,
    compression_level: u8,
    indent: usize,
    strip_comments: bool,
) -> (config: GblnConfig)
    ensures
        config == (GblnConfig { mini_mode, compress, compression_level, indent, strip_comments }),
{
    GblnConfig { mini_mode, compress, compression_level, indent, strip_comments }
}

/// Releases a configuration. An absent one is accepted and nothing happens.
pub fn gbln_config_free(config: Option<GblnConfig>) {
    let _ = config;
}

/// Reads whether output is written without optional whitespace; `false` for an absent configuration.
pub fn gbln_config_get_mini_mode(config: Option<&GblnConfig>) -> (value: bool)
    ensures
        value == (match config {
            Some(c) => c.mini_mode,
            None => false,
        }),
{
    match config {
        Some(c) => c.mini_mode,
        None => false,
    }
}

/// Reads whether output is compressed; `false` for an absent configuration.
pub fn gbln_config_get_compress(config: Option<&GblnConfig>) -> (value: bool)
    ensures
        value == (match config {
            Some(c) => c.compress,
            None => false,
        }),
{
    match config {
        Some(c) => c.compress,
        None => false,
    }
}

/// Reads the compression level; `6` for an absent configuration.
pub fn gbln_config_get_compression_level(config: Option<&GblnConfig>) -> (value: u8)
    ensures
        value == (match config {
            Some(c) => c.compression_level,
            None => 6,
        }),
{
    match config {
        Some(c) => c.compression_level,
        None => 6,
    }
}

/// Reads the indentation width; `2` for an absent configuration.
pub fn gbln_config_get_indent(config: Option<&GblnConfig>) -> (value: usize)
    ensures
        value == (match config {
            Some(c) => c.indent,
            None => 2,
        }),
{
    match config {
        Some(c) => c.indent,
        None => 2,
    }
}

/// Reads whether comments are left out of the output; `false` for an absent configuration.
pub fn gbln_config_get_strip_comments(config: Option<&GblnConfig>) -> (value: bool)
    ensures
        value == (match config {
            Some(c) => c.strip_comments,
            None => false,
        }),
{
    match config {
        Some(c) => c.strip_comments,
        None => false,
    }
}

/// Sets whether output is written without optional whitespace and leaves the other fields as they were. Nothing happens for
/// an absent configuration.
pub fn gbln_config_set_mini_mode(config: Option<&mut GblnConfig>, value: bool)
    ensures
        config is Some ==> *final(config->Some_0) == (GblnConfig {
            mini_mode: value,
            ..*old(config->Some_0)
        }),
{
    match config {
        Some(c) => {
            c.mini_mode = value;
        },
        None => {},
    }
}

/// Sets whether output is compressed and leaves the other fields as they were. Nothing happens for
/// an absent configuration.
pub fn gbln_config_set_compress(config: Option<&mut GblnConfig>, value: bool)
    ensures
        config is Some ==> *final(config->Some_0) == (GblnConfig {
            compress: value,
            ..*old(config->Some_0)
        }),
{
    match config {
        Some(c) => {
            c.compress = value;
        },
        None => {},
    }
}

/// Sets the compression level and leaves the other fields as they were. Nothing happens for
/// an absent configuration.
pub fn gbln_config_set_compression_level(config: Option<&mut GblnConfig>, value: u8)
    ensures
        config is Some ==> *final(config->Some_0) == (GblnConfig {
            compression_level: value,
            ..*old(config->Some_0)
        }),
{
    match config {
        Some(c) => {
            c.compression_level = value;
        },
        None => {},
    }
}

/// Sets the indentation width and leaves the other fields as they were. Nothing happens for
/// an absent configuration.
pub fn gbln_config_set_indent(config: Option<&mut GblnConfig>, value: usize)
    ensures
        config is Some ==> *final(config->Some_0) == (GblnConfig {
            indent: value,
            ..*old(config->Some_0)
        }),
{
    match config {
        Some(c) => {
            c.indent = value;
        },
        None => {},
    }
}

/// Sets whether comments are left out of the output and leaves the other fields as they were. Nothing happens for
/// an absent configuration.
pub fn gbln_config_set_strip_comments(config: Option<&mut GblnConfig>, value: bool)
    ensures
        config is Some ==> *final(config->Some_0) == (GblnConfig {
            strip_comments: value,
            ..*old(config->Some_0)
        }),
{
    match config {
        Some(c) => {
            c.strip_comments = value;
        },
        None => {},
    }
}

} // verus!
