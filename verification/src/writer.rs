//! Writers: where each writer sends its bytes, and the CSV writer's options.
use vstd::prelude::*;

verus! {

/// The formats the data frame can be written in.
#[derive(Debug, Clone, Copy, PartialEq, Eq)]
pub enum WriteFormat {
    Csv,
    Parquet,
    Json,
    NdJson,
    Ipc,
    IpcStream,
    Avro,
}

/// What the destination argument of a writer turned out to be: a path (it converts
/// to a string), or another Ruby object, such as an IO.
#[derive(Debug, PartialEq, Eq)]
pub enum Destination {
    Path(String),
    RubyObject,
}

/// Where a writer sends its bytes.
#[derive(Debug, PartialEq, Eq)]
pub enum Sink {
    /// A file created (or truncated) at the path.
    CreateFile(String),
    /// An in-memory buffer, whose bytes are then handed to the destination's
    /// `write` method as one Ruby string.
    BufferThenRubyWrite,
    /// The destination opened as a file-like object for writing, behind a buffered
    /// writer when `buffered` holds: a file created (or truncated) at the path when
    /// the destination is one, else the Ruby object itself.
    RubyFileLike { buffered: bool },
}

/// The sink that a writer of `format` uses for `destination`. The JSON writers
/// always open the destination as a buffered file-like object (which, for a path,
/// is the file created at it); the others create the file at a path, and otherwise
/// buffer in memory (CSV, IPC) or write to the object directly (Parquet, IPC
/// stream, Avro).
pub fn write_sink(format: WriteFormat, destination: Destination) -> (sink: Sink)
    ensures
        (format == WriteFormat::Json || format == WriteFormat::NdJson) ==> sink
            == (Sink::RubyFileLike { buffered: true }),
        destination matches Destination::Path(p) ==> (format != WriteFormat::Json && format
            != WriteFormat::NdJson ==> sink == Sink::CreateFile(p)),
        (format == WriteFormat::Csv || format == WriteFormat::Ipc) && destination
            == Destination::RubyObject ==> sink == Sink::BufferThenRubyWrite,
        (format == WriteFormat::Parquet || format == WriteFormat::IpcStream || format
            == WriteFormat::Avro) && destination == Destination::RubyObject ==> sink
            == (Sink::RubyFileLike { buffered: false }),
{
    match format {
        WriteFormat::Json | WriteFormat::NdJson => Sink::RubyFileLike { buffered: true },
        WriteFormat::Csv | WriteFormat::Ipc => match destination {
            Destination::Path(p) => Sink::CreateFile(p),
            Destination::RubyObject => Sink::BufferThenRubyWrite,
        },
        WriteFormat::Parquet | WriteFormat::IpcStream | WriteFormat::Avro => match destination {
            Destination::Path(p) => Sink::CreateFile(p),
            Destination::RubyObject => Sink::RubyFileLike { buffered: false },
        },
    }
}

/// The arguments of the CSV writer, apart from its destination.
#[derive(Debug, PartialEq, Eq)]
pub struct CsvWriteArgs {
    pub include_header: bool,
    pub separator: u8,
    pub quote_char: u8,
    pub batch_size: usize,
    pub datetime_format: Option<String>,
    pub date_format: Option<String>,
    pub time_format: Option<String>,
    pub float_precision: Option<usize>,
    pub null_value: Option<String>,
}

/// Everything the CSV writer is configured with.
#[derive(Debug, PartialEq, Eq)]
pub struct CsvWriteConfig {
    pub include_header: bool,
    pub separator: u8,
    pub quote_char: u8,
    pub batch_size: usize,
    pub datetime_format: Option<String>,
    pub date_format: Option<String>,
    pub time_format: Option<String>,
    pub float_precision: Option<usize>,
    /// The text written for a missing value.
    pub null: String,
}

/// The CSV writer's configuration for the given arguments: a missing null value is
/// written as the empty string. The batch size is a positive number of rows.
pub fn csv_write_config(args: CsvWriteArgs) -> (cfg: CsvWriteConfig)
    requires
        args.batch_size > 0,
    ensures
        cfg.include_header == args.include_header,
        cfg.separator == args.separator,
        cfg.quote_char == args.quote_char,
        cfg.batch_size == args.batch_size,
        cfg.datetime_format == args.datetime_format,
        cfg.date_format == args.date_format,
        cfg.time_format == args.time_format,
        cfg.float_precision == args.float_precision,
        args.null_value matches Some(v) ==> cfg.null == v,
        args.null_value is None ==> cfg.null@ == Seq::<char>::empty(),
{
    let null = match args.null_value {
        Some(v) => v,
        None => String::new(),
    };
    CsvWriteConfig {
        include_header: args.include_header,
        separator: args.separator,
        quote_char: args.quote_char,
        batch_size: args.batch_size,
        datetime_format: args.datetime_format,
        date_format: args.date_format,
        time_format: args.time_format,
        float_precision: args.float_precision,
        null,
    }
}

} // verus!
