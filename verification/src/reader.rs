//! The options that each reader hands to the engine, computed from the reader's
//! arguments.
//!
//! Values that the arguments only carry through (an encoding, a null-value rule, a
//! data type, a schema, a parallel strategy) are type parameters: they reach the
//! options unchanged.
use vstd::prelude::*;
use vstd::utf8::encode_utf8;
use crate::text::{first_byte, first_byte_if_any, leading_byte};

verus! {

/// A row index column: its name and the number its first row gets.
#[derive(Debug, PartialEq, Eq)]
pub struct RowIndexSpec {
    pub name: String,
    pub offset: u32,
}

/// The row index column that a `(name, offset)` argument asks for.
pub fn row_index_spec(arg: Option<(String, u32)>) -> (r: Option<RowIndexSpec>)
    ensures
        arg is None ==> r is None,
        arg matches Some((name, offset)) ==> r == Some(RowIndexSpec { name, offset }),
{
    match arg {
        None => None,
        Some((name, offset)) => Some(RowIndexSpec { name, offset }),
    }
}

/// The arguments of the CSV reader, apart from the file it reads.
#[derive(Debug, PartialEq, Eq)]
pub struct CsvReadArgs<E, N, D, S> {
    pub infer_schema_length: Option<usize>,
    pub chunk_size: usize,
    pub has_header: bool,
    pub ignore_errors: bool,
    pub n_rows: Option<usize>,
    pub skip_rows: usize,
    pub projection: Option<Vec<usize>>,
    pub separator: String,
    pub rechunk: bool,
    pub columns: Option<Vec<String>>,
    pub encoding: E,
    pub n_threads: Option<usize>,
    pub path: Option<String>,
    pub overwrite_dtype: Option<Vec<(String, D)>>,
    pub low_memory: bool,
    pub comment_prefix: Option<String>,
    pub quote_char: Option<String>,
    pub null_values: Option<N>,
    pub missing_utf8_is_empty_string: bool,
    pub try_parse_dates: bool,
    pub skip_rows_after_header: usize,
    pub row_index: Option<(String, u32)>,
    pub sample_size: usize,
    pub eol_char: String,
    pub raise_if_empty: bool,
    pub truncate_ragged_lines: bool,
    pub decimal_comma: bool,
    pub schema: Option<S>,
}

/// How the CSV reader splits and interprets the text.
#[derive(Debug, PartialEq, Eq)]
pub struct CsvParseConfig<E, N> {
    pub separator: u8,
    pub encoding: E,
    pub missing_is_null: bool,
    pub comment_prefix: Option<String>,
    pub null_values: Option<N>,
    pub try_parse_dates: bool,
    pub quote_char: Option<u8>,
    pub eol_char: u8,
    pub truncate_ragged_lines: bool,
    pub decimal_comma: bool,
}

/// Everything the CSV reader is configured with.
#[derive(Debug, PartialEq, Eq)]
pub struct CsvReadConfig<E, N, D, S> {
    pub path: Option<String>,
    pub infer_schema_length: Option<usize>,
    pub has_header: bool,
    pub n_rows: Option<usize>,
    pub skip_rows: usize,
    pub ignore_errors: bool,
    pub projection: Option<Vec<usize>>,
    pub rechunk: bool,
    pub chunk_size: usize,
    pub columns: Option<Vec<String>>,
    pub n_threads: Option<usize>,
    pub schema_overwrite: Option<Vec<(String, D)>>,
    pub schema: Option<S>,
    pub low_memory: bool,
    pub skip_rows_after_header: usize,
    pub row_index: Option<RowIndexSpec>,
    pub sample_size: usize,
    pub raise_if_empty: bool,
    pub parse: CsvParseConfig<E, N>,
}

/// The quote character that a quote argument asks for: none when it is absent or
/// empty, else its first byte.
pub open spec fn quote_byte(arg: Option<String>) -> Option<u8> {
    match arg {
        None => None,
        Some(q) => leading_byte(q@),
    }
}

/// The CSV reader's configuration for the given arguments. The separator and the
/// end-of-line argument must not be empty: only their first byte is used.
pub fn csv_read_config<E, N, D, S>(args: CsvReadArgs<E, N, D, S>) -> (cfg: CsvReadConfig<E, N, D, S>)
    requires
        args.separator@.len() > 0,
        args.eol_char@.len() > 0,
    ensures
        cfg.path == args.path,
        cfg.infer_schema_length == args.infer_schema_length,
        cfg.has_header == args.has_header,
        cfg.n_rows == args.n_rows,
        cfg.skip_rows == args.skip_rows,
        cfg.ignore_errors == args.ignore_errors,
        cfg.projection == args.projection,
        cfg.rechunk == args.rechunk,
        cfg.chunk_size == args.chunk_size,
        cfg.columns == args.columns,
        cfg.n_threads == args.n_threads,
        cfg.schema_overwrite == args.overwrite_dtype,
        cfg.schema == args.schema,
        cfg.low_memory == args.low_memory,
        cfg.skip_rows_after_header == args.skip_rows_after_header,
        args.row_index is None ==> cfg.row_index is None,
        args.row_index matches Some((name, offset)) ==> cfg.row_index == Some(
            RowIndexSpec { name, offset },
        ),
        cfg.sample_size == args.sample_size,
        cfg.raise_if_empty == args.raise_if_empty,
        Some(cfg.parse.separator) == leading_byte(args.separator@),
        cfg.parse.encoding == args.encoding,
        cfg.parse.missing_is_null == !args.missing_utf8_is_empty_string,
        cfg.parse.comment_prefix == args.comment_prefix,
        cfg.parse.null_values == args.null_values,
        cfg.parse.try_parse_dates == args.try_parse_dates,
        cfg.parse.quote_char == quote_byte(args.quote_char),
        args.quote_char is None ==> cfg.parse.quote_char is None,
        args.quote_char matches Some(q) ==> (q@.len() == 0 ==> cfg.parse.quote_char is None),
        args.quote_char matches Some(q) ==> (q@.len() > 0 ==> cfg.parse.quote_char == Some(
            encode_utf8(q@)[0],
        )),
        cfg.parse.separator == encode_utf8(args.separator@)[0],
        cfg.parse.eol_char == encode_utf8(args.eol_char@)[0],
        Some(cfg.parse.eol_char) == leading_byte(args.eol_char@),
        cfg.parse.truncate_ragged_lines == args.truncate_ragged_lines,
        cfg.parse.decimal_comma == args.decimal_comma,
{
    let eol_char = first_byte(args.eol_char.as_str());
    let row_index = row_index_spec(args.row_index);
    let quote_char = match &args.quote_char {
        None => None,
        Some(q) => first_byte_if_any(q.as_str()),
    };
    let separator = first_byte(args.separator.as_str());
    let parse = CsvParseConfig {
        separator,
        encoding: args.encoding,
        missing_is_null: !args.missing_utf8_is_empty_string,
        comment_prefix: args.comment_prefix,
        null_values: args.null_values,
        try_parse_dates: args.try_parse_dates,
        quote_char,
        eol_char,
        truncate_ragged_lines: args.truncate_ragged_lines,
        decimal_comma: args.decimal_comma,
    };
    CsvReadConfig {
        path: args.path,
        infer_schema_length: args.infer_schema_length,
        has_header: args.has_header,
        n_rows: args.n_rows,
        skip_rows: args.skip_rows,
        ignore_errors: args.ignore_errors,
        projection: args.projection,
        rechunk: args.rechunk,
        chunk_size: args.chunk_size,
        columns: args.columns,
        n_threads: args.n_threads,
        schema_overwrite: args.overwrite_dtype,
        schema: args.schema,
        low_memory: args.low_memory,
        skip_rows_after_header: args.skip_rows_after_header,
        row_index,
        sample_size: args.sample_size,
        raise_if_empty: args.raise_if_empty,
        parse,
    }
}

/// Where a Parquet reader gets its bytes: a Ruby object read as an in-memory buffer,
/// or a file opened on the Rust side.
#[derive(Debug, Clone, Copy, PartialEq, Eq)]
pub enum ParquetSource {
    RubyBuffer,
    File,
}

/// The arguments of the Parquet reader, apart from the file it reads.
#[derive(Debug, PartialEq, Eq)]
pub struct ParquetReadArgs<P> {
    pub columns: Option<Vec<String>>,
    pub projection: Option<Vec<usize>>,
    pub n_rows: Option<usize>,
    pub parallel: P,
    pub row_index: Option<(String, u32)>,
    pub low_memory: bool,
    pub use_statistics: bool,
    pub rechunk: bool,
}

/// Everything the Parquet reader is configured with. `low_memory` is `None` where
/// the reader is left at its own default.
#[derive(Debug, PartialEq, Eq)]
pub struct ParquetReadConfig<P> {
    pub projection: Option<Vec<usize>>,
    pub columns: Option<Vec<String>>,
    pub parallel: P,
    pub n_rows: Option<usize>,
    pub row_index: Option<RowIndexSpec>,
    pub low_memory: Option<bool>,
    pub use_statistics: bool,
    pub rechunk: bool,
}

/// The Parquet reader's configuration for the given arguments and source. The
/// low-memory setting is applied to a Ruby buffer only; a file source keeps the
/// reader's default.
pub fn parquet_read_config<P>(args: ParquetReadArgs<P>, source: ParquetSource) -> (cfg: ParquetReadConfig<P>)
    ensures
        cfg.projection == args.projection,
        cfg.columns == args.columns,
        cfg.parallel == args.parallel,
        cfg.n_rows == args.n_rows,
        args.row_index is None ==> cfg.row_index is None,
        args.row_index matches Some((name, offset)) ==> cfg.row_index == Some(
            RowIndexSpec { name, offset },
        ),
        source == ParquetSource::RubyBuffer ==> cfg.low_memory == Some(args.low_memory),
        source == ParquetSource::File ==> cfg.low_memory is None,
        cfg.use_statistics == args.use_statistics,
        cfg.rechunk == args.rechunk,
{
    let row_index = row_index_spec(args.row_index);
    let low_memory = match source {
        ParquetSource::RubyBuffer => Some(args.low_memory),
        ParquetSource::File => None,
    };
    ParquetReadConfig {
        projection: args.projection,
        columns: args.columns,
        parallel: args.parallel,
        n_rows: args.n_rows,
        row_index,
        low_memory,
        use_statistics: args.use_statistics,
        rechunk: args.rechunk,
    }
}

/// The arguments of the IPC reader, apart from the file it reads.
#[derive(Debug, PartialEq, Eq)]
pub struct IpcReadArgs {
    pub columns: Option<Vec<String>>,
    pub projection: Option<Vec<usize>>,
    pub n_rows: Option<usize>,
    pub row_index: Option<(String, u32)>,
    pub memory_map: bool,
}

/// Everything the IPC reader is configured with. `memory_map_path` names the file
/// to memory-map, if any.
#[derive(Debug, PartialEq, Eq)]
pub struct IpcReadConfig {
    pub projection: Option<Vec<usize>>,
    pub columns: Option<Vec<String>>,
    pub n_rows: Option<usize>,
    pub row_index: Option<RowIndexSpec>,
    pub memory_map_path: Option<String>,
}

/// The IPC reader's configuration for the given arguments. The reader never
/// memory-maps a file, whatever `memory_map` says.
pub fn ipc_read_config(args: IpcReadArgs) -> (cfg: IpcReadConfig)
    ensures
        cfg.projection == args.projection,
        cfg.columns == args.columns,
        cfg.n_rows == args.n_rows,
        args.row_index is None ==> cfg.row_index is None,
        args.row_index matches Some((name, offset)) ==> cfg.row_index == Some(
            RowIndexSpec { name, offset },
        ),
        cfg.memory_map_path is None,
{
    let row_index = row_index_spec(args.row_index);
    IpcReadConfig {
        projection: args.projection,
        columns: args.columns,
        n_rows: args.n_rows,
        row_index,
        memory_map_path: None,
    }
}

} // verus!
