use polars_rb_io::reader::{
    csv_read_config, ipc_read_config, parquet_read_config, row_index_spec, CsvReadArgs, IpcReadArgs,
    ParquetReadArgs, ParquetSource, RowIndexSpec,
};

fn csv_args(quote: Option<&str>, sep: &str, eol: &str) -> CsvReadArgs<u8, Vec<String>, u16, u32> {
    CsvReadArgs {
        infer_schema_length: Some(100),
        chunk_size: 50000,
        has_header: true,
        ignore_errors: false,
        n_rows: None,
        skip_rows: 2,
        projection: Some(vec![0, 2]),
        separator: String::from(sep),
        rechunk: true,
        columns: None,
        encoding: 7,
        n_threads: Some(4),
        path: Some(String::from("data.csv")),
        overwrite_dtype: Some(vec![(String::from("a"), 9)]),
        low_memory: false,
        comment_prefix: Some(String::from("#")),
        quote_char: quote.map(String::from),
        null_values: Some(vec![String::from("NA")]),
        missing_utf8_is_empty_string: false,
        try_parse_dates: true,
        skip_rows_after_header: 1,
        row_index: Some((String::from("idx"), 10)),
        sample_size: 1024,
        eol_char: String::from(eol),
        raise_if_empty: true,
        truncate_ragged_lines: false,
        decimal_comma: true,
        schema: None,
    }
}

#[test]
fn csv_read_config_bytes() {
    let cfg = csv_read_config(csv_args(Some("\""), ",", "\n"));
    assert_eq!(cfg.parse.separator, b',');
    assert_eq!(cfg.parse.eol_char, b'\n');
    assert_eq!(cfg.parse.quote_char, Some(b'"'));
    assert!(cfg.parse.missing_is_null);
    assert_eq!(cfg.parse.encoding, 7);
    assert_eq!(cfg.parse.null_values, Some(vec![String::from("NA")]));
    assert_eq!(cfg.parse.comment_prefix, Some(String::from("#")));
    assert!(cfg.parse.try_parse_dates);
    assert!(cfg.parse.decimal_comma);
    assert!(!cfg.parse.truncate_ragged_lines);
}

#[test]
fn csv_read_config_passes_options_through() {
    let cfg = csv_read_config(csv_args(None, "\t|", "\r\n"));
    assert_eq!(cfg.parse.separator, b'\t');
    assert_eq!(cfg.parse.eol_char, b'\r');
    assert_eq!(cfg.parse.quote_char, None);
    assert_eq!(cfg.path, Some(String::from("data.csv")));
    assert_eq!(cfg.infer_schema_length, Some(100));
    assert_eq!(cfg.chunk_size, 50000);
    assert_eq!(cfg.skip_rows, 2);
    assert_eq!(cfg.projection, Some(vec![0, 2]));
    assert_eq!(cfg.n_threads, Some(4));
    assert_eq!(cfg.schema_overwrite, Some(vec![(String::from("a"), 9)]));
    assert_eq!(cfg.schema, None);
    assert_eq!(cfg.skip_rows_after_header, 1);
    assert_eq!(cfg.sample_size, 1024);
    assert!(cfg.raise_if_empty);
    assert_eq!(cfg.row_index, Some(RowIndexSpec { name: String::from("idx"), offset: 10 }));
}

#[test]
fn csv_read_config_empty_quote_is_none() {
    let cfg = csv_read_config(csv_args(Some(""), ",", "\n"));
    assert_eq!(cfg.parse.quote_char, None);
}

#[test]
fn csv_read_config_missing_is_null_negates() {
    let mut args = csv_args(None, ",", "\n");
    args.missing_utf8_is_empty_string = true;
    let cfg = csv_read_config(args);
    assert!(!cfg.parse.missing_is_null);
}

#[test]
fn row_index_spec_cases() {
    assert_eq!(row_index_spec(None), None);
    assert_eq!(
        row_index_spec(Some((String::from("row_nr"), 0))),
        Some(RowIndexSpec { name: String::from("row_nr"), offset: 0 })
    );
}

fn parquet_args() -> ParquetReadArgs<&'static str> {
    ParquetReadArgs {
        columns: Some(vec![String::from("a")]),
        projection: None,
        n_rows: Some(5),
        parallel: "auto",
        row_index: None,
        low_memory: true,
        use_statistics: false,
        rechunk: true,
    }
}

#[test]
fn parquet_low_memory_only_for_ruby_buffer() {
    let buf = parquet_read_config(parquet_args(), ParquetSource::RubyBuffer);
    assert_eq!(buf.low_memory, Some(true));
    let file = parquet_read_config(parquet_args(), ParquetSource::File);
    assert_eq!(file.low_memory, None);
    assert_eq!(file.columns, Some(vec![String::from("a")]));
    assert_eq!(file.n_rows, Some(5));
    assert_eq!(file.parallel, "auto");
    assert!(!file.use_statistics);
    assert!(file.rechunk);
    assert_eq!(file.row_index, None);
}

#[test]
fn ipc_never_memory_maps() {
    for memory_map in [false, true] {
        let cfg = ipc_read_config(IpcReadArgs {
            columns: None,
            projection: Some(vec![1]),
            n_rows: None,
            row_index: Some((String::from("i"), 3)),
            memory_map,
        });
        assert_eq!(cfg.memory_map_path, None);
        assert_eq!(cfg.projection, Some(vec![1]));
        assert_eq!(cfg.row_index, Some(RowIndexSpec { name: String::from("i"), offset: 3 }));
    }
}
