use taotie::{verify_conn_str, Compression, DataSetConn};

#[test]
fn csv_with_gzip_compression() {
    let r = verify_conn_str("data.csv.gz").unwrap();
    match r {
        DataSetConn::Csv(o) => {
            assert_eq!(o.filename, "data.csv.gz");
            assert_eq!(o.ext, "csv");
            assert!(matches!(o.compression, Compression::Gzip));
        }
        other => panic!("expected a csv source, got {:?}", other),
    }
}

#[test]
fn plain_csv_is_uncompressed() {
    let r = verify_conn_str("data.csv").unwrap();
    match r {
        DataSetConn::Csv(o) => {
            assert_eq!(o.filename, "data.csv");
            assert_eq!(o.ext, "csv");
            assert!(matches!(o.compression, Compression::Uncompressed));
        }
        other => panic!("expected a csv source, got {:?}", other),
    }
}

#[test]
fn unknown_extension_is_rejected() {
    let e = verify_conn_str("data.unknownext").unwrap_err();
    assert_eq!(e, "Invalid file extension: unknownext");
}

#[test]
fn postgres_url_skips_file_parsing() {
    let r = verify_conn_str("postgres://host/db").unwrap();
    match r {
        DataSetConn::Postgres(url) => assert_eq!(url, "postgres://host/db"),
        other => panic!("expected a relational source, got {:?}", other),
    }
}

#[test]
fn ndjson_family_tokens() {
    for name in ["a.json", "a.jsonl", "a.ndjson"] {
        match verify_conn_str(name).unwrap() {
            DataSetConn::NdJson(o) => assert_eq!(o.filename, name),
            other => panic!("expected a record-file source, got {:?}", other),
        }
    }
}

#[test]
fn ndjson_with_zstd_compression() {
    match verify_conn_str("rows.json.zstd").unwrap() {
        DataSetConn::NdJson(o) => {
            assert_eq!(o.ext, "json");
            assert!(matches!(o.compression, Compression::Zstd));
        }
        other => panic!("expected a record-file source, got {:?}", other),
    }
}

#[test]
fn bzip2_and_xz_tokens() {
    match verify_conn_str("a.csv.bz2").unwrap() {
        DataSetConn::Csv(o) => assert!(matches!(o.compression, Compression::Bzip2)),
        other => panic!("expected a csv source, got {:?}", other),
    }
    match verify_conn_str("a.csv.xz").unwrap() {
        DataSetConn::Csv(o) => assert!(matches!(o.compression, Compression::Xz)),
        other => panic!("expected a csv source, got {:?}", other),
    }
}

#[test]
fn parquet_file_is_columnar() {
    match verify_conn_str("data.parquet").unwrap() {
        DataSetConn::Parquet(path) => assert_eq!(path, "data.parquet"),
        other => panic!("expected a columnar source, got {:?}", other),
    }
}

#[test]
fn unknown_compression_is_rejected() {
    let e = verify_conn_str("data.csv.rar").unwrap_err();
    assert_eq!(e, "Invalid compression type: rar");
}

#[test]
fn dotless_path_is_rejected() {
    let e = verify_conn_str("data").unwrap_err();
    assert_eq!(e, "Invalid connection string: data");
}

#[test]
fn compressed_token_order_is_right_to_left() {
    // The rightmost segment must be the compression token; a format token
    // there is rejected as a compression token, never silently reordered.
    let e = verify_conn_str("a.gz.csv").unwrap_err();
    assert_eq!(e, "Invalid compression type: csv");
}
