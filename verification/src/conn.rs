//! Connection-string sniffing: a descriptor is either a relational URL or a
//! file path whose trailing dot-segments name a format and, optionally, a
//! compression codec. Unrecognized tokens are rejected here, before any
//! engine call.

use vstd::prelude::*;

use crate::text::{has_prefix, str_eq, str_has_prefix};

verus! {

/// Compression codec of a file-backed dataset, inferred from the trailing
/// dot-segment of its path.
#[derive(Clone, Copy, Debug, PartialEq, Eq, Structural)]
pub enum Compression {
    Uncompressed,
    Gzip,
    Bzip2,
    Xz,
    Zstd,
}

/// Path, format extension and compression codec of a file-backed dataset.
#[derive(Clone, Debug)]
pub struct FileOpts {
    pub filename: String,
    pub ext: String,
    pub compression: Compression,
}

/// A parsed data-source descriptor.
#[derive(Clone, Debug)]
pub enum DataSetConn {
    Postgres(String),
    Csv(FileOpts),
    Parquet(String),
    NdJson(FileOpts),
}

/// Index of the last `'.'` in `s`, if any.
pub open spec fn last_dot(s: Seq<char>) -> Option<int>
    decreases s.len(),
{
    if s.len() == 0 {
        None
    } else if s[s.len() - 1] == '.' {
        Some(s.len() - 1)
    } else {
        last_dot(s.drop_last())
    }
}

/// The codec a trailing token names, if it is a recognized compression token.
pub open spec fn compression_of(tok: Seq<char>) -> Option<Compression> {
    if tok == "gz"@ {
        Some(Compression::Gzip)
    } else if tok == "bz2"@ {
        Some(Compression::Bzip2)
    } else if tok == "xz"@ {
        Some(Compression::Xz)
    } else if tok == "zstd"@ {
        Some(Compression::Zstd)
    } else {
        None
    }
}

pub open spec fn is_csv_token(tok: Seq<char>) -> bool {
    tok == "csv"@
}

pub open spec fn is_ndjson_token(tok: Seq<char>) -> bool {
    tok == "json"@ || tok == "jsonl"@ || tok == "ndjson"@
}

pub open spec fn is_parquet_token(tok: Seq<char>) -> bool {
    tok == "parquet"@
}

/// The `FileOpts` recording path `s`, format token `ext` and codec `c`.
pub open spec fn file_opts_ok(o: FileOpts, s: Seq<char>, ext: Seq<char>, c: Compression) -> bool {
    o.filename@ == s && o.ext@ == ext && o.compression == c
}

/// A format token resolved against `FileOpts` `o`: `csv` and the
/// newline-delimited JSON family are recognized; anything else is rejected.
pub open spec fn format_result_ok(
    r: Result<DataSetConn, String>,
    tok: Seq<char>,
    s: Seq<char>,
    c: Compression,
) -> bool {
    if is_csv_token(tok) {
        r matches Ok(DataSetConn::Csv(o)) && file_opts_ok(o, s, tok, c)
    } else if is_ndjson_token(tok) {
        r matches Ok(DataSetConn::NdJson(o)) && file_opts_ok(o, s, tok, c)
    } else {
        r matches Err(e) && e@ == "Invalid file extension: "@ + tok
    }
}

/// Full specification of connection-string parsing: a `postgres://` prefix
/// means a relational source and no file parsing; otherwise the trailing
/// dot-segments are read right to left as compression token (if two or more
/// are present) then format token. A path without a dot-segment, or with an
/// unrecognized token, is rejected. A columnar (`parquet`) file is recognized
/// only without a compression segment.
pub open spec fn parse_result_ok(s: Seq<char>, r: Result<DataSetConn, String>) -> bool {
    if has_prefix(s, "postgres://"@) {
        r matches Ok(DataSetConn::Postgres(c)) && c@ == s
    } else {
        match last_dot(s) {
            None => r matches Err(e) && e@ == "Invalid connection string: "@ + s,
            Some(d1) => {
                let tail = s.subrange(d1 + 1, s.len() as int);
                match last_dot(s.subrange(0, d1)) {
                    None => if is_parquet_token(tail) {
                        r matches Ok(DataSetConn::Parquet(f)) && f@ == s
                    } else {
                        format_result_ok(r, tail, s, Compression::Uncompressed)
                    },
                    Some(d2) => {
                        let fmt = s.subrange(d2 + 1, d1);
                        match compression_of(tail) {
                            None => r matches Err(e) && e@ == "Invalid compression type: "@
                                + tail,
                            Some(c) => format_result_ok(r, fmt, s, c),
                        }
                    },
                }
            },
        }
    }
}

/// Index of the last `'.'` strictly before `end`, scanning right to left.
fn find_last_dot_before(s: &str, end: usize) -> (r: Option<usize>)
    requires
        end <= s@.len(),
    ensures
        match r {
            Some(d) => d < end && last_dot(s@.subrange(0, end as int)) == Some(d as int),
            None => last_dot(s@.subrange(0, end as int)) is None,
        },
{
    let mut i: usize = end;
    while i > 0
        invariant
            i <= end,
            end <= s@.len(),
            last_dot(s@.subrange(0, end as int)) == last_dot(s@.subrange(0, i as int)),
        decreases i,
    {
        let c = s.get_char(i - 1);
        if c == '.' {
            proof {
                let sub = s@.subrange(0, i as int);
                assert(sub[sub.len() - 1] == '.');
            }
            return Some(i - 1);
        }
        proof {
            let sub = s@.subrange(0, i as int);
            assert(sub[sub.len() - 1] != '.');
            assert(sub.drop_last() =~= s@.subrange(0, i - 1));
        }
        i -= 1;
    }
    proof {
        assert(s@.subrange(0, 0) =~= Seq::<char>::empty());
    }
    None
}

/// Resolves a recognized format token against the already-parsed file options.
fn resolve_format(tok: &str, s: &str, compression: Compression) -> (r: Result<
    DataSetConn,
    String,
>)
    ensures
        format_result_ok(r, tok@, s@, compression),
{
    let opts = FileOpts { filename: s.to_owned(), ext: tok.to_owned(), compression };
    if str_eq(tok, "csv") {
        Ok(DataSetConn::Csv(opts))
    } else if str_eq(tok, "json") || str_eq(tok, "jsonl") || str_eq(tok, "ndjson") {
        Ok(DataSetConn::NdJson(opts))
    } else {
        Err(String::from_str("Invalid file extension: ").concat(tok))
    }
}

/// Parses a connection string into a data-source descriptor, rejecting any
/// unrecognized compression or format token before an engine is involved.
pub fn verify_conn_str(s: &str) -> (r: Result<DataSetConn, String>)
    ensures
        parse_result_ok(s@, r),
{
    if str_has_prefix(s, "postgres://") {
        return Ok(DataSetConn::Postgres(s.to_owned()));
    }
    let len = s.unicode_len();
    match find_last_dot_before(s, len) {
        None => {
            proof {
                assert(s@.subrange(0, s@.len() as int) =~= s@);
            }
            Err(String::from_str("Invalid connection string: ").concat(s))
        },
        Some(d1) => {
            proof {
                assert(s@.subrange(0, s@.len() as int) =~= s@);
            }
            let tail = s.substring_char(d1 + 1, len);
            match find_last_dot_before(s, d1) {
                None => {
                    if str_eq(tail, "parquet") {
                        Ok(DataSetConn::Parquet(s.to_owned()))
                    } else {
                        resolve_format(tail, s, Compression::Uncompressed)
                    }
                },
                Some(d2) => {
                    let fmt = s.substring_char(d2 + 1, d1);
                    let compression = if str_eq(tail, "gz") {
                        Some(Compression::Gzip)
                    } else if str_eq(tail, "bz2") {
                        Some(Compression::Bzip2)
                    } else if str_eq(tail, "xz") {
                        Some(Compression::Xz)
                    } else if str_eq(tail, "zstd") {
                        Some(Compression::Zstd)
                    } else {
                        None
                    };
                    match compression {
                        Some(c) => resolve_format(fmt, s, c),
                        None => Err(
                            String::from_str("Invalid compression type: ").concat(tail),
                        ),
                    }
                },
            }
        },
    }
}

} // verus!
