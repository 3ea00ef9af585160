use bulk_rows::options::{parse_compression, Compression, WriterOptions};

#[test]
fn recognized_compression_names_select_their_codec() {
    assert_eq!(parse_compression("lz4"), Compression::Lz4);
    assert_eq!(parse_compression("zstd"), Compression::Zstd);
    assert_eq!(parse_compression("none"), Compression::Uncompressed);
}

#[test]
fn unrecognized_compression_names_degrade_to_the_default() {
    assert_eq!(parse_compression("snappy"), Compression::Uncompressed);
    assert_eq!(parse_compression(""), Compression::Uncompressed);
    assert_eq!(parse_compression("LZ4"), Compression::Uncompressed);
}

#[test]
fn writer_options_carry_their_fields() {
    let options = WriterOptions::new(Compression::Zstd, 8, 30_000);
    assert_eq!(options.compression, Compression::Zstd);
    assert_eq!(options.parallelism, 8);
    assert_eq!(options.timeout_ms, 30_000);
}
