use diesel_ltree::values::LTREE_VERSION;
use diesel_ltree::{DecodeError, Ltree};

fn path(text: &str) -> Ltree {
    Ltree(text.to_string())
}

fn payload(value: &Ltree) -> Vec<u8> {
    let mut out = Vec::new();
    value.to_sql(&mut out);
    out
}

fn tree_paths() -> Vec<Ltree> {
    vec![
        path("root"),
        path("root.bacteria"),
        path("root.eukaryota.plantae"),
        path("root.eukaryota.plantae.nematophyta"),
        path("root.eukaryota.plantae.chlorophyta"),
    ]
}

#[test]
fn insert_query_generation() {
    let binds = format!("{:?}", tree_paths());
    assert_eq!(
        binds,
        "[Ltree(\"root\"), Ltree(\"root.bacteria\"), Ltree(\"root.eukaryota.plantae\"), Ltree(\"root.eukaryota.plantae.nematophyta\"), Ltree(\"root.eukaryota.plantae.chlorophyta\")]"
    );
}

#[test]
fn insert_works() {
    let mut stored = 0;
    for value in tree_paths() {
        let bytes = payload(&value);
        assert_eq!(bytes[0], 1);
        assert_eq!(&bytes[1..], value.0.as_bytes());
        assert_eq!(Ltree::from_sql(&bytes), Ok(value));
        stored += 1;
    }
    assert_eq!(stored, 5);
}

#[test]
fn version_is_one() {
    assert_eq!(LTREE_VERSION, 1);
}

#[test]
fn to_sql_writes_version_then_text() {
    assert_eq!(payload(&path("a.b")), vec![1u8, b'a', b'.', b'b']);
}

#[test]
fn to_sql_of_empty_text_is_the_version_byte() {
    assert_eq!(payload(&path("")), vec![1u8]);
}

#[test]
fn to_sql_appends_to_what_is_there() {
    let mut out = vec![9u8, 8];
    path("x").to_sql(&mut out);
    assert_eq!(out, vec![9u8, 8, 1, b'x']);
}

#[test]
fn to_sql_has_no_terminator() {
    let bytes = payload(&path("Top.Child1"));
    assert_eq!(bytes.len(), 1 + "Top.Child1".len());
    assert_eq!(*bytes.last().unwrap(), b'1');
}

#[test]
fn from_sql_reads_the_text_after_the_version() {
    assert_eq!(Ltree::from_sql(&[1, b'a', b'.', b'b']), Ok(path("a.b")));
    assert_eq!(Ltree::from_sql(&[1]), Ok(path("")));
}

#[test]
fn round_trip_root_bacteria() {
    let value = path("root.bacteria");
    assert_eq!(Ltree::from_sql(&payload(&value)), Ok(path("root.bacteria")));
}

#[test]
fn round_trip_keeps_text_beyond_ascii() {
    let value = path("wurzel.b\u{e4}ume.\u{6728}_\u{1f333}");
    let bytes = payload(&value);
    assert_eq!(bytes.len(), 1 + value.0.len());
    assert_eq!(Ltree::from_sql(&bytes), Ok(value));
}

#[test]
fn from_sql_rejects_an_empty_payload() {
    assert_eq!(Ltree::from_sql(&[]), Err(DecodeError::UnexpectedEof));
}

#[test]
fn from_sql_rejects_another_version() {
    assert_eq!(Ltree::from_sql(&[2, b'a']), Err(DecodeError::UnsupportedVersion));
    assert_eq!(Ltree::from_sql(&[0, b'a']), Err(DecodeError::UnsupportedVersion));
    assert_eq!(Ltree::from_sql(&[b'a', b'.', b'b']), Err(DecodeError::UnsupportedVersion));
}

#[test]
fn from_sql_rejects_a_version_byte_above_127() {
    assert_eq!(Ltree::from_sql(&[255, b'a']), Err(DecodeError::UnsupportedVersion));
    assert_eq!(Ltree::from_sql(&[129, b'a']), Err(DecodeError::UnsupportedVersion));
}

#[test]
fn from_sql_checks_the_version_before_the_text() {
    assert_eq!(Ltree::from_sql(&[3, 0xff]), Err(DecodeError::UnsupportedVersion));
}

#[test]
fn from_sql_rejects_invalid_utf8() {
    assert_eq!(Ltree::from_sql(&[1, 0xff]), Err(DecodeError::InvalidEncoding));
    assert_eq!(Ltree::from_sql(&[1, b'a', 0xc3]), Err(DecodeError::InvalidEncoding));
    assert_eq!(Ltree::from_sql(&[1, 0xed, 0xa0, 0x80]), Err(DecodeError::InvalidEncoding));
}

#[test]
fn text_codec_is_the_identity() {
    let value = path("root.eukaryota");
    assert_eq!(value.to_sql_text(), "root.eukaryota");
    assert_eq!(Ltree::from_sql_text("root.eukaryota".to_string()), value);
    assert_eq!(Ltree::from_sql_text(value.to_sql_text()), value);
}

#[test]
fn text_codec_has_no_version_byte() {
    let value = Ltree::from_sql_text("\u{1}a".to_string());
    assert_eq!(value.0, "\u{1}a");
    assert_eq!(path("1.2").to_sql_text().as_bytes(), b"1.2");
}

#[test]
fn text_codec_takes_any_text() {
    assert_eq!(Ltree::from_sql_text(String::new()), path(""));
    assert_eq!(Ltree::from_sql_text("not a path!".to_string()).0, "not a path!");
}
