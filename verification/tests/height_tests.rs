use chain_requests::text::u64_to_dec_string;
use chain_requests::{ChainHeight, QueryHeight, RequestError};

#[test]
fn latest_height_value_is_zero() {
    assert_eq!(QueryHeight::Latest.height_value(), 0);
}

#[test]
fn specific_height_value_is_revision_height() {
    let h = ChainHeight::new(5, 100);
    assert_eq!(QueryHeight::Specific(h).height_value(), 100);
}

#[test]
fn tm_height_conversion_specific() {
    let q = QueryHeight::Specific(ChainHeight::new(1, 7));
    let tm = q.to_tm_height().unwrap();
    assert_eq!(tm.value(), 7);
}

#[test]
fn tm_height_conversion_latest_is_sentinel_zero() {
    let tm = QueryHeight::Latest.to_tm_height().unwrap();
    assert_eq!(tm.value(), 0);
}

#[test]
fn tm_height_conversion_overflow_is_invalid_height() {
    let q = QueryHeight::Specific(ChainHeight::new(0, u64::MAX));
    assert_eq!(q.to_tm_height().unwrap_err(), RequestError::InvalidHeight);
}

#[test]
fn metadata_value_latest_is_zero_string() {
    let v = QueryHeight::Latest.to_ascii_metadata_value().unwrap();
    assert_eq!(v.value.to_str().unwrap(), "0");
}

#[test]
fn metadata_value_specific_is_decimal() {
    let q = QueryHeight::Specific(ChainHeight::new(3, 42));
    let v = q.to_ascii_metadata_value().unwrap();
    assert_eq!(v.value.to_str().unwrap(), "42");
}

#[test]
fn metadata_string_of_largest_height() {
    let q = QueryHeight::Specific(ChainHeight::new(0, u64::MAX));
    assert_eq!(q.to_metadata_string(), "18446744073709551615");
}

#[test]
fn conversions_agree_on_the_same_height() {
    let q = QueryHeight::Specific(ChainHeight::new(2, 77));
    let bh = q.to_tm_height().unwrap();
    let m = q.to_ascii_metadata_value().unwrap();
    let parsed: u64 = m.value.to_str().unwrap().parse().unwrap();
    assert_eq!(parsed, bh.value());
    assert_eq!(parsed, 77);
}

#[test]
fn display_latest_phrase() {
    assert_eq!(QueryHeight::Latest.to_display_string(), "latest height");
}

#[test]
fn display_specific_height() {
    let q = QueryHeight::Specific(ChainHeight::new(2, 35));
    assert_eq!(q.to_display_string(), "2-35");
}

#[test]
fn chain_height_display_form() {
    assert_eq!(ChainHeight::new(3, 1500).to_display_string(), "3-1500");
}

#[test]
fn chain_height_getters() {
    let h = ChainHeight::new(4, 19);
    assert_eq!(h.revision_number(), 4);
    assert_eq!(h.revision_height(), 19);
}

#[test]
fn decimal_rendering_exact_values() {
    assert_eq!(u64_to_dec_string(0), "0");
    assert_eq!(u64_to_dec_string(7), "7");
    assert_eq!(u64_to_dec_string(10), "10");
    assert_eq!(u64_to_dec_string(907), "907");
    assert_eq!(u64_to_dec_string(u64::MAX), "18446744073709551615");
}
