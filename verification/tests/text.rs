use display_list::text::encode;
use display_list::{Error, Rejection};

#[test]
fn plain_text_gets_a_closing_zero() {
    assert_eq!(encode("abc"), Ok(vec![b'a', b'b', b'c', 0]));
}

#[test]
fn empty_text_is_the_closing_zero_alone() {
    assert_eq!(encode(""), Ok(vec![0]));
}

#[test]
fn multi_byte_characters_are_kept_byte_for_byte() {
    let text = "\u{e9}\u{4e2d}\u{1f600}";
    let mut expected = text.as_bytes().to_vec();
    assert_eq!(expected.len(), 9);
    expected.push(0);
    assert_eq!(encode(text), Ok(expected));
}

#[test]
fn leading_nul_is_refused_at_offset_zero() {
    assert_eq!(
        encode("\0abc"),
        Err(Error::InvalidArgument(Rejection::InteriorNul { position: 0 }))
    );
}

#[test]
fn trailing_nul_is_refused_too() {
    assert_eq!(
        encode("abc\0"),
        Err(Error::InvalidArgument(Rejection::InteriorNul { position: 3 }))
    );
}

#[test]
fn nul_offset_counts_bytes_not_characters() {
    assert_eq!(
        encode("\u{1f600}\0"),
        Err(Error::InvalidArgument(Rejection::InteriorNul { position: 4 }))
    );
}
