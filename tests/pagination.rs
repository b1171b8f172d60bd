use qa_auth::digits::{parse_u32, push_decimal, ParseIntFailure};
use qa_auth::error::Error;
use qa_auth::pagination::{extract_pagination, pagination_from_query, Pagination};

fn q(pairs: &[(&str, &str)]) -> Vec<(String, String)> {
    pairs.iter().map(|(k, v)| (k.to_string(), v.to_string())).collect()
}

#[test]
fn both_parameters_give_paging() {
    let p = extract_pagination(&q(&[("limit", "10"), ("offset", "0")])).unwrap();
    assert_eq!(p, Pagination { limit: Some(10), offset: 0 });
    let p = extract_pagination(&q(&[("offset", "5"), ("x", "y"), ("limit", "3")])).unwrap();
    assert_eq!(p, Pagination { limit: Some(3), offset: 5 });
}

#[test]
fn a_missing_parameter_is_reported() {
    assert_eq!(extract_pagination(&q(&[("limit", "10")])), Err(Error::MissingParameters));
    assert_eq!(extract_pagination(&q(&[("offset", "10")])), Err(Error::MissingParameters));
    assert_eq!(extract_pagination(&q(&[("start", "0"), ("end", "1")])), Err(Error::MissingParameters));
}

#[test]
fn a_bad_number_is_a_parse_error() {
    assert_eq!(
        extract_pagination(&q(&[("limit", "ten"), ("offset", "0")])),
        Err(Error::ParseError(ParseIntFailure::InvalidDigit))
    );
    assert_eq!(
        extract_pagination(&q(&[("limit", "1"), ("offset", "")])),
        Err(Error::ParseError(ParseIntFailure::Empty))
    );
    assert_eq!(
        extract_pagination(&q(&[("limit", "4294967296"), ("offset", "x")])),
        Err(Error::ParseError(ParseIntFailure::PosOverflow))
    );
}

#[test]
fn empty_query_means_everything() {
    assert_eq!(pagination_from_query(&Vec::new()), Ok(Pagination { limit: None, offset: 0 }));
    assert_eq!(Pagination::default(), Pagination { limit: None, offset: 0 });
    assert_eq!(pagination_from_query(&q(&[("limit", "1")])), Err(Error::MissingParameters));
}

#[test]
fn u32_reading_matches_std() {
    for s in ["0", "7", "+7", "007", "4294967295", "4294967296", "99999999999x", "", "+", "-", "-0", "1 ", " 1", "12a", "٣"] {
        let ours = parse_u32(s);
        let std = s.parse::<u32>();
        match (ours, std) {
            (Ok(a), Ok(b)) => assert_eq!(a, b, "{}", s),
            (Err(f), Err(e)) => assert_eq!(f.message(), e.to_string(), "{}", s),
            (a, b) => panic!("{}: {:?} vs {:?}", s, a, b),
        }
    }
}

#[test]
fn decimal_rendering() {
    let mut out = String::from("n=");
    push_decimal(&mut out, 0);
    assert_eq!(out, "n=0");
    let mut out = String::new();
    push_decimal(&mut out, 18446744073709551615);
    assert_eq!(out, "18446744073709551615");
}
