use nino::params::{is_true_text, param_for, query_types_to_params, Nullness, ParamError};
use nino::query::QueryParam;
use tokio_postgres::types::private::BytesMut;
use tokio_postgres::types::{Kind, Type};

fn texts(v: &[&str]) -> Vec<String> {
    v.iter().map(|s| s.to_string()).collect()
}

#[test]
fn empty_query_is_an_error() {
    let r = query_types_to_params(vec![], vec![], &vec![]);
    match r {
        Err(e) => {
            assert!(matches!(e, ParamError::EmptyQuery));
            assert_eq!(e.message(), "query must contain atleast the query");
        }
        Ok(_) => panic!("expected an error"),
    }
}

#[test]
fn sizes_must_match() {
    let r = query_types_to_params(texts(&["SELECT 1", "2"]), vec![0], &vec![]);
    match r {
        Err(e) => {
            assert!(matches!(e, ParamError::SizeMismatch));
            assert_eq!(e.message(), "query values and query types must be same size");
        }
        Ok(_) => panic!("expected an error"),
    }
}

#[test]
fn each_type_code_gives_its_parameter() {
    let query = texts(&["SELECT $1", "ignored", "TRUE", "1", "no", "42", "-7", "text", "0"]);
    let codes = vec![9, 0, 1, 1, 1, 2, 2, 3, 4];
    let (sql, params) = query_types_to_params(query, codes, &vec![]).unwrap();
    assert_eq!(sql, "SELECT $1");
    assert_eq!(params.len(), 8);
    assert!(matches!(params[0], QueryParam::Null));
    assert!(matches!(params[1], QueryParam::Bool(true)));
    assert!(matches!(params[2], QueryParam::Bool(true)));
    assert!(matches!(params[3], QueryParam::Bool(false)));
    assert!(matches!(params[4], QueryParam::Number(42)));
    assert!(matches!(params[5], QueryParam::Number(-7)));
    assert!(matches!(&params[6], QueryParam::String(s) if s == "text"));
    assert!(matches!(&params[7], QueryParam::Date(s) if s == "1970-01-01T00:00:00+00:00"));
}

#[test]
fn date_is_rendered_in_utc() {
    let p = param_for(&"947638923004".to_owned(), 4, None, 1).unwrap();
    assert!(matches!(&p, QueryParam::Date(s) if s == "2000-01-12T01:02:03.004+00:00"));
    assert!(matches!(&p, QueryParam::Date(s) if s != "947638923004"));
}

#[test]
fn date_out_of_the_calendar_is_null() {
    let p = param_for(&i64::MAX.to_string(), 4, None, 1).unwrap();
    assert!(matches!(p, QueryParam::Null));
}

#[test]
fn date_that_is_no_number_is_an_error() {
    let r = param_for(&"soon".to_owned(), 4, None, 3);
    match r {
        Err(e) => {
            assert!(matches!(&e, ParamError::NotMilliseconds { index: 3, .. }));
            assert_eq!(
                e.message(),
                "parameter 3 `soon` is not UTC miliseconds: invalid digit found in string"
            );
        }
        Ok(_) => panic!("expected an error"),
    }
    let r = param_for(&String::new(), 4, None, 1);
    assert_eq!(
        r.unwrap_err().message(),
        "parameter 1 `` is not UTC miliseconds: cannot parse integer from empty string"
    );
    let r = param_for(&"99999999999999999999".to_owned(), 4, None, 1);
    assert_eq!(
        r.unwrap_err().message(),
        "parameter 1 `99999999999999999999` is not UTC miliseconds: number too large to fit in target type"
    );
}

#[test]
fn number_that_is_no_whole_number_takes_the_float() {
    let bits = 2.5f64.to_bits();
    let query = texts(&["q", "2.5"]);
    let (_, params) = query_types_to_params(query, vec![0, 2], &vec![None, Some(bits)]).unwrap();
    assert!(matches!(params[0], QueryParam::Float(b) if b == bits));
}

#[test]
fn number_that_reads_as_none_is_an_error() {
    let r = query_types_to_params(texts(&["q", "1", "abc"]), vec![0, 2, 2], &vec![None, None, None]);
    match r {
        Err(e) => {
            assert!(matches!(&e, ParamError::NotNumber { index: 2, value } if value == "abc"));
            assert_eq!(e.message(), "parameter 2 `abc` is not number: invalid float literal");
        }
        Ok(_) => panic!("expected an error"),
    }
    let r = query_types_to_params(texts(&["q", ""]), vec![0, 2], &vec![]);
    assert_eq!(
        r.unwrap_err().message(),
        "parameter 1 `` is not number: cannot parse float from empty string"
    );
}

#[test]
fn first_error_wins() {
    let r = query_types_to_params(texts(&["q", "x", "y"]), vec![0, 4, 2], &vec![]);
    assert!(matches!(r, Err(ParamError::NotMilliseconds { index: 1, .. })));
}

#[test]
fn whole_numbers_are_read_as_the_language_reads_them() {
    assert!(matches!(param_for(&"+5".to_owned(), 2, None, 1), Ok(QueryParam::Number(5))));
    assert!(matches!(param_for(&"-0".to_owned(), 2, None, 1), Ok(QueryParam::Number(0))));
    assert!(matches!(param_for(&"007".to_owned(), 2, None, 1), Ok(QueryParam::Number(7))));
    assert!(matches!(
        param_for(&"9223372036854775807".to_owned(), 2, None, 1),
        Ok(QueryParam::Number(i64::MAX))
    ));
    assert!(matches!(
        param_for(&"-9223372036854775808".to_owned(), 2, None, 1),
        Ok(QueryParam::Number(i64::MIN))
    ));
    assert!(param_for(&"9223372036854775808".to_owned(), 2, None, 1).is_err());
    assert!(param_for(&" 5".to_owned(), 2, None, 1).is_err());
    assert!(param_for(&"5 ".to_owned(), 2, None, 1).is_err());
    assert!(param_for(&"1_000".to_owned(), 2, None, 1).is_err());
    assert!(param_for(&"+".to_owned(), 2, None, 1).is_err());
    assert!(param_for(&"-".to_owned(), 2, None, 1).is_err());
}

#[test]
fn true_texts() {
    for t in ["true", "TRUE", "True", "tRuE", "1"] {
        assert!(is_true_text(t), "{}", t);
    }
    for f in ["", "0", "yes", "true ", "11", "truth", "t", "tru\u{212a}"] {
        assert!(!is_true_text(f), "{}", f);
    }
}

fn bind(p: &QueryParam, ty: &Type) -> (Nullness, Vec<u8>) {
    let mut out = BytesMut::new();
    let n = p.to_sql(ty, &mut out).unwrap();
    (n, out.to_vec())
}

#[test]
fn null_is_null_for_every_type() {
    for ty in [Type::BOOL, Type::INT8, Type::TEXT, Type::BYTEA, Type::TIMESTAMPTZ, Type::FLOAT8] {
        let (n, bytes) = bind(&QueryParam::Null, &ty);
        assert_eq!(n, Nullness::Null);
        assert!(bytes.is_empty());
    }
}

#[test]
fn null_leaves_the_buffer_as_it_is() {
    let mut out = BytesMut::new();
    out.extend_from_slice(&[9, 9]);
    assert_eq!(QueryParam::Null.to_sql(&Type::TEXT, &mut out).unwrap(), Nullness::Null);
    assert_eq!(out.to_vec(), vec![9, 9]);
}

#[test]
fn values_bind_to_their_wire_form() {
    assert_eq!(bind(&QueryParam::Bool(true), &Type::BOOL), (Nullness::Value, vec![1]));
    assert_eq!(bind(&QueryParam::Bool(false), &Type::BOOL), (Nullness::Value, vec![0]));
    assert_eq!(
        bind(&QueryParam::Number(258), &Type::INT8),
        (Nullness::Value, vec![0, 0, 0, 0, 0, 0, 1, 2])
    );
    assert_eq!(
        bind(&QueryParam::Number(-2), &Type::INT8),
        (Nullness::Value, vec![255, 255, 255, 255, 255, 255, 255, 254])
    );
    assert_eq!(
        bind(&QueryParam::Float(1.5f64.to_bits()), &Type::FLOAT8),
        (Nullness::Value, 1.5f64.to_be_bytes().to_vec())
    );
    assert_eq!(
        bind(&QueryParam::Float((-0.0f64).to_bits()), &Type::FLOAT8),
        (Nullness::Value, vec![128, 0, 0, 0, 0, 0, 0, 0])
    );
    assert_eq!(
        bind(&QueryParam::String("h\u{e9}".to_owned()), &Type::BYTEA),
        (Nullness::Value, vec![b'h', 0xc3, 0xa9])
    );
    assert_eq!(
        bind(&QueryParam::Date("2000-01-12T01:02:03+00:00".to_owned()), &Type::TEXT),
        (Nullness::Value, b"2000-01-12T01:02:03+00:00".to_vec())
    );
}

#[test]
fn binding_appends_to_what_the_buffer_holds() {
    let mut out = BytesMut::new();
    out.extend_from_slice(&[7]);
    QueryParam::Bool(true).to_sql(&Type::BOOL, &mut out).unwrap();
    QueryParam::Number(1).to_sql(&Type::INT8, &mut out).unwrap();
    QueryParam::Date("d".to_owned()).to_sql(&Type::TEXT, &mut out).unwrap();
    assert_eq!(out.to_vec(), vec![7, 1, 0, 0, 0, 0, 0, 0, 0, 1, b'd']);
}

#[test]
fn every_type_is_accepted() {
    assert!(QueryParam::accepts(&Type::BOOL));
    assert!(QueryParam::accepts(&Type::JSONB));
}

#[test]
fn date_for_a_tree_type_has_its_version_byte() {
    for name in ["ltree", "lquery", "ltxtquery"] {
        let ty = Type::new(name.to_owned(), 16400, Kind::Simple, "public".to_owned());
        assert_eq!(
            bind(&QueryParam::Date("a.b".to_owned()), &ty),
            (Nullness::Value, vec![1, b'a', b'.', b'b'])
        );
        assert_eq!(
            bind(&QueryParam::String("a.b".to_owned()), &ty),
            (Nullness::Value, vec![b'a', b'.', b'b'])
        );
    }
    assert_eq!(
        bind(&QueryParam::Date("\u{e9}".to_owned()), &Type::TIMESTAMPTZ),
        (Nullness::Value, vec![0xc3, 0xa9])
    );
}
