use turtle::claims::AdditionalData;
use turtle::claims::Claims;
use turtle::rotation::Fetched;
use turtle::store::document;
use turtle::store::fetched;
use turtle::store::recorded;

fn sample(jti: Option<&str>) -> Claims {
    Claims {
        sub: "nodes:users:7".to_string(),
        exp: 1_700_000_000,
        ajd: AdditionalData { email: "a@b.c".to_string() },
        jti: jti.map(|s| s.to_string()),
    }
}

#[test]
fn document_is_the_compact_json_of_the_claims() {
    assert_eq!(
        document(&sample(Some("J"))),
        "{\"ajd\":{\"email\":\"a@b.c\"},\"exp\":1700000000,\"jti\":\"J\",\"sub\":\"nodes:users:7\"}"
    );
    assert_eq!(
        document(&sample(None)),
        "{\"ajd\":{\"email\":\"a@b.c\"},\"exp\":1700000000,\"jti\":null,\"sub\":\"nodes:users:7\"}"
    );
}

#[test]
fn document_read_again_gives_the_claims() {
    for jti in [None, Some("J"), Some("with \"quotes\" and \\ and \u{e9}")] {
        let mut claims = sample(jti);
        claims.sub = "s\n\t\u{1F600}".to_string();
        let back = recorded(&document(&claims)).unwrap();
        assert_eq!(back.sub, claims.sub);
        assert_eq!(back.exp, claims.exp);
        assert_eq!(back.ajd.email, claims.ajd.email);
        assert_eq!(back.jti, claims.jti);
    }
}

#[test]
fn claims_are_read_from_any_json_of_their_structure() {
    let spaced = " { \"sub\" : \"u1\", \"jti\" : \"A\", \"exp\" : 5, \"ajd\" : { \"email\" : \"e\", \"more\" : 1 }, \"other\" : [1, 2] } ";
    let claims = recorded(spaced).unwrap();
    assert_eq!(claims.sub, "u1");
    assert_eq!(claims.exp, 5);
    assert_eq!(claims.ajd.email, "e");
    assert_eq!(claims.jti, Some("A".to_string()));
}

#[test]
fn nothing_is_read_from_what_is_no_document_of_claims() {
    for text in ["", "{", "null", "[]", "\"u1\"", "{}", "{\"sub\":\"u1\"}", "{\"sub\":\"\",\"exp\":5,\"ajd\":{\"email\":\"e\"}}", "not json"] {
        assert!(recorded(text).is_none());
        assert!(matches!(fetched(Some(text)), Fetched::Missing));
    }
}

#[test]
fn answer_of_the_store_becomes_a_record_or_none() {
    assert!(matches!(fetched(None), Fetched::Missing));
    let text = document(&sample(Some("J")));
    match fetched(Some(&text)) {
        Fetched::Found(record) => {
            assert_eq!(record.sub, "nodes:users:7");
            assert_eq!(record.jti, Some("J".to_string()));
        }
        _ => panic!("the document was not found"),
    }
}
