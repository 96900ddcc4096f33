use bgg_collection::fetch::PollEvent;
use bgg_collection::provider::{interpret_response, parse_item, parse_number, unescape};

const COLLECTION: &str = r#"<?xml version="1.0" encoding="utf-8" standalone="yes"?>
<items totalitems="3" termsofuse="https://boardgamegeek.com/xmlapi/termsofuse" pubdate="Sat, 01 Jun 2024">
	<item objecttype="thing" objectid="13" subtype="boardgame" collid="1">
		<name sortindex="1">Catan</name>
		<yearpublished>1995</yearpublished>
		<stats minplayers="3" maxplayers="4" minplaytime="60" maxplaytime="120" playingtime="90" numowned="1">
			<rating value="N/A"></rating>
		</stats>
	</item>
	<item objecttype="thing" objectid="171" subtype="boardgame" collid="2">
		<name sortindex="1">Chess</name>
		<yearpublished>1475</yearpublished>
		<stats minplayers="2" maxplayers="2" playingtime="30"></stats>
	</item>
	<item objecttype="thing" objectid="9" subtype="boardgame" collid="3">
		<name sortindex="5">Ticket &amp; &quot;Ride&quot;</name>
		<stats minplayers="" maxplayers="N/A"></stats>
	</item>
</items>"#;

fn chars(s: &str) -> Vec<char> {
    s.chars().collect()
}

#[test]
fn collection_document_becomes_records() {
    match interpret_response(200, COLLECTION) {
        PollEvent::Records(v) => {
            assert_eq!(v.len(), 3);
            assert_eq!(v[0].name, "Catan");
            assert_eq!((v[0].min_players, v[0].max_players, v[0].playtime, v[0].year), (Some(3), Some(4), Some(90), Some(1995)));
            assert_eq!(v[1].name, "Chess");
            assert_eq!((v[1].min_players, v[1].max_players, v[1].playtime, v[1].year), (Some(2), Some(2), Some(30), Some(1475)));
            assert_eq!(v[2].name, "Ticket & \"Ride\"");
            assert_eq!((v[2].min_players, v[2].max_players, v[2].playtime, v[2].year), (None, None, None, None));
        }
        other => panic!("unexpected event {:?}", other),
    }
}

#[test]
fn empty_collection_has_no_records() {
    match interpret_response(200, "<items totalitems=\"0\"></items>") {
        PollEvent::Records(v) => assert!(v.is_empty()),
        other => panic!("unexpected event {:?}", other),
    }
}

#[test]
fn queued_answer_is_not_ready() {
    let body = "<message>Your request for this collection has been accepted and will be processed.</message>";
    assert!(matches!(interpret_response(202, body), PollEvent::NotReady));
}

#[test]
fn error_document_is_a_refusal() {
    let body = "<errors><error><message>Invalid username specified</message></error></errors>";
    match interpret_response(200, body) {
        PollEvent::Rejected(m) => assert_eq!(m, "Invalid username specified"),
        other => panic!("unexpected event {:?}", other),
    }
}

#[test]
fn other_status_is_a_refusal_naming_it() {
    match interpret_response(500, "") {
        PollEvent::Rejected(m) => assert_eq!(m, "HTTP status 500"),
        other => panic!("unexpected event {:?}", other),
    }
}

#[test]
fn malformed_bodies() {
    assert!(matches!(interpret_response(200, "not xml at all"), PollEvent::Malformed));
    assert!(matches!(interpret_response(200, "<items><item id=\"1\"><name>X</name>"), PollEvent::Malformed));
    assert!(matches!(interpret_response(200, "<items><item id=\"1\"></item></items>"), PollEvent::Malformed));
}

#[test]
fn numbers() {
    assert_eq!(parse_number(&chars("42")), Some(42));
    assert_eq!(parse_number(&chars("-2200")), Some(-2200));
    assert_eq!(parse_number(&chars("999999999999999999")), Some(999_999_999_999_999_999));
    assert_eq!(parse_number(&chars("1000000000000000000")), None);
    assert_eq!(parse_number(&chars("")), None);
    assert_eq!(parse_number(&chars("-")), None);
    assert_eq!(parse_number(&chars("4a")), None);
    assert_eq!(parse_number(&chars("N/A")), None);
}

#[test]
fn entities_are_decoded() {
    assert_eq!(unescape(&chars("a&lt;b&gt;c&apos;d&amp;amp;")), "a<b>c'd&amp;");
    assert_eq!(unescape(&chars("&unknown; &")), "&unknown; &");
}

#[test]
fn item_without_stats_keeps_name() {
    let g = parse_item(&chars("<item x=\"1\"><name sortindex=\"1\">Go</name><yearpublished>-2200</yearpublished>")).unwrap();
    assert_eq!(g.name, "Go");
    assert_eq!(g.year, Some(-2200));
    assert_eq!(g.min_players, None);
}
